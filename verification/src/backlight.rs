//! The brightness probe: which backlight device is watched, and the
//! percentage that its values give.

use crate::decimal::{parse_u32, u32_value};
use crate::text::{to_chars, trim, trimmed};
use vstd::prelude::*;

verus! {

/// What a scan of the backlight directory found of one entry.
#[derive(Clone, Copy, Debug, PartialEq, Eq, Structural)]
pub struct BacklightEntry {
    /// Whether the entry has a file with the current brightness.
    pub has_brightness: bool,
    /// Whether the entry has a file with the largest brightness.
    pub has_max_brightness: bool,
}

impl BacklightEntry {
    /// Whether the entry has both files.
    pub open spec fn usable(self) -> bool {
        self.has_brightness && self.has_max_brightness
    }
}

/// The device to watch: the first entry of the scan that has both files.
pub fn select_backlight(entries: &Vec<BacklightEntry>) -> (choice: Option<usize>)
    ensures
        match choice {
            Some(i) => i < entries@.len() && entries@[i as int].usable() && forall|j: int|
                0 <= j < i ==> !(#[trigger] entries@[j]).usable(),
            None => forall|j: int| 0 <= j < entries@.len() ==> !(#[trigger] entries@[j]).usable(),
        },
{
    let mut i: usize = 0;
    while i < entries.len()
        invariant
            i <= entries.len(),
            forall|j: int| 0 <= j < i ==> !(#[trigger] entries@[j]).usable(),
        decreases entries.len() - i,
    {
        if entries[i].has_brightness && entries[i].has_max_brightness {
            return Some(i);
        }
        i += 1;
    }
    None
}

/// The value that a brightness file holds: the number that its text,
/// trimmed, writes, and 0 where it writes none.
pub open spec fn raw_value(text: Seq<char>) -> u32 {
    match u32_value(trim(text)) {
        Some(v) => v,
        None => 0,
    }
}

/// Computes [`raw_value`].
pub fn parse_brightness(text: &str) -> (value: u32)
    ensures
        value == raw_value(text@),
{
    let chars = to_chars(text);
    let t = trimmed(chars.as_slice());
    match parse_u32(t.as_slice()) {
        Some(v) => v,
        None => 0,
    }
}

/// The brightness in percent: `current` of `max`, rounded to the nearest
/// whole number, halves upward. A `current` over `max` counts as `max`.
/// There is no percentage where `max` is zero.
pub open spec fn percent_of(current: u32, max: u32) -> Option<u8> {
    if max == 0 {
        None
    } else if current >= max {
        Some(100u8)
    } else {
        Some(((200 * current + max) / (2 * max)) as u8)
    }
}

/// Computes [`percent_of`].
pub fn brightness_percent(current: u32, max: u32) -> (percent: Option<u8>)
    ensures
        percent == percent_of(current, max),
        percent matches Some(p) ==> p <= 100,
{
    if max == 0 {
        None
    } else if current >= max {
        Some(100)
    } else {
        let numerator: u64 = 200 * (current as u64) + max as u64;
        let denominator: u64 = 2 * (max as u64);
        let p: u64 = numerator / denominator;
        assert(p <= 100) by (nonlinear_arith)
            requires
                p == (200 * current + max) / (2 * max),
                0 <= current < max,
        {
            assert(200 * current + max < 101 * (2 * max));
        }
        Some(p as u8)
    }
}

} // verus!

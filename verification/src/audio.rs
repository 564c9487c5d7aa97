//! The audio probes: the volume and the mute flag of the default sink, the
//! mute flag of the default source, and the lines of the audio server's
//! change stream that call for a new probe.

use crate::decimal::{parse_u8, u8_value};
use crate::detector::Fingerprint;
use crate::text::{
    contains, fields, has_substring, rows, split_fields, strip_trailing, stripped_trailing,
    to_chars, trim, trimmed,
};
use vstd::prelude::*;

verus! {

/// The loudest level that is reported.
pub const FULL_LEVEL: u8 = 100;

/// The volume in percent that the audio server's answer `output` gives: the
/// number in its second field, fields being separated by `/`, once that
/// field is trimmed and its percent signs are taken off the end. Levels over
/// 100 count as 100. An answer without such a number gives 0.
pub open spec fn volume_of(output: Seq<char>) -> u8 {
    let parts = fields(output, '/');
    if parts.len() >= 2 {
        match u8_value(strip_trailing(trim(parts[1]), '%')) {
            Some(v) => if v > FULL_LEVEL {
                FULL_LEVEL
            } else {
                v
            },
            None => 0,
        }
    } else {
        0
    }
}

/// The mute flag that the audio server's answer `output` gives: set where
/// the answer holds `yes`.
pub open spec fn mute_of(output: Seq<char>) -> bool {
    contains(output, "yes"@)
}

/// Computes [`volume_of`].
pub fn parse_volume(output: &str) -> (level: u8)
    ensures
        level == volume_of(output@),
        level <= FULL_LEVEL,
{
    let chars = to_chars(output);
    let parts = split_fields(chars.as_slice(), '/');
    if parts.len() < 2 {
        return 0;
    }
    assert(rows(parts@)[1] == parts@[1]@);
    let field = trimmed(parts[1].as_slice());
    let number = stripped_trailing(field.as_slice(), '%');
    match parse_u8(number.as_slice()) {
        Some(v) => if v > FULL_LEVEL {
            FULL_LEVEL
        } else {
            v
        },
        None => 0,
    }
}

/// Computes [`mute_of`].
pub fn parse_mute(output: &str) -> (muted: bool)
    ensures
        muted == mute_of(output@),
{
    let chars = to_chars(output);
    let yes = to_chars("yes");
    has_substring(chars.as_slice(), yes.as_slice())
}

/// One reading of the default sink.
#[derive(Clone, Copy, Debug, PartialEq, Eq, Structural)]
pub struct VolumeReading {
    /// The volume in percent, from 0 to 100.
    pub level: u8,
    pub muted: bool,
}

impl View for VolumeReading {
    type V = VolumeReading;

    open spec fn view(&self) -> VolumeReading {
        *self
    }
}

impl Fingerprint for VolumeReading {
    fn same(&self, other: &Self) -> (r: bool) {
        *self == *other
    }
}

/// The reading that the two answers of the audio server give. An answer
/// that could not be had is `None`, and counts as volume 0 or as not muted.
pub open spec fn sink_reading(volume: Option<Seq<char>>, mute: Option<Seq<char>>) -> VolumeReading {
    VolumeReading {
        level: match volume {
            Some(v) => volume_of(v),
            None => 0,
        },
        muted: match mute {
            Some(m) => mute_of(m),
            None => false,
        },
    }
}

/// The probe of the default sink: computes [`sink_reading`].
pub fn read_sink(volume: Option<&str>, mute: Option<&str>) -> (reading: VolumeReading)
    ensures
        reading == sink_reading(
            match volume {
                Some(v) => Some(v@),
                None => None,
            },
            match mute {
                Some(m) => Some(m@),
                None => None,
            },
        ),
        reading.level <= FULL_LEVEL,
{
    let level = match volume {
        Some(v) => parse_volume(v),
        None => 0,
    };
    let muted = match mute {
        Some(m) => parse_mute(m),
        None => false,
    };
    VolumeReading { level, muted }
}

/// The probe of the default source: its mute flag, not set where the answer
/// could not be had.
pub fn read_source(mute: Option<&str>) -> (muted: bool)
    ensures
        muted == (match mute {
            Some(m) => mute_of(m@),
            None => false,
        }),
{
    match mute {
        Some(m) => parse_mute(m),
        None => false,
    }
}

/// Whether a line of the change stream tells of a change on a sink.
pub open spec fn sink_changed(line: Seq<char>) -> bool {
    contains(line, "Event 'change' on sink"@)
}

/// Whether a line of the change stream tells of a change on a source.
pub open spec fn source_changed(line: Seq<char>) -> bool {
    contains(line, "Event 'change' on source"@)
}

/// Decides [`sink_changed`].
pub fn is_sink_change(line: &str) -> (r: bool)
    ensures
        r == sink_changed(line@),
{
    let chars = to_chars(line);
    let filter = to_chars("Event 'change' on sink");
    has_substring(chars.as_slice(), filter.as_slice())
}

/// Decides [`source_changed`].
pub fn is_source_change(line: &str) -> (r: bool)
    ensures
        r == source_changed(line@),
{
    let chars = to_chars(line);
    let filter = to_chars("Event 'change' on source");
    has_substring(chars.as_slice(), filter.as_slice())
}

} // verus!

//! The battery probe: which of the candidate devices is read, and what its
//! capacity and status files say.

use crate::decimal::{decimal_text, parse_u8, push_decimal, u8_value};
use crate::detector::Fingerprint;
use crate::failure::Failure;
use crate::text::{same_chars, to_chars, to_string, trim, trimmed};
use vstd::prelude::*;
use vstd::string::StringExecFns;

verus! {

/// What a battery is doing.
#[derive(Clone, Copy, Debug, PartialEq, Eq, Structural)]
pub enum BatteryStatus {
    Charging,
    Discharging,
    Full,
    Unknown,
}

/// The status that the text `text` names: `Charging`, `Discharging` or
/// `Full` for these very words, `Unknown` for anything else.
pub open spec fn status_of(text: Seq<char>) -> BatteryStatus {
    if text == "Charging"@ {
        BatteryStatus::Charging
    } else if text == "Discharging"@ {
        BatteryStatus::Discharging
    } else if text == "Full"@ {
        BatteryStatus::Full
    } else {
        BatteryStatus::Unknown
    }
}

impl BatteryStatus {
    /// The word for this status.
    pub open spec fn label_spec(self) -> Seq<char> {
        match self {
            BatteryStatus::Charging => "Charging"@,
            BatteryStatus::Discharging => "Discharging"@,
            BatteryStatus::Full => "Full"@,
            BatteryStatus::Unknown => "Unknown"@,
        }
    }

    /// The word for this status.
    pub fn label(&self) -> (word: &'static str)
        ensures
            word@ == self.label_spec(),
    {
        match self {
            BatteryStatus::Charging => "Charging",
            BatteryStatus::Discharging => "Discharging",
            BatteryStatus::Full => "Full",
            BatteryStatus::Unknown => "Unknown",
        }
    }

    /// Computes [`status_of`].
    pub fn from_text(text: &[char]) -> (status: Self)
        ensures
            status == status_of(text@),
    {
        let charging = to_chars("Charging");
        let discharging = to_chars("Discharging");
        let full = to_chars("Full");
        if same_chars(text, charging.as_slice()) {
            BatteryStatus::Charging
        } else if same_chars(text, discharging.as_slice()) {
            BatteryStatus::Discharging
        } else if same_chars(text, full.as_slice()) {
            BatteryStatus::Full
        } else {
            BatteryStatus::Unknown
        }
    }
}

/// The word of a status names that status.
pub proof fn lemma_status_words_read_back(status: BatteryStatus)
    ensures
        status_of(status.label_spec()) == status,
{
    reveal_strlit("Charging");
    reveal_strlit("Discharging");
    reveal_strlit("Full");
    reveal_strlit("Unknown");
    assert("Charging"@.len() == 8);
    assert("Discharging"@.len() == 11);
    assert("Full"@.len() == 4);
    assert("Unknown"@.len() == 7);
}

/// One reading of the battery.
#[derive(Clone, Copy, Debug, PartialEq, Eq, Structural)]
pub struct BatteryReading {
    /// The charge in percent, from 0 to 100.
    pub percent: u8,
    pub status: BatteryStatus,
}

impl View for BatteryReading {
    type V = BatteryReading;

    open spec fn view(&self) -> BatteryReading {
        *self
    }
}

impl Fingerprint for BatteryReading {
    fn same(&self, other: &Self) -> (r: bool) {
        *self == *other
    }
}

/// What the capacity file and the status file of one battery device hold.
#[derive(Clone, Debug, PartialEq, Eq)]
pub struct BatterySample {
    pub capacity: String,
    pub status: String,
}

impl View for BatterySample {
    type V = (Seq<char>, Seq<char>);

    open spec fn view(&self) -> (Seq<char>, Seq<char>) {
        (self.capacity@, self.status@)
    }
}

/// The views of `samples`, device by device.
pub open spec fn sample_views(samples: Seq<Option<BatterySample>>) -> Seq<
    Option<(Seq<char>, Seq<char>)>,
> {
    samples.map_values(
        |s: Option<BatterySample>|
            match s {
                Some(x) => Some(x@),
                None => None,
            },
    )
}

/// The reading that a device's files give. The capacity, trimmed, has to
/// write a number from 0 to 100; the status, trimmed, is read by
/// [`status_of`].
pub open spec fn reading_of(capacity: Seq<char>, status: Seq<char>) -> Option<BatteryReading> {
    match u8_value(trim(capacity)) {
        Some(percent) if percent <= 100 => Some(
            BatteryReading { percent, status: status_of(trim(status)) },
        ),
        _ => None,
    }
}

/// The reading of the first device, in the order given, that is present and
/// whose files give one.
pub open spec fn first_reading(samples: Seq<Option<(Seq<char>, Seq<char>)>>) -> Option<
    BatteryReading,
>
    decreases samples.len(),
{
    if samples.len() == 0 {
        None
    } else {
        match samples[0] {
            Some((capacity, status)) if reading_of(capacity, status) is Some => reading_of(
                capacity,
                status,
            ),
            _ => first_reading(samples.drop_first()),
        }
    }
}

/// The names of the devices that the battery probe tries, in the order in
/// which it tries them.
pub open spec fn candidate_names() -> Seq<Seq<char>> {
    seq!["BAT1"@, "BAT0"@, "BAT2"@]
}

/// The candidate devices of the battery probe, in their fixed order of
/// priority.
pub fn battery_candidates() -> (names: Vec<String>)
    ensures
        names@.map_values(|n: String| n@) == candidate_names(),
{
    let mut names: Vec<String> = Vec::new();
    names.push(String::from_str("BAT1"));
    names.push(String::from_str("BAT0"));
    names.push(String::from_str("BAT2"));
    assert(names@.map_values(|n: String| n@) =~= candidate_names());
    names
}

/// Computes [`reading_of`].
pub fn read_sample(sample: &BatterySample) -> (reading: Option<BatteryReading>)
    ensures
        reading == reading_of(sample.capacity@, sample.status@),
{
    let capacity = to_chars(sample.capacity.as_str());
    let capacity = trimmed(capacity.as_slice());
    match parse_u8(capacity.as_slice()) {
        Some(percent) => {
            if percent <= 100 {
                let status = to_chars(sample.status.as_str());
                let status = trimmed(status.as_slice());
                let status = BatteryStatus::from_text(status.as_slice());
                Some(BatteryReading { percent, status })
            } else {
                None
            }
        },
        None => None,
    }
}

/// The battery probe. `samples` holds, for each candidate device in the
/// order of [`battery_candidates`], what its files hold, or `None` where the
/// device is absent. The result is the reading of the first device that
/// gives one; the battery is unavailable where no device does.
pub fn get_battery_info(
    samples: &Vec<Option<BatterySample>>,
) -> (reading: Result<BatteryReading, Failure>)
    ensures
        reading == (match first_reading(sample_views(samples@)) {
            Some(r) => Ok::<BatteryReading, Failure>(r),
            None => Err(Failure::SourceUnavailable),
        }),
{
    let mut i: usize = 0;
    assert(sample_views(samples@).skip(0) == sample_views(samples@));
    while i < samples.len()
        invariant
            i <= samples.len(),
            first_reading(sample_views(samples@)) == first_reading(
                sample_views(samples@).skip(i as int),
            ),
        decreases samples.len() - i,
    {
        let ghost tail = sample_views(samples@).skip(i as int);
        proof {
            assert(tail.drop_first() == sample_views(samples@).skip(i + 1));
            assert(tail[0] == sample_views(samples@)[i as int]);
        }
        match &samples[i] {
            Some(sample) => {
                match read_sample(sample) {
                    Some(reading) => {
                        return Ok(reading);
                    },
                    None => {},
                }
            },
            None => {},
        }
        i += 1;
    }
    Err(Failure::SourceUnavailable)
}

/// Whether one of the status texts, trimmed, is the word `Charging`. Absent
/// devices are given as `None`.
pub open spec fn any_charging(statuses: Seq<Option<Seq<char>>>) -> bool {
    exists|i: int|
        0 <= i < statuses.len() && (#[trigger] statuses[i] matches Some(s) && trim(s)
            == "Charging"@)
}

/// Whether a battery is charging: computes [`any_charging`].
pub fn is_charging(statuses: &Vec<Option<String>>) -> (r: bool)
    ensures
        r == any_charging(
            statuses@.map_values(
                |s: Option<String>|
                    match s {
                        Some(x) => Some(x@),
                        None => None,
                    },
            ),
        ),
{
    let word = to_chars("Charging");
    let ghost views = statuses@.map_values(
        |s: Option<String>|
            match s {
                Some(x) => Some(x@),
                None => None,
            },
    );
    let mut i: usize = 0;
    while i < statuses.len()
        invariant
            i <= statuses.len(),
            word@ == "Charging"@,
            views == statuses@.map_values(
                |s: Option<String>|
                    match s {
                        Some(x) => Some(x@),
                        None => None,
                    },
            ),
            forall|j: int|
                0 <= j < i ==> !(#[trigger] views[j] matches Some(s) && trim(s) == "Charging"@),
        decreases statuses.len() - i,
    {
        match &statuses[i] {
            Some(status) => {
                let chars = to_chars(status.as_str());
                let t = trimmed(chars.as_slice());
                if same_chars(t.as_slice(), word.as_slice()) {
                    assert(views[i as int] matches Some(s) && trim(s) == "Charging"@);
                    return true;
                }
            },
            None => {},
        }
        i += 1;
    }
    false
}

/// The icons that stand for the states of the battery.
#[derive(Clone, Copy, Debug, PartialEq, Eq, Structural)]
pub enum BatteryIcon {
    Charging,
    Full,
    Good,
    Medium,
    Low,
    Caution,
}

impl BatteryIcon {
    /// The name of the icon.
    pub open spec fn name_spec(self) -> Seq<char> {
        match self {
            BatteryIcon::Charging => "sensors-voltage-symbolic"@,
            BatteryIcon::Full => "battery-full-symbolic"@,
            BatteryIcon::Good => "battery-good-symbolic"@,
            BatteryIcon::Medium => "battery-medium-symbolic"@,
            BatteryIcon::Low => "battery-low-symbolic"@,
            BatteryIcon::Caution => "battery-caution-symbolic"@,
        }
    }

    /// The name of the icon.
    pub fn name(&self) -> (name: &'static str)
        ensures
            name@ == self.name_spec(),
    {
        match self {
            BatteryIcon::Charging => "sensors-voltage-symbolic",
            BatteryIcon::Full => "battery-full-symbolic",
            BatteryIcon::Good => "battery-good-symbolic",
            BatteryIcon::Medium => "battery-medium-symbolic",
            BatteryIcon::Low => "battery-low-symbolic",
            BatteryIcon::Caution => "battery-caution-symbolic",
        }
    }
}

impl BatteryReading {
    /// The icon for this reading: the charging icon while the battery
    /// charges, else one by the charge, which has to be over 80, 60, 40 or
    /// 20 percent for the full, good, medium or low icon.
    pub open spec fn icon_spec(self) -> BatteryIcon {
        if self.status == BatteryStatus::Charging {
            BatteryIcon::Charging
        } else if self.percent > 80 {
            BatteryIcon::Full
        } else if self.percent > 60 {
            BatteryIcon::Good
        } else if self.percent > 40 {
            BatteryIcon::Medium
        } else if self.percent > 20 {
            BatteryIcon::Low
        } else {
            BatteryIcon::Caution
        }
    }

    /// Computes [`BatteryReading::icon_spec`].
    pub fn icon(&self) -> (icon: BatteryIcon)
        ensures
            icon == self.icon_spec(),
    {
        if self.status == BatteryStatus::Charging {
            BatteryIcon::Charging
        } else if self.percent > 80 {
            BatteryIcon::Full
        } else if self.percent > 60 {
            BatteryIcon::Good
        } else if self.percent > 40 {
            BatteryIcon::Medium
        } else if self.percent > 20 {
            BatteryIcon::Low
        } else {
            BatteryIcon::Caution
        }
    }

    /// The tooltip for this reading: `Battery: `, the charge, `% (`, the word
    /// for the status, and `)`.
    pub open spec fn tooltip_spec(self) -> Seq<char> {
        "Battery: "@ + decimal_text(self.percent as nat) + "% ("@ + self.status.label_spec()
            + ")"@
    }

    /// Computes [`BatteryReading::tooltip_spec`].
    pub fn tooltip(&self) -> (text: String)
        ensures
            text@ == self.tooltip_spec(),
    {
        let mut out = to_chars("Battery: ");
        push_decimal(self.percent as u64, &mut out);
        let mut mid = to_chars("% (");
        out.append(&mut mid);
        let mut word = to_chars(self.status.label());
        out.append(&mut word);
        let mut close = to_chars(")");
        out.append(&mut close);
        to_string(out.as_slice())
    }
}

} // verus!

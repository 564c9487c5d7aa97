//! The events that the source monitors send to the reducer.

use crate::launcher::LauncherEntry;
use crate::layout::GridItem;
use crate::network::NetworkStatus;
use crate::power::BatteryStatus;
use vstd::prelude::*;

verus! {

/// One change of the observed state of the system.
#[derive(Clone, Debug, PartialEq, Eq)]
pub enum Event {
    /// The default sink has a new volume, in percent, or mute flag.
    VolumeChanged { level: u8, muted: bool },
    /// The screen has a new brightness, in percent.
    BrightnessChanged { level: u8 },
    /// The default source has a new mute flag.
    MicMuteChanged { muted: bool },
    /// The connectivity has changed.
    NetworkChanged { classification: NetworkStatus },
    /// The battery has a new charge, in percent, or status.
    BatteryChanged { percent: u8, status: BatteryStatus },
    /// The notification log has a new last record.
    NotificationArrived { summary: String, body: String, urgency: String, appname: String },
    /// The launcher configuration has changed.
    LauncherConfigChanged { entries: Vec<LauncherEntry> },
    /// The layout configuration has changed.
    LayoutConfigChanged { fill: bool, items: Vec<GridItem> },
}

} // verus!

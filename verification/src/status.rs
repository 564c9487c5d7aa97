//! The status icons: one for the network and one for the battery, rebuilt
//! whenever one of the two changes.

use crate::network::NetworkStatus;
use crate::power::BatteryReading;
use crate::render::{attach_all, attach_each, refill, refill_with, Action, Content, Element};
use vstd::prelude::*;

verus! {

/// The interval at which network and battery are probed, in seconds.
pub const STATUS_PERIOD_SECS: u32 = 5;

/// The status icons for what is known of network and battery: the network's
/// first, then the battery's, each only where a reading is known.
pub open spec fn status_contents(
    network: Option<NetworkStatus>,
    battery: Option<BatteryReading>,
) -> Seq<Content> {
    let first = match network {
        Some(status) => seq![Content::Network(status)],
        None => Seq::empty(),
    };
    let second = match battery {
        Some(reading) => seq![Content::Battery(reading)],
        None => Seq::empty(),
    };
    first + second
}

/// Computes [`status_contents`].
pub fn append_status_icons(
    network: &Option<NetworkStatus>,
    battery: Option<BatteryReading>,
) -> (icons: Vec<Content>)
    ensures
        icons@ == status_contents(*network, battery),
{
    let mut icons: Vec<Content> = Vec::new();
    match network {
        Some(status) => {
            icons.push(Content::Network(status.duplicate()));
        },
        None => {},
    }
    match battery {
        Some(reading) => {
            icons.push(Content::Battery(reading));
        },
        None => {},
    }
    assert(icons@ =~= status_contents(*network, battery));
    icons
}

/// The first filling of the list of status icons: each icon is attached.
pub fn start_status_icon_updater(
    network: &Option<NetworkStatus>,
    battery: Option<BatteryReading>,
) -> (actions: Vec<Action>)
    ensures
        actions@ == attach_all(Element::StatusIcons, status_contents(*network, battery)),
{
    let icons = append_status_icons(network, battery);
    attach_each(Element::StatusIcons, &icons)
}

/// A later filling of the list of status icons: the list is emptied, then
/// each icon is attached.
pub fn refresh_status_icons(
    network: &Option<NetworkStatus>,
    battery: Option<BatteryReading>,
) -> (actions: Vec<Action>)
    ensures
        actions@ == refill(Element::StatusIcons, status_contents(*network, battery)),
{
    let icons = append_status_icons(network, battery);
    refill_with(Element::StatusIcons, &icons)
}

} // verus!

//! The network probe: how the output of the connectivity check is
//! classified.

use crate::detector::Fingerprint;
use crate::text::{contains, has_substring, to_chars};
use vstd::prelude::*;
use vstd::string::StringExecFns;

verus! {

/// The classes of connectivity.
#[derive(Clone, Copy, Debug, PartialEq, Eq, Structural)]
pub enum NetworkKind {
    /// A wired connection is up.
    Wired,
    /// The wireless network is enabled and connected.
    Wireless,
    /// The wireless network is enabled, with no connection.
    Offline,
    /// Networking is disabled.
    Disabled,
}

/// The class of the probe output `info`: the first of `Wired`,
/// `Network Enabled` and `No Connection` that occurs in it decides, in this
/// order; with none of them networking counts as disabled.
pub open spec fn kind_of(info: Seq<char>) -> NetworkKind {
    if contains(info, "Wired"@) {
        NetworkKind::Wired
    } else if contains(info, "Network Enabled"@) {
        NetworkKind::Wireless
    } else if contains(info, "No Connection"@) {
        NetworkKind::Offline
    } else {
        NetworkKind::Disabled
    }
}

impl NetworkKind {
    /// The name of the icon that stands for this class.
    pub open spec fn icon_spec(self) -> Seq<char> {
        match self {
            NetworkKind::Wired => "network-wired-symbolic"@,
            NetworkKind::Wireless => "network-wireless-signal-excellent-symbolic"@,
            NetworkKind::Offline => "network-wireless-offline-symbolic"@,
            NetworkKind::Disabled => "network-offline-symbolic"@,
        }
    }

    /// The name of the icon that stands for this class.
    pub fn icon_name(&self) -> (name: &'static str)
        ensures
            name@ == self.icon_spec(),
    {
        match self {
            NetworkKind::Wired => "network-wired-symbolic",
            NetworkKind::Wireless => "network-wireless-signal-excellent-symbolic",
            NetworkKind::Offline => "network-wireless-offline-symbolic",
            NetworkKind::Disabled => "network-offline-symbolic",
        }
    }
}

/// Computes [`kind_of`].
pub fn classify_network(info: &str) -> (kind: NetworkKind)
    ensures
        kind == kind_of(info@),
{
    let chars = to_chars(info);
    let wired = to_chars("Wired");
    let enabled = to_chars("Network Enabled");
    let offline = to_chars("No Connection");
    if has_substring(chars.as_slice(), wired.as_slice()) {
        NetworkKind::Wired
    } else if has_substring(chars.as_slice(), enabled.as_slice()) {
        NetworkKind::Wireless
    } else if has_substring(chars.as_slice(), offline.as_slice()) {
        NetworkKind::Offline
    } else {
        NetworkKind::Disabled
    }
}

/// One reading of the network: its class, and the probe's own words, which
/// name the wireless network where there is one.
#[derive(Clone, Debug, PartialEq, Eq)]
pub struct NetworkStatus {
    pub kind: NetworkKind,
    pub description: String,
}

impl View for NetworkStatus {
    type V = (NetworkKind, Seq<char>);

    open spec fn view(&self) -> (NetworkKind, Seq<char>) {
        (self.kind, self.description@)
    }
}

impl Fingerprint for NetworkStatus {
    fn same(&self, other: &Self) -> (r: bool) {
        self.kind == other.kind && self.description == other.description
    }
}

impl NetworkStatus {
    /// A copy of this reading.
    pub fn duplicate(&self) -> (s: Self)
        ensures
            s == *self,
    {
        NetworkStatus { kind: self.kind, description: self.description.clone() }
    }
}

/// The network probe, given what the connectivity check printed.
pub fn get_network_info(output: &str) -> (status: NetworkStatus)
    ensures
        status@ == (kind_of(output@), output@),
{
    NetworkStatus { kind: classify_network(output), description: String::from_str(output) }
}

} // verus!

//! Policy-routed VPN toggling driven by WiFi association state.
//!
//! When the host joins a network that is not on its list of known networks,
//! marked traffic is routed through the tunnel and the tunnel moves to a new
//! port; when it joins a known network, or leaves, the routing is undone.
//!
//! The library holds the decisions and the wire formats, and proves them:
//!
//! - `endian`, `attr`, `genl`, `rtnl`, `netlink`, `dump`: the netlink codec,
//!   from integers in host byte order up to datagrams and multi-part
//!   replies. What is encoded decodes to itself.
//! - `rule`: the reconciler of policy-routing rules, which looks at the
//!   kernel's rules before it creates or removes one. `kernel` holds a
//!   model of the rule table, against which creating is proved idempotent
//!   and removing proved to undo it.
//! - `wifi`: the monitor's state machine over station events.
//! - `wireguard`: the request that rotates the tunnel's listen port.
//! - `bus`: how the tasks react to control messages, and the order of a
//!   shutdown.
//! - `nl80211`, `wireguard::enums`: the vocabularies of the two families.
//! - `text`: names as bytes.
//!
//! Sockets, the async runtime and the system bus stay with the caller, who
//! hands datagrams in and sends what comes back.

use vstd::prelude::*;

pub mod attr;
pub mod bus;
pub mod dump;
pub mod endian;
pub mod error;
pub mod genl;
pub mod kernel;
pub mod netlink;
pub mod nl80211;
pub mod rtnl;
pub mod rule;
pub mod text;
pub mod wifi;
pub mod wireguard;

verus! {

/// A control message carried on the event bus.
#[derive(Clone, Copy, Debug, PartialEq, Eq, Structural)]
pub enum Msg {
    Enable,
    Disable,
    Quit,
}

/// The daemon's configuration, fixed for the lifetime of the process.
#[derive(Clone, Debug, PartialEq, Eq)]
pub struct Config {
    pub wireguard_interface: String,
    pub wlan_interface: String,
    pub known_networks: Vec<String>,
    pub firewall_mark: u32,
    pub routing_table: u32,
    pub ipv6: bool,
}

} // verus!

//! Interfaces as the packet-processing stages see them: state, type, MAC
//! address and what they are attached to.

use crate::eth::Mac;
use crate::vlan::Vid;
use vstd::prelude::*;

verus! {

/// The administrative or operational state of an interface.
#[derive(Clone, Copy, Debug, PartialEq, Eq, Structural)]
pub enum IfState {
    /// Not known.
    Unknown,
    /// Down.
    Down,
    /// Up.
    Up,
}

/// The data of an Ethernet interface.
#[derive(Clone, Copy, Debug, PartialEq, Eq)]
pub struct IfDataEthernet {
    /// The interface's MAC address.
    pub mac: Mac,
}

/// The data of an 802.1Q sub-interface.
#[derive(Clone, Copy, Debug, PartialEq, Eq)]
pub struct IfDataDot1q {
    /// The interface's MAC address.
    pub mac: Mac,
    /// The VLAN the sub-interface belongs to.
    pub vlanid: Vid,
}

/// The type of an interface.
#[derive(Clone, Copy, Debug, PartialEq, Eq)]
pub enum IfType {
    /// A loopback interface.
    Loopback,
    /// An Ethernet interface.
    Ethernet(IfDataEthernet),
    /// An 802.1Q sub-interface.
    Dot1q(IfDataDot1q),
    /// Any other type.
    Other,
}

/// What an interface is attached to.
#[derive(Clone, Copy, Debug, PartialEq, Eq, Structural)]
pub enum Attachment {
    /// A VRF, by its id.
    VRF(u32),
    /// A bridge domain.
    BD,
}

/// An interface.
#[derive(Clone, Debug, PartialEq, Eq)]
pub struct Interface {
    /// The interface's name.
    pub name: String,
    /// The interface's index.
    pub ifindex: u32,
    /// The administrative state.
    pub admin_state: IfState,
    /// The operational state.
    pub oper_state: IfState,
    /// The type, with its type-specific data.
    pub iftype: IfType,
    /// What the interface is attached to, if anything.
    pub attachment: Option<Attachment>,
}

/// The MAC address of an interface of type `iftype`: that of an Ethernet
/// interface or 802.1Q sub-interface; other types have none.
pub open spec fn spec_if_mac(iftype: IfType) -> Option<Mac> {
    match iftype {
        IfType::Ethernet(data) => Some(data.mac),
        IfType::Dot1q(data) => Some(data.mac),
        _ => None,
    }
}

/// Whether an interface of type `iftype` carries Ethernet frames.
pub open spec fn spec_is_ethernet_like(iftype: IfType) -> bool {
    iftype is Ethernet || iftype is Dot1q
}

impl Interface {
    /// The MAC address of the interface, if its type has one.
    pub fn get_mac(&self) -> (res: Option<Mac>)
        ensures
            res == spec_if_mac(self.iftype),
    {
        match self.iftype {
            IfType::Ethernet(data) => Some(data.mac),
            IfType::Dot1q(data) => Some(data.mac),
            _ => None,
        }
    }

    /// Whether the interface carries Ethernet frames.
    pub fn is_ethernet_like(&self) -> (res: bool)
        ensures
            res == spec_is_ethernet_like(self.iftype),
    {
        match self.iftype {
            IfType::Ethernet(_) | IfType::Dot1q(_) => true,
            _ => false,
        }
    }
}

/// The outcome of looking something up in a table that a stage reads.
#[derive(Clone, Copy, Debug, PartialEq, Eq)]
pub enum Lookup<T> {
    /// The table could not be read.
    Unavailable,
    /// The table holds no such entry.
    Missing,
    /// The entry found.
    Found(T),
}

} // verus!

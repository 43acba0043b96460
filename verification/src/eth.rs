//! Ethernet addresses, ethertypes and the Ethernet header, as far as this
//! library reads and writes them.

use vstd::prelude::*;

verus! {

/// A MAC address.
#[derive(Clone, Copy, Debug, PartialEq, Eq, Hash)]
pub struct Mac(pub [u8; 6]);

/// An ethertype.
#[derive(Clone, Copy, Debug, PartialEq, Eq, Structural, Hash)]
pub struct EthType(pub u16);

/// Whether every octet of `octets` is `0xff`.
pub open spec fn spec_is_broadcast(octets: Seq<u8>) -> bool {
    forall|i: int| 0 <= i < octets.len() ==> octets[i] == 0xff
}

/// The broadcast MAC address `ff:ff:ff:ff:ff:ff`.
pub open spec fn spec_broadcast_mac() -> Mac {
    Mac([0xff, 0xff, 0xff, 0xff, 0xff, 0xff])
}

impl Mac {
    /// The broadcast MAC address `ff:ff:ff:ff:ff:ff`.
    pub fn broadcast() -> (res: Mac)
        ensures
            res == spec_broadcast_mac(),
            res.0@.len() == 6,
            spec_is_broadcast(res.0@),
    {
        Mac([0xff, 0xff, 0xff, 0xff, 0xff, 0xff])
    }

    /// Whether this is the broadcast address.
    pub fn is_broadcast(&self) -> (res: bool)
        ensures
            res == spec_is_broadcast(self.0@),
    {
        let o = &self.0;
        let res = o[0] == 0xff && o[1] == 0xff && o[2] == 0xff && o[3] == 0xff && o[4] == 0xff && o[5]
            == 0xff;
        proof {
            if res {
                assert forall|i: int| 0 <= i < self.0@.len() implies self.0@[i] == 0xff by {
                    assert(0 <= i < 6);
                }
            }
        }
        res
    }

    /// Whether two addresses are the same.
    pub fn same(&self, other: &Mac) -> (res: bool)
        ensures
            res == (self == other),
    {
        let res = self.0[0] == other.0[0] && self.0[1] == other.0[1] && self.0[2] == other.0[2]
            && self.0[3] == other.0[3] && self.0[4] == other.0[4] && self.0[5] == other.0[5];
        proof {
            if res {
                assert(self.0 =~= other.0);
            }
        }
        res
    }
}

/// The ethertype of IPv4 (0x0800).
pub const ETH_TYPE_IPV4: u16 = 0x0800;

/// The ethertype of IPv6 (0x86DD).
pub const ETH_TYPE_IPV6: u16 = 0x86DD;

/// The ethertype of an 802.1Q VLAN tag (0x8100).
pub const ETH_TYPE_VLAN: u16 = 0x8100;

/// The ethertype of an 802.1ad (QinQ) VLAN tag (0x88A8).
pub const ETH_TYPE_VLAN_QINQ: u16 = 0x88A8;

/// An Ethernet II header.
#[derive(Clone, Copy, Debug, PartialEq, Eq, Hash)]
pub struct Eth {
    /// The source address.
    pub source: Mac,
    /// The destination address.
    pub destination: Mac,
    /// The ethertype of what follows.
    pub ether_type: EthType,
}

impl Eth {
    /// An Ethernet header from `source` to `destination` carrying `ether_type`.
    pub fn new(source: Mac, destination: Mac, ether_type: EthType) -> (res: Eth)
        ensures
            res == (Eth { source, destination, ether_type }),
    {
        Eth { source, destination, ether_type }
    }

    /// The source address.
    pub fn source(&self) -> (res: Mac)
        ensures
            res == self.source,
    {
        self.source
    }

    /// The destination address.
    pub fn destination(&self) -> (res: Mac)
        ensures
            res == self.destination,
    {
        self.destination
    }

    /// The ethertype of what follows.
    pub fn ether_type(&self) -> (res: EthType)
        ensures
            res == self.ether_type,
    {
        self.ether_type
    }

    /// Set the source address.
    pub fn set_source(&mut self, mac: Mac)
        ensures
            *final(self) == (Eth { source: mac, ..*old(self) }),
    {
        self.source = mac;
    }

    /// Set the destination address.
    pub fn set_destination(&mut self, mac: Mac)
        ensures
            *final(self) == (Eth { destination: mac, ..*old(self) }),
    {
        self.destination = mac;
    }

    /// Set the ethertype of what follows.
    pub fn set_ether_type(&mut self, ether_type: EthType)
        ensures
            *final(self) == (Eth { ether_type, ..*old(self) }),
    {
        self.ether_type = ether_type;
    }
}

} // verus!

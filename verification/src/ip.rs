//! IPv4 and IPv6 headers (and their extension headers), as far as this
//! library reads and writes them: addresses, next protocol and time to live.

use vstd::prelude::*;

verus! {

/// The IP protocol number of TCP.
pub const PROTO_TCP: u8 = 6;

/// The IP protocol number of UDP.
pub const PROTO_UDP: u8 = 17;

/// The IP protocol number of ICMP.
pub const PROTO_ICMP: u8 = 1;

/// The IP protocol number of ICMPv6.
pub const PROTO_ICMP6: u8 = 58;

/// The time to live (or hop limit) cannot be decremented: it is already zero.
#[derive(Clone, Copy, Debug, PartialEq, Eq, Structural)]
pub struct TtlAlreadyZero;

/// An IPv4 header; addresses are held as 32-bit numbers.
#[derive(Clone, Copy, Debug, PartialEq, Eq, Structural, Hash)]
pub struct Ipv4 {
    /// The source address.
    pub source: u32,
    /// The destination address.
    pub destination: u32,
    /// The protocol of what follows.
    pub protocol: u8,
    /// The time to live.
    pub ttl: u8,
}

impl Ipv4 {
    /// The source address.
    pub fn source(&self) -> (res: u32)
        ensures
            res == self.source,
    {
        self.source
    }

    /// The destination address.
    pub fn destination(&self) -> (res: u32)
        ensures
            res == self.destination,
    {
        self.destination
    }

    /// The protocol of what follows.
    pub fn protocol(&self) -> (res: u8)
        ensures
            res == self.protocol,
    {
        self.protocol
    }

    /// The time to live.
    pub fn ttl(&self) -> (res: u8)
        ensures
            res == self.ttl,
    {
        self.ttl
    }

    /// Set the source address.
    pub fn set_source(&mut self, addr: u32) -> (res: &mut Ipv4)
        ensures
            *res == (Ipv4 { source: addr, ..*old(self) }),
            *final(self) == *final(res),
    {
        self.source = addr;
        self
    }

    /// Set the destination address.
    pub fn set_destination(&mut self, addr: u32) -> (res: &mut Ipv4)
        ensures
            *res == (Ipv4 { destination: addr, ..*old(self) }),
            *final(self) == *final(res),
    {
        self.destination = addr;
        self
    }

    /// Set the time to live.
    pub fn set_ttl(&mut self, ttl: u8) -> (res: &mut Ipv4)
        ensures
            *res == (Ipv4 { ttl, ..*old(self) }),
            *final(self) == *final(res),
    {
        self.ttl = ttl;
        self
    }

    /// Set the protocol of what follows.
    pub fn set_next_header(&mut self, protocol: u8) -> (res: &mut Ipv4)
        ensures
            *res == (Ipv4 { protocol, ..*old(self) }),
            *final(self) == *final(res),
    {
        self.protocol = protocol;
        self
    }

    /// Decrement the time to live by one; fails, changing nothing, when it is
    /// already zero.
    pub fn decrement_ttl(&mut self) -> (res: Result<(), TtlAlreadyZero>)
        ensures
            old(self).ttl == 0 ==> res is Err && *final(self) == *old(self),
            old(self).ttl > 0 ==> res is Ok && *final(self) == (Ipv4 { ttl: (old(self).ttl - 1) as u8, ..*old(self) }),
    {
        if self.ttl == 0 {
            Err(TtlAlreadyZero)
        } else {
            self.ttl = self.ttl - 1;
            Ok(())
        }
    }
}

/// An IPv6 header; addresses are held as 128-bit numbers.
#[derive(Clone, Copy, Debug, PartialEq, Eq, Structural, Hash)]
pub struct Ipv6 {
    /// The source address.
    pub source: u128,
    /// The destination address.
    pub destination: u128,
    /// The next header.
    pub next_header: u8,
    /// The hop limit.
    pub hop_limit: u8,
}

impl Ipv6 {
    /// The source address.
    pub fn source(&self) -> (res: u128)
        ensures
            res == self.source,
    {
        self.source
    }

    /// The destination address.
    pub fn destination(&self) -> (res: u128)
        ensures
            res == self.destination,
    {
        self.destination
    }

    /// The next header.
    pub fn next_header(&self) -> (res: u8)
        ensures
            res == self.next_header,
    {
        self.next_header
    }

    /// The hop limit.
    pub fn hop_limit(&self) -> (res: u8)
        ensures
            res == self.hop_limit,
    {
        self.hop_limit
    }

    /// Set the source address.
    pub fn set_source(&mut self, addr: u128) -> (res: &mut Ipv6)
        ensures
            *res == (Ipv6 { source: addr, ..*old(self) }),
            *final(self) == *final(res),
    {
        self.source = addr;
        self
    }

    /// Set the destination address.
    pub fn set_destination(&mut self, addr: u128) -> (res: &mut Ipv6)
        ensures
            *res == (Ipv6 { destination: addr, ..*old(self) }),
            *final(self) == *final(res),
    {
        self.destination = addr;
        self
    }

    /// Set the hop limit.
    pub fn set_hop_limit(&mut self, hop_limit: u8) -> (res: &mut Ipv6)
        ensures
            *res == (Ipv6 { hop_limit, ..*old(self) }),
            *final(self) == *final(res),
    {
        self.hop_limit = hop_limit;
        self
    }

    /// Set the next header.
    pub fn set_next_header(&mut self, next_header: u8) -> (res: &mut Ipv6)
        ensures
            *res == (Ipv6 { next_header, ..*old(self) }),
            *final(self) == *final(res),
    {
        self.next_header = next_header;
        self
    }

    /// Decrement the hop limit by one; fails, changing nothing, when it is
    /// already zero.
    pub fn decrement_hop_limit(&mut self) -> (res: Result<(), TtlAlreadyZero>)
        ensures
            old(self).hop_limit == 0 ==> res is Err && *final(self) == *old(self),
            old(self).hop_limit > 0 ==> res is Ok && *final(self) == (Ipv6 {
                hop_limit: (old(self).hop_limit - 1) as u8,
                ..*old(self)
            }),
    {
        if self.hop_limit == 0 {
            Err(TtlAlreadyZero)
        } else {
            self.hop_limit = self.hop_limit - 1;
            Ok(())
        }
    }
}

/// An IP authentication header (RFC 4302), held by its next header field.
#[derive(Clone, Copy, Debug, PartialEq, Eq, Structural, Hash)]
pub struct IpAuth {
    /// The protocol of what follows.
    pub next_header: u8,
}

/// An IPv6 extension header, held by its next header field.
#[derive(Clone, Copy, Debug, PartialEq, Eq, Structural, Hash)]
pub struct Ipv6Ext {
    /// The protocol of what follows.
    pub next_header: u8,
}

/// A TCP header, held by its ports.
#[derive(Clone, Copy, Debug, PartialEq, Eq, Structural, Hash)]
pub struct Tcp {
    /// The source port.
    pub source: u16,
    /// The destination port.
    pub destination: u16,
}

/// An ICMPv4 header, held by its type and code.
#[derive(Clone, Copy, Debug, PartialEq, Eq, Structural, Hash)]
pub struct Icmp4 {
    /// The message type.
    pub icmp_type: u8,
    /// The message code.
    pub code: u8,
}

/// An ICMPv6 header, held by its type and code.
#[derive(Clone, Copy, Debug, PartialEq, Eq, Structural, Hash)]
pub struct Icmp6 {
    /// The message type.
    pub icmp_type: u8,
    /// The message code.
    pub code: u8,
}

} // verus!

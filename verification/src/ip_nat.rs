//! Network address translation of an IP header: the rewrite that a NAT
//! processor applies once it knows the address to put in.
//!
//! A translation is either source or destination NAT, never both at once, and
//! only stateless NAT is supported; an address is only replaced by one of the
//! same IP version.

use crate::headers::Net;
use crate::ip::{Ipv4, Ipv6};
use crate::packet::{spec_is_unicast, IpAddress};
use vstd::prelude::*;

verus! {

/// Whether a NAT processor rewrites source or destination addresses.
#[derive(Clone, Copy, Debug, PartialEq, Eq, Structural)]
pub enum NatDirection {
    /// Source NAT.
    SrcNat,
    /// Destination NAT.
    DstNat,
}

/// Whether a NAT processor keeps per-flow state.
#[derive(Clone, Copy, Debug, PartialEq, Eq, Structural)]
pub enum NatMode {
    /// Every packet is translated on its own.
    Stateless,
    /// Translations are kept per flow (not supported yet).
    Stateful,
}

/// The source address of the network header `net`.
pub open spec fn spec_src_addr(net: Net) -> IpAddress {
    match net {
        Net::Ipv4(h) => IpAddress::V4(h.source),
        Net::Ipv6(h) => IpAddress::V6(h.source),
    }
}

/// The destination address of the network header `net`.
pub open spec fn spec_dst_addr(net: Net) -> IpAddress {
    match net {
        Net::Ipv4(h) => IpAddress::V4(h.destination),
        Net::Ipv6(h) => IpAddress::V6(h.destination),
    }
}

/// The address of `net` that NAT in `direction` replaces.
pub open spec fn spec_nat_addr(direction: NatDirection, net: Net) -> IpAddress {
    match direction {
        NatDirection::SrcNat => spec_src_addr(net),
        NatDirection::DstNat => spec_dst_addr(net),
    }
}

/// `net` with the address that NAT in `direction` replaces set to `target`;
/// `None` when `target` is of the other IP version, or, for source NAT, is
/// not a unicast address.
pub open spec fn spec_translate(direction: NatDirection, net: Net, target: IpAddress) -> Option<Net> {
    match (direction, net, target) {
        (NatDirection::SrcNat, Net::Ipv4(h), IpAddress::V4(ip)) => if spec_is_unicast(target) {
            Some(Net::Ipv4(Ipv4 { source: ip, ..h }))
        } else {
            None
        },
        (NatDirection::SrcNat, Net::Ipv6(h), IpAddress::V6(ip)) => if spec_is_unicast(target) {
            Some(Net::Ipv6(Ipv6 { source: ip, ..h }))
        } else {
            None
        },
        (NatDirection::DstNat, Net::Ipv4(h), IpAddress::V4(ip)) => Some(
            Net::Ipv4(Ipv4 { destination: ip, ..h }),
        ),
        (NatDirection::DstNat, Net::Ipv6(h), IpAddress::V6(ip)) => Some(
            Net::Ipv6(Ipv6 { destination: ip, ..h }),
        ),
        _ => None,
    }
}

/// Whether NAT in `mode` is supported: only stateless NAT is.
pub fn nat_supported(mode: NatMode) -> (res: bool)
    ensures
        res == (mode == NatMode::Stateless),
{
    match mode {
        NatMode::Stateless => true,
        NatMode::Stateful => false,
    }
}

/// The source address of `net`, whatever its IP version.
pub fn get_src_addr(net: &Net) -> (res: IpAddress)
    ensures
        res == spec_src_addr(*net),
{
    match net {
        Net::Ipv4(hdr) => IpAddress::V4(hdr.source()),
        Net::Ipv6(hdr) => IpAddress::V6(hdr.source()),
    }
}

/// The destination address of `net`, whatever its IP version.
pub fn get_dst_addr(net: &Net) -> (res: IpAddress)
    ensures
        res == spec_dst_addr(*net),
{
    match net {
        Net::Ipv4(hdr) => IpAddress::V4(hdr.destination()),
        Net::Ipv6(hdr) => IpAddress::V6(hdr.destination()),
    }
}

/// The address of `net` that NAT in `direction` replaces: the one to look up
/// in the translation ranges.
pub fn nat_addr(direction: NatDirection, net: &Net) -> (res: IpAddress)
    ensures
        res == spec_nat_addr(direction, *net),
{
    match direction {
        NatDirection::SrcNat => get_src_addr(net),
        NatDirection::DstNat => get_dst_addr(net),
    }
}

/// Replace the address of `net` that NAT in `direction` rewrites by `target`;
/// see [`spec_translate`]. On failure `net` is left as it was.
pub fn translate(direction: NatDirection, net: &mut Net, target: IpAddress) -> (res: Option<()>)
    ensures
        match spec_translate(direction, *old(net), target) {
            Some(next) => res is Some && *final(net) == next,
            None => res is None && *final(net) == *old(net),
        },
{
    match direction {
        NatDirection::SrcNat => match (net, target) {
            (Net::Ipv4(hdr), IpAddress::V4(ip)) => {
                if 0xE000_0000 <= ip && ip <= 0xEFFF_FFFF {
                    return None;
                }
                hdr.set_source(ip);
            },
            (Net::Ipv6(hdr), IpAddress::V6(ip)) => {
                if ip >= 0xFF00_0000_0000_0000_0000_0000_0000_0000 {
                    return None;
                }
                hdr.set_source(ip);
            },
            (_, _) => return None,
        },
        NatDirection::DstNat => match (net, target) {
            (Net::Ipv4(hdr), IpAddress::V4(ip)) => {
                hdr.set_destination(ip);
            },
            (Net::Ipv6(hdr), IpAddress::V6(ip)) => {
                hdr.set_destination(ip);
            },
            (_, _) => return None,
        },
    }
    Some(())
}

/// A translation rewrites one address and nothing else: source NAT puts the
/// target in the source address and keeps the destination, destination NAT
/// the reverse, and the IP version stays.
pub proof fn lemma_translate_rewrites_one_address(direction: NatDirection, net: Net, target: IpAddress)
    requires
        spec_translate(direction, net, target) is Some,
    ensures
        ({
            let next = spec_translate(direction, net, target)->Some_0;
            &&& spec_nat_addr(direction, next) == target
            &&& direction == NatDirection::SrcNat ==> spec_dst_addr(next) == spec_dst_addr(net)
            &&& direction == NatDirection::DstNat ==> spec_src_addr(next) == spec_src_addr(net)
            &&& (next is Ipv4 <==> net is Ipv4)
        }),
{
}

/// Translating twice in one direction, back to the address first replaced,
/// gives the header that was there before.
pub proof fn lemma_translate_undone(direction: NatDirection, net: Net, target: IpAddress)
    requires
        spec_translate(direction, net, target) is Some,
        direction == NatDirection::SrcNat ==> spec_is_unicast(spec_src_addr(net)),
    ensures
        spec_translate(
            direction,
            spec_translate(direction, net, target)->Some_0,
            spec_nat_addr(direction, net),
        ) == Some(net),
{
}

} // verus!

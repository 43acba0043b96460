//! The ingress stage: what happens to a packet on the interface it came in on.

use crate::buffer::PacketBufferMut;
use crate::eth::spec_is_broadcast;
use crate::headers::{spec_ipv4, spec_ipv6, HeadersView, TryEth, TryIpv4, TryIpv6};
use crate::interface::{spec_if_mac, spec_is_ethernet_like, Attachment, IfState, Interface, Lookup};
use crate::packet::{spec_done, DoneReason, Packet, PacketMeta, PacketView};
use vstd::prelude::*;

verus! {

/// The ingress stage, reading interfaces through `IfTr`.
pub struct Ingress<IfTr> {
    name: String,
    iftr: IfTr,
}

impl<IfTr> Ingress<IfTr> {
    /// The ingress stage called `name`, reading interfaces through `iftr`.
    pub fn new(name: &str, iftr: IfTr) -> (res: Ingress<IfTr>)
        ensures
            res.name()@ == name@,
            res.iftr() == iftr,
    {
        Ingress { name: name.to_owned(), iftr }
    }

    /// The stage's name, in specifications.
    pub closed spec fn name(&self) -> String {
        self.name
    }

    /// The interface table reader, in specifications.
    pub closed spec fn iftr(&self) -> IfTr {
        self.iftr
    }
}

/// `meta` once the packet is done for `reason` (an earlier reason stands).
pub open spec fn spec_mark_done(meta: PacketMeta, reason: DoneReason) -> PacketMeta {
    PacketMeta { done: spec_done(meta.done, reason), ..meta }
}

/// `p` with its metadata replaced by `meta`.
pub open spec fn spec_with_meta<Buf>(p: PacketView<Buf>, meta: PacketMeta) -> PacketView<Buf> {
    PacketView { meta, ..p }
}

/// A broadcast frame: recorded as such, and done as unhandled (broadcast
/// frames are not processed).
pub open spec fn spec_ingress_bcast(meta: PacketMeta) -> PacketMeta {
    spec_mark_done(PacketMeta { is_l2bcast: true, ..meta }, DoneReason::Unhandled)
}

/// A frame for this interface: an IP packet is routed in the VRF the
/// interface is attached to (done as detached when it is attached to
/// nothing); anything else is done as not IP.
pub open spec fn spec_ingress_ucast_local(interface: Interface, h: HeadersView, meta: PacketMeta) -> PacketMeta {
    if spec_ipv4(h) is Some || spec_ipv6(h) is Some {
        match interface.attachment {
            Some(Attachment::VRF(id)) => PacketMeta { vrf: Some(id), ..meta },
            Some(Attachment::BD) => meta,
            None => spec_mark_done(meta, DoneReason::InterfaceDetached),
        }
    } else {
        spec_mark_done(meta, DoneReason::NotIp)
    }
}

/// An Ethernet frame on an Ethernet-like interface, sorted by its destination
/// MAC address: broadcast, this interface's, or another (done as not for us:
/// bridging is not supported).
pub open spec fn spec_ingress_eth(interface: Interface, h: HeadersView, meta: PacketMeta) -> PacketMeta {
    if spec_is_broadcast(h.eth.destination.0@) {
        spec_ingress_bcast(meta)
    } else if spec_if_mac(interface.iftype) == Some(h.eth.destination) {
        spec_ingress_ucast_local(interface, h, meta)
    } else {
        spec_mark_done(meta, DoneReason::MacNotForUs)
    }
}

/// The metadata after ingress on `interface`: a packet already done is left
/// alone; one that came in on an interface that is down or of an unsupported
/// type is done for that reason.
pub open spec fn spec_ingress(interface: Interface, h: HeadersView, meta: PacketMeta) -> PacketMeta {
    if meta.done is Some {
        meta
    } else if interface.admin_state == IfState::Down {
        spec_mark_done(meta, DoneReason::InterfaceAdmDown)
    } else if interface.oper_state == IfState::Down {
        spec_mark_done(meta, DoneReason::InterfaceOperDown)
    } else if spec_is_ethernet_like(interface.iftype) {
        spec_ingress_eth(interface, h, meta)
    } else {
        spec_mark_done(meta, DoneReason::InterfaceUnsupported)
    }
}

/// Whether ingress would hand an IP packet for this interface to a bridge
/// domain, which is not implemented (the stage stops there).
pub open spec fn spec_ingress_reaches_bd(interface: Interface, h: HeadersView, meta: PacketMeta) -> bool {
    &&& meta.done is None
    &&& interface.admin_state != IfState::Down
    &&& interface.oper_state != IfState::Down
    &&& spec_is_ethernet_like(interface.iftype)
    &&& !spec_is_broadcast(h.eth.destination.0@)
    &&& spec_if_mac(interface.iftype) == Some(h.eth.destination)
    &&& (spec_ipv4(h) is Some || spec_ipv6(h) is Some)
    &&& interface.attachment == Some(Attachment::BD)
}

/// A broadcast frame; see [`spec_ingress_bcast`].
pub fn interface_ingress_eth_bcast<Buf: PacketBufferMut>(
    _nfi: &str,
    _interface: &Interface,
    packet: &mut Packet<Buf>,
)
    ensures
        final(packet)@ == spec_with_meta(old(packet)@, spec_ingress_bcast(old(packet)@.meta)),
{
    packet.get_meta_mut().is_l2bcast = true;
    packet.done(DoneReason::Unhandled);
}

/// A frame for this interface; see [`spec_ingress_ucast_local`]. The interface
/// must not be attached to a bridge domain when the packet is IP.
pub fn interface_ingress_eth_ucast_local<Buf: PacketBufferMut>(
    _nfi: &str,
    interface: &Interface,
    packet: &mut Packet<Buf>,
)
    requires
        (spec_ipv4(old(packet)@.headers) is Some || spec_ipv6(old(packet)@.headers) is Some)
            ==> interface.attachment != Some(Attachment::BD),
    ensures
        final(packet)@ == spec_with_meta(
            old(packet)@,
            spec_ingress_ucast_local(*interface, old(packet)@.headers, old(packet)@.meta),
        ),
{
    if packet.try_ipv4().is_some() || packet.try_ipv6().is_some() {
        match &interface.attachment {
            Some(Attachment::VRF(vrfid)) => {
                packet.get_meta_mut().vrf = Some(*vrfid);
            },
            Some(Attachment::BD) => {},
            None => {
                packet.done(DoneReason::InterfaceDetached);
            },
        }
    } else {
        packet.done(DoneReason::NotIp);
    }
}

/// A frame for another MAC address: done as not for us.
pub fn interface_ingress_eth_non_local<Buf: PacketBufferMut>(
    _nfi: &str,
    _interface: &Interface,
    _dst_mac: crate::eth::Mac,
    packet: &mut Packet<Buf>,
)
    ensures
        final(packet)@ == spec_with_meta(
            old(packet)@,
            spec_mark_done(old(packet)@.meta, DoneReason::MacNotForUs),
        ),
{
    packet.done(DoneReason::MacNotForUs);
}

/// An Ethernet frame on an Ethernet-like interface; see [`spec_ingress_eth`].
pub fn interface_ingress_eth<Buf: PacketBufferMut>(
    nfi: &str,
    interface: &Interface,
    packet: &mut Packet<Buf>,
)
    requires
        spec_is_ethernet_like(interface.iftype),
        !(spec_if_mac(interface.iftype) == Some(old(packet)@.headers.eth.destination) && !spec_is_broadcast(
            old(packet)@.headers.eth.destination.0@,
        ) && (spec_ipv4(old(packet)@.headers) is Some || spec_ipv6(old(packet)@.headers) is Some)
            && interface.attachment == Some(Attachment::BD)),
    ensures
        final(packet)@ == spec_with_meta(
            old(packet)@,
            spec_ingress_eth(*interface, old(packet)@.headers, old(packet)@.meta),
        ),
{
    let if_mac = match interface.get_mac() {
        Some(mac) => mac,
        None => {
            return;
        },
    };
    let dmac = match packet.try_eth() {
        Some(eth) => eth.destination(),
        None => {
            packet.done(DoneReason::NotEthernet);
            return;
        },
    };
    if dmac.is_broadcast() {
        interface_ingress_eth_bcast(nfi, interface, packet);
    } else if dmac.same(&if_mac) {
        interface_ingress_eth_ucast_local(nfi, interface, packet);
    } else {
        interface_ingress_eth_non_local(nfi, interface, dmac, packet);
    }
}

/// Ingress of a packet on `interface`; see [`spec_ingress`].
pub fn interface_ingress<Buf: PacketBufferMut>(nfi: &str, interface: &Interface, packet: &mut Packet<Buf>)
    requires
        !spec_ingress_reaches_bd(*interface, old(packet)@.headers, old(packet)@.meta),
    ensures
        final(packet)@ == spec_with_meta(
            old(packet)@,
            spec_ingress(*interface, old(packet)@.headers, old(packet)@.meta),
        ),
{
    if !packet.is_done() {
        if interface.admin_state == IfState::Down {
            packet.done(DoneReason::InterfaceAdmDown);
        } else if interface.oper_state == IfState::Down {
            packet.done(DoneReason::InterfaceOperDown);
        } else if interface.is_ethernet_like() {
            interface_ingress_eth(nfi, interface, packet);
        } else {
            packet.done(DoneReason::InterfaceUnsupported);
        }
    }
}

/// The metadata after the ingress stage looked up the interface a packet
/// came in on: nothing happens to a packet already done or when the interface
/// table cannot be read; an unknown interface is a reason to be done.
pub open spec fn spec_ingress_packet(interface: Lookup<Interface>, h: HeadersView, meta: PacketMeta) -> PacketMeta {
    if meta.done is Some {
        meta
    } else {
        match interface {
            Lookup::Unavailable => meta,
            Lookup::Missing => spec_mark_done(meta, DoneReason::InterfaceUnknown),
            Lookup::Found(i) => spec_ingress(i, h, meta),
        }
    }
}

/// What the ingress stage does to one packet, given what looking up its
/// incoming interface gave; see [`spec_ingress_packet`].
pub fn ingress_packet<Buf: PacketBufferMut>(nfi: &str, interface: Lookup<&Interface>, packet: &mut Packet<Buf>)
    requires
        interface matches Lookup::Found(i) ==> !spec_ingress_reaches_bd(*i, old(packet)@.headers, old(packet)@.meta),
    ensures
        final(packet)@ == spec_with_meta(
            old(packet)@,
            spec_ingress_packet(
                match interface {
                    Lookup::Unavailable => Lookup::Unavailable,
                    Lookup::Missing => Lookup::Missing,
                    Lookup::Found(i) => Lookup::Found(*i),
                },
                old(packet)@.headers,
                old(packet)@.meta,
            ),
        ),
{
    if !packet.is_done() {
        match interface {
            Lookup::Unavailable => {},
            Lookup::Missing => {
                packet.done(DoneReason::InterfaceUnknown);
            },
            Lookup::Found(interface) => {
                interface_ingress(nfi, interface, packet);
            },
        }
    }
}

/// A frame for this interface that carries an IP packet (IPv4 or IPv6) on an
/// interface attached to VRF `vrf` is routed in that VRF: it is tagged with
/// the VRF and not marked done; the rest of its metadata stays.
pub proof fn lemma_ucast_local_ip_is_routed(interface: Interface, h: HeadersView, meta: PacketMeta, vrf: u32)
    requires
        h.net is Some,
        interface.attachment == Some(Attachment::VRF(vrf)),
    ensures
        spec_ingress_ucast_local(interface, h, meta) == (PacketMeta { vrf: Some(vrf), ..meta }),
{
}

/// A frame for this interface is done as not IP only when it carries neither
/// an IPv4 nor an IPv6 header; such a frame is always done as not IP (unless
/// it was done already), and nothing else of its metadata changes.
pub proof fn lemma_ucast_local_not_ip(interface: Interface, h: HeadersView, meta: PacketMeta)
    ensures
        meta.done is None && spec_ingress_ucast_local(interface, h, meta).done == Some(DoneReason::NotIp)
            <==> meta.done is None && h.net is None,
        h.net is None ==> spec_ingress_ucast_local(interface, h, meta) == (PacketMeta {
            done: if meta.done is Some {
                meta.done
            } else {
                Some(DoneReason::NotIp)
            },
            ..meta
        }),
{
}

/// An IP packet for an interface attached to nothing is done as detached,
/// with its VRF tag left as it was.
pub proof fn lemma_ucast_local_detached(interface: Interface, h: HeadersView, meta: PacketMeta)
    requires
        h.net is Some,
        interface.attachment is None,
        meta.done is None,
    ensures
        spec_ingress_ucast_local(interface, h, meta).done == Some(DoneReason::InterfaceDetached),
        spec_ingress_ucast_local(interface, h, meta).vrf == meta.vrf,
{
}

/// Ingress of a packet not yet done, that carries IP and is addressed to the
/// MAC address of an Ethernet-like interface that is neither administratively
/// nor operationally down and is attached to VRF `vrf`, tags the packet with
/// that VRF and leaves it not done.
pub proof fn lemma_ingress_ip_for_us_is_routed(interface: Interface, h: HeadersView, meta: PacketMeta, vrf: u32)
    requires
        meta.done is None,
        interface.admin_state != IfState::Down,
        interface.oper_state != IfState::Down,
        spec_is_ethernet_like(interface.iftype),
        spec_if_mac(interface.iftype) == Some(h.eth.destination),
        !spec_is_broadcast(h.eth.destination.0@),
        h.net is Some,
        interface.attachment == Some(Attachment::VRF(vrf)),
    ensures
        spec_ingress(interface, h, meta).vrf == Some(vrf),
        spec_ingress(interface, h, meta).done is None,
{
}

/// Ingress on an interface that is down (administratively first, then
/// operationally) marks a packet not yet done with that reason and changes
/// nothing else of its metadata; a packet already done is left alone.
pub proof fn lemma_ingress_down(interface: Interface, h: HeadersView, meta: PacketMeta)
    ensures
        meta.done is Some ==> spec_ingress(interface, h, meta) == meta,
        meta.done is None && interface.admin_state == IfState::Down ==> spec_ingress(interface, h, meta)
            == (PacketMeta { done: Some(DoneReason::InterfaceAdmDown), ..meta }),
        meta.done is None && interface.admin_state != IfState::Down && interface.oper_state
            == IfState::Down ==> spec_ingress(interface, h, meta) == (PacketMeta {
            done: Some(DoneReason::InterfaceOperDown),
            ..meta
        }),
{
}

/// Ingress on an up interface sorts a packet not yet done by its destination
/// MAC address: a broadcast frame is recorded as broadcast and done as
/// unhandled; a frame for another MAC address is done as not for us; an
/// interface that does not carry Ethernet frames does not take the packet.
/// The VRF tag is left as it was in each case.
pub proof fn lemma_ingress_sorts_by_destination(interface: Interface, h: HeadersView, meta: PacketMeta)
    requires
        meta.done is None,
        interface.admin_state != IfState::Down,
        interface.oper_state != IfState::Down,
    ensures
        !spec_is_ethernet_like(interface.iftype) ==> spec_ingress(interface, h, meta) == (PacketMeta {
            done: Some(DoneReason::InterfaceUnsupported),
            ..meta
        }),
        spec_is_ethernet_like(interface.iftype) && spec_is_broadcast(h.eth.destination.0@) ==> spec_ingress(
            interface,
            h,
            meta,
        ) == (PacketMeta { is_l2bcast: true, done: Some(DoneReason::Unhandled), ..meta }),
        spec_is_ethernet_like(interface.iftype) && !spec_is_broadcast(h.eth.destination.0@) && spec_if_mac(
            interface.iftype,
        ) != Some(h.eth.destination) ==> spec_ingress(interface, h, meta) == (PacketMeta {
            done: Some(DoneReason::MacNotForUs),
            ..meta
        }),
{
}

} // verus!

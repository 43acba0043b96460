//! The egress stage: what happens to a packet on the interface it is to leave
//! by.

use crate::buffer::PacketBufferMut;
use crate::eth::{Eth, Mac};
use crate::headers::{HeadersView, TryHeadersMut};
use crate::ingress::{spec_mark_done, spec_with_meta};
use crate::interface::{spec_if_mac, spec_is_ethernet_like, IfState, Interface, Lookup};
use crate::packet::{DoneReason, Packet, PacketMeta, PacketView};
use vstd::prelude::*;

verus! {

/// The egress stage, reading interfaces through `IfTr` and adjacencies
/// through `AtR`.
pub struct Egress<IfTr, AtR> {
    name: String,
    iftr: IfTr,
    atabler: AtR,
}

impl<IfTr, AtR> Egress<IfTr, AtR> {
    /// The egress stage called `name`, reading interfaces through `iftr` and
    /// adjacencies through `atabler`.
    pub fn new(name: &str, iftr: IfTr, atabler: AtR) -> (res: Egress<IfTr, AtR>)
        ensures
            res.name()@ == name@,
            res.iftr() == iftr,
            res.atabler() == atabler,
    {
        Egress { name: name.to_owned(), iftr, atabler }
    }

    /// The stage's name, in specifications.
    pub closed spec fn name(&self) -> String {
        self.name
    }

    /// The interface table reader, in specifications.
    pub closed spec fn iftr(&self) -> IfTr {
        self.iftr
    }

    /// The adjacency table reader, in specifications.
    pub closed spec fn atabler(&self) -> AtR {
        self.atabler
    }
}

/// Whether `mac` may be the source address of a frame: neither a group
/// (multicast) address nor all zeros.
pub open spec fn spec_is_source_mac(mac: Mac) -> bool {
    &&& mac.0@[0] % 2 == 0
    &&& !(forall|i: int| 0 <= i < 6 ==> mac.0@[i] == 0)
}

/// `p` leaving by `interface` towards `dst_mac`: its Ethernet header goes from
/// the interface's MAC address to `dst_mac` and it is delivered; done as an
/// internal failure when the interface has no MAC address.
pub open spec fn spec_egress_ethernet<Buf>(interface: Interface, dst_mac: Mac, p: PacketView<Buf>) -> PacketView<Buf> {
    match spec_if_mac(interface.iftype) {
        Some(our_mac) => PacketView {
            headers: HeadersView {
                eth: Eth { source: our_mac, destination: dst_mac, ..p.headers.eth },
                ..p.headers
            },
            meta: spec_mark_done(p.meta, DoneReason::Delivered),
            ..p
        },
        None => spec_with_meta(p, spec_mark_done(p.meta, DoneReason::InternalFailure)),
    }
}

/// `p` after egress by `interface` towards `dst_mac`: done as down when the
/// interface is, as unsupported when it does not carry Ethernet frames.
pub open spec fn spec_egress<Buf>(interface: Interface, dst_mac: Mac, p: PacketView<Buf>) -> PacketView<Buf> {
    if interface.admin_state == IfState::Down {
        spec_with_meta(p, spec_mark_done(p.meta, DoneReason::InterfaceAdmDown))
    } else if interface.oper_state == IfState::Down {
        spec_with_meta(p, spec_mark_done(p.meta, DoneReason::InterfaceOperDown))
    } else if spec_is_ethernet_like(interface.iftype) {
        spec_egress_ethernet(interface, dst_mac, p)
    } else {
        spec_with_meta(p, spec_mark_done(p.meta, DoneReason::InterfaceUnsupported))
    }
}

/// Send `packet` by an Ethernet-like `interface` to `dst_mac`; see
/// [`spec_egress_ethernet`]. The interface's MAC address, if any, must be
/// usable as a source address.
pub fn interface_egress_ethernet<Buf: PacketBufferMut>(
    interface: &Interface,
    dst_mac: Mac,
    packet: &mut Packet<Buf>,
)
    requires
        spec_if_mac(interface.iftype) matches Some(mac) ==> spec_is_source_mac(mac),
    ensures
        final(packet)@ == spec_egress_ethernet(*interface, dst_mac, old(packet)@),
{
    match interface.get_mac() {
        Some(our_mac) => {
            let headers = packet.headers_mut();
            headers.eth.set_source(our_mac);
            headers.eth.set_destination(dst_mac);
            packet.done(DoneReason::Delivered);
        },
        None => {
            packet.done(DoneReason::InternalFailure);
        },
    }
}

/// Egress of `packet` by `interface` towards `dst_mac`; see [`spec_egress`].
pub fn interface_egress<Buf: PacketBufferMut>(
    interface: &Interface,
    packet: &mut Packet<Buf>,
    dst_mac: Mac,
)
    requires
        spec_if_mac(interface.iftype) matches Some(mac) ==> spec_is_source_mac(mac),
    ensures
        final(packet)@ == spec_egress(*interface, dst_mac, old(packet)@),
{
    if interface.admin_state == IfState::Down {
        packet.done(DoneReason::InterfaceAdmDown);
    } else if interface.oper_state == IfState::Down {
        packet.done(DoneReason::InterfaceOperDown);
    } else if interface.is_ethernet_like() {
        interface_egress_ethernet(interface, dst_mac, packet);
    } else {
        packet.done(DoneReason::InterfaceUnsupported);
    }
}

/// `p` after the egress stage looked up the next hop's MAC address on the
/// outgoing interface and then that interface: a packet already done is left
/// alone; one without an outgoing interface is done as a routing failure; one
/// without a next hop as unhandled (resolving a directly connected
/// destination is not supported); a failed lookup is a reason to be done.
pub open spec fn spec_egress_packet<Buf>(adjacency: Lookup<Mac>, interface: Lookup<Interface>, p: PacketView<Buf>) -> PacketView<Buf> {
    if p.meta.done is Some {
        p
    } else if p.meta.oif is None {
        spec_with_meta(p, spec_mark_done(p.meta, DoneReason::RouteFailure))
    } else if p.meta.nh_addr is None {
        spec_with_meta(p, spec_mark_done(p.meta, DoneReason::Unhandled))
    } else {
        match adjacency {
            Lookup::Unavailable => spec_with_meta(p, spec_mark_done(p.meta, DoneReason::InternalFailure)),
            Lookup::Missing => spec_with_meta(p, spec_mark_done(p.meta, DoneReason::MissL2resolution)),
            Lookup::Found(dst_mac) => match interface {
                Lookup::Unavailable => spec_with_meta(p, spec_mark_done(p.meta, DoneReason::InternalFailure)),
                Lookup::Missing => spec_with_meta(p, spec_mark_done(p.meta, DoneReason::InterfaceUnknown)),
                Lookup::Found(i) => spec_egress(i, dst_mac, p),
            },
        }
    }
}

/// What the egress stage does to one packet, given what looking up the next
/// hop's MAC address on the outgoing interface, and that interface, gave; see
/// [`spec_egress_packet`].
pub fn egress_packet<Buf: PacketBufferMut>(
    adjacency: Lookup<Mac>,
    interface: Lookup<&Interface>,
    packet: &mut Packet<Buf>,
)
    requires
        interface matches Lookup::Found(i) ==> (spec_if_mac(i.iftype) matches Some(mac) ==> spec_is_source_mac(mac)),
    ensures
        final(packet)@ == spec_egress_packet(
            adjacency,
            match interface {
                Lookup::Unavailable => Lookup::Unavailable,
                Lookup::Missing => Lookup::Missing,
                Lookup::Found(i) => Lookup::Found(*i),
            },
            old(packet)@,
        ),
{
    if packet.is_done() {
        return;
    }
    if packet.get_meta().oif.is_none() {
        packet.done(DoneReason::RouteFailure);
        return;
    }
    if packet.get_meta().nh_addr.is_none() {
        packet.done(DoneReason::Unhandled);
        return;
    }
    match adjacency {
        Lookup::Unavailable => packet.done(DoneReason::InternalFailure),
        Lookup::Missing => packet.done(DoneReason::MissL2resolution),
        Lookup::Found(dst_mac) => match interface {
            Lookup::Unavailable => packet.done(DoneReason::InternalFailure),
            Lookup::Missing => packet.done(DoneReason::InterfaceUnknown),
            Lookup::Found(interface) => interface_egress(interface, packet, dst_mac),
        },
    }
}

/// Egress by an interface that is operationally down (and not
/// administratively down) never delivers the packet: a packet not yet done is
/// marked done as operationally down, and its headers and payload are left
/// as they were.
pub proof fn lemma_egress_oper_down<Buf>(interface: Interface, dst_mac: Mac, p: PacketView<Buf>)
    requires
        interface.admin_state != IfState::Down,
        interface.oper_state == IfState::Down,
    ensures
        spec_egress(interface, dst_mac, p).headers == p.headers,
        spec_egress(interface, dst_mac, p).payload == p.payload,
        p.meta.done is None ==> spec_egress(interface, dst_mac, p).meta == (PacketMeta {
            done: Some(DoneReason::InterfaceOperDown),
            ..p.meta
        }),
        p.meta.done is Some ==> spec_egress(interface, dst_mac, p).meta == p.meta,
{
}

/// Egress by an interface that is administratively down marks a packet not
/// yet done as administratively down and leaves its headers as they were.
pub proof fn lemma_egress_admin_down<Buf>(interface: Interface, dst_mac: Mac, p: PacketView<Buf>)
    requires
        interface.admin_state == IfState::Down,
    ensures
        spec_egress(interface, dst_mac, p).headers == p.headers,
        p.meta.done is None ==> spec_egress(interface, dst_mac, p).meta.done == Some(
            DoneReason::InterfaceAdmDown,
        ),
{
}

/// A packet is delivered by egress only over an interface that is up (neither
/// administratively nor operationally down) and carries Ethernet frames; it
/// then leaves from the interface's MAC address to `dst_mac`, the rest of its
/// headers and its payload unchanged.
pub proof fn lemma_egress_delivers_only_when_up<Buf>(interface: Interface, dst_mac: Mac, p: PacketView<Buf>)
    requires
        p.meta.done is None,
        spec_egress(interface, dst_mac, p).meta.done == Some(DoneReason::Delivered),
    ensures
        interface.admin_state != IfState::Down,
        interface.oper_state != IfState::Down,
        spec_is_ethernet_like(interface.iftype),
        spec_if_mac(interface.iftype) is Some,
        spec_egress(interface, dst_mac, p).headers.eth.source == spec_if_mac(interface.iftype)->Some_0,
        spec_egress(interface, dst_mac, p).headers.eth.destination == dst_mac,
        spec_egress(interface, dst_mac, p).headers.eth.ether_type == p.headers.eth.ether_type,
        spec_egress(interface, dst_mac, p).headers.net == p.headers.net,
        spec_egress(interface, dst_mac, p).headers.transport == p.headers.transport,
        spec_egress(interface, dst_mac, p).payload == p.payload,
{
}

/// Over an up Ethernet-like interface with a MAC address, a packet not yet
/// done is delivered.
pub proof fn lemma_egress_up_delivers<Buf>(interface: Interface, dst_mac: Mac, p: PacketView<Buf>)
    requires
        p.meta.done is None,
        interface.admin_state != IfState::Down,
        interface.oper_state != IfState::Down,
        spec_is_ethernet_like(interface.iftype),
    ensures
        spec_egress(interface, dst_mac, p).meta.done == Some(DoneReason::Delivered),
{
}

/// Egress by an up interface that does not carry Ethernet frames marks a
/// packet not yet done as unsupported and leaves its headers as they were.
pub proof fn lemma_egress_unsupported<Buf>(interface: Interface, dst_mac: Mac, p: PacketView<Buf>)
    requires
        p.meta.done is None,
        interface.admin_state != IfState::Down,
        interface.oper_state != IfState::Down,
        !spec_is_ethernet_like(interface.iftype),
    ensures
        spec_egress(interface, dst_mac, p).headers == p.headers,
        spec_egress(interface, dst_mac, p).meta == (PacketMeta {
            done: Some(DoneReason::InterfaceUnsupported),
            ..p.meta
        }),
{
}

} // verus!

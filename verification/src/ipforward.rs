//! The IP forwarding stage: the per-packet steps it takes once a route is
//! known.

use crate::buffer::PacketBufferMut;
use crate::egress::spec_is_source_mac;
use crate::eth::{Eth, EthType, Mac, ETH_TYPE_IPV4, ETH_TYPE_IPV6};
use crate::headers::{
    spec_ipv4, spec_ipv6, Headers, HeadersView, Net, Transport, TryHeadersMut, TryIpv4Mut,
    TryIpv6Mut,
};
use crate::ingress::{spec_mark_done, spec_with_meta};
use crate::interface::Lookup;
use crate::ip::{Ipv4, Ipv6, PROTO_UDP};
use crate::packet::{spec_is_unicast, DoneReason, InterfaceId, IpAddress, Packet, PacketMeta, PacketView};
use crate::udp::{Udp, UdpEncap, UdpFields, UdpPort, UDP_LEN};
use crate::vni::Vni;
use crate::vxlan::{Vxlan, VXLAN_PORT};
use vstd::prelude::*;

verus! {

/// The IP forwarding stage, reading FIBs through `FibTr`.
pub struct IpForwarder<FibTr> {
    name: String,
    fibtr: FibTr,
}

impl<FibTr> IpForwarder<FibTr> {
    /// The forwarding stage called `name`, reading FIBs through `fibtr`.
    pub fn new(name: &str, fibtr: FibTr) -> (res: IpForwarder<FibTr>)
        ensures
            res.name()@ == name@,
            res.fibtr() == fibtr,
    {
        IpForwarder { name: name.to_owned(), fibtr }
    }

    /// The stage's name, in specifications.
    pub closed spec fn name(&self) -> String {
        self.name
    }

    /// The FIB table reader, in specifications.
    pub closed spec fn fibtr(&self) -> FibTr {
        self.fibtr
    }
}

/// Where a route sends a packet: out of an interface and/or to a next hop.
#[derive(Clone, Copy, Debug, PartialEq, Eq, Structural)]
pub struct EgressObject {
    /// The outgoing interface, if the route names one.
    pub ifindex: Option<u32>,
    /// The next hop's address, if the route names one.
    pub address: Option<IpAddress>,
}

/// `p` after its TTL (IPv4) or hop limit (IPv6) is decremented for a packet
/// to `dst`: done as out of hops when it was already zero or reaches zero.
pub open spec fn spec_forward_decrement_ttl<Buf>(p: PacketView<Buf>, dst: IpAddress) -> PacketView<Buf> {
    match dst {
        IpAddress::V4(_) => {
            let ip = spec_ipv4(p.headers)->Some_0;
            if ip.ttl == 0 {
                spec_with_meta(p, spec_mark_done(p.meta, DoneReason::HopLimitExceeded))
            } else {
                let q = PacketView {
                    headers: HeadersView {
                        net: Some(Net::Ipv4(Ipv4 { ttl: (ip.ttl - 1) as u8, ..ip })),
                        ..p.headers
                    },
                    ..p
                };
                if ip.ttl == 1 {
                    spec_with_meta(q, spec_mark_done(p.meta, DoneReason::HopLimitExceeded))
                } else {
                    q
                }
            }
        },
        IpAddress::V6(_) => {
            let ip = spec_ipv6(p.headers)->Some_0;
            if ip.hop_limit == 0 {
                spec_with_meta(p, spec_mark_done(p.meta, DoneReason::HopLimitExceeded))
            } else {
                let q = PacketView {
                    headers: HeadersView {
                        net: Some(Net::Ipv6(Ipv6 { hop_limit: (ip.hop_limit - 1) as u8, ..ip })),
                        ..p.headers
                    },
                    ..p
                };
                if ip.hop_limit == 1 {
                    spec_with_meta(q, spec_mark_done(p.meta, DoneReason::HopLimitExceeded))
                } else {
                    q
                }
            }
        },
    }
}

/// The metadata after a route's egress instruction: the outgoing interface
/// and next hop it names are recorded, the others left as they were.
pub open spec fn spec_exec_egress(meta: PacketMeta, egress: EgressObject) -> PacketMeta {
    PacketMeta {
        oif: match egress.ifindex {
            Some(ifindex) => Some(InterfaceId(ifindex)),
            None => meta.oif,
        },
        nh_addr: match egress.address {
            Some(addr) => Some(addr),
            None => meta.nh_addr,
        },
        ..meta
    }
}

/// Decrement the TTL or hop limit of a packet to `dst_address`, which must be
/// of the packet's IP version; see [`spec_forward_decrement_ttl`].
pub fn decrement_ttl<Buf: PacketBufferMut>(packet: &mut Packet<Buf>, dst_address: IpAddress)
    requires
        dst_address is V4 ==> spec_ipv4(old(packet)@.headers) is Some,
        dst_address is V6 ==> spec_ipv6(old(packet)@.headers) is Some,
    ensures
        final(packet)@ == spec_forward_decrement_ttl(old(packet)@, dst_address),
{
    match dst_address {
        IpAddress::V4(_) => {
            let exceeded = match packet.headers_mut().try_ipv4_mut() {
                Some(ipv4) => ipv4.decrement_ttl().is_err() || ipv4.ttl() == 0,
                None => false,
            };
            if exceeded {
                packet.done(DoneReason::HopLimitExceeded);
            }
        },
        IpAddress::V6(_) => {
            let exceeded = match packet.headers_mut().try_ipv6_mut() {
                Some(ipv6) => ipv6.decrement_hop_limit().is_err() || ipv6.hop_limit() == 0,
                None => false,
            };
            if exceeded {
                packet.done(DoneReason::HopLimitExceeded);
            }
        },
    }
}

/// A route's drop instruction: the packet is done as dropped by the route.
pub fn packet_exec_instruction_drop<Buf: PacketBufferMut>(packet: &mut Packet<Buf>)
    ensures
        final(packet)@ == spec_with_meta(old(packet)@, spec_mark_done(old(packet)@.meta, DoneReason::RouteDrop)),
{
    packet.done(DoneReason::RouteDrop);
}

/// A route's egress instruction; see [`spec_exec_egress`].
pub fn packet_exec_instruction_egress<Buf: PacketBufferMut>(packet: &mut Packet<Buf>, egress: &EgressObject)
    ensures
        final(packet)@ == spec_with_meta(old(packet)@, spec_exec_egress(old(packet)@.meta, *egress)),
{
    let meta = packet.get_meta_mut();
    if let Some(ifindex) = egress.ifindex {
        meta.oif = Some(InterfaceId::new(ifindex));
    }
    if let Some(addr) = egress.address {
        meta.nh_addr = Some(addr);
    }
}

/// The UDP source port of the VXLAN packets this stage builds.
pub const VXLAN_ENCAP_SOURCE_PORT: u16 = 1000;

/// The time to live (hop limit) of the outer IP header of the VXLAN packets
/// this stage builds.
pub const VXLAN_ENCAP_TTL: u8 = 64;

/// A VXLAN encapsulation that a route asks for: the VNI, the remote tunnel
/// endpoint and, once resolved, the local endpoint and the outer MAC
/// addresses.
#[derive(Clone, Copy, Debug, PartialEq, Eq)]
pub struct VxlanEncapsulation {
    /// The VNI to put in the VXLAN header.
    pub vni: Vni,
    /// The remote tunnel endpoint.
    pub remote: IpAddress,
    /// The local tunnel endpoint, if known.
    pub local: Option<IpAddress>,
    /// The outer source MAC address, if known.
    pub smac: Option<Mac>,
    /// The outer destination MAC address, if known.
    pub dmac: Option<Mac>,
}

/// Whether `mac` may be the destination of a frame: it is not all zeros.
pub open spec fn spec_is_destination_mac(mac: Mac) -> bool {
    !(forall|i: int| 0 <= i < 6 ==> mac.0@[i] == 0)
}

/// Whether the outer headers of `v` can be built: both MAC addresses and the
/// local endpoint are known, and the two endpoints are of one IP version.
pub open spec fn spec_vxlan_buildable(v: VxlanEncapsulation) -> bool {
    &&& v.smac is Some
    &&& v.dmac is Some
    &&& v.local matches Some(local) && (local is V4 <==> v.remote is V4)
}

/// The outer network header of `v`: from the local to the remote endpoint,
/// carrying UDP, with time to live [`VXLAN_ENCAP_TTL`].
pub open spec fn spec_vxlan_net(v: VxlanEncapsulation) -> Net {
    match (v.local->Some_0, v.remote) {
        (IpAddress::V4(src), IpAddress::V4(dst)) => Net::Ipv4(
            Ipv4 { source: src, destination: dst, protocol: PROTO_UDP, ttl: VXLAN_ENCAP_TTL },
        ),
        (IpAddress::V6(src), IpAddress::V6(dst)) => Net::Ipv6(
            Ipv6 {
                source: src,
                destination: dst,
                next_header: PROTO_UDP,
                hop_limit: VXLAN_ENCAP_TTL,
            },
        ),
        _ => arbitrary(),
    }
}

/// Whether `h` are the outer headers of the encapsulation `v`: Ethernet from
/// `v.smac` to `v.dmac` with the ethertype of the endpoints' IP version, no
/// VLAN tag, the network header of [`spec_vxlan_net`], no extension header,
/// UDP from port [`VXLAN_ENCAP_SOURCE_PORT`] to [`VXLAN_PORT`] (length that of
/// the header alone, checksum zero) and a VXLAN header with `v.vni`.
pub open spec fn spec_is_vxlan_headers(v: VxlanEncapsulation, h: HeadersView) -> bool {
    &&& h.eth == Eth {
        source: v.smac->Some_0,
        destination: v.dmac->Some_0,
        ether_type: EthType(if v.remote is V4 { ETH_TYPE_IPV4 } else { ETH_TYPE_IPV6 }),
    }
    &&& h.vlans == Seq::<crate::vlan::Vlan>::empty()
    &&& h.net == Some(spec_vxlan_net(v))
    &&& h.net_ext == Seq::<crate::headers::NetExt>::empty()
    &&& h.transport matches Some(Transport::Udp(udp)) && udp@ == (UdpFields {
        source: VXLAN_ENCAP_SOURCE_PORT,
        destination: VXLAN_PORT,
        length: UDP_LEN,
        checksum: 0,
    })
    &&& h.udp_encap matches Some(UdpEncap::Vxlan(vxlan)) && vxlan@ == v.vni@
}

/// Build the outer headers of the VXLAN encapsulation `vxlan`; fails when
/// [`spec_vxlan_buildable`] does not hold. The local endpoint must be unicast
/// and the MAC addresses usable as source and destination.
pub fn build_vxlan_headers(vxlan: &VxlanEncapsulation) -> (res: Result<Headers, ()>)
    requires
        spec_vxlan_buildable(*vxlan) ==> {
            &&& spec_is_unicast(vxlan.local->Some_0)
            &&& spec_is_source_mac(vxlan.smac->Some_0)
            &&& spec_is_destination_mac(vxlan.dmac->Some_0)
        },
    ensures
        res is Ok <==> spec_vxlan_buildable(*vxlan),
        res matches Ok(h) ==> spec_is_vxlan_headers(*vxlan, h@),
{
    let src_mac = match vxlan.smac {
        Some(mac) => mac,
        None => return Err(()),
    };
    let dst_mac = match vxlan.dmac {
        Some(mac) => mac,
        None => return Err(()),
    };
    let src_ip = match vxlan.local {
        Some(ip) => ip,
        None => return Err(()),
    };
    let ether_type = match vxlan.remote {
        IpAddress::V4(_) => EthType(ETH_TYPE_IPV4),
        IpAddress::V6(_) => EthType(ETH_TYPE_IPV6),
    };
    let net = match (src_ip, vxlan.remote) {
        (IpAddress::V4(src), IpAddress::V4(dst)) => Net::Ipv4(
            Ipv4 { source: src, destination: dst, protocol: PROTO_UDP, ttl: VXLAN_ENCAP_TTL },
        ),
        (IpAddress::V6(src), IpAddress::V6(dst)) => Net::Ipv6(
            Ipv6 {
                source: src,
                destination: dst,
                next_header: PROTO_UDP,
                hop_limit: VXLAN_ENCAP_TTL,
            },
        ),
        _ => return Err(()),
    };
    let (sport, dport) = match (
        UdpPort::new_checked(VXLAN_ENCAP_SOURCE_PORT),
        UdpPort::new_checked(VXLAN_PORT),
    ) {
        (Some(s), Some(d)) => (s, d),
        _ => return Err(()),
    };
    let mut headers = Headers::new(Eth::new(src_mac, dst_mac, ether_type));
    headers.net = Some(net);
    headers.transport = Some(Transport::Udp(Udp::new(sport, dport)));
    headers.udp_encap = Some(UdpEncap::Vxlan(Vxlan::new(vxlan.vni)));
    Ok(headers)
}

/// An encapsulation that a route asks for.
#[derive(Clone, Copy, Debug, PartialEq, Eq)]
pub enum Encapsulation {
    /// VXLAN towards a remote tunnel endpoint.
    Vxlan(VxlanEncapsulation),
    /// An MPLS label (not supported yet).
    Mpls(u32),
}

/// One instruction of a route's FIB entry.
#[derive(Clone, Copy, Debug, PartialEq, Eq)]
pub enum PktInstruction {
    /// Drop the packet.
    Drop,
    /// The packet is for the gateway itself, on the interface with this index.
    Local(u32),
    /// Encapsulate the packet.
    Encap(Encapsulation),
    /// Send the packet out of an interface and/or to a next hop.
    Egress(EgressObject),
    /// Translate the packet's addresses (done by a NAT stage).
    Nat,
}

/// What stripping a VXLAN encapsulation from a packet for the gateway gave.
#[derive(Clone, Copy, Debug)]
pub enum LocalOutcome {
    /// The packet carries no VXLAN encapsulation.
    NotVxlan,
    /// The encapsulated packet could not be read.
    BadInner,
    /// The packet was decapsulated; looking up the FIB of its VNI gave the
    /// id of the VRF it belongs to.
    Vxlan(Lookup<u32>),
}

/// Whether the encapsulation instructions of `insts` from `from` on can be
/// carried out: each is VXLAN with outer headers that can be built (see
/// [`build_vxlan_headers`]).
pub open spec fn spec_encaps_buildable(insts: Seq<PktInstruction>, from: int) -> bool {
    forall|i: int|
        from <= i < insts.len() ==> (#[trigger] insts[i] matches PktInstruction::Encap(e) ==> (
        e matches Encapsulation::Vxlan(v) && (spec_vxlan_buildable(v) && spec_is_unicast(
            v.local->Some_0,
        ) && spec_is_source_mac(v.smac->Some_0) && spec_is_destination_mac(v.dmac->Some_0))))
}

/// `p` after a local delivery instruction whose VXLAN decapsulation gave
/// `outcome`: a packet without VXLAN encapsulation is delivered to the kernel
/// (its outgoing interface is the one it came in on); a decapsulated one is
/// tagged with the VRF of its VNI, when that was found.
pub open spec fn spec_exec_local(meta: PacketMeta, outcome: LocalOutcome) -> PacketMeta {
    match outcome {
        LocalOutcome::NotVxlan => spec_mark_done(
            PacketMeta { oif: Some(meta.iif), ..meta },
            DoneReason::Delivered,
        ),
        LocalOutcome::BadInner => meta,
        LocalOutcome::Vxlan(Lookup::Found(vrf)) => PacketMeta { vrf: Some(vrf), ..meta },
        LocalOutcome::Vxlan(_) => meta,
    }
}


/// The metadata after the instruction `inst`; `decap` is what the VXLAN
/// decapsulation gave when `inst` is a local delivery (and is not read
/// otherwise). An encapsulation changes the headers only (see
/// [`packet_exec_instruction`]).
pub open spec fn spec_exec_instruction(meta: PacketMeta, inst: PktInstruction, decap: LocalOutcome) -> PacketMeta {
    match inst {
        PktInstruction::Drop => spec_mark_done(meta, DoneReason::RouteDrop),
        PktInstruction::Egress(e) => spec_exec_egress(meta, e),
        PktInstruction::Nat => meta,
        PktInstruction::Local(_) => spec_exec_local(meta, decap),
        PktInstruction::Encap(_) => meta,
    }
}

/// The number of local delivery instructions in `insts`.
pub open spec fn spec_count_locals(insts: Seq<PktInstruction>) -> nat
    decreases insts.len(),
{
    if insts.len() == 0 {
        0
    } else {
        spec_count_locals(insts.drop_last()) + if insts.last() is Local {
            1nat
        } else {
            0nat
        }
    }
}

/// The metadata after the first `n` instructions of `insts`, carried out in
/// order, the `k`-th local delivery with the decapsulation outcome
/// `decaps[k]`.
pub open spec fn spec_exec_prefix(
    meta: PacketMeta,
    insts: Seq<PktInstruction>,
    decaps: Seq<LocalOutcome>,
    n: nat,
) -> PacketMeta
    decreases n,
{
    if n == 0 || n > insts.len() {
        meta
    } else {
        spec_exec_instruction(
            spec_exec_prefix(meta, insts, decaps, (n - 1) as nat),
            insts[n - 1],
            decaps[spec_count_locals(insts.take(n - 1)) as int],
        )
    }
}

/// The metadata after every instruction of `insts`, carried out in order; see
/// [`spec_exec_prefix`].
pub open spec fn spec_exec_instructions(meta: PacketMeta, insts: Seq<PktInstruction>, decaps: Seq<LocalOutcome>) -> PacketMeta {
    spec_exec_prefix(meta, insts, decaps, insts.len())
}

/// Whether `out` lists the encapsulations of `insts`, in order, each by its
/// instruction's index and the outer headers to put in front of the packet.
pub open spec fn spec_encaps_listed(insts: Seq<PktInstruction>, out: Seq<(usize, Headers)>) -> bool {
    &&& forall|j: int|
        #![trigger out[j]]
        0 <= j < out.len() ==> out[j].0 < insts.len() && (insts[out[j].0 as int] matches PktInstruction::Encap(
            Encapsulation::Vxlan(v),
        ) && spec_is_vxlan_headers(v, out[j].1@))
    &&& forall|j1: int, j2: int| 0 <= j1 < j2 < out.len() ==> out[j1].0 < out[j2].0
    &&& forall|i: int|
        0 <= i < insts.len() && (#[trigger] insts[i] is Encap) ==> exists|j: int|
            0 <= j < out.len() && out[j].0 == i
}

proof fn lemma_count_locals_step(insts: Seq<PktInstruction>, i: int)
    requires
        0 <= i < insts.len(),
    ensures
        spec_count_locals(insts.take(i + 1)) == spec_count_locals(insts.take(i)) + if insts[i] is Local {
            1nat
        } else {
            0nat
        },
{
    assert(insts.take(i + 1).drop_last() =~= insts.take(i));
}

proof fn lemma_count_locals_prefix(insts: Seq<PktInstruction>, i: int)
    requires
        0 <= i <= insts.len(),
    ensures
        spec_count_locals(insts.take(i)) <= spec_count_locals(insts),
    decreases insts.len() - i,
{
    if i < insts.len() {
        lemma_count_locals_step(insts, i);
        lemma_count_locals_prefix(insts, i + 1);
    } else {
        assert(insts.take(i) =~= insts);
    }
}

/// Carry out the instruction `inst` of a route: a drop, an egress or a NAT
/// instruction on the metadata; a local delivery with the outcome `decap` of
/// its VXLAN decapsulation; a VXLAN encapsulation by handing out the outer
/// headers to put in front of the packet (which the caller does). See
/// [`spec_exec_instruction`].
pub fn packet_exec_instruction<Buf: PacketBufferMut>(
    packet: &mut Packet<Buf>,
    inst: &PktInstruction,
    decap: LocalOutcome,
) -> (res: Option<Headers>)
    requires
        spec_encaps_buildable(seq![*inst], 0),
    ensures
        final(packet)@ == spec_with_meta(old(packet)@, spec_exec_instruction(old(packet)@.meta, *inst, decap)),
        res is Some <==> inst is Encap,
        res matches Some(h) ==> (*inst matches PktInstruction::Encap(Encapsulation::Vxlan(v))
            && spec_is_vxlan_headers(v, h@)),
{
    assert(seq![*inst][0] == *inst);
    match inst {
        PktInstruction::Drop => {
            packet_exec_instruction_drop(packet);
            None
        },
        PktInstruction::Egress(egress) => {
            packet_exec_instruction_egress(packet, egress);
            None
        },
        PktInstruction::Nat => None,
        PktInstruction::Local(_) => {
            packet_exec_instruction_local(packet, decap);
            None
        },
        PktInstruction::Encap(Encapsulation::Vxlan(vxlan)) => match build_vxlan_headers(vxlan) {
            Ok(headers) => Some(headers),
            Err(()) => {
                assert(false);
                None
            },
        },
        PktInstruction::Encap(Encapsulation::Mpls(_)) => {
            assert(false);
            None
        },
    }
}

/// A local delivery instruction, once its VXLAN decapsulation gave `outcome`;
/// see [`spec_exec_local`].
pub fn packet_exec_instruction_local<Buf: PacketBufferMut>(packet: &mut Packet<Buf>, outcome: LocalOutcome)
    ensures
        final(packet)@ == spec_with_meta(old(packet)@, spec_exec_local(old(packet)@.meta, outcome)),
{
    match outcome {
        LocalOutcome::NotVxlan => {
            let meta = packet.get_meta_mut();
            meta.oif = Some(meta.iif);
            packet.done(DoneReason::Delivered);
        },
        LocalOutcome::BadInner => {},
        LocalOutcome::Vxlan(Lookup::Found(vrf)) => {
            packet.get_meta_mut().vrf = Some(vrf);
        },
        LocalOutcome::Vxlan(_) => {},
    }
}

/// Carry out every instruction of `instructions`, in order, the `k`-th local
/// delivery with the outcome `decaps[k]` of its VXLAN decapsulation; see
/// [`spec_exec_instructions`]. The encapsulations are handed out, in order
/// (see [`spec_encaps_listed`]), for the caller to put in front of the
/// packet; the decapsulations and encapsulations change the headers alone, so
/// the metadata does not depend on when they are made.
pub fn packet_exec_instructions<Buf: PacketBufferMut>(
    packet: &mut Packet<Buf>,
    instructions: &[PktInstruction],
    decaps: &[LocalOutcome],
) -> (res: Vec<(usize, Headers)>)
    requires
        spec_encaps_buildable(instructions@, 0),
        decaps@.len() == spec_count_locals(instructions@),
    ensures
        final(packet)@ == spec_with_meta(
            old(packet)@,
            spec_exec_instructions(old(packet)@.meta, instructions@, decaps@),
        ),
        spec_encaps_listed(instructions@, res@),
{
    let mut out: Vec<(usize, Headers)> = Vec::new();
    let mut i: usize = 0;
    let mut k: usize = 0;
    assert(instructions@.take(0) =~= Seq::<PktInstruction>::empty());
    while i < instructions.len()
        invariant
            i <= instructions@.len(),
            k == spec_count_locals(instructions@.take(i as int)),
            decaps@.len() == spec_count_locals(instructions@),
            spec_encaps_buildable(instructions@, 0),
            packet@ == spec_with_meta(
                old(packet)@,
                spec_exec_prefix(old(packet)@.meta, instructions@, decaps@, i as nat),
            ),
            forall|j: int|
                #![trigger out@[j]]
                0 <= j < out@.len() ==> out@[j].0 < i && (instructions@[out@[j].0 as int] matches PktInstruction::Encap(
                    Encapsulation::Vxlan(v),
                ) && spec_is_vxlan_headers(v, out@[j].1@)),
            forall|j1: int, j2: int| 0 <= j1 < j2 < out@.len() ==> out@[j1].0 < out@[j2].0,
            forall|i2: int|
                0 <= i2 < i && (#[trigger] instructions@[i2] is Encap) ==> exists|j: int|
                    0 <= j < out@.len() && out@[j].0 == i2,
        decreases instructions@.len() - i,
    {
        proof {
            lemma_count_locals_step(instructions@, i as int);
            lemma_count_locals_prefix(instructions@, i as int + 1);
        }
        let inst = &instructions[i];
        let is_local = match inst {
            PktInstruction::Local(_) => true,
            _ => false,
        };
        let decap = if is_local {
            decaps[k]
        } else {
            LocalOutcome::BadInner
        };
        assert(seq![*inst][0] == instructions@[i as int]);
        let r = packet_exec_instruction(packet, inst, decap);
        let ghost old_out = out@;
        if let Some(headers) = r {
            out.push((i, headers));
        }
        proof {
            assert forall|i2: int|
                0 <= i2 < i + 1 && (#[trigger] instructions@[i2] is Encap) implies exists|j: int|
                    0 <= j < out@.len() && out@[j].0 == i2 by {
                if i2 < i {
                    let j = choose|j: int| 0 <= j < old_out.len() && old_out[j].0 == i2;
                    assert(out@[j] == old_out[j]);
                } else {
                    assert(out@[out@.len() - 1].0 == i2);
                }
            }
        }
        if is_local {
            k = k + 1;
        }
        i = i + 1;
    }
    assert(instructions@.take(i as int) =~= instructions@);
    out
}

/// The metadata as [`forward_packet`] leaves it: the VRF tag is cleared; a
/// packet that is not IP, or is already done, goes no further; else every
/// instruction of the FIB entry, when it was found, is carried out in order
/// (see [`spec_exec_instructions`]).
pub open spec fn spec_forward<Buf>(
    p: PacketView<Buf>,
    entry: Lookup<Seq<PktInstruction>>,
    decaps: Seq<LocalOutcome>,
) -> PacketMeta {
    let meta = PacketMeta { vrf: None, ..p.meta };
    if p.headers.net is None || p.meta.done is Some {
        meta
    } else {
        match entry {
            Lookup::Found(insts) => spec_exec_instructions(meta, insts, decaps),
            _ => meta,
        }
    }
}

/// The forwarding of an IP packet through the FIB entry `entry` that looking
/// up its VRF's FIB gave, the `k`-th local delivery of the entry with the
/// outcome `decaps[k]` of its VXLAN decapsulation; see [`spec_forward`]. The
/// encapsulations the entry asks for are handed out, in order, for the caller
/// to put in front of the packet (none when the entry is not carried out).
pub fn forward_packet<Buf: PacketBufferMut>(
    packet: &mut Packet<Buf>,
    entry: Lookup<&[PktInstruction]>,
    decaps: &[LocalOutcome],
) -> (res: Vec<(usize, Headers)>)
    requires
        old(packet)@.headers.net is Some && old(packet)@.meta.done is None ==> (entry matches Lookup::Found(
            insts,
        ) ==> spec_encaps_buildable(insts@, 0) && decaps@.len() == spec_count_locals(insts@)),
    ensures
        final(packet)@ == spec_with_meta(
            old(packet)@,
            spec_forward(
                old(packet)@,
                match entry {
                    Lookup::Unavailable => Lookup::Unavailable,
                    Lookup::Missing => Lookup::Missing,
                    Lookup::Found(insts) => Lookup::Found(insts@),
                },
                decaps@,
            ),
        ),
        old(packet)@.headers.net is Some && old(packet)@.meta.done is None && entry is Found ==> spec_encaps_listed(
            entry->Found_0@,
            res@,
        ),
        !(old(packet)@.headers.net is Some && old(packet)@.meta.done is None && entry is Found) ==> res@.len()
            == 0,
{
    packet.get_meta_mut().vrf = None;
    if packet.get_headers().net.is_none() {
        return Vec::new();
    }
    if packet.is_done() {
        return Vec::new();
    }
    match entry {
        Lookup::Found(insts) => packet_exec_instructions(packet, insts, decaps),
        _ => Vec::new(),
    }
}

/// Decrementing the hop limit of an IPv6 packet whose hop limit `h` is not
/// zero leaves it `h - 1`, every other field of the header, the other
/// headers and the payload as they were; the packet is done as out of hops
/// exactly when the hop limit reaches zero.
pub proof fn lemma_decrement_hop_limit<Buf>(p: PacketView<Buf>, ip: Ipv6, dst: u128)
    requires
        p.headers.net == Some(Net::Ipv6(ip)),
        ip.hop_limit > 0,
    ensures
        ({
            let q = spec_forward_decrement_ttl(p, IpAddress::V6(dst));
            &&& q.headers.net == Some(Net::Ipv6(Ipv6 { hop_limit: (ip.hop_limit - 1) as u8, ..ip }))
            &&& q.headers.eth == p.headers.eth
            &&& q.headers.transport == p.headers.transport
            &&& q.payload == p.payload
            &&& q.meta == if ip.hop_limit == 1 {
                spec_mark_done(p.meta, DoneReason::HopLimitExceeded)
            } else {
                p.meta
            }
        }),
{
}

/// Decrementing the TTL of an IPv4 packet whose TTL `t` is not zero leaves
/// it `t - 1`, every other field of the header, the other headers and the
/// payload as they were; the packet is done as out of hops exactly when the
/// TTL reaches zero.
pub proof fn lemma_decrement_ttl_v4<Buf>(p: PacketView<Buf>, ip: Ipv4, dst: u32)
    requires
        p.headers.net == Some(Net::Ipv4(ip)),
        ip.ttl > 0,
    ensures
        ({
            let q = spec_forward_decrement_ttl(p, IpAddress::V4(dst));
            &&& q.headers.net == Some(Net::Ipv4(Ipv4 { ttl: (ip.ttl - 1) as u8, ..ip }))
            &&& q.headers.eth == p.headers.eth
            &&& q.headers.transport == p.headers.transport
            &&& q.payload == p.payload
            &&& q.meta == if ip.ttl == 1 {
                spec_mark_done(p.meta, DoneReason::HopLimitExceeded)
            } else {
                p.meta
            }
        }),
{
}

/// A packet whose TTL (IPv4) or hop limit (IPv6) is already zero keeps its
/// headers and is done as out of hops.
pub proof fn lemma_decrement_at_zero<Buf>(p: PacketView<Buf>, dst: IpAddress)
    requires
        match (dst, p.headers.net) {
            (IpAddress::V4(_), Some(Net::Ipv4(ip))) => ip.ttl == 0,
            (IpAddress::V6(_), Some(Net::Ipv6(ip))) => ip.hop_limit == 0,
            _ => false,
        },
    ensures
        spec_forward_decrement_ttl(p, dst).headers == p.headers,
        spec_forward_decrement_ttl(p, dst).meta == spec_mark_done(p.meta, DoneReason::HopLimitExceeded),
{
}

} // verus!

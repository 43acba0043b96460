//! Sample network functions.

use crate::buffer::PacketBufferMut;
use crate::eth::{spec_broadcast_mac, Eth, Mac};
use crate::headers::{HeadersView, Net, TryHeadersMut, TryIpv4Mut, TryIpv6Mut};
use crate::ip::{Ipv4, Ipv6};
use crate::packet::{Packet, PacketView};
use crate::pipeline::{spec_views, NetworkFunction};
use vstd::prelude::*;

verus! {

/// A network function that looks at the parsed headers of each packet and
/// hands every packet on unchanged.
pub struct InspectHeaders;

/// A network function that sets the destination MAC address of every packet
/// to the broadcast address.
pub struct BroadcastMacs;

/// A network function that decrements the TTL (IPv4) or hop limit (IPv6) of
/// IP packets, dropping those where it is already zero; other packets pass
/// unchanged.
pub struct DecrementTtl;

/// A network function that hands every packet on unchanged.
pub struct Passthrough;

/// `p` with its destination MAC address set to the broadcast address.
pub open spec fn spec_broadcast_dst<Buf>(p: PacketView<Buf>) -> PacketView<Buf> {
    PacketView {
        headers: HeadersView {
            eth: Eth { destination: spec_broadcast_mac(), ..p.headers.eth },
            ..p.headers
        },
        ..p
    }
}

/// What [`DecrementTtl`] makes of `p`: an IP packet with its TTL (hop limit)
/// one lower, `None` (dropped) when it is already zero; any other packet
/// unchanged.
pub open spec fn spec_decrement_ttl<Buf>(p: PacketView<Buf>) -> Option<PacketView<Buf>> {
    match p.headers.net {
        Some(Net::Ipv4(ip)) => if ip.ttl == 0 {
            None
        } else {
            Some(
                PacketView {
                    headers: HeadersView {
                        net: Some(Net::Ipv4(Ipv4 { ttl: (ip.ttl - 1) as u8, ..ip })),
                        ..p.headers
                    },
                    ..p
                },
            )
        },
        Some(Net::Ipv6(ip)) => if ip.hop_limit == 0 {
            None
        } else {
            Some(
                PacketView {
                    headers: HeadersView {
                        net: Some(Net::Ipv6(Ipv6 { hop_limit: (ip.hop_limit - 1) as u8, ..ip })),
                        ..p.headers
                    },
                    ..p
                },
            )
        },
        None => Some(p),
    }
}

/// [`spec_decrement_ttl`] applied to each packet of `s`, keeping the packets
/// it does not drop, in order.
pub open spec fn spec_decrement_ttl_all<Buf>(s: Seq<PacketView<Buf>>) -> Seq<PacketView<Buf>>
    decreases s.len(),
{
    if s.len() == 0 {
        Seq::empty()
    } else {
        let kept = spec_decrement_ttl_all(s.drop_last());
        match spec_decrement_ttl(s.last()) {
            Some(q) => kept.push(q),
            None => kept,
        }
    }
}

impl<Buf: PacketBufferMut> NetworkFunction<Buf> for Passthrough {
    open spec fn spec_process(&self, input: Seq<PacketView<Buf>>) -> Seq<PacketView<Buf>> {
        input
    }

    fn process(&mut self, input: Vec<Packet<Buf>>) -> (res: Vec<Packet<Buf>>) {
        input
    }
}

impl<Buf: PacketBufferMut> NetworkFunction<Buf> for InspectHeaders {
    open spec fn spec_process(&self, input: Seq<PacketView<Buf>>) -> Seq<PacketView<Buf>> {
        input
    }

    fn process(&mut self, input: Vec<Packet<Buf>>) -> (res: Vec<Packet<Buf>>) {
        input
    }
}

impl<Buf: PacketBufferMut> NetworkFunction<Buf> for BroadcastMacs {
    open spec fn spec_process(&self, input: Seq<PacketView<Buf>>) -> Seq<PacketView<Buf>> {
        input.map_values(|p: PacketView<Buf>| spec_broadcast_dst(p))
    }

    fn process(&mut self, input: Vec<Packet<Buf>>) -> (res: Vec<Packet<Buf>>) {
        let ghost views = spec_views(input@);
        let mut out: Vec<Packet<Buf>> = Vec::new();
        for packet in it: input.into_iter()
            invariant
                it.seq() == input@,
                views == spec_views(input@),
                spec_views(out@) == views.take(it.index() as int).map_values(
                    |p: PacketView<Buf>| spec_broadcast_dst(p),
                ),
        {
            let ghost before = packet@;
            let ghost i = it.index();
            assert(before == views[i as int]);
            let mut packet = packet;
            packet.headers_mut().eth.set_destination(Mac::broadcast());
            assert(packet@ == spec_broadcast_dst(before));
            let ghost old_out = out@;
            let ghost after = packet@;
            out.push(packet);
            assert(spec_views(out@) =~= spec_views(old_out).push(after));
            assert(views.take(i + 1) =~= views.take(i).push(before));
            assert(spec_views(out@) =~= views.take(i + 1).map_values(
                |p: PacketView<Buf>| spec_broadcast_dst(p),
            ));
        }
        out
    }
}

/// Decrement the TTL or hop limit of one packet; see [`spec_decrement_ttl`].
fn decrement_one<Buf: PacketBufferMut>(packet: Packet<Buf>) -> (res: Option<Packet<Buf>>)
    ensures
        match spec_decrement_ttl(packet@) {
            Some(q) => res matches Some(r) && r@ == q,
            None => res is None,
        },
{
    let mut packet = packet;
    let v4 = match packet.headers_mut().try_ipv4_mut() {
        Some(ipv4) => Some(ipv4.decrement_ttl().is_ok()),
        None => None,
    };
    match v4 {
        Some(true) => {
            return Some(packet);
        },
        Some(false) => {
            return None;
        },
        None => {},
    }
    let v6 = match packet.headers_mut().try_ipv6_mut() {
        Some(ipv6) => Some(ipv6.decrement_hop_limit().is_ok()),
        None => None,
    };
    match v6 {
        Some(true) => Some(packet),
        Some(false) => None,
        None => Some(packet),
    }
}

impl<Buf: PacketBufferMut> NetworkFunction<Buf> for DecrementTtl {
    open spec fn spec_process(&self, input: Seq<PacketView<Buf>>) -> Seq<PacketView<Buf>> {
        spec_decrement_ttl_all(input)
    }

    fn process(&mut self, input: Vec<Packet<Buf>>) -> (res: Vec<Packet<Buf>>) {
        let ghost views = spec_views(input@);
        let mut out: Vec<Packet<Buf>> = Vec::new();
        proof {
            assert(views.take(0) =~= Seq::<PacketView<Buf>>::empty());
        }
        for packet in it: input.into_iter()
            invariant
                it.seq() == input@,
                views == spec_views(input@),
                spec_views(out@) == spec_decrement_ttl_all(views.take(it.index() as int)),
        {
            let ghost before = packet@;
            let ghost i = it.index();
            assert(before == views[i as int]);
            assert(views.take(i + 1).drop_last() =~= views.take(i));
            assert(views.take(i + 1).last() == before);
            let ghost old_out = out@;
            match decrement_one(packet) {
                Some(kept) => {
                    let ghost after = kept@;
                    out.push(kept);
                    assert(spec_views(out@) =~= spec_views(old_out).push(after));
                },
                None => {},
            }
        }
        proof {
            assert(views.take(views.len() as int) =~= views);
        }
        out
    }
}

} // verus!

verus! {

/// `k` passes of [`DecrementTtl`] over `s`.
pub open spec fn spec_decrement_ttl_times<Buf>(s: Seq<PacketView<Buf>>, k: nat) -> Seq<PacketView<Buf>>
    decreases k,
{
    if k == 0 {
        s
    } else {
        spec_decrement_ttl_all(spec_decrement_ttl_times(s, (k - 1) as nat))
    }
}

/// `k` passes of [`DecrementTtl`] take `k` off the TTL of an IPv4 packet whose
/// TTL is at least `k`, and keep the packet.
pub proof fn lemma_decrement_ttl_times<Buf>(p: PacketView<Buf>, ip: Ipv4, k: nat)
    requires
        p.headers.net == Some(Net::Ipv4(ip)),
        ip.ttl >= k,
    ensures
        spec_decrement_ttl_times(seq![p], k) == seq![
            PacketView {
                headers: HeadersView {
                    net: Some(Net::Ipv4(Ipv4 { ttl: (ip.ttl - k) as u8, ..ip })),
                    ..p.headers
                },
                ..p
            },
        ],
    decreases k,
{
    if k > 0 {
        lemma_decrement_ttl_times(p, ip, (k - 1) as nat);
        let prev = spec_decrement_ttl_times(seq![p], (k - 1) as nat);
        assert(prev.drop_last() =~= Seq::<PacketView<Buf>>::empty());
        assert(spec_decrement_ttl_all(prev.drop_last()) =~= Seq::<PacketView<Buf>>::empty());
        let q = prev.last();
        let ipq = Ipv4 { ttl: (ip.ttl - (k - 1)) as u8, ..ip };
        assert(q.headers.net == Some(Net::Ipv4(ipq)));
        assert(spec_decrement_ttl_all(prev) =~= seq![spec_decrement_ttl(q)->Some_0]);
        assert(Ipv4 { ttl: (ipq.ttl - 1) as u8, ..ipq } == Ipv4 { ttl: (ip.ttl - k) as u8, ..ip });
    } else {
        assert(seq![p] =~= seq![
            PacketView {
                headers: HeadersView {
                    net: Some(Net::Ipv4(Ipv4 { ttl: (ip.ttl - k) as u8, ..ip })),
                    ..p.headers
                },
                ..p
            },
        ]);
    }
}

} // verus!

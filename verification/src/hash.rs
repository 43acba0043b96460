//! Packet hashing for equal-cost multi-path selection.

use crate::buffer::PacketBufferMut;
use crate::headers::{HeadersView, Net, Transport, TryIp, TryTransport};
use crate::packet::{IpAddress, Packet};
use ahash::AHasher;
use core::hash::{Hash, Hasher};
use vstd::prelude::*;

verus! {

/// The fields of a packet that its hash covers: source and destination
/// address, protocol, and the source and destination ports of TCP and UDP.
pub type FlowKey = (IpAddress, IpAddress, u8, Option<(u16, u16)>);

/// The fields that [`Packet::hash_key`] takes from headers `h`: none for a
/// packet that is not IP; no ports for a transport other than TCP and UDP.
pub open spec fn spec_flow_key(h: HeadersView) -> Option<FlowKey> {
    match h.net {
        None => None,
        Some(net) => {
            let (src, dst, proto) = match net {
                Net::Ipv4(ip) => (IpAddress::V4(ip.source), IpAddress::V4(ip.destination), ip.protocol),
                Net::Ipv6(ip) => (IpAddress::V6(ip.source), IpAddress::V6(ip.destination), ip.next_header),
            };
            let ports = match h.transport {
                Some(Transport::Tcp(t)) => Some((t.source, t.destination)),
                Some(Transport::Udp(u)) => Some((u@.source, u@.destination)),
                _ => None,
            };
            Some((src, dst, proto, ports))
        },
    }
}

/// One value fed to a flow hasher, with the type whose `Hash` fed it.
#[derive(Clone, Copy, Debug, PartialEq, Eq, Structural)]
pub enum HashWord {
    /// An IPv4 address (`Ipv4Addr`).
    Ipv4(u32),
    /// An IPv6 address (`Ipv6Addr`).
    Ipv6(u128),
    /// A `u8`.
    U8(u8),
    /// A `u16`.
    U16(u16),
}

/// The word an address is fed as.
pub open spec fn spec_addr_word(addr: IpAddress) -> HashWord {
    match addr {
        IpAddress::V4(a) => HashWord::Ipv4(a),
        IpAddress::V6(a) => HashWord::Ipv6(a),
    }
}

/// The words [`Packet::hash_ip`] feeds for the flow key `key`, in order: the
/// source and destination address, the protocol, then the source and
/// destination port when there are ports; none for a packet that is not IP.
pub open spec fn spec_flow_words(key: Option<FlowKey>) -> Seq<HashWord> {
    match key {
        None => Seq::empty(),
        Some((src, dst, proto, ports)) => {
            let base = seq![spec_addr_word(src), spec_addr_word(dst), HashWord::U8(proto)];
            match ports {
                Some((sport, dport)) => base + seq![HashWord::U16(sport), HashWord::U16(dport)],
                None => base,
            }
        },
    }
}

#[verifier::external_type_specification]
#[verifier::external_body]
pub struct ExAHasher(AHasher);

/// A hasher with `ahash`'s fixed keys (`AHasher::default()`).
///
/// Trusted, with nothing stated of the hasher: its keys are drawn when the
/// process first needs them.
#[verifier::external_body]
fn new_hasher() -> AHasher {
    AHasher::default()
}

/// Feeds an IPv4 address, as a `core::net::Ipv4Addr`, to `state` (its `Hash`).
///
/// Trusted, with nothing stated of the hasher's new state.
#[verifier::external_body]
fn hash_ipv4_addr(state: &mut AHasher, addr: u32) {
    core::net::Ipv4Addr::from(addr).hash(state)
}

/// Feeds an IPv6 address, as a `core::net::Ipv6Addr`, to `state` (its `Hash`).
///
/// Trusted, with nothing stated of the hasher's new state.
#[verifier::external_body]
fn hash_ipv6_addr(state: &mut AHasher, addr: u128) {
    core::net::Ipv6Addr::from(addr).hash(state)
}

/// Feeds a protocol number to `state` (the `Hash` of `u8`).
///
/// Trusted, with nothing stated of the hasher's new state.
#[verifier::external_body]
fn hash_u8(state: &mut AHasher, value: u8) {
    value.hash(state)
}

/// Feeds a port number to `state` (the `Hash` of `u16`).
///
/// Trusted, with nothing stated of the hasher's new state.
#[verifier::external_body]
fn hash_u16(state: &mut AHasher, value: u16) {
    value.hash(state)
}

/// The hash of what was fed to `state` (`AHasher::finish`).
///
/// Trusted, with nothing stated of the result: it depends on the keys that
/// the process drew.
#[verifier::external_body]
fn finish_hash(state: &AHasher) -> u64 {
    state.finish()
}

/// An `ahash` hasher for packet flows, with the record of the words fed to
/// it since it was made.
pub struct FlowHasher {
    hasher: AHasher,
    fed: Ghost<Seq<HashWord>>,
}

impl FlowHasher {
    /// The words fed to this hasher since it was made, in order.
    pub closed spec fn fed(&self) -> Seq<HashWord> {
        self.fed@
    }

    /// A hasher with `ahash`'s fixed keys, fed nothing yet.
    pub fn new() -> (res: FlowHasher)
        ensures
            res.fed() == Seq::<HashWord>::empty(),
    {
        FlowHasher { hasher: new_hasher(), fed: Ghost(Seq::empty()) }
    }

    /// Feed `word` to the hasher, by the `Hash` of its type.
    pub fn write_word(&mut self, word: HashWord)
        ensures
            final(self).fed() == old(self).fed().push(word),
    {
        match word {
            HashWord::Ipv4(a) => hash_ipv4_addr(&mut self.hasher, a),
            HashWord::Ipv6(a) => hash_ipv6_addr(&mut self.hasher, a),
            HashWord::U8(v) => hash_u8(&mut self.hasher, v),
            HashWord::U16(v) => hash_u16(&mut self.hasher, v),
        }
        self.fed = Ghost(self.fed@.push(word));
    }

    /// The hash of the words fed. Not stated: it rests on the keys that the
    /// process drew.
    pub fn finish(&self) -> u64 {
        finish_hash(&self.hasher)
    }
}

/// Feeds an address to `state`, as the `Hash` of its IP version's address type.
fn hash_addr(state: &mut FlowHasher, addr: IpAddress)
    ensures
        final(state).fed() == old(state).fed().push(spec_addr_word(addr)),
{
    match addr {
        IpAddress::V4(a) => state.write_word(HashWord::Ipv4(a)),
        IpAddress::V6(a) => state.write_word(HashWord::Ipv6(a)),
    }
}

/// The bucket in `first..=last` that `hash` selects: `hash` modulo the number
/// of buckets, counted from `first`.
pub fn multipath_bucket(hash: u64, first: u8, last: u8) -> (res: u64)
    requires
        first <= last,
    ensures
        res == hash % ((last - first + 1) as u64) + first,
        first <= res <= last,
{
    let buckets: u64 = (last - first) as u64 + 1;
    hash % buckets + first as u64
}

impl<Buf: PacketBufferMut> Packet<Buf> {
    /// The fields of this packet that its hash covers; see [`spec_flow_key`].
    pub fn hash_key(&self) -> (res: Option<FlowKey>)
        ensures
            res == spec_flow_key(self@.headers),
    {
        match self.try_ip() {
            None => None,
            Some(ip) => {
                let (src, dst, proto) = match ip {
                    Net::Ipv4(ipv4) => (
                        IpAddress::V4(ipv4.source()),
                        IpAddress::V4(ipv4.destination()),
                        ipv4.protocol(),
                    ),
                    Net::Ipv6(ipv6) => (
                        IpAddress::V6(ipv6.source()),
                        IpAddress::V6(ipv6.destination()),
                        ipv6.next_header(),
                    ),
                };
                let ports = match self.try_transport() {
                    Some(Transport::Tcp(tcp)) => Some((tcp.source, tcp.destination)),
                    Some(Transport::Udp(udp)) => Some((udp.raw_source(), udp.raw_destination())),
                    _ => None,
                };
                Some((src, dst, proto, ports))
            },
        }
    }

    /// Feeds the fields of [`Packet::hash_key`] to `state`, one by one; see
    /// [`spec_flow_words`].
    pub fn hash_ip(&self, state: &mut FlowHasher)
        ensures
            final(state).fed() == old(state).fed() + spec_flow_words(spec_flow_key(self@.headers)),
    {
        match self.hash_key() {
            None => {
                assert(old(state).fed() + Seq::<HashWord>::empty() =~= old(state).fed());
            },
            Some((src, dst, proto, ports)) => {
                hash_addr(state, src);
                hash_addr(state, dst);
                state.write_word(HashWord::U8(proto));
                match ports {
                    Some((sport, dport)) => {
                        state.write_word(HashWord::U16(sport));
                        state.write_word(HashWord::U16(dport));
                    },
                    None => {},
                }
                assert(state.fed() =~= old(state).fed() + spec_flow_words(spec_flow_key(self@.headers)));
            },
        }
    }

    /// A hash of the packet's addresses, protocol and ports (those of
    /// [`Packet::hash_ip`], fed to a fresh [`FlowHasher`]) mapped into
    /// `first..=last` with [`multipath_bucket`].
    ///
    /// Which bucket is not stated: the hash rests on the keys that the
    /// process drew.
    pub fn packet_hash_ecmp(&self, first: u8, last: u8) -> (res: u64)
        requires
            first <= last,
        ensures
            first <= res <= last,
    {
        let mut hasher = FlowHasher::new();
        self.hash_ip(&mut hasher);
        multipath_bucket(hasher.finish(), first, last)
    }
}

/// The flow key of an IP packet holds its source and destination address (of
/// its IP version) and its protocol; for TCP and UDP it holds the transport
/// header's source and destination port, for any other transport none.
pub proof fn lemma_flow_key_fields(h: HeadersView)
    requires
        h.net is Some,
    ensures
        spec_flow_key(h) is Some,
        ({
            let (src, dst, proto, ports) = spec_flow_key(h)->Some_0;
            &&& match h.net->Some_0 {
                Net::Ipv4(ip) => src == IpAddress::V4(ip.source) && dst == IpAddress::V4(ip.destination)
                    && proto == ip.protocol,
                Net::Ipv6(ip) => src == IpAddress::V6(ip.source) && dst == IpAddress::V6(ip.destination)
                    && proto == ip.next_header,
            }
            &&& match h.transport {
                Some(Transport::Tcp(t)) => ports == Some((t.source, t.destination)),
                Some(Transport::Udp(u)) => ports == Some((u@.source, u@.destination)),
                _ => ports is None,
            }
        }),
{
}

/// A packet that is not IP has no flow key, and nothing of it is hashed.
pub proof fn lemma_flow_key_not_ip(h: HeadersView)
    requires
        h.net is None,
    ensures
        spec_flow_key(h) is None,
        spec_flow_words(spec_flow_key(h)).len() == 0,
{
}

/// The words hashed for an IP packet carrying TCP or UDP are five: its two
/// addresses, its protocol, then the transport header's source and
/// destination port; for another transport, the first three alone.
pub proof fn lemma_flow_words_ports(h: HeadersView)
    requires
        h.net is Some,
    ensures
        ({
            let w = spec_flow_words(spec_flow_key(h));
            let (src, dst, proto, ports) = spec_flow_key(h)->Some_0;
            &&& w[0] == spec_addr_word(src)
            &&& w[1] == spec_addr_word(dst)
            &&& w[2] == HashWord::U8(proto)
            &&& match h.transport {
                Some(Transport::Tcp(t)) => w.len() == 5 && w[3] == HashWord::U16(t.source) && w[4]
                    == HashWord::U16(t.destination),
                Some(Transport::Udp(u)) => w.len() == 5 && w[3] == HashWord::U16(u@.source) && w[4]
                    == HashWord::U16(u@.destination),
                _ => w.len() == 3,
            }
        }),
{
}

} // verus!

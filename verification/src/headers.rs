//! [`Headers`]: the parsed headers of a packet, from Ethernet down to a UDP
//! encapsulation, and the traits through which they are reached.

use crate::eth::{Eth, EthType, ETH_TYPE_VLAN};
use crate::ip::{Icmp4, Icmp6, IpAuth, Ipv4, Ipv6, Ipv6Ext, Tcp};
use crate::udp::{Udp, UdpEncap};
use crate::vlan::{Pcp, Vid, Vlan};
use crate::vxlan::Vxlan;
use arrayvec::ArrayVec;
use vstd::std_specs::convert::FromSpecImpl;
use core::fmt::Debug;
use vstd::prelude::*;

verus! {

/// The most VLAN tags a [`Headers`] holds.
pub const MAX_VLANS: usize = 4;

/// The most network extension headers a [`Headers`] holds.
pub const MAX_NET_EXTENSIONS: usize = 2;

/// A network layer header.
#[derive(Clone, Copy, Debug, PartialEq, Eq, Structural)]
pub enum Net {
    /// IPv4.
    Ipv4(Ipv4),
    /// IPv6.
    Ipv6(Ipv6),
}

/// A network layer extension header.
#[derive(Clone, Copy, Debug, PartialEq, Eq, Structural)]
pub enum NetExt {
    /// An IP authentication header.
    IpAuth(IpAuth),
    /// An IPv6 extension header.
    Ipv6Ext(Ipv6Ext),
}

/// A transport layer header.
#[derive(Clone, Copy, Debug, PartialEq, Eq, Structural)]
pub enum Transport {
    /// TCP.
    Tcp(Tcp),
    /// UDP.
    Udp(Udp),
    /// ICMPv4.
    Icmp4(Icmp4),
    /// ICMPv6.
    Icmp6(Icmp6),
}

/// Any one header of a packet.
#[derive(Clone, Copy, Debug, PartialEq, Eq)]
pub enum Header {
    /// Ethernet.
    Eth(Eth),
    /// A VLAN tag.
    Vlan(Vlan),
    /// IPv4.
    Ipv4(Ipv4),
    /// IPv6.
    Ipv6(Ipv6),
    /// TCP.
    Tcp(Tcp),
    /// UDP.
    Udp(Udp),
    /// ICMPv4.
    Icmp4(Icmp4),
    /// ICMPv6.
    Icmp6(Icmp6),
    /// An IP authentication header.
    IpAuth(IpAuth),
    /// An IPv6 extension header.
    IpV6Ext(Ipv6Ext),
    /// A UDP encapsulation.
    Encap(UdpEncap),
}

/// The headers of a packet.
///
/// The VLAN tags are kept innermost first, at most [`MAX_VLANS`] of them: the
/// last tag is the outermost one, right after the Ethernet header. A tag read
/// from a frame (outermost first) goes in front of those read before it, and
/// a tag that [`Headers::push_vlan`] adds, the new outermost one, goes last.
/// The network extension headers are kept in the order they were met, at
/// most [`MAX_NET_EXTENSIONS`] of them.
#[derive(Clone, Debug, PartialEq, Eq)]
pub struct Headers {
    /// The Ethernet header.
    pub eth: Eth,
    /// The VLAN tags.
    pub vlan: ArrayVec<Vlan, MAX_VLANS>,
    /// The network header, if any.
    pub net: Option<Net>,
    /// The network extension headers.
    pub net_ext: ArrayVec<NetExt, MAX_NET_EXTENSIONS>,
    /// The transport header, if any.
    pub transport: Option<Transport>,
    /// The UDP encapsulation, if any.
    pub udp_encap: Option<UdpEncap>,
}

/// The headers of a packet with their stacks taken as sequences.
pub struct HeadersView {
    /// The Ethernet header.
    pub eth: Eth,
    /// The VLAN tags, innermost first: the last is the outermost.
    pub vlans: Seq<Vlan>,
    /// The network header, if any.
    pub net: Option<Net>,
    /// The network extension headers.
    pub net_ext: Seq<NetExt>,
    /// The transport header, if any.
    pub transport: Option<Transport>,
    /// The UDP encapsulation, if any.
    pub udp_encap: Option<UdpEncap>,
}

/// The header stack is already as deep as it may be.
#[derive(Debug, PartialEq, Eq, Structural)]
pub struct TooManyVlans;

#[verifier::external_type_specification]
#[verifier::external_body]
#[verifier::reject_recursive_types(T)]
pub struct ExArrayVec<T, const CAP: usize>(ArrayVec<T, CAP>);

/// `Clone` for `ArrayVec`, used by the derived `Clone` of [`Headers`].
///
/// Trusted: nothing is stated of the copy, so nothing is proved from it.
pub assume_specification<T, const CAP: usize>[ <ArrayVec<T, CAP> as Clone>::clone ](
    v: &ArrayVec<T, CAP>,
) -> ArrayVec<T, CAP>
    where
        T: Clone,
;

/// The VLAN tags held by an `ArrayVec`, in order.
pub uninterp spec fn vlan_stack(v: ArrayVec<Vlan, MAX_VLANS>) -> Seq<Vlan>;

/// The extension headers held by an `ArrayVec`, in order.
pub uninterp spec fn net_ext_stack(v: ArrayVec<NetExt, MAX_NET_EXTENSIONS>) -> Seq<NetExt>;

/// An empty stack of VLAN tags (`ArrayVec::new`).
///
/// Trusted: `ArrayVec::new` holds no element.
#[verifier::external_body]
fn vlans_new() -> (res: ArrayVec<Vlan, MAX_VLANS>)
    ensures
        vlan_stack(res) == Seq::<Vlan>::empty(),
{
    ArrayVec::new()
}

/// The number of VLAN tags in a stack (`ArrayVec::len`).
///
/// Trusted: `len` counts the elements, which never exceed the capacity.
#[verifier::external_body]
fn vlans_len(v: &ArrayVec<Vlan, MAX_VLANS>) -> (res: usize)
    ensures
        res == vlan_stack(*v).len(),
        res <= MAX_VLANS,
{
    v.len()
}

/// Push a VLAN tag onto a stack that is not full (`ArrayVec::push`).
///
/// Trusted: `push` appends the element; it panics on a full vector, which the
/// `requires` rules out.
#[verifier::external_body]
fn vlans_push(v: &mut ArrayVec<Vlan, MAX_VLANS>, vlan: Vlan)
    requires
        vlan_stack(*old(v)).len() < MAX_VLANS,
    ensures
        vlan_stack(*final(v)) == vlan_stack(*old(v)).push(vlan),
{
    v.push(vlan)
}

/// Put a VLAN tag in front of the tags of a stack that is not full
/// (`ArrayVec::insert` at index 0).
///
/// Trusted: `insert` shifts the elements up and writes the new one at the
/// index; it panics on a full vector (or an index past the length), which
/// the `requires` rules out.
#[verifier::external_body]
fn vlans_insert_front(v: &mut ArrayVec<Vlan, MAX_VLANS>, vlan: Vlan)
    requires
        vlan_stack(*old(v)).len() < MAX_VLANS,
    ensures
        vlan_stack(*final(v)) == seq![vlan] + vlan_stack(*old(v)),
{
    v.insert(0, vlan)
}

/// Pop the last VLAN tag of a stack (`ArrayVec::pop`).
///
/// Trusted: `pop` removes and returns the last element, or returns `None` and
/// changes nothing on an empty vector.
#[verifier::external_body]
fn vlans_pop(v: &mut ArrayVec<Vlan, MAX_VLANS>) -> (res: Option<Vlan>)
    ensures
        vlan_stack(*old(v)).len() == 0 ==> res is None && vlan_stack(*final(v)) == vlan_stack(
            *old(v),
        ),
        vlan_stack(*old(v)).len() > 0 ==> res == Some(vlan_stack(*old(v)).last()) && vlan_stack(
            *final(v),
        ) == vlan_stack(*old(v)).drop_last(),
{
    v.pop()
}

/// An empty stack of extension headers (`ArrayVec::new`).
///
/// Trusted: `ArrayVec::new` holds no element.
#[verifier::external_body]
fn net_exts_new() -> (res: ArrayVec<NetExt, MAX_NET_EXTENSIONS>)
    ensures
        net_ext_stack(res) == Seq::<NetExt>::empty(),
{
    ArrayVec::new()
}

/// The number of extension headers in a stack (`ArrayVec::len`).
///
/// Trusted: `len` counts the elements, which never exceed the capacity.
#[verifier::external_body]
fn net_exts_len(v: &ArrayVec<NetExt, MAX_NET_EXTENSIONS>) -> (res: usize)
    ensures
        res == net_ext_stack(*v).len(),
        res <= MAX_NET_EXTENSIONS,
{
    v.len()
}

/// Push an extension header onto a stack that is not full (`ArrayVec::push`).
///
/// Trusted: `push` appends the element; it panics on a full vector, which the
/// `requires` rules out.
#[verifier::external_body]
fn net_exts_push(v: &mut ArrayVec<NetExt, MAX_NET_EXTENSIONS>, ext: NetExt)
    requires
        net_ext_stack(*old(v)).len() < MAX_NET_EXTENSIONS,
    ensures
        net_ext_stack(*final(v)) == net_ext_stack(*old(v)).push(ext),
{
    v.push(ext)
}

impl View for Headers {
    type V = HeadersView;

    open spec fn view(&self) -> HeadersView {
        HeadersView {
            eth: self.eth,
            vlans: vlan_stack(self.vlan),
            net: self.net,
            net_ext: net_ext_stack(self.net_ext),
            transport: self.transport,
            udp_encap: self.udp_encap,
        }
    }
}

/// The headers of a packet holding nothing but the Ethernet header `eth`.
pub open spec fn spec_headers_new(eth: Eth) -> HeadersView {
    HeadersView {
        eth,
        vlans: Seq::empty(),
        net: None,
        net_ext: Seq::empty(),
        transport: None,
        udp_encap: None,
    }
}

/// Store one more parsed header into `h`: a header takes the slot of its
/// layer (replacing what was there), a VLAN tag or an extension header is
/// appended to its stack. `None` when the stack for it is full: parsing then
/// stops.
pub open spec fn spec_store_header(h: HeadersView, header: Header) -> Option<HeadersView> {
    match header {
        Header::Eth(eth) => Some(HeadersView { eth, ..h }),
        Header::Ipv4(ip) => Some(HeadersView { net: Some(Net::Ipv4(ip)), ..h }),
        Header::Ipv6(ip) => Some(HeadersView { net: Some(Net::Ipv6(ip)), ..h }),
        Header::Tcp(x) => Some(HeadersView { transport: Some(Transport::Tcp(x)), ..h }),
        Header::Udp(x) => Some(HeadersView { transport: Some(Transport::Udp(x)), ..h }),
        Header::Icmp4(x) => Some(HeadersView { transport: Some(Transport::Icmp4(x)), ..h }),
        Header::Icmp6(x) => Some(HeadersView { transport: Some(Transport::Icmp6(x)), ..h }),
        Header::Encap(encap) => Some(HeadersView { udp_encap: Some(encap), ..h }),
        Header::Vlan(vlan) => if h.vlans.len() < MAX_VLANS {
            Some(HeadersView { vlans: seq![vlan] + h.vlans, ..h })
        } else {
            None
        },
        Header::IpAuth(auth) => if h.net_ext.len() < MAX_NET_EXTENSIONS {
            Some(HeadersView { net_ext: h.net_ext.push(NetExt::IpAuth(auth)), ..h })
        } else {
            None
        },
        Header::IpV6Ext(ext) => if h.net_ext.len() < MAX_NET_EXTENSIONS {
            Some(HeadersView { net_ext: h.net_ext.push(NetExt::Ipv6Ext(ext)), ..h })
        } else {
            None
        },
    }
}

/// The headers built from `h` by storing each header of `chain` in turn, up
/// to the first that finds its stack full.
pub open spec fn spec_store_chain(h: HeadersView, chain: Seq<Header>) -> HeadersView
    decreases chain.len(),
{
    if chain.len() == 0 {
        h
    } else {
        match spec_store_header(h, chain[0]) {
            None => h,
            Some(next) => spec_store_chain(next, chain.drop_first()),
        }
    }
}

/// What [`Headers::push_vlan`] makes of `h`: a new last tag for `vid`, with
/// the lowest priority and no drop eligibility, enclosing what the Ethernet
/// header announced, which then announces a VLAN tag. `None` when
/// [`MAX_VLANS`] tags are already held.
pub open spec fn spec_push_vlan(h: HeadersView, vid: Vid) -> Option<HeadersView> {
    if h.vlans.len() >= MAX_VLANS {
        None
    } else {
        Some(
            HeadersView {
                eth: Eth { ether_type: EthType(ETH_TYPE_VLAN), ..h.eth },
                vlans: h.vlans.push(
                    Vlan { vid, pcp: Pcp::spec_lowest(), dei: false, inner_ethtype: h.eth.ether_type },
                ),
                ..h
            },
        )
    }
}

/// What [`Headers::pop_vlan`] takes from `h`: the last tag, after which the
/// Ethernet header announces what that tag enclosed. `None` when no tag is
/// held.
pub open spec fn spec_pop_vlan(h: HeadersView) -> Option<(Vlan, HeadersView)> {
    if h.vlans.len() == 0 {
        None
    } else {
        Some(
            (
                h.vlans.last(),
                HeadersView {
                    eth: Eth { ether_type: h.vlans.last().inner_ethtype, ..h.eth },
                    vlans: h.vlans.drop_last(),
                    ..h
                },
            ),
        )
    }
}

impl Headers {
    /// Headers holding nothing but the Ethernet header `eth`.
    pub fn new(eth: Eth) -> (res: Headers)
        ensures
            res@ == spec_headers_new(eth),
    {
        Headers {
            eth,
            vlan: vlans_new(),
            net: None,
            net_ext: net_exts_new(),
            transport: None,
            udp_encap: None,
        }
    }

    /// Push a VLAN tag for `vid` in front of the existing tags; see
    /// [`spec_push_vlan`]. Fails, changing nothing, when [`MAX_VLANS`] tags
    /// are already held.
    pub fn push_vlan(&mut self, vid: Vid) -> (res: Result<(), TooManyVlans>)
        ensures
            match spec_push_vlan(old(self)@, vid) {
                Some(next) => res is Ok && final(self)@ == next,
                None => res is Err && final(self)@ == old(self)@,
            },
    {
        if vlans_len(&self.vlan) >= MAX_VLANS {
            return Err(TooManyVlans);
        }
        let old_eth_type = self.eth.ether_type();
        self.eth.set_ether_type(EthType(ETH_TYPE_VLAN));
        let new_vlan_header = Vlan::new(vid, old_eth_type, Pcp::lowest(), false);
        vlans_push(&mut self.vlan, new_vlan_header);
        Ok(())
    }

    /// Pop the last pushed VLAN tag; see [`spec_pop_vlan`]. Returns `None`,
    /// changing nothing, when no tag is held.
    pub fn pop_vlan(&mut self) -> (res: Option<Vlan>)
        ensures
            match spec_pop_vlan(old(self)@) {
                Some((vlan, next)) => res == Some(vlan) && final(self)@ == next,
                None => res is None && final(self)@ == old(self)@,
            },
    {
        match vlans_pop(&mut self.vlan) {
            None => None,
            Some(vlan) => {
                self.eth.set_ether_type(vlan.inner_ethtype());
                Some(vlan)
            },
        }
    }

    /// Store one more parsed header; see [`spec_store_header`]. Returns
    /// `false`, changing nothing, when the stack the header belongs to is full.
    fn store(&mut self, header: Header) -> (stored: bool)
        ensures
            match spec_store_header(old(self)@, header) {
                Some(next) => stored && final(self)@ == next,
                None => !stored && final(self)@ == old(self)@,
            },
    {
        match header {
            Header::Eth(eth) => self.eth = eth,
            Header::Ipv4(ip) => self.net = Some(Net::Ipv4(ip)),
            Header::Ipv6(ip) => self.net = Some(Net::Ipv6(ip)),
            Header::Tcp(tcp) => self.transport = Some(Transport::Tcp(tcp)),
            Header::Udp(udp) => self.transport = Some(Transport::Udp(udp)),
            Header::Icmp4(icmp4) => self.transport = Some(Transport::Icmp4(icmp4)),
            Header::Icmp6(icmp6) => self.transport = Some(Transport::Icmp6(icmp6)),
            Header::Encap(encap) => self.udp_encap = Some(encap),
            Header::Vlan(vlan) => {
                if vlans_len(&self.vlan) < MAX_VLANS {
                    vlans_insert_front(&mut self.vlan, vlan);
                } else {
                    return false;
                }
            },
            Header::IpAuth(auth) => {
                if net_exts_len(&self.net_ext) < MAX_NET_EXTENSIONS {
                    net_exts_push(&mut self.net_ext, NetExt::IpAuth(auth));
                } else {
                    return false;
                }
            },
            Header::IpV6Ext(ext) => {
                if net_exts_len(&self.net_ext) < MAX_NET_EXTENSIONS {
                    net_exts_push(&mut self.net_ext, NetExt::Ipv6Ext(ext));
                } else {
                    return false;
                }
            },
        }
        true
    }

    /// The headers that parsing builds from `eth` and the chain of headers
    /// read after it, each found by the one before: every header is stored in
    /// turn (see [`spec_store_header`]) and parsing stops at the first whose
    /// stack is full.
    pub fn from_parsed_chain(eth: Eth, chain: &Vec<Header>) -> (res: Headers)
        ensures
            res@ == spec_store_chain(spec_headers_new(eth), chain@),
    {
        let mut this = Headers::new(eth);
        let mut i: usize = 0;
        proof {
            assert(chain@.skip(0) =~= chain@);
        }
        while i < chain.len()
            invariant
                i <= chain@.len(),
                spec_store_chain(this@, chain@.skip(i as int)) == spec_store_chain(
                    spec_headers_new(eth),
                    chain@,
                ),
            decreases chain@.len() - i,
        {
            let header = chain[i];
            proof {
                assert(chain@.skip(i as int)[0] == header);
                assert(chain@.skip(i as int).drop_first() =~= chain@.skip(i + 1));
            }
            if !this.store(header) {
                return this;
            }
            i = i + 1;
        }
        proof {
            assert(chain@.skip(i as int) =~= Seq::<Header>::empty());
        }
        this
    }
}

/// Pushing a VLAN tag and popping it again gives back the pushed tag and the
/// headers as they were.
pub proof fn lemma_push_pop_vlan(h: HeadersView, vid: Vid)
    requires
        h.vlans.len() < MAX_VLANS,
    ensures
        spec_push_vlan(h, vid) matches Some(pushed) && spec_pop_vlan(pushed) == Some(
            (
                Vlan { vid, pcp: Pcp::spec_lowest(), dei: false, inner_ethtype: h.eth.ether_type },
                h,
            ),
        ),
{
    let pushed = spec_push_vlan(h, vid)->Some_0;
    assert(pushed.vlans.drop_last() =~= h.vlans);
}

/// Access to the Ethernet header, which is always there.
pub trait WithEth {
    /// The Ethernet header.
    fn eth(&self) -> &Eth;
}

/// Write access to the Ethernet header, which is always there.
pub trait WithEthMut {
    /// The Ethernet header, for writing.
    fn eth_mut(&mut self) -> &mut Eth;
}

/// Access to the Ethernet header, if there is one.
pub trait TryEth {
    /// The Ethernet header, if there is one.
    fn try_eth(&self) -> Option<&Eth>;
}

/// Write access to the Ethernet header, if there is one.
pub trait TryEthMut {
    /// The Ethernet header, if there is one, for writing.
    fn try_eth_mut(&mut self) -> Option<&mut Eth>;
}

/// The Ethernet header of `h`, if it has one.
pub open spec fn spec_eth(h: HeadersView) -> Option<Eth> {
    Some(h.eth)
}

/// `h` with `x` in place of the Ethernet header.
pub open spec fn spec_eth_put(h: HeadersView, x: Eth) -> HeadersView {
    HeadersView { eth: x, ..h }
}

impl TryEth for Headers {
    fn try_eth(&self) -> (res: Option<&Eth>)
        ensures
            match res {
                Some(r) => spec_eth(self@) == Some(*r),
                None => spec_eth(self@) is None,
            },
    {
        Some(&self.eth)
    }
}

impl TryEthMut for Headers {
    fn try_eth_mut(&mut self) -> (res: Option<&mut Eth>)
        ensures
            match res {
                Some(r) => spec_eth(old(self)@) == Some(*r) && final(self)@ == spec_eth_put(old(self)@, *final(r)),
                None => spec_eth(old(self)@) is None && final(self)@ == old(self)@,
            },
    {
        Some(&mut self.eth)
    }
}

impl<T: TryHeaders> TryEth for T {
    fn try_eth(&self) -> (res: Option<&Eth>)
        ensures
            match res {
                Some(r) => spec_eth(self.spec_headers()@) == Some(*r),
                None => spec_eth(self.spec_headers()@) is None,
            },
    {
        self.headers().try_eth()
    }
}

impl<T: TryHeadersMut> TryEthMut for T {
    fn try_eth_mut(&mut self) -> (res: Option<&mut Eth>)
        ensures
            match res {
                Some(r) => spec_eth(old(self).spec_headers()@) == Some(*r) && final(self).spec_headers()@ == spec_eth_put(
                    old(self).spec_headers()@,
                    *final(r),
                ),
                None => spec_eth(old(self).spec_headers()@) is None && final(self).spec_headers()@ == old(
                    self,
                ).spec_headers()@,
            },
    {
        self.headers_mut().try_eth_mut()
    }
}

/// Access to the IPv4 header, which is always there.
pub trait WithIpv4 {
    /// The IPv4 header.
    fn ipv4(&self) -> &Ipv4;
}

/// Write access to the IPv4 header, which is always there.
pub trait WithIpv4Mut {
    /// The IPv4 header, for writing.
    fn ipv4_mut(&mut self) -> &mut Ipv4;
}

/// Access to the IPv4 header, if there is one.
pub trait TryIpv4 {
    /// The IPv4 header, if there is one.
    fn try_ipv4(&self) -> Option<&Ipv4>;
}

/// Write access to the IPv4 header, if there is one.
pub trait TryIpv4Mut {
    /// The IPv4 header, if there is one, for writing.
    fn try_ipv4_mut(&mut self) -> Option<&mut Ipv4>;
}

/// The IPv4 header of `h`, if it has one.
pub open spec fn spec_ipv4(h: HeadersView) -> Option<Ipv4> {
    match h.net {
        Some(Net::Ipv4(x)) => Some(x),
        _ => None,
    }
}

/// `h` with `x` in place of the IPv4 header.
pub open spec fn spec_ipv4_put(h: HeadersView, x: Ipv4) -> HeadersView {
    HeadersView { net: Some(Net::Ipv4(x)), ..h }
}

impl TryIpv4 for Headers {
    fn try_ipv4(&self) -> (res: Option<&Ipv4>)
        ensures
            match res {
                Some(r) => spec_ipv4(self@) == Some(*r),
                None => spec_ipv4(self@) is None,
            },
    {
        match &self.net {
            Some(Net::Ipv4(header)) => Some(header),
            _ => None,
        }
    }
}

impl TryIpv4Mut for Headers {
    fn try_ipv4_mut(&mut self) -> (res: Option<&mut Ipv4>)
        ensures
            match res {
                Some(r) => spec_ipv4(old(self)@) == Some(*r) && final(self)@ == spec_ipv4_put(old(self)@, *final(r)),
                None => spec_ipv4(old(self)@) is None && final(self)@ == old(self)@,
            },
    {
        match &mut self.net {
            Some(Net::Ipv4(header)) => Some(header),
            _ => None,
        }
    }
}

impl<T: TryHeaders> TryIpv4 for T {
    fn try_ipv4(&self) -> (res: Option<&Ipv4>)
        ensures
            match res {
                Some(r) => spec_ipv4(self.spec_headers()@) == Some(*r),
                None => spec_ipv4(self.spec_headers()@) is None,
            },
    {
        self.headers().try_ipv4()
    }
}

impl<T: TryHeadersMut> TryIpv4Mut for T {
    fn try_ipv4_mut(&mut self) -> (res: Option<&mut Ipv4>)
        ensures
            match res {
                Some(r) => spec_ipv4(old(self).spec_headers()@) == Some(*r) && final(self).spec_headers()@ == spec_ipv4_put(
                    old(self).spec_headers()@,
                    *final(r),
                ),
                None => spec_ipv4(old(self).spec_headers()@) is None && final(self).spec_headers()@ == old(
                    self,
                ).spec_headers()@,
            },
    {
        self.headers_mut().try_ipv4_mut()
    }
}

/// Access to the IPv6 header, which is always there.
pub trait WithIpv6 {
    /// The IPv6 header.
    fn ipv6(&self) -> &Ipv6;
}

/// Write access to the IPv6 header, which is always there.
pub trait WithIpv6Mut {
    /// The IPv6 header, for writing.
    fn ipv6_mut(&mut self) -> &mut Ipv6;
}

/// Access to the IPv6 header, if there is one.
pub trait TryIpv6 {
    /// The IPv6 header, if there is one.
    fn try_ipv6(&self) -> Option<&Ipv6>;
}

/// Write access to the IPv6 header, if there is one.
pub trait TryIpv6Mut {
    /// The IPv6 header, if there is one, for writing.
    fn try_ipv6_mut(&mut self) -> Option<&mut Ipv6>;
}

/// The IPv6 header of `h`, if it has one.
pub open spec fn spec_ipv6(h: HeadersView) -> Option<Ipv6> {
    match h.net {
        Some(Net::Ipv6(x)) => Some(x),
        _ => None,
    }
}

/// `h` with `x` in place of the IPv6 header.
pub open spec fn spec_ipv6_put(h: HeadersView, x: Ipv6) -> HeadersView {
    HeadersView { net: Some(Net::Ipv6(x)), ..h }
}

impl TryIpv6 for Headers {
    fn try_ipv6(&self) -> (res: Option<&Ipv6>)
        ensures
            match res {
                Some(r) => spec_ipv6(self@) == Some(*r),
                None => spec_ipv6(self@) is None,
            },
    {
        match &self.net {
            Some(Net::Ipv6(header)) => Some(header),
            _ => None,
        }
    }
}

impl TryIpv6Mut for Headers {
    fn try_ipv6_mut(&mut self) -> (res: Option<&mut Ipv6>)
        ensures
            match res {
                Some(r) => spec_ipv6(old(self)@) == Some(*r) && final(self)@ == spec_ipv6_put(old(self)@, *final(r)),
                None => spec_ipv6(old(self)@) is None && final(self)@ == old(self)@,
            },
    {
        match &mut self.net {
            Some(Net::Ipv6(header)) => Some(header),
            _ => None,
        }
    }
}

impl<T: TryHeaders> TryIpv6 for T {
    fn try_ipv6(&self) -> (res: Option<&Ipv6>)
        ensures
            match res {
                Some(r) => spec_ipv6(self.spec_headers()@) == Some(*r),
                None => spec_ipv6(self.spec_headers()@) is None,
            },
    {
        self.headers().try_ipv6()
    }
}

impl<T: TryHeadersMut> TryIpv6Mut for T {
    fn try_ipv6_mut(&mut self) -> (res: Option<&mut Ipv6>)
        ensures
            match res {
                Some(r) => spec_ipv6(old(self).spec_headers()@) == Some(*r) && final(self).spec_headers()@ == spec_ipv6_put(
                    old(self).spec_headers()@,
                    *final(r),
                ),
                None => spec_ipv6(old(self).spec_headers()@) is None && final(self).spec_headers()@ == old(
                    self,
                ).spec_headers()@,
            },
    {
        self.headers_mut().try_ipv6_mut()
    }
}

/// Access to the network header, which is always there.
pub trait WithIp {
    /// The network header.
    fn ip(&self) -> &Net;
}

/// Write access to the network header, which is always there.
pub trait WithIpMut {
    /// The network header, for writing.
    fn ip_mut(&mut self) -> &mut Net;
}

/// Access to the network header, if there is one.
pub trait TryIp {
    /// The network header, if there is one.
    fn try_ip(&self) -> Option<&Net>;
}

/// Write access to the network header, if there is one.
pub trait TryIpMut {
    /// The network header, if there is one, for writing.
    fn try_ip_mut(&mut self) -> Option<&mut Net>;
}

/// The network header of `h`, if it has one.
pub open spec fn spec_ip(h: HeadersView) -> Option<Net> {
    h.net
}

/// `h` with `x` in place of the network header.
pub open spec fn spec_ip_put(h: HeadersView, x: Net) -> HeadersView {
    HeadersView { net: Some(x), ..h }
}

impl TryIp for Headers {
    fn try_ip(&self) -> (res: Option<&Net>)
        ensures
            match res {
                Some(r) => spec_ip(self@) == Some(*r),
                None => spec_ip(self@) is None,
            },
    {
        self.net.as_ref()
    }
}

impl TryIpMut for Headers {
    fn try_ip_mut(&mut self) -> (res: Option<&mut Net>)
        ensures
            match res {
                Some(r) => spec_ip(old(self)@) == Some(*r) && final(self)@ == spec_ip_put(old(self)@, *final(r)),
                None => spec_ip(old(self)@) is None && final(self)@ == old(self)@,
            },
    {
        self.net.as_mut()
    }
}

impl<T: TryHeaders> TryIp for T {
    fn try_ip(&self) -> (res: Option<&Net>)
        ensures
            match res {
                Some(r) => spec_ip(self.spec_headers()@) == Some(*r),
                None => spec_ip(self.spec_headers()@) is None,
            },
    {
        self.headers().try_ip()
    }
}

impl<T: TryHeadersMut> TryIpMut for T {
    fn try_ip_mut(&mut self) -> (res: Option<&mut Net>)
        ensures
            match res {
                Some(r) => spec_ip(old(self).spec_headers()@) == Some(*r) && final(self).spec_headers()@ == spec_ip_put(
                    old(self).spec_headers()@,
                    *final(r),
                ),
                None => spec_ip(old(self).spec_headers()@) is None && final(self).spec_headers()@ == old(
                    self,
                ).spec_headers()@,
            },
    {
        self.headers_mut().try_ip_mut()
    }
}

/// Access to the TCP header, which is always there.
pub trait WithTcp {
    /// The TCP header.
    fn tcp(&self) -> &Tcp;
}

/// Write access to the TCP header, which is always there.
pub trait WithTcpMut {
    /// The TCP header, for writing.
    fn tcp_mut(&mut self) -> &mut Tcp;
}

/// Access to the TCP header, if there is one.
pub trait TryTcp {
    /// The TCP header, if there is one.
    fn try_tcp(&self) -> Option<&Tcp>;
}

/// Write access to the TCP header, if there is one.
pub trait TryTcpMut {
    /// The TCP header, if there is one, for writing.
    fn try_tcp_mut(&mut self) -> Option<&mut Tcp>;
}

/// The TCP header of `h`, if it has one.
pub open spec fn spec_tcp(h: HeadersView) -> Option<Tcp> {
    match h.transport {
        Some(Transport::Tcp(x)) => Some(x),
        _ => None,
    }
}

/// `h` with `x` in place of the TCP header.
pub open spec fn spec_tcp_put(h: HeadersView, x: Tcp) -> HeadersView {
    HeadersView { transport: Some(Transport::Tcp(x)), ..h }
}

impl TryTcp for Headers {
    fn try_tcp(&self) -> (res: Option<&Tcp>)
        ensures
            match res {
                Some(r) => spec_tcp(self@) == Some(*r),
                None => spec_tcp(self@) is None,
            },
    {
        match &self.transport {
            Some(Transport::Tcp(header)) => Some(header),
            _ => None,
        }
    }
}

impl TryTcpMut for Headers {
    fn try_tcp_mut(&mut self) -> (res: Option<&mut Tcp>)
        ensures
            match res {
                Some(r) => spec_tcp(old(self)@) == Some(*r) && final(self)@ == spec_tcp_put(old(self)@, *final(r)),
                None => spec_tcp(old(self)@) is None && final(self)@ == old(self)@,
            },
    {
        match &mut self.transport {
            Some(Transport::Tcp(header)) => Some(header),
            _ => None,
        }
    }
}

impl<T: TryHeaders> TryTcp for T {
    fn try_tcp(&self) -> (res: Option<&Tcp>)
        ensures
            match res {
                Some(r) => spec_tcp(self.spec_headers()@) == Some(*r),
                None => spec_tcp(self.spec_headers()@) is None,
            },
    {
        self.headers().try_tcp()
    }
}

impl<T: TryHeadersMut> TryTcpMut for T {
    fn try_tcp_mut(&mut self) -> (res: Option<&mut Tcp>)
        ensures
            match res {
                Some(r) => spec_tcp(old(self).spec_headers()@) == Some(*r) && final(self).spec_headers()@ == spec_tcp_put(
                    old(self).spec_headers()@,
                    *final(r),
                ),
                None => spec_tcp(old(self).spec_headers()@) is None && final(self).spec_headers()@ == old(
                    self,
                ).spec_headers()@,
            },
    {
        self.headers_mut().try_tcp_mut()
    }
}

/// Access to the UDP header, which is always there.
pub trait WithUdp {
    /// The UDP header.
    fn udp(&self) -> &Udp;
}

/// Write access to the UDP header, which is always there.
pub trait WithUdpMut {
    /// The UDP header, for writing.
    fn udp_mut(&mut self) -> &mut Udp;
}

/// Access to the UDP header, if there is one.
pub trait TryUdp {
    /// The UDP header, if there is one.
    fn try_udp(&self) -> Option<&Udp>;
}

/// Write access to the UDP header, if there is one.
pub trait TryUdpMut {
    /// The UDP header, if there is one, for writing.
    fn try_udp_mut(&mut self) -> Option<&mut Udp>;
}

/// The UDP header of `h`, if it has one.
pub open spec fn spec_udp(h: HeadersView) -> Option<Udp> {
    match h.transport {
        Some(Transport::Udp(x)) => Some(x),
        _ => None,
    }
}

/// `h` with `x` in place of the UDP header.
pub open spec fn spec_udp_put(h: HeadersView, x: Udp) -> HeadersView {
    HeadersView { transport: Some(Transport::Udp(x)), ..h }
}

impl TryUdp for Headers {
    fn try_udp(&self) -> (res: Option<&Udp>)
        ensures
            match res {
                Some(r) => spec_udp(self@) == Some(*r),
                None => spec_udp(self@) is None,
            },
    {
        match &self.transport {
            Some(Transport::Udp(header)) => Some(header),
            _ => None,
        }
    }
}

impl TryUdpMut for Headers {
    fn try_udp_mut(&mut self) -> (res: Option<&mut Udp>)
        ensures
            match res {
                Some(r) => spec_udp(old(self)@) == Some(*r) && final(self)@ == spec_udp_put(old(self)@, *final(r)),
                None => spec_udp(old(self)@) is None && final(self)@ == old(self)@,
            },
    {
        match &mut self.transport {
            Some(Transport::Udp(header)) => Some(header),
            _ => None,
        }
    }
}

impl<T: TryHeaders> TryUdp for T {
    fn try_udp(&self) -> (res: Option<&Udp>)
        ensures
            match res {
                Some(r) => spec_udp(self.spec_headers()@) == Some(*r),
                None => spec_udp(self.spec_headers()@) is None,
            },
    {
        self.headers().try_udp()
    }
}

impl<T: TryHeadersMut> TryUdpMut for T {
    fn try_udp_mut(&mut self) -> (res: Option<&mut Udp>)
        ensures
            match res {
                Some(r) => spec_udp(old(self).spec_headers()@) == Some(*r) && final(self).spec_headers()@ == spec_udp_put(
                    old(self).spec_headers()@,
                    *final(r),
                ),
                None => spec_udp(old(self).spec_headers()@) is None && final(self).spec_headers()@ == old(
                    self,
                ).spec_headers()@,
            },
    {
        self.headers_mut().try_udp_mut()
    }
}

/// Access to the ICMPv4 header, which is always there.
pub trait WithIcmp {
    /// The ICMPv4 header.
    fn icmp(&self) -> &Icmp4;
}

/// Write access to the ICMPv4 header, which is always there.
pub trait WithIcmpMut {
    /// The ICMPv4 header, for writing.
    fn icmp_mut(&mut self) -> &mut Icmp4;
}

/// Access to the ICMPv4 header, if there is one.
pub trait TryIcmp {
    /// The ICMPv4 header, if there is one.
    fn try_icmp(&self) -> Option<&Icmp4>;
}

/// Write access to the ICMPv4 header, if there is one.
pub trait TryIcmpMut {
    /// The ICMPv4 header, if there is one, for writing.
    fn try_icmp_mut(&mut self) -> Option<&mut Icmp4>;
}

/// The ICMPv4 header of `h`, if it has one.
pub open spec fn spec_icmp(h: HeadersView) -> Option<Icmp4> {
    match h.transport {
        Some(Transport::Icmp4(x)) => Some(x),
        _ => None,
    }
}

/// `h` with `x` in place of the ICMPv4 header.
pub open spec fn spec_icmp_put(h: HeadersView, x: Icmp4) -> HeadersView {
    HeadersView { transport: Some(Transport::Icmp4(x)), ..h }
}

impl TryIcmp for Headers {
    fn try_icmp(&self) -> (res: Option<&Icmp4>)
        ensures
            match res {
                Some(r) => spec_icmp(self@) == Some(*r),
                None => spec_icmp(self@) is None,
            },
    {
        match &self.transport {
            Some(Transport::Icmp4(header)) => Some(header),
            _ => None,
        }
    }
}

impl TryIcmpMut for Headers {
    fn try_icmp_mut(&mut self) -> (res: Option<&mut Icmp4>)
        ensures
            match res {
                Some(r) => spec_icmp(old(self)@) == Some(*r) && final(self)@ == spec_icmp_put(old(self)@, *final(r)),
                None => spec_icmp(old(self)@) is None && final(self)@ == old(self)@,
            },
    {
        match &mut self.transport {
            Some(Transport::Icmp4(header)) => Some(header),
            _ => None,
        }
    }
}

impl<T: TryHeaders> TryIcmp for T {
    fn try_icmp(&self) -> (res: Option<&Icmp4>)
        ensures
            match res {
                Some(r) => spec_icmp(self.spec_headers()@) == Some(*r),
                None => spec_icmp(self.spec_headers()@) is None,
            },
    {
        self.headers().try_icmp()
    }
}

impl<T: TryHeadersMut> TryIcmpMut for T {
    fn try_icmp_mut(&mut self) -> (res: Option<&mut Icmp4>)
        ensures
            match res {
                Some(r) => spec_icmp(old(self).spec_headers()@) == Some(*r) && final(self).spec_headers()@ == spec_icmp_put(
                    old(self).spec_headers()@,
                    *final(r),
                ),
                None => spec_icmp(old(self).spec_headers()@) is None && final(self).spec_headers()@ == old(
                    self,
                ).spec_headers()@,
            },
    {
        self.headers_mut().try_icmp_mut()
    }
}

/// Access to the ICMPv6 header, which is always there.
pub trait WithIcmp6 {
    /// The ICMPv6 header.
    fn icmp6(&self) -> &Icmp6;
}

/// Write access to the ICMPv6 header, which is always there.
pub trait WithIcmp6Mut {
    /// The ICMPv6 header, for writing.
    fn icmp6_mut(&mut self) -> &mut Icmp6;
}

/// Access to the ICMPv6 header, if there is one.
pub trait TryIcmp6 {
    /// The ICMPv6 header, if there is one.
    fn try_icmp6(&self) -> Option<&Icmp6>;
}

/// Write access to the ICMPv6 header, if there is one.
pub trait TryIcmp6Mut {
    /// The ICMPv6 header, if there is one, for writing.
    fn try_icmp6_mut(&mut self) -> Option<&mut Icmp6>;
}

/// The ICMPv6 header of `h`, if it has one.
pub open spec fn spec_icmp6(h: HeadersView) -> Option<Icmp6> {
    match h.transport {
        Some(Transport::Icmp6(x)) => Some(x),
        _ => None,
    }
}

/// `h` with `x` in place of the ICMPv6 header.
pub open spec fn spec_icmp6_put(h: HeadersView, x: Icmp6) -> HeadersView {
    HeadersView { transport: Some(Transport::Icmp6(x)), ..h }
}

impl TryIcmp6 for Headers {
    fn try_icmp6(&self) -> (res: Option<&Icmp6>)
        ensures
            match res {
                Some(r) => spec_icmp6(self@) == Some(*r),
                None => spec_icmp6(self@) is None,
            },
    {
        match &self.transport {
            Some(Transport::Icmp6(header)) => Some(header),
            _ => None,
        }
    }
}

impl TryIcmp6Mut for Headers {
    fn try_icmp6_mut(&mut self) -> (res: Option<&mut Icmp6>)
        ensures
            match res {
                Some(r) => spec_icmp6(old(self)@) == Some(*r) && final(self)@ == spec_icmp6_put(old(self)@, *final(r)),
                None => spec_icmp6(old(self)@) is None && final(self)@ == old(self)@,
            },
    {
        match &mut self.transport {
            Some(Transport::Icmp6(header)) => Some(header),
            _ => None,
        }
    }
}

impl<T: TryHeaders> TryIcmp6 for T {
    fn try_icmp6(&self) -> (res: Option<&Icmp6>)
        ensures
            match res {
                Some(r) => spec_icmp6(self.spec_headers()@) == Some(*r),
                None => spec_icmp6(self.spec_headers()@) is None,
            },
    {
        self.headers().try_icmp6()
    }
}

impl<T: TryHeadersMut> TryIcmp6Mut for T {
    fn try_icmp6_mut(&mut self) -> (res: Option<&mut Icmp6>)
        ensures
            match res {
                Some(r) => spec_icmp6(old(self).spec_headers()@) == Some(*r) && final(self).spec_headers()@ == spec_icmp6_put(
                    old(self).spec_headers()@,
                    *final(r),
                ),
                None => spec_icmp6(old(self).spec_headers()@) is None && final(self).spec_headers()@ == old(
                    self,
                ).spec_headers()@,
            },
    {
        self.headers_mut().try_icmp6_mut()
    }
}

/// Access to the transport header, which is always there.
pub trait WithTransport {
    /// The transport header.
    fn transport(&self) -> &Transport;
}

/// Write access to the transport header, which is always there.
pub trait WithTransportMut {
    /// The transport header, for writing.
    fn transport_mut(&mut self) -> &mut Transport;
}

/// Access to the transport header, if there is one.
pub trait TryTransport {
    /// The transport header, if there is one.
    fn try_transport(&self) -> Option<&Transport>;
}

/// Write access to the transport header, if there is one.
pub trait TryTransportMut {
    /// The transport header, if there is one, for writing.
    fn try_transport_mut(&mut self) -> Option<&mut Transport>;
}

/// The transport header of `h`, if it has one.
pub open spec fn spec_transport(h: HeadersView) -> Option<Transport> {
    h.transport
}

/// `h` with `x` in place of the transport header.
pub open spec fn spec_transport_put(h: HeadersView, x: Transport) -> HeadersView {
    HeadersView { transport: Some(x), ..h }
}

impl TryTransport for Headers {
    fn try_transport(&self) -> (res: Option<&Transport>)
        ensures
            match res {
                Some(r) => spec_transport(self@) == Some(*r),
                None => spec_transport(self@) is None,
            },
    {
        self.transport.as_ref()
    }
}

impl TryTransportMut for Headers {
    fn try_transport_mut(&mut self) -> (res: Option<&mut Transport>)
        ensures
            match res {
                Some(r) => spec_transport(old(self)@) == Some(*r) && final(self)@ == spec_transport_put(old(self)@, *final(r)),
                None => spec_transport(old(self)@) is None && final(self)@ == old(self)@,
            },
    {
        self.transport.as_mut()
    }
}

impl<T: TryHeaders> TryTransport for T {
    fn try_transport(&self) -> (res: Option<&Transport>)
        ensures
            match res {
                Some(r) => spec_transport(self.spec_headers()@) == Some(*r),
                None => spec_transport(self.spec_headers()@) is None,
            },
    {
        self.headers().try_transport()
    }
}

impl<T: TryHeadersMut> TryTransportMut for T {
    fn try_transport_mut(&mut self) -> (res: Option<&mut Transport>)
        ensures
            match res {
                Some(r) => spec_transport(old(self).spec_headers()@) == Some(*r) && final(self).spec_headers()@ == spec_transport_put(
                    old(self).spec_headers()@,
                    *final(r),
                ),
                None => spec_transport(old(self).spec_headers()@) is None && final(self).spec_headers()@ == old(
                    self,
                ).spec_headers()@,
            },
    {
        self.headers_mut().try_transport_mut()
    }
}

/// Access to the VXLAN header, which is always there.
pub trait WithVxlan {
    /// The VXLAN header.
    fn vxlan(&self) -> &Vxlan;
}

/// Write access to the VXLAN header, which is always there.
pub trait WithVxlanMut {
    /// The VXLAN header, for writing.
    fn vxlan_mut(&mut self) -> &mut Vxlan;
}

/// Access to the VXLAN header, if there is one.
pub trait TryVxlan {
    /// The VXLAN header, if there is one.
    fn try_vxlan(&self) -> Option<&Vxlan>;
}

/// Write access to the VXLAN header, if there is one.
pub trait TryVxlanMut {
    /// The VXLAN header, if there is one, for writing.
    fn try_vxlan_mut(&mut self) -> Option<&mut Vxlan>;
}

/// The VXLAN header of `h`, if it has one.
pub open spec fn spec_vxlan(h: HeadersView) -> Option<Vxlan> {
    match h.udp_encap {
        Some(UdpEncap::Vxlan(x)) => Some(x),
        None => None,
    }
}

/// `h` with `x` in place of the VXLAN header.
pub open spec fn spec_vxlan_put(h: HeadersView, x: Vxlan) -> HeadersView {
    HeadersView { udp_encap: Some(UdpEncap::Vxlan(x)), ..h }
}

impl TryVxlan for Headers {
    fn try_vxlan(&self) -> (res: Option<&Vxlan>)
        ensures
            match res {
                Some(r) => spec_vxlan(self@) == Some(*r),
                None => spec_vxlan(self@) is None,
            },
    {
        match &self.udp_encap {
            Some(UdpEncap::Vxlan(vxlan)) => Some(vxlan),
            None => None,
        }
    }
}

impl TryVxlanMut for Headers {
    fn try_vxlan_mut(&mut self) -> (res: Option<&mut Vxlan>)
        ensures
            match res {
                Some(r) => spec_vxlan(old(self)@) == Some(*r) && final(self)@ == spec_vxlan_put(old(self)@, *final(r)),
                None => spec_vxlan(old(self)@) is None && final(self)@ == old(self)@,
            },
    {
        match &mut self.udp_encap {
            Some(UdpEncap::Vxlan(vxlan)) => Some(vxlan),
            None => None,
        }
    }
}

impl<T: TryHeaders> TryVxlan for T {
    fn try_vxlan(&self) -> (res: Option<&Vxlan>)
        ensures
            match res {
                Some(r) => spec_vxlan(self.spec_headers()@) == Some(*r),
                None => spec_vxlan(self.spec_headers()@) is None,
            },
    {
        self.headers().try_vxlan()
    }
}

impl<T: TryHeadersMut> TryVxlanMut for T {
    fn try_vxlan_mut(&mut self) -> (res: Option<&mut Vxlan>)
        ensures
            match res {
                Some(r) => spec_vxlan(old(self).spec_headers()@) == Some(*r) && final(self).spec_headers()@ == spec_vxlan_put(
                    old(self).spec_headers()@,
                    *final(r),
                ),
                None => spec_vxlan(old(self).spec_headers()@) is None && final(self).spec_headers()@ == old(
                    self,
                ).spec_headers()@,
            },
    {
        self.headers_mut().try_vxlan_mut()
    }
}


/// Access to the headers of something that carries them (a packet).
pub trait TryHeaders {
    /// The headers carried, in specifications.
    spec fn spec_headers(&self) -> Headers;

    /// The headers carried.
    fn headers(&self) -> (res: &Headers)
        ensures
            *res == self.spec_headers(),
    ;
}

/// Write access to the headers of something that carries them (a packet).
pub trait TryHeadersMut: TryHeaders {
    /// The headers carried, for writing.
    fn headers_mut(&mut self) -> (res: &mut Headers)
        ensures
            *res == old(self).spec_headers(),
            final(self).spec_headers() == *final(res),
    ;
}

impl WithEth for Headers {
    fn eth(&self) -> (res: &Eth)
        ensures
            *res == self.eth,
    {
        &self.eth
    }
}

impl WithEthMut for Headers {
    fn eth_mut(&mut self) -> (res: &mut Eth)
        ensures
            *res == old(self).eth,
            final(self)@ == (HeadersView { eth: *final(res), ..old(self)@ }),
    {
        &mut self.eth
    }
}

/// Everything through which the headers of a packet are read.
pub trait AbstractHeaders: Debug + TryEth + TryIpv4 + TryIpv6 + TryIp + TryTcp + TryUdp + TryIcmp + TryIcmp6 + TryTransport + TryVxlan {

}

impl<T> AbstractHeaders for T where
    T: Debug + TryEth + TryIpv4 + TryIpv6 + TryIp + TryTcp + TryUdp + TryIcmp + TryIcmp6 + TryTransport + TryVxlan,
 {

}

/// Everything through which the headers of a packet are read and written.
pub trait AbstractHeadersMut: AbstractHeaders + TryEthMut + TryIpv4Mut + TryIpv6Mut + TryIpMut + TryTcpMut + TryUdpMut + TryIcmpMut + TryIcmp6Mut + TryTransportMut + TryVxlanMut {

}

impl<T> AbstractHeadersMut for T where
    T: AbstractHeaders + TryEthMut + TryIpv4Mut + TryIpv6Mut + TryIpMut + TryTcpMut + TryUdpMut + TryIcmpMut + TryIcmp6Mut + TryTransportMut + TryVxlanMut,
 {

}

impl From<Eth> for Header {
    fn from(value: Eth) -> (res: Header) {
        Header::Eth(value)
    }
}

impl FromSpecImpl<Eth> for Header {
    open spec fn obeys_from_spec() -> bool {
        true
    }

    open spec fn from_spec(value: Eth) -> Header {
        Header::Eth(value)
    }
}

impl From<Vlan> for Header {
    fn from(value: Vlan) -> (res: Header) {
        Header::Vlan(value)
    }
}

impl FromSpecImpl<Vlan> for Header {
    open spec fn obeys_from_spec() -> bool {
        true
    }

    open spec fn from_spec(value: Vlan) -> Header {
        Header::Vlan(value)
    }
}

impl From<Ipv4> for Header {
    fn from(value: Ipv4) -> (res: Header) {
        Header::Ipv4(value)
    }
}

impl FromSpecImpl<Ipv4> for Header {
    open spec fn obeys_from_spec() -> bool {
        true
    }

    open spec fn from_spec(value: Ipv4) -> Header {
        Header::Ipv4(value)
    }
}

impl From<Ipv6> for Header {
    fn from(value: Ipv6) -> (res: Header) {
        Header::Ipv6(value)
    }
}

impl FromSpecImpl<Ipv6> for Header {
    open spec fn obeys_from_spec() -> bool {
        true
    }

    open spec fn from_spec(value: Ipv6) -> Header {
        Header::Ipv6(value)
    }
}

impl From<Net> for Header {
    fn from(value: Net) -> (res: Header) {
        match value {
            Net::Ipv4(ip) => Header::Ipv4(ip),
            Net::Ipv6(ip) => Header::Ipv6(ip),
        }
    }
}

impl FromSpecImpl<Net> for Header {
    open spec fn obeys_from_spec() -> bool {
        true
    }

    open spec fn from_spec(value: Net) -> Header {
        match value {
            Net::Ipv4(ip) => Header::Ipv4(ip),
            Net::Ipv6(ip) => Header::Ipv6(ip),
        }
    }
}

impl From<IpAuth> for Header {
    fn from(value: IpAuth) -> (res: Header) {
        Header::IpAuth(value)
    }
}

impl FromSpecImpl<IpAuth> for Header {
    open spec fn obeys_from_spec() -> bool {
        true
    }

    open spec fn from_spec(value: IpAuth) -> Header {
        Header::IpAuth(value)
    }
}

impl From<Ipv6Ext> for Header {
    fn from(value: Ipv6Ext) -> (res: Header) {
        Header::IpV6Ext(value)
    }
}

impl FromSpecImpl<Ipv6Ext> for Header {
    open spec fn obeys_from_spec() -> bool {
        true
    }

    open spec fn from_spec(value: Ipv6Ext) -> Header {
        Header::IpV6Ext(value)
    }
}

impl From<Udp> for Header {
    fn from(value: Udp) -> (res: Header) {
        Header::Udp(value)
    }
}

impl FromSpecImpl<Udp> for Header {
    open spec fn obeys_from_spec() -> bool {
        true
    }

    open spec fn from_spec(value: Udp) -> Header {
        Header::Udp(value)
    }
}

impl From<Tcp> for Header {
    fn from(value: Tcp) -> (res: Header) {
        Header::Tcp(value)
    }
}

impl FromSpecImpl<Tcp> for Header {
    open spec fn obeys_from_spec() -> bool {
        true
    }

    open spec fn from_spec(value: Tcp) -> Header {
        Header::Tcp(value)
    }
}

impl From<Icmp4> for Header {
    fn from(value: Icmp4) -> (res: Header) {
        Header::Icmp4(value)
    }
}

impl FromSpecImpl<Icmp4> for Header {
    open spec fn obeys_from_spec() -> bool {
        true
    }

    open spec fn from_spec(value: Icmp4) -> Header {
        Header::Icmp4(value)
    }
}

impl From<Icmp6> for Header {
    fn from(value: Icmp6) -> (res: Header) {
        Header::Icmp6(value)
    }
}

impl FromSpecImpl<Icmp6> for Header {
    open spec fn obeys_from_spec() -> bool {
        true
    }

    open spec fn from_spec(value: Icmp6) -> Header {
        Header::Icmp6(value)
    }
}

impl From<Transport> for Header {
    fn from(value: Transport) -> (res: Header) {
        match value {
            Transport::Tcp(x) => Header::Tcp(x),
            Transport::Udp(x) => Header::Udp(x),
            Transport::Icmp4(x) => Header::Icmp4(x),
            Transport::Icmp6(x) => Header::Icmp6(x),
        }
    }
}

impl FromSpecImpl<Transport> for Header {
    open spec fn obeys_from_spec() -> bool {
        true
    }

    open spec fn from_spec(value: Transport) -> Header {
        match value {
            Transport::Tcp(x) => Header::Tcp(x),
            Transport::Udp(x) => Header::Udp(x),
            Transport::Icmp4(x) => Header::Icmp4(x),
            Transport::Icmp6(x) => Header::Icmp6(x),
        }
    }
}

impl From<Vxlan> for Header {
    fn from(value: Vxlan) -> (res: Header) {
        Header::Encap(UdpEncap::Vxlan(value))
    }
}

impl FromSpecImpl<Vxlan> for Header {
    open spec fn obeys_from_spec() -> bool {
        true
    }

    open spec fn from_spec(value: Vxlan) -> Header {
        Header::Encap(UdpEncap::Vxlan(value))
    }
}

impl From<UdpEncap> for Header {
    fn from(value: UdpEncap) -> (res: Header) {
        Header::Encap(value)
    }
}

impl FromSpecImpl<UdpEncap> for Header {
    open spec fn obeys_from_spec() -> bool {
        true
    }

    open spec fn from_spec(value: UdpEncap) -> Header {
        Header::Encap(value)
    }
}

} // verus!

verus! {

/// The IPv4 header that [`TryIpv4`] finds is the network header that
/// [`TryIp`] finds, when that is IPv4; likewise for IPv6.
pub proof fn lemma_try_ip_consistent(h: HeadersView, x: Ipv4, y: Ipv6)
    ensures
        spec_ip(h) == Some(Net::Ipv4(x)) <==> spec_ipv4(h) == Some(x),
        spec_ip(h) == Some(Net::Ipv6(y)) <==> spec_ipv6(h) == Some(y),
        spec_ip(h) is None ==> spec_ipv4(h) is None && spec_ipv6(h) is None,
{
}

/// Storing an extension header (IPv6 extension or IP authentication) into
/// headers whose extension stack is not full appends exactly that header to
/// the stack and changes nothing else; into a full stack, it fails.
pub proof fn lemma_store_extension(h: HeadersView, ext: NetExt)
    ensures
        ({
            let header = match ext {
                NetExt::IpAuth(a) => Header::IpAuth(a),
                NetExt::Ipv6Ext(e) => Header::IpV6Ext(e),
            };
            &&& h.net_ext.len() < MAX_NET_EXTENSIONS ==> spec_store_header(h, header) == Some(
                HeadersView { net_ext: h.net_ext.push(ext), ..h },
            )
            &&& h.net_ext.len() >= MAX_NET_EXTENSIONS ==> spec_store_header(h, header) is None
        }),
{
}

/// Storing a VLAN tag read from a frame into headers whose VLAN stack is not
/// full puts that tag in front of those read before it (it is inside them)
/// and changes nothing else; into a full stack, it fails.
pub proof fn lemma_store_vlan(h: HeadersView, vlan: Vlan)
    ensures
        h.vlans.len() < MAX_VLANS ==> spec_store_header(h, Header::Vlan(vlan)) == Some(
            HeadersView { vlans: seq![vlan] + h.vlans, ..h },
        ),
        h.vlans.len() >= MAX_VLANS ==> spec_store_header(h, Header::Vlan(vlan)) is None,
{
}

/// Storing a network, transport or encapsulation header puts it in the slot
/// of its layer, replacing what was there, and changes nothing else.
pub proof fn lemma_store_layer(h: HeadersView, header: Header)
    ensures
        header matches Header::Ipv4(ip) ==> spec_store_header(h, header) == Some(
            HeadersView { net: Some(Net::Ipv4(ip)), ..h },
        ),
        header matches Header::Ipv6(ip) ==> spec_store_header(h, header) == Some(
            HeadersView { net: Some(Net::Ipv6(ip)), ..h },
        ),
        header matches Header::Tcp(t) ==> spec_store_header(h, header) == Some(
            HeadersView { transport: Some(Transport::Tcp(t)), ..h },
        ),
        header matches Header::Udp(u) ==> spec_store_header(h, header) == Some(
            HeadersView { transport: Some(Transport::Udp(u)), ..h },
        ),
        header matches Header::Icmp4(i) ==> spec_store_header(h, header) == Some(
            HeadersView { transport: Some(Transport::Icmp4(i)), ..h },
        ),
        header matches Header::Icmp6(i) ==> spec_store_header(h, header) == Some(
            HeadersView { transport: Some(Transport::Icmp6(i)), ..h },
        ),
        header matches Header::Encap(e) ==> spec_store_header(h, header) == Some(
            HeadersView { udp_encap: Some(e), ..h },
        ),
        header matches Header::Eth(e) ==> spec_store_header(h, header) == Some(
            HeadersView { eth: e, ..h },
        ),
{
}

/// A chain of headers that fits the stacks is stored whole: parsing an IPv6
/// header, one extension header and a UDP header after `eth` gives headers
/// with that IPv6 header, that one extension and that UDP header.
pub proof fn lemma_store_chain_ipv6_ext_udp(eth: Eth, ip: Ipv6, ext: Ipv6Ext, udp: Udp)
    ensures
        ({
            let h = spec_store_chain(
                spec_headers_new(eth),
                seq![Header::Ipv6(ip), Header::IpV6Ext(ext), Header::Udp(udp)],
            );
            &&& h.net == Some(Net::Ipv6(ip))
            &&& h.net_ext == seq![NetExt::Ipv6Ext(ext)]
            &&& h.transport == Some(Transport::Udp(udp))
            &&& h.eth == eth
            &&& h.vlans.len() == 0
        }),
{
    let c = seq![Header::Ipv6(ip), Header::IpV6Ext(ext), Header::Udp(udp)];
    let c1 = seq![Header::IpV6Ext(ext), Header::Udp(udp)];
    let c2 = seq![Header::Udp(udp)];
    let c3 = Seq::<Header>::empty();
    assert(c.drop_first() =~= c1);
    assert(c1.drop_first() =~= c2);
    assert(c2.drop_first() =~= c3);
    let h0 = spec_headers_new(eth);
    let h1 = HeadersView { net: Some(Net::Ipv6(ip)), ..h0 };
    let h2 = HeadersView { net_ext: h1.net_ext.push(NetExt::Ipv6Ext(ext)), ..h1 };
    let h3 = HeadersView { transport: Some(Transport::Udp(udp)), ..h2 };
    assert(spec_store_header(h0, c[0]) == Some(h1));
    assert(spec_store_header(h1, c1[0]) == Some(h2));
    assert(spec_store_header(h2, c2[0]) == Some(h3));
    assert(spec_store_chain(h3, c3) == h3);
    assert(spec_store_chain(h2, c2) == h3);
    assert(spec_store_chain(h1, c1) == h3);
    assert(spec_store_chain(h0, c) == h3);
    assert(h2.net_ext =~= seq![NetExt::Ipv6Ext(ext)]);
}

} // verus!

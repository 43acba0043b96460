//! [`Packet`]: parsed headers, the payload buffer behind them, and the
//! metadata through which processing stages drive one another.

use crate::buffer::{BufferData, Headroom, PacketBufferMut, Tailroom, TrimFromStart};
use crate::headers::{Headers, HeadersView, TryHeaders, TryHeadersMut};
use vstd::prelude::*;

verus! {

/// Why a packet was marked as done: either it is to be dropped for that
/// reason, or its processing is complete.
#[derive(Clone, Copy, Debug, PartialEq, Eq, Structural, Hash)]
pub enum DoneReason {
    /// Something inside the dataplane failed.
    InternalFailure,
    /// The frame is not an Ethernet frame.
    NotEthernet,
    /// The packet is not an IP packet.
    NotIp,
    /// The frame is addressed to another MAC address.
    MacNotForUs,
    /// The interface is attached to no VRF or bridge domain.
    InterfaceDetached,
    /// The interface is administratively down.
    InterfaceAdmDown,
    /// The interface is operationally down.
    InterfaceOperDown,
    /// The interface is not known.
    InterfaceUnknown,
    /// The interface is of a type that is not supported.
    InterfaceUnsupported,
    /// No route could be used.
    RouteFailure,
    /// The route says to drop the packet.
    RouteDrop,
    /// The time to live or hop limit ran out.
    HopLimitExceeded,
    /// The next hop's MAC address is not known.
    MissL2resolution,
    /// Nothing can handle the packet yet.
    Unhandled,
    /// The packet was delivered.
    Delivered,
}

/// An interface, named by its index.
#[derive(Clone, Copy, Debug, PartialEq, Eq, Structural, Hash)]
pub struct InterfaceId(pub u32);

impl InterfaceId {
    /// The interface with index `id`.
    pub fn new(id: u32) -> (res: InterfaceId)
        ensures
            res == InterfaceId(id),
    {
        InterfaceId(id)
    }

    /// The index of the interface.
    pub fn get_id(&self) -> (res: u32)
        ensures
            res == self.0,
    {
        self.0
    }
}

/// An IP address: a 32-bit IPv4 or a 128-bit IPv6 address.
#[derive(Clone, Copy, Debug, PartialEq, Eq, Structural, Hash)]
pub enum IpAddress {
    /// An IPv4 address.
    V4(u32),
    /// An IPv6 address.
    V6(u128),
}

/// Whether `addr` is a unicast address, that is, not a multicast one
/// (`224.0.0.0/4` for IPv4, `ff00::/8` for IPv6).
pub open spec fn spec_is_unicast(addr: IpAddress) -> bool {
    match addr {
        IpAddress::V4(a) => !(0xE000_0000 <= a <= 0xEFFF_FFFF),
        IpAddress::V6(a) => a < 0xFF00_0000_0000_0000_0000_0000_0000_0000,
    }
}

/// What stages record on a packet to drive later stages.
#[derive(Clone, Copy, Debug, PartialEq, Eq, Structural)]
pub struct PacketMeta {
    /// The interface the packet came in on.
    pub iif: InterfaceId,
    /// The interface the packet is to leave by, once known.
    pub oif: Option<InterfaceId>,
    /// The next hop's address, once known.
    pub nh_addr: Option<IpAddress>,
    /// The VRF the packet is to be routed in, once known.
    pub vrf: Option<u32>,
    /// Whether the frame was an Ethernet broadcast.
    pub is_l2bcast: bool,
    /// Whether the packet is addressed to the gateway itself.
    pub is_iplocal: bool,
    /// Why the packet is done, once it is.
    pub done: Option<DoneReason>,
}

/// The metadata of a packet that no stage has seen.
pub open spec fn spec_meta_default() -> PacketMeta {
    PacketMeta {
        iif: InterfaceId(0),
        oif: None,
        nh_addr: None,
        vrf: None,
        is_l2bcast: false,
        is_iplocal: false,
        done: None,
    }
}

impl Default for PacketMeta {
    fn default() -> (res: PacketMeta)
        ensures
            res == spec_meta_default(),
    {
        PacketMeta {
            iif: InterfaceId(0),
            oif: None,
            nh_addr: None,
            vrf: None,
            is_l2bcast: false,
            is_iplocal: false,
            done: None,
        }
    }
}

/// A parsed Ethernet packet: its headers, the buffer holding what follows
/// them, and its metadata.
#[derive(Debug)]
pub struct Packet<Buf: PacketBufferMut> {
    headers: Headers,
    payload: Buf,
    /// What stages record on the packet to drive later stages.
    pub meta: PacketMeta,
}

/// A packet taken as its headers (by their view), payload and metadata.
pub struct PacketView<Buf> {
    /// The headers.
    pub headers: HeadersView,
    /// The payload buffer.
    pub payload: Buf,
    /// The metadata.
    pub meta: PacketMeta,
}

impl<Buf: PacketBufferMut> View for Packet<Buf> {
    type V = PacketView<Buf>;

    open spec fn view(&self) -> PacketView<Buf> {
        PacketView { headers: self.spec_headers()@, payload: self.spec_payload(), meta: self.spec_meta() }
    }
}

/// The reason a packet is done after [`Packet::done`] with `reason`: an
/// earlier reason stands.
pub open spec fn spec_done(current: Option<DoneReason>, reason: DoneReason) -> Option<DoneReason> {
    match current {
        Some(earlier) => Some(earlier),
        None => Some(reason),
    }
}

impl<Buf: PacketBufferMut> Packet<Buf> {
    /// The metadata of the packet, in specifications.
    pub closed spec fn spec_meta(&self) -> PacketMeta {
        self.meta
    }

    /// The payload buffer of the packet, in specifications.
    pub closed spec fn spec_payload(&self) -> Buf {
        self.payload
    }

    /// A packet whose headers were already read from the front of its buffer:
    /// `headers`, followed by `payload`, with fresh metadata.
    pub fn from_parts(headers: Headers, payload: Buf) -> (res: Packet<Buf>)
        ensures
            res.spec_headers() == headers,
            res.spec_payload() == payload,
            res.spec_meta() == spec_meta_default(),
    {
        Packet { headers, payload, meta: PacketMeta::default() }
    }

    /// The payload buffer of the packet.
    pub fn payload(&self) -> (res: &Buf)
        ensures
            *res == self.spec_payload(),
    {
        &self.payload
    }

    /// The length of the payload (changing the headers does not change it).
    pub fn payload_len(&self) -> (res: u16)
        requires
            self.spec_payload().spec_data().len() <= u16::MAX,
        ensures
            res == self.spec_payload().spec_data().len(),
    {
        self.payload.data().len() as u16
    }

    /// Mark the packet as done for `reason`, unless it already is: the first
    /// reason stands.
    pub fn done(&mut self, reason: DoneReason)
        ensures
            final(self).spec_meta() == (PacketMeta { done: spec_done(old(self).spec_meta().done, reason), ..old(self).spec_meta() }),
            final(self).spec_headers() == old(self).spec_headers(),
            final(self).spec_payload() == old(self).spec_payload(),
    {
        if self.meta.done.is_none() {
            self.meta.done = Some(reason);
        }
    }

    /// Mark the packet as done for `reason`, overriding any earlier reason
    /// (a later stage may override what earlier stages decided).
    pub fn done_force(&mut self, reason: DoneReason)
        ensures
            final(self).spec_meta() == (PacketMeta { done: Some(reason), ..old(self).spec_meta() }),
            final(self).spec_headers() == old(self).spec_headers(),
            final(self).spec_payload() == old(self).spec_payload(),
    {
        self.meta.done = Some(reason);
    }

    /// Remove the done marking of the packet.
    pub fn done_clear(&mut self)
        ensures
            final(self).spec_meta() == (PacketMeta { done: None, ..old(self).spec_meta() }),
            final(self).spec_headers() == old(self).spec_headers(),
            final(self).spec_payload() == old(self).spec_payload(),
    {
        self.meta.done = None;
    }

    /// Whether the packet is marked as done.
    pub fn is_done(&self) -> (res: bool)
        ensures
            res == self.spec_meta().done is Some,
    {
        self.meta.done.is_some()
    }

    /// Why the packet is marked as done, if it is.
    pub fn get_done(&self) -> (res: Option<DoneReason>)
        ensures
            res == self.spec_meta().done,
    {
        self.meta.done
    }

    /// The headers of the packet.
    pub fn get_headers(&self) -> (res: &Headers)
        ensures
            *res == self.spec_headers(),
    {
        &self.headers
    }

    /// The metadata of the packet.
    pub fn get_meta(&self) -> (res: &PacketMeta)
        ensures
            *res == self.spec_meta(),
    {
        &self.meta
    }

    /// The metadata of the packet, for writing.
    pub fn get_meta_mut(&mut self) -> (res: &mut PacketMeta)
        ensures
            *res == old(self).spec_meta(),
            final(self).spec_meta() == *final(res),
            final(self).spec_headers() == old(self).spec_headers(),
            final(self).spec_payload() == old(self).spec_payload(),
    {
        &mut self.meta
    }
}

impl<Buf: PacketBufferMut> TryHeaders for Packet<Buf> {
    closed spec fn spec_headers(&self) -> Headers {
        self.headers
    }

    fn headers(&self) -> (res: &Headers) {
        &self.headers
    }
}

impl<Buf: PacketBufferMut> TryHeadersMut for Packet<Buf> {
    fn headers_mut(&mut self) -> (res: &mut Headers)
        ensures
            final(self).spec_meta() == old(self).spec_meta(),
            final(self).spec_payload() == old(self).spec_payload(),
    {
        &mut self.headers
    }
}

impl<Buf: PacketBufferMut> TrimFromStart for Packet<Buf> {
    type Error = <Buf as TrimFromStart>::Error;

    /// As for the payload buffer.
    open spec fn spec_can_trim_from_start(&self, len: u16) -> bool {
        self.spec_payload().spec_can_trim_from_start(len)
    }

    /// As for the payload buffer.
    open spec fn spec_trimmed_data(&self, len: u16) -> Seq<u8> {
        self.spec_payload().spec_trimmed_data(len)
    }

    /// The payload buffer is trimmed; headers and metadata stay.
    open spec fn spec_trimmed_from_start(&self, len: u16, data: Seq<u8>, after: Packet<Buf>) -> bool {
        &&& after.spec_headers() == self.spec_headers()
        &&& after.spec_meta() == self.spec_meta()
        &&& self.spec_payload().spec_trimmed_from_start(len, data, after.spec_payload())
    }

    fn trim_from_start(&mut self, len: u16) -> Result<&mut [u8], Self::Error> {
        self.payload.trim_from_start(len)
    }
}

impl<Buf: PacketBufferMut> Headroom for Packet<Buf> {
    /// The headroom of the payload buffer.
    open spec fn spec_headroom(&self) -> u16 {
        self.spec_payload().spec_headroom()
    }

    fn headroom(&self) -> u16 {
        self.payload.headroom()
    }
}

impl<Buf: PacketBufferMut> Tailroom for Packet<Buf> {
    /// The tailroom of the payload buffer.
    open spec fn spec_tailroom(&self) -> u16 {
        self.spec_payload().spec_tailroom()
    }

    fn tailroom(&self) -> u16 {
        self.payload.tailroom()
    }
}

/// Once a packet is done, marking it done again keeps the first reason.
pub proof fn lemma_first_done_reason_stands(
    current: Option<DoneReason>,
    first: DoneReason,
    second: DoneReason,
)
    ensures
        spec_done(spec_done(current, first), second) == spec_done(current, first),
        current is None ==> spec_done(spec_done(current, first), second) == Some(first),
{
}

} // verus!

//! The UDP header: ports, length and checksum, read and written through
//! `etherparse`'s `UdpHeader`.

use crate::parse::{DeParseError, LengthError, ParseError};
use crate::vxlan::{spec_parse_vxlan, Vxlan, VXLAN_PORT};
use etherparse::UdpHeader;
use vstd::prelude::*;

verus! {

/// The length of a UDP header in bytes (its minimum and maximum length).
pub const UDP_LEN: u16 = 8;

/// A UDP port number other than zero.
#[derive(Clone, Copy, Debug, PartialEq, Eq, Structural, Hash, PartialOrd, Ord)]
pub struct UdpPort {
    port: u16,
}

impl View for UdpPort {
    type V = u16;

    closed spec fn view(&self) -> u16 {
        self.port
    }
}

impl UdpPort {
    #[verifier::type_invariant]
    spec fn non_zero(self) -> bool {
        self.port != 0
    }

    /// The port `port`, or `None` when `port` is zero.
    pub fn new_checked(port: u16) -> (res: Option<UdpPort>)
        ensures
            port == 0 <==> res is None,
            res matches Some(p) ==> p@ == port,
    {
        if port == 0 {
            None
        } else {
            Some(UdpPort { port })
        }
    }

    /// The port number; never zero.
    pub fn as_u16(self) -> (res: u16)
        ensures
            res == self@,
            res != 0,
    {
        proof {
            use_type_invariant(&self);
        }
        self.port
    }
}

impl From<UdpPort> for u16 {
    fn from(port: UdpPort) -> (res: u16) {
        port.as_u16()
    }
}

impl vstd::std_specs::convert::FromSpecImpl<UdpPort> for u16 {
    open spec fn obeys_from_spec() -> bool {
        true
    }

    open spec fn from_spec(port: UdpPort) -> u16 {
        port@
    }
}

/// The four fields of a UDP header as plain numbers.
#[derive(Clone, Copy, Debug, PartialEq, Eq, Structural)]
pub struct UdpFields {
    /// The source port (zero when unset).
    pub source: u16,
    /// The destination port (zero when unset).
    pub destination: u16,
    /// The length of the datagram, header included.
    pub length: u16,
    /// The checksum; nothing checks that it is right.
    pub checksum: u16,
}

/// A UDP header.
#[derive(Clone, Copy, Debug, PartialEq, Eq, Structural)]
pub struct Udp {
    fields: UdpFields,
}

/// A UDP encapsulation carried in a UDP datagram: only VXLAN for now.
#[derive(Clone, Copy, Debug, PartialEq, Eq, Structural)]
pub enum UdpEncap {
    /// A VXLAN header in a UDP datagram.
    Vxlan(Vxlan),
}

/// Why bytes could not be read as a UDP header.
#[derive(Clone, Copy, Debug, PartialEq, Eq, Structural)]
pub enum UdpParseError {
    /// Zero is not a legal source port.
    ZeroSourcePort,
    /// Zero is not a legal destination port.
    ZeroDestinationPort,
}

/// The big-endian value of two bytes.
pub open spec fn be_u16(hi: u8, lo: u8) -> u16 {
    (hi * 0x100 + lo) as u16
}

/// The header fields held in the first eight bytes of `buf`.
pub open spec fn spec_udp_fields(buf: Seq<u8>) -> UdpFields {
    UdpFields {
        source: be_u16(buf[0], buf[1]),
        destination: be_u16(buf[2], buf[3]),
        length: be_u16(buf[4], buf[5]),
        checksum: be_u16(buf[6], buf[7]),
    }
}

/// The eight bytes of a UDP header: each field in big-endian order.
pub open spec fn spec_udp_bytes(f: UdpFields) -> Seq<u8> {
    seq![
        (f.source / 0x100) as u8,
        (f.source % 0x100) as u8,
        (f.destination / 0x100) as u8,
        (f.destination % 0x100) as u8,
        (f.length / 0x100) as u8,
        (f.length % 0x100) as u8,
        (f.checksum / 0x100) as u8,
        (f.checksum % 0x100) as u8
    ]
}

/// What [`Udp::parse`] gives for `buf`: a buffer longer than 65535 bytes is
/// refused, then one shorter than 8 bytes, then a zero source port, then a
/// zero destination port.
pub open spec fn spec_parse_udp(buf: Seq<u8>) -> Result<UdpFields, ParseError<UdpParseError>> {
    if buf.len() > u16::MAX {
        Err(ParseError::BufferTooLong(buf.len() as usize))
    } else if buf.len() < UDP_LEN {
        Err(ParseError::Length(LengthError { expected: UDP_LEN as usize, actual: buf.len() as usize }))
    } else if spec_udp_fields(buf).source == 0 {
        Err(ParseError::Invalid(UdpParseError::ZeroSourcePort))
    } else if spec_udp_fields(buf).destination == 0 {
        Err(ParseError::Invalid(UdpParseError::ZeroDestinationPort))
    } else {
        Ok(spec_udp_fields(buf))
    }
}

/// Reads a UDP header with `etherparse::UdpHeader::from_slice`.
///
/// Trusted: `from_slice` fails with a `LenError` whose `required_len` is 8 when
/// the slice is shorter than 8 bytes; otherwise it reads the four fields in
/// big-endian order from the first 8 bytes and hands back the rest of the
/// slice. This returns the header and the length of that rest, or the
/// required length.
#[verifier::external_body]
fn udp_header_from_slice(buf: &[u8]) -> (res: Result<(Udp, usize), usize>)
    ensures
        match res {
            Ok((header, rest)) => buf@.len() >= UDP_LEN && header@ == spec_udp_fields(buf@) && rest
                == buf@.len() - UDP_LEN,
            Err(required) => buf@.len() < UDP_LEN && required == UDP_LEN,
        },
{
    match UdpHeader::from_slice(buf) {
        Ok((h, rest)) => Ok((
            Udp {
                fields: UdpFields {
                    source: h.source_port,
                    destination: h.destination_port,
                    length: h.length,
                    checksum: h.checksum,
                },
            },
            rest.len(),
        )),
        Err(e) => Err(e.required_len),
    }
}

/// Writes a UDP header with `etherparse::UdpHeader::to_bytes`.
///
/// Trusted: `to_bytes` gives the source port, destination port, length and
/// checksum, each in big-endian order.
#[verifier::external_body]
fn udp_header_to_bytes(fields: UdpFields) -> (res: [u8; 8])
    ensures
        res@ == spec_udp_bytes(fields),
{
    UdpHeader {
        source_port: fields.source,
        destination_port: fields.destination,
        length: fields.length,
        checksum: fields.checksum,
    }.to_bytes()
}

impl View for Udp {
    type V = UdpFields;

    closed spec fn view(&self) -> UdpFields {
        self.fields
    }
}

} // verus!

verus! {

impl Udp {
    /// An empty UDP header: zero ports, no checksum and a length that covers
    /// the header alone.
    pub fn empty() -> (res: Udp)
        ensures
            res@ == (UdpFields { source: 0, destination: 0, length: UDP_LEN, checksum: 0 }),
    {
        Udp { fields: UdpFields { source: 0, destination: 0, length: UDP_LEN, checksum: 0 } }
    }

    /// A UDP header from `source` to `destination`, without checksum and with
    /// the length of the header alone (the least a UDP length may be).
    pub fn new(source: UdpPort, destination: UdpPort) -> (res: Udp)
        ensures
            res@ == (UdpFields { source: source@, destination: destination@, length: UDP_LEN, checksum: 0 }),
            res@.length >= UDP_LEN,
    {
        Udp {
            fields: UdpFields {
                source: source.as_u16(),
                destination: destination.as_u16(),
                length: UDP_LEN,
                checksum: 0,
            },
        }
    }

    /// The source port. The header must have one (parsed headers and those
    /// built by [`Udp::new`] do).
    pub fn source(&self) -> (res: UdpPort)
        requires
            self@.source != 0,
        ensures
            res@ == self@.source,
    {
        UdpPort { port: self.fields.source }
    }

    /// The destination port. The header must have one (parsed headers and
    /// those built by [`Udp::new`] do).
    pub fn destination(&self) -> (res: UdpPort)
        requires
            self@.destination != 0,
        ensures
            res@ == self@.destination,
    {
        UdpPort { port: self.fields.destination }
    }

    /// The source port field as it stands (zero when unset).
    pub fn raw_source(&self) -> (res: u16)
        ensures
            res == self@.source,
    {
        self.fields.source
    }

    /// The destination port field as it stands (zero when unset).
    pub fn raw_destination(&self) -> (res: u16)
        ensures
            res == self@.destination,
    {
        self.fields.destination
    }

    /// The length of the datagram, header included, as the header states it.
    pub fn length(&self) -> (res: u16)
        ensures
            res == self@.length,
    {
        self.fields.length
    }

    /// The checksum, as the header states it.
    pub fn checksum(&self) -> (res: u16)
        ensures
            res == self@.checksum,
    {
        self.fields.checksum
    }

    /// Set the source port.
    pub fn set_source(&mut self, port: UdpPort) -> (res: &mut Udp)
        ensures
            res@ == (UdpFields { source: port@, ..old(self)@ }),
            *final(self) == *final(res),
    {
        self.fields.source = port.as_u16();
        self
    }

    /// Set the destination port.
    pub fn set_destination(&mut self, port: UdpPort) -> (res: &mut Udp)
        ensures
            res@ == (UdpFields { destination: port@, ..old(self)@ }),
            *final(self) == *final(res),
    {
        self.fields.destination = port.as_u16();
        self
    }

    /// Set the checksum; nothing checks that it is right.
    pub fn set_checksum(&mut self, checksum: u16) -> (res: &mut Udp)
        ensures
            res@ == (UdpFields { checksum, ..old(self)@ }),
            *final(self) == *final(res),
    {
        self.fields.checksum = checksum;
        self
    }

    /// Set the length of the datagram, header included; it cannot be shorter
    /// than the header.
    pub fn set_length(&mut self, length: u16) -> (res: &mut Udp)
        requires
            length >= UDP_LEN,
        ensures
            res@ == (UdpFields { length, ..old(self)@ }),
            *final(self) == *final(res),
    {
        self.fields.length = length;
        self
    }

    /// The serialised size of a UDP header: always 8 bytes.
    pub fn size(&self) -> (res: u16)
        ensures
            res == UDP_LEN,
    {
        UDP_LEN
    }

    /// Read a UDP header from the start of `buf`; see [`spec_parse_udp`].
    ///
    /// On success the header and the number of bytes it takes (8) are
    /// returned.
    pub fn parse(buf: &[u8]) -> (res: Result<(Udp, u16), ParseError<UdpParseError>>)
        ensures
            match spec_parse_udp(buf@) {
                Ok(fields) => res matches Ok((h, n)) && h@ == fields && n == UDP_LEN,
                Err(e) => res == Err::<(Udp, u16), ParseError<UdpParseError>>(e),
            },
    {
        if buf.len() > 0xFFFF {
            return Err(ParseError::BufferTooLong(buf.len()));
        }
        let (inner, rest) = match udp_header_from_slice(buf) {
            Ok(found) => found,
            Err(expected) => {
                return Err(ParseError::Length(LengthError { expected, actual: buf.len() }));
            },
        };
        let consumed = (buf.len() - rest) as u16;
        if inner.fields.source == 0 {
            return Err(ParseError::Invalid(UdpParseError::ZeroSourcePort));
        }
        if inner.fields.destination == 0 {
            return Err(ParseError::Invalid(UdpParseError::ZeroDestinationPort));
        }
        Ok((inner, consumed))
    }

    /// Write this header into the first 8 bytes of `buf`.
    ///
    /// Fails with a length error, leaving `buf` untouched, when `buf` is shorter
    /// than 8 bytes; the bytes after the first 8 are never changed.
    pub fn deparse(&self, buf: &mut [u8]) -> (res: Result<u16, DeParseError<()>>)
        ensures
            old(buf)@.len() < UDP_LEN ==> res == Err::<u16, DeParseError<()>>(
                DeParseError::Length(
                    LengthError { expected: UDP_LEN as usize, actual: old(buf)@.len() as usize },
                ),
            ) && final(buf)@ == old(buf)@,
            old(buf)@.len() >= UDP_LEN ==> res == Ok::<u16, DeParseError<()>>(UDP_LEN)
                && final(buf)@ == spec_udp_bytes(self@) + old(buf)@.skip(UDP_LEN as int),
    {
        if buf.len() < 8 {
            return Err(DeParseError::Length(LengthError { expected: 8, actual: buf.len() }));
        }
        let bytes = udp_header_to_bytes(self.fields);
        let mut i: usize = 0;
        while i < 8
            invariant
                0 <= i <= 8,
                buf@.len() == old(buf)@.len(),
                old(buf)@.len() >= 8,
                bytes@ == spec_udp_bytes(self@),
                forall|j: int| 0 <= j < i ==> buf@[j] == bytes@[j],
                forall|j: int| i <= j < buf@.len() ==> buf@[j] == old(buf)@[j],
            decreases 8 - i,
        {
            buf[i] = bytes[i];
            i = i + 1;
        }
        assert(buf@ =~= spec_udp_bytes(self@) + old(buf)@.skip(UDP_LEN as int));
        Ok(UDP_LEN)
    }

    /// The encapsulation that follows this header in `rest`: a VXLAN header
    /// when the destination port is the VXLAN port and `rest` reads as one,
    /// nothing otherwise.
    pub fn parse_payload(&self, rest: &[u8]) -> (res: Option<UdpEncap>)
        ensures
            match res {
                Some(UdpEncap::Vxlan(v)) => self@.destination == VXLAN_PORT && spec_parse_vxlan(rest@)
                    == Ok::<u32, ParseError<crate::vxlan::VxlanError>>(v@),
                None => self@.destination != VXLAN_PORT || spec_parse_vxlan(rest@) is Err,
            },
    {
        if self.fields.destination == VXLAN_PORT {
            match Vxlan::parse(rest) {
                Ok((vxlan, _)) => Some(UdpEncap::Vxlan(vxlan)),
                Err(_) => None,
            }
        } else {
            None
        }
    }
}

} // verus!

verus! {

proof fn lemma_u16_digits(v: u16)
    ensures
        be_u16((v / 0x100) as u8, (v % 0x100) as u8) == v,
{
    assert(((v / 0x100) as u8) as u16 * 0x100u16 + ((v % 0x100) as u8) as u16 == v) by (bit_vector);
}

proof fn lemma_u16_bytes(hi: u8, lo: u8)
    ensures
        (be_u16(hi, lo) / 0x100) as u8 == hi,
        (be_u16(hi, lo) % 0x100) as u8 == lo,
{
    assert(hi * 0x100 + lo <= 0xFFFF) by (nonlinear_arith);
    let v: u16 = (hi as u16 * 0x100u16 + lo as u16) as u16;
    assert(hi as u16 * 0x100u16 + lo as u16 == hi * 0x100 + lo) by (nonlinear_arith);
    assert((v / 0x100) as u8 == hi && (v % 0x100) as u8 == lo) by (bit_vector)
        requires
            v == hi as u16 * 0x100u16 + lo as u16,
    ;
}

/// Writing a UDP header with both ports set and reading it back gives the same
/// fields, whatever follows the header (as long as the whole stays within a
/// packet's 65535 bytes).
pub proof fn lemma_udp_parse_back(fields: UdpFields, rest: Seq<u8>)
    requires
        fields.source != 0,
        fields.destination != 0,
        UDP_LEN + rest.len() <= u16::MAX,
    ensures
        spec_parse_udp(spec_udp_bytes(fields) + rest) == Ok::<UdpFields, ParseError<UdpParseError>>(
            fields,
        ),
{
    lemma_u16_digits(fields.source);
    lemma_u16_digits(fields.destination);
    lemma_u16_digits(fields.length);
    lemma_u16_digits(fields.checksum);
    let buf = spec_udp_bytes(fields) + rest;
    assert(spec_udp_fields(buf) == fields);
}

/// A buffer that reads as a UDP header is written back as the same eight
/// bytes.
pub proof fn lemma_udp_deparse_after_parse(buf: Seq<u8>)
    requires
        spec_parse_udp(buf) is Ok,
    ensures
        spec_udp_bytes(spec_parse_udp(buf)->Ok_0) == buf.subrange(0, UDP_LEN as int),
{
    lemma_u16_bytes(buf[0], buf[1]);
    lemma_u16_bytes(buf[2], buf[3]);
    lemma_u16_bytes(buf[4], buf[5]);
    lemma_u16_bytes(buf[6], buf[7]);
    assert(spec_udp_bytes(spec_parse_udp(buf)->Ok_0) =~= buf.subrange(0, UDP_LEN as int));
}

/// Two UDP headers with the same fields are the same header.
pub proof fn lemma_udp_same_fields_same_header(a: Udp, b: Udp)
    requires
        a@ == b@,
    ensures
        a == b,
{
}

/// Copying a header's fields onto another with the setters (source, then
/// destination, length and checksum) gives that header, and so the same
/// bytes: each setter changes its own field alone. The length to copy must
/// be one that [`Udp::set_length`] takes (at least 8), and the ports those
/// of a header with both ports set.
pub proof fn lemma_udp_setters_copy(a: Udp, b: Udp, after: Udp)
    requires
        b@.source != 0,
        b@.destination != 0,
        b@.length >= UDP_LEN,
        after@ == (UdpFields {
            checksum: b@.checksum,
            ..UdpFields {
                length: b@.length,
                ..UdpFields { destination: b@.destination, ..UdpFields { source: b@.source, ..a@ } }
            }
        }),
    ensures
        after == b,
        spec_udp_bytes(after@) == spec_udp_bytes(b@),
{
}

} // verus!

verus! {

/// Only the first eight bytes of a buffer decide what it reads as: bytes
/// after the header change nothing (as long as the buffer stays within a
/// packet's 65535 bytes).
pub proof fn lemma_udp_parse_ignores_rest(buf: Seq<u8>, rest: Seq<u8>)
    requires
        buf.len() >= UDP_LEN,
        buf.len() + rest.len() <= u16::MAX,
    ensures
        spec_parse_udp(buf + rest) == spec_parse_udp(buf),
{
    let whole = buf + rest;
    assert(spec_udp_fields(whole) == spec_udp_fields(buf)) by {
        assert(whole[0] == buf[0] && whole[1] == buf[1] && whole[2] == buf[2] && whole[3] == buf[3]);
        assert(whole[4] == buf[4] && whole[5] == buf[5] && whole[6] == buf[6] && whole[7] == buf[7]);
    }
}

} // verus!

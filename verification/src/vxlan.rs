//! The VXLAN header (RFC 7348, section 5): parsing and serialisation.

use crate::parse::{DeParseError, LengthError, ParseError};
pub use crate::vni::{InvalidVni, Vni};
use crate::vni::{is_legal_vni, spec_new_checked};
use vstd::prelude::*;

verus! {

/// The length of a VXLAN header in bytes (it has no variable part).
pub const VXLAN_LEN: u16 = 8;

/// The only flag a VXLAN header may carry: the `I` bit, which says that the
/// VNI is valid.
pub const VXLAN_LEGAL_FLAGS: u8 = 0b0000_1000;

/// The UDP port on which VXLAN frames are expected (4789).
pub const VXLAN_PORT: u16 = 4789;

/// A VXLAN header.
#[derive(Clone, Copy, Debug, PartialEq, Eq, Structural, Hash, PartialOrd, Ord)]
pub struct Vxlan {
    vni: Vni,
}

/// Why bytes could not be read as a VXLAN header.
#[derive(Clone, Copy, Debug, PartialEq, Eq, Structural)]
pub enum VxlanError {
    /// The 24-bit VNI field holds zero.
    InvalidVni(InvalidVni),
    /// A reserved byte (bytes 1 to 3 and 7) is not zero.
    ReservedBitsSet,
    /// The `I` flag in the first byte is not set.
    RequiredBitUnset,
}

/// The big-endian value of four bytes.
pub open spec fn be_u32(b0: u8, b1: u8, b2: u8, b3: u8) -> int {
    b0 * 0x0100_0000 + b1 * 0x0001_0000 + b2 * 0x0000_0100 + b3
}

/// What [`Vxlan::parse`] gives for `buf`, the header taken by its VNI value.
///
/// The header is accepted when it is at least 8 bytes long, the `I` flag is
/// set (other flag bits are ignored), the reserved bytes 1, 2, 3 and 7 are zero
/// and the VNI held in bytes 4 to 6 is not zero.
pub open spec fn spec_parse_vxlan(buf: Seq<u8>) -> Result<u32, ParseError<VxlanError>> {
    if buf.len() < VXLAN_LEN {
        Err(ParseError::Length(LengthError { expected: VXLAN_LEN as usize, actual: buf.len() as usize }))
    } else if buf[0] & VXLAN_LEGAL_FLAGS != VXLAN_LEGAL_FLAGS {
        Err(ParseError::Invalid(VxlanError::RequiredBitUnset))
    } else if buf[1] != 0 || buf[2] != 0 || buf[3] != 0 || buf[7] != 0 {
        Err(ParseError::Invalid(VxlanError::ReservedBitsSet))
    } else {
        match spec_new_checked(be_u32(buf[3], buf[4], buf[5], buf[6]) as u32) {
            Ok(value) => Ok(value),
            Err(e) => Err(ParseError::Invalid(VxlanError::InvalidVni(e))),
        }
    }
}

/// The eight bytes that [`Vxlan::deparse`] writes for a header whose VNI is
/// `vni`: the `I` flag, three zero bytes, the VNI in big-endian order in the
/// 32 bits from byte 3 on (byte 3 is zero for a legal VNI), and a zero byte.
pub open spec fn spec_vxlan_bytes(vni: u32) -> Seq<u8> {
    seq![
        VXLAN_LEGAL_FLAGS,
        0u8,
        0u8,
        (vni / 0x0100_0000) as u8,
        ((vni / 0x0001_0000) % 0x100) as u8,
        ((vni / 0x0000_0100) % 0x100) as u8,
        (vni % 0x100) as u8,
        0u8
    ]
}

impl View for Vxlan {
    type V = u32;

    /// A VXLAN header is its VNI's value.
    closed spec fn view(&self) -> u32 {
        self.vni@
    }
}

impl Vxlan {
    /// Create a VXLAN header carrying `vni`.
    pub fn new(vni: Vni) -> (res: Vxlan)
        ensures
            res@ == vni@,
            res.vni_of() == vni,
    {
        Vxlan { vni }
    }

    /// The VNI of a header, in specifications.
    pub closed spec fn vni_of(self) -> Vni {
        self.vni
    }

    /// The [`Vni`] of this header.
    pub fn vni(&self) -> (res: Vni)
        ensures
            res == self.vni_of(),
            res@ == self@,
    {
        self.vni
    }

    /// Set the [`Vni`] of this header.
    pub fn set_vni(&mut self, vni: Vni) -> (res: &mut Vxlan)
        ensures
            res.vni_of() == vni,
            res@ == vni@,
            *final(self) == *final(res),
    {
        self.vni = vni;
        self
    }

    /// The serialised size of a VXLAN header: always 8 bytes.
    pub fn size(&self) -> (res: u16)
        ensures
            res == VXLAN_LEN,
    {
        VXLAN_LEN
    }

    /// Read a VXLAN header from the start of `buf`.
    ///
    /// On success the header and the number of bytes it takes (8) are
    /// returned; the errors are those of [`spec_parse_vxlan`].
    pub fn parse(buf: &[u8]) -> (res: Result<(Vxlan, u16), ParseError<VxlanError>>)
        ensures
            match spec_parse_vxlan(buf@) {
                Ok(value) => res matches Ok((h, n)) && h@ == value && n == VXLAN_LEN,
                Err(e) => res == Err::<(Vxlan, u16), ParseError<VxlanError>>(e),
            },
    {
        if buf.len() < 8 {
            return Err(ParseError::Length(LengthError { expected: 8, actual: buf.len() }));
        }
        if buf[0] & VXLAN_LEGAL_FLAGS != VXLAN_LEGAL_FLAGS {
            return Err(ParseError::Invalid(VxlanError::RequiredBitUnset));
        }
        if buf[1] != 0 || buf[2] != 0 || buf[3] != 0 || buf[7] != 0 {
            return Err(ParseError::Invalid(VxlanError::ReservedBitsSet));
        }
        let raw: u32 = (buf[3] as u32) * 0x0100_0000 + (buf[4] as u32) * 0x0001_0000 + (buf[5] as u32)
            * 0x0000_0100 + (buf[6] as u32);
        match Vni::new_checked(raw) {
            Ok(vni) => Ok((Vxlan { vni }, VXLAN_LEN)),
            Err(e) => Err(ParseError::Invalid(VxlanError::InvalidVni(e))),
        }
    }

    /// Write this header into the first 8 bytes of `buf`.
    ///
    /// Fails with a length error, leaving `buf` untouched, when `buf` is shorter
    /// than 8 bytes; the bytes after the first 8 are never changed.
    pub fn deparse(&self, buf: &mut [u8]) -> (res: Result<u16, DeParseError<()>>)
        ensures
            old(buf)@.len() < VXLAN_LEN ==> res == Err::<u16, DeParseError<()>>(
                DeParseError::Length(
                    LengthError { expected: VXLAN_LEN as usize, actual: old(buf)@.len() as usize },
                ),
            ) && final(buf)@ == old(buf)@,
            old(buf)@.len() >= VXLAN_LEN ==> res == Ok::<u16, DeParseError<()>>(VXLAN_LEN)
                && final(buf)@ == spec_vxlan_bytes(self@) + old(buf)@.skip(VXLAN_LEN as int),
    {
        if buf.len() < 8 {
            return Err(DeParseError::Length(LengthError { expected: 8, actual: buf.len() }));
        }
        let value = self.vni.as_u32();
        buf[0] = VXLAN_LEGAL_FLAGS;
        buf[1] = 0;
        buf[2] = 0;
        buf[3] = (value / 0x0100_0000) as u8;
        buf[4] = ((value / 0x0001_0000) % 0x100) as u8;
        buf[5] = ((value / 0x0000_0100) % 0x100) as u8;
        buf[6] = (value % 0x100) as u8;
        buf[7] = 0;
        assert(buf@ =~= spec_vxlan_bytes(self@) + old(buf)@.skip(VXLAN_LEN as int));
        Ok(VXLAN_LEN)
    }
}

} // verus!

verus! {

proof fn lemma_digits(vni: u32)
    requires
        is_legal_vni(vni),
    ensures
        (vni / 0x0100_0000) as u8 == 0,
        be_u32(
            (vni / 0x0100_0000) as u8,
            ((vni / 0x0001_0000) % 0x100) as u8,
            ((vni / 0x0000_0100) % 0x100) as u8,
            (vni % 0x100) as u8,
        ) == vni,
{
    assert((vni / 0x0100_0000) as u8 == 0) by (bit_vector)
        requires vni <= 0x00FF_FFFF;
    assert(((vni / 0x0001_0000) % 0x100) as u8 * 0x0001_0000u32 + ((vni / 0x0000_0100) % 0x100) as u8 * 0x100u32
        + (vni % 0x100) as u8 == vni) by (bit_vector)
        requires vni <= 0x00FF_FFFF;
}

/// Writing a header and reading it back gives the same header, whatever follows
/// the header in the buffer.
pub proof fn lemma_vxlan_parse_back(vni: u32, rest: Seq<u8>)
    requires
        is_legal_vni(vni),
    ensures
        spec_parse_vxlan(spec_vxlan_bytes(vni) + rest) == Ok::<u32, ParseError<VxlanError>>(vni),
{
    lemma_digits(vni);
    let b = spec_vxlan_bytes(vni) + rest;
    assert(b[0] == VXLAN_LEGAL_FLAGS);
    assert(0b0000_1000u8 & 0b0000_1000u8 == 0b0000_1000u8) by (bit_vector);
}

} // verus!

verus! {

proof fn lemma_be_digits(b4: u8, b5: u8, b6: u8)
    ensures
        ({
            let v = be_u32(0u8, b4, b5, b6) as u32;
            &&& (v / 0x0100_0000) as u8 == 0u8
            &&& ((v / 0x0001_0000) % 0x100) as u8 == b4
            &&& ((v / 0x0000_0100) % 0x100) as u8 == b5
            &&& (v % 0x100) as u8 == b6
            &&& v <= 0x00FF_FFFF
        }),
{
    assert(be_u32(0u8, b4, b5, b6) == b4 as u32 * 0x0001_0000u32 + b5 as u32 * 0x100u32 + b6 as u32) by (nonlinear_arith);
    let v: u32 = (b4 as u32 * 0x0001_0000u32 + b5 as u32 * 0x100u32 + b6 as u32) as u32;
    assert({
        &&& (v / 0x0100_0000) as u8 == 0u8
        &&& ((v / 0x0001_0000) % 0x100) as u8 == b4
        &&& ((v / 0x0000_0100) % 0x100) as u8 == b5
        &&& (v % 0x100) as u8 == b6
        &&& v <= 0x00FF_FFFF
    }) by (bit_vector)
        requires
            v == b4 as u32 * 0x0001_0000u32 + b5 as u32 * 0x100u32 + b6 as u32,
    ;
}

/// A buffer that reads as a VXLAN header is written back as the same bytes,
/// except that the flags byte keeps only the `I` flag (which it had).
pub proof fn lemma_vxlan_deparse_after_parse(buf: Seq<u8>)
    requires
        spec_parse_vxlan(buf) is Ok,
    ensures
        buf[0] & VXLAN_LEGAL_FLAGS == VXLAN_LEGAL_FLAGS,
        spec_vxlan_bytes(spec_parse_vxlan(buf)->Ok_0) == seq![VXLAN_LEGAL_FLAGS] + buf.subrange(1, 8),
{
    lemma_be_digits(buf[4], buf[5], buf[6]);
    assert(spec_vxlan_bytes(spec_parse_vxlan(buf)->Ok_0) =~= seq![VXLAN_LEGAL_FLAGS] + buf.subrange(1, 8));
}

/// The parser never reports a VNI as too large: the VNI field is 24 bits wide.
pub proof fn lemma_vxlan_parse_never_too_large(buf: Seq<u8>, value: u32)
    ensures
        spec_parse_vxlan(buf) != Err::<u32, ParseError<VxlanError>>(
            ParseError::Invalid(VxlanError::InvalidVni(InvalidVni::TooLarge(value))),
        ),
{
    if buf.len() >= VXLAN_LEN && buf[3] == 0 {
        lemma_be_digits(buf[4], buf[5], buf[6]);
    }
}

} // verus!

verus! {

/// Two VXLAN headers with the same VNI are the same header.
pub proof fn lemma_vxlan_same_vni_same_header(a: Vxlan, b: Vxlan)
    requires
        a.vni_of() == b.vni_of(),
    ensures
        a == b,
{
}

impl Vxlan {
    /// Parsing below the VXLAN layer is not supported: there is never a next
    /// header to read from `_rest`.
    pub fn parse_payload(&self, _rest: &[u8]) -> (res: Option<()>)
        ensures
            res is None,
    {
        None
    }
}

} // verus!

use net::parse::{DeParseError, ParseError};
use net::vni::{InvalidVni, Vni};
use net::vxlan::{Vxlan, VxlanError, VXLAN_LEGAL_FLAGS, VXLAN_LEN};

const MIN_LENGTH_USIZE: usize = 8;

/// A deterministic pseudo-random stream.
struct Lcg(u64);

impl Lcg {
    fn next_u32(&mut self) -> u32 {
        self.0 = self.0.wrapping_mul(6_364_136_223_846_793_005).wrapping_add(1_442_695_040_888_963_407);
        (self.0 >> 32) as u32
    }

    fn next_u8(&mut self) -> u8 {
        (self.next_u32() >> 24) as u8
    }

    fn vni(&mut self) -> Vni {
        let raw = self.next_u32() & Vni::MAX;
        Vni::new_checked(if raw == 0 { 1 } else { raw }).unwrap()
    }

    fn vxlan(&mut self) -> Vxlan {
        Vxlan::new(self.vni())
    }

    fn bytes8(&mut self) -> [u8; MIN_LENGTH_USIZE] {
        let mut b = [0u8; MIN_LENGTH_USIZE];
        for x in b.iter_mut() {
            *x = self.next_u8();
        }
        // half of the samples look like a VXLAN header, to reach the accepting paths
        if self.next_u32() % 2 == 0 {
            b[0] |= VXLAN_LEGAL_FLAGS;
            b[1] = 0;
            b[2] = 0;
            b[3] = 0;
            b[7] = 0;
        }
        b
    }
}

const ROUNDS: usize = 4000;

#[test]
fn mod_parse_back() {
    let mut rng = Lcg(1);
    for _ in 0..ROUNDS {
        let vxlan = rng.vxlan();
        assert_eq!(vxlan.size(), VXLAN_LEN);
        let mut buf = [0u8; MIN_LENGTH_USIZE];
        let bytes_written = vxlan.deparse(&mut buf).unwrap();
        assert_eq!(bytes_written, VXLAN_LEN);
        let (parsed, bytes_parsed) = Vxlan::parse(&buf).unwrap();
        assert_eq!(parsed, vxlan);
        assert_eq!(bytes_parsed, VXLAN_LEN);
        assert_eq!(parsed.vni(), vxlan.vni());
    }
}

#[test]
fn creation_identity_check() {
    let mut rng = Lcg(2);
    for _ in 0..ROUNDS {
        let vxlan = rng.vxlan();
        assert_eq!(vxlan, Vxlan::new(vxlan.vni()));
        assert_eq!(vxlan.size(), VXLAN_LEN);
    }
}

#[test]
fn parse_noise() {
    let mut rng = Lcg(3);
    for _ in 0..ROUNDS {
        let slice = rng.bytes8();
        let (parsed, bytes_parsed) = match Vxlan::parse(&slice) {
            Ok((parsed, bytes_parsed)) => (parsed, bytes_parsed),
            Err(ParseError::Length(_)) => unreachable!(),
            Err(ParseError::Invalid(VxlanError::InvalidVni(InvalidVni::ReservedZero))) => {
                assert_eq!(&slice[3..=6], &[0, 0, 0, 0]);
                continue;
            }
            Err(ParseError::Invalid(VxlanError::ReservedBitsSet)) => {
                assert!(slice[1..=3] != [0, 0, 0] || slice[7] != 0);
                continue;
            }
            Err(ParseError::Invalid(VxlanError::RequiredBitUnset)) => {
                assert_ne!(slice[0] & VXLAN_LEGAL_FLAGS, VXLAN_LEGAL_FLAGS);
                continue;
            }
            Err(ParseError::Invalid(VxlanError::InvalidVni(InvalidVni::TooLarge(val)))) => {
                unreachable!("parser logic error: too large vni should be impossible: found {val}");
            }
            Err(ParseError::BufferTooLong(_)) => unreachable!(),
        };
        assert_eq!(bytes_parsed, VXLAN_LEN);
        let mut write_back_buffer = [0u8; MIN_LENGTH_USIZE];
        let bytes_written = parsed.deparse(&mut write_back_buffer).unwrap();
        assert_eq!(bytes_written, VXLAN_LEN);
        assert_eq!(write_back_buffer[0], VXLAN_LEGAL_FLAGS);
        assert_eq!(slice[0] & VXLAN_LEGAL_FLAGS, VXLAN_LEGAL_FLAGS);
        assert_eq!(&write_back_buffer[1..=3], &[0, 0, 0]);
        assert_eq!(
            &write_back_buffer[4..bytes_written as usize],
            &slice[4..bytes_written as usize]
        );
    }
}

#[test]
fn write_to_insufficient_buffer_fails_gracefully() {
    let mut rng = Lcg(4);
    for _ in 0..ROUNDS {
        let vni = rng.vxlan();
        let mut too_small_buffer = [0u8; MIN_LENGTH_USIZE - 1];
        match vni.deparse(&mut too_small_buffer) {
            Err(DeParseError::Length(e)) => {
                assert_eq!(e.expected, VXLAN_LEN as usize);
                assert_eq!(e.actual, too_small_buffer.len());
            }
            _ => unreachable!(),
        }
    }
}

#[test]
fn parse_of_insufficient_buffer_fails_gracefully() {
    let mut rng = Lcg(5);
    for _ in 0..ROUNDS {
        let full = rng.bytes8();
        let slice = &full[..MIN_LENGTH_USIZE - 1];
        match Vxlan::parse(slice) {
            Err(ParseError::Length(e)) => {
                assert_eq!(e.expected, VXLAN_LEN as usize);
                assert_eq!(e.actual, slice.len());
            }
            _ => unreachable!(),
        }
    }
}

#[test]
fn mutation_of_header_preserves_contract() {
    let mut rng = Lcg(6);
    for _ in 0..ROUNDS {
        let vxlan = rng.vxlan();
        let new_vni = rng.vni();
        if vxlan.vni() == new_vni {
            continue;
        }
        let mut new_vxlan = vxlan;
        new_vxlan.set_vni(new_vni);
        assert_ne!(vxlan, new_vxlan);
        assert_eq!(new_vxlan.vni(), new_vni);
    }
}

#[test]
fn vxlan_header_bytes_are_exact() {
    let vxlan = Vxlan::new(Vni::new_checked(0x00AB_CDEF).unwrap());
    let mut buf = [0x55u8; 10];
    assert_eq!(vxlan.deparse(&mut buf), Ok(8));
    assert_eq!(buf, [0x08, 0, 0, 0, 0xAB, 0xCD, 0xEF, 0, 0x55, 0x55]);
}

#[test]
fn vxlan_parse_errors_in_order() {
    // too short beats every other check
    assert_eq!(
        Vxlan::parse(&[0u8; 3]).unwrap_err(),
        ParseError::Length(net::parse::LengthError { expected: 8, actual: 3 })
    );
    // missing I flag
    assert_eq!(
        Vxlan::parse(&[0, 1, 0, 0, 0, 0, 1, 0]).unwrap_err(),
        ParseError::Invalid(VxlanError::RequiredBitUnset)
    );
    // reserved byte set
    assert_eq!(
        Vxlan::parse(&[0x08, 0, 0, 0, 0, 0, 1, 1]).unwrap_err(),
        ParseError::Invalid(VxlanError::ReservedBitsSet)
    );
    // zero VNI
    assert_eq!(
        Vxlan::parse(&[0x08, 0, 0, 0, 0, 0, 0, 0]).unwrap_err(),
        ParseError::Invalid(VxlanError::InvalidVni(InvalidVni::ReservedZero))
    );
    // other flag bits are ignored on receipt
    let (v, n) = Vxlan::parse(&[0xFF, 0, 0, 0, 0, 0, 7, 0, 9, 9]).unwrap();
    assert_eq!(v.vni().as_u32(), 7);
    assert_eq!(n, 8);
    assert_eq!(v.parse_payload(&[1, 2, 3]), None);
}

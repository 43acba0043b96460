use net::parse::{DeParseError, LengthError, ParseError};
use net::udp::{Udp, UdpEncap, UdpParseError, UdpPort, UDP_LEN};
use net::vni::Vni;
use net::vxlan::{Vxlan, VXLAN_PORT};

const MIN_LENGTH_USIZE: usize = 8;
const ROUNDS: usize = 4000;

struct Lcg(u64);

impl Lcg {
    fn next_u32(&mut self) -> u32 {
        self.0 = self.0.wrapping_mul(6_364_136_223_846_793_005).wrapping_add(1_442_695_040_888_963_407);
        (self.0 >> 32) as u32
    }

    fn next_u16(&mut self) -> u16 {
        (self.next_u32() >> 16) as u16
    }

    fn bytes<const N: usize>(&mut self) -> [u8; N] {
        let mut b = [0u8; N];
        for x in b.iter_mut() {
            *x = (self.next_u32() >> 24) as u8;
        }
        // now and then a zero port, to reach the error paths
        match self.next_u32() % 8 {
            0 => {
                b[0] = 0;
                b[1] = 0;
            }
            1 => {
                b[2] = 0;
                b[3] = 0;
            }
            _ => {}
        }
        b
    }

    fn port(&mut self) -> UdpPort {
        UdpPort::new_checked(self.next_u16().max(1)).unwrap()
    }

    fn udp(&mut self) -> Udp {
        let mut header = Udp::new(self.port(), self.port());
        header.set_checksum(self.next_u16());
        header.set_length(self.next_u16().max(UDP_LEN));
        header
    }
}

#[test]
fn parse_back() {
    let mut rng = Lcg(1);
    for _ in 0..ROUNDS {
        let input = rng.udp();
        let mut buffer = [0u8; MIN_LENGTH_USIZE];
        let consumed = match input.deparse(&mut buffer) {
            Ok(consumed) => consumed,
            Err(err) => unreachable!("failed to write udp: {err:?}"),
        };
        assert_eq!(consumed as usize, buffer.len());
        let (parse_back, consumed2) = Udp::parse(&buffer[..consumed as usize]).unwrap();
        assert_eq!(input, parse_back);
        assert_eq!(input.source(), parse_back.source());
        assert_eq!(input.destination(), parse_back.destination());
        assert_eq!(input.length(), parse_back.length());
        assert_eq!(input.checksum(), parse_back.checksum());
        assert_eq!(consumed, consumed2);
    }
}

#[test]
fn parse_arbitrary_bytes() {
    let mut rng = Lcg(11);
    for _ in 0..ROUNDS {
        let slice: [u8; MIN_LENGTH_USIZE] = rng.bytes();
        let (parsed, bytes_read) = match Udp::parse(&slice) {
            Ok(x) => x,
            Err(ParseError::Length(e)) => unreachable!("{e:?}"),
            Err(ParseError::Invalid(UdpParseError::ZeroSourcePort)) => {
                assert_eq!(slice[0..=1], [0, 0]);
                continue;
            }
            Err(ParseError::Invalid(UdpParseError::ZeroDestinationPort)) => {
                assert_eq!(slice[2..=3], [0, 0]);
                continue;
            }
            Err(ParseError::BufferTooLong(_)) => unreachable!(),
        };
        let mut slice2 = [0u8; 8];
        let bytes_written = parsed.deparse(&mut slice2).unwrap();
        assert_eq!(bytes_read as usize, slice.len());
        assert_eq!(bytes_written as usize, slice.len());
        assert_eq!(slice, slice2);
    }
}

#[test]
fn too_short_buffer_parse_fails_gracefully() {
    let mut rng = Lcg(12);
    for _ in 0..ROUNDS {
        let slice: [u8; MIN_LENGTH_USIZE - 1] = rng.bytes();
        for i in 0..slice.len() {
            match Udp::parse(&slice[..i]) {
                Err(ParseError::Length(e)) => {
                    assert_eq!(e.expected, UDP_LEN as usize);
                    assert_eq!(e.actual, i);
                }
                _ => unreachable!(),
            }
        }
    }
}

#[test]
fn longer_buffer_parses_ok() {
    let mut rng = Lcg(13);
    for _ in 0..ROUNDS {
        let slice: [u8; 2 * MIN_LENGTH_USIZE] = rng.bytes();
        for _ in MIN_LENGTH_USIZE..slice.len() {
            let (parsed, bytes_read) = match Udp::parse(&slice) {
                Ok(x) => x,
                Err(ParseError::Length(e)) => unreachable!("{e:?}"),
                Err(ParseError::Invalid(UdpParseError::ZeroSourcePort)) => {
                    assert_eq!(slice[0..=1], [0, 0]);
                    break;
                }
                Err(ParseError::Invalid(UdpParseError::ZeroDestinationPort)) => {
                    assert_eq!(slice[2..=3], [0, 0]);
                    break;
                }
                Err(ParseError::BufferTooLong(_)) => unreachable!(),
            };
            let mut slice2 = [0u8; MIN_LENGTH_USIZE];
            let bytes_written = parsed.deparse(&mut slice2).unwrap();
            assert_eq!(bytes_read, UDP_LEN);
            assert_eq!(bytes_written, UDP_LEN);
            assert_eq!(&slice[..MIN_LENGTH_USIZE], &slice2);
        }
    }
}

#[test]
fn arbitrary_mutation() {
    let mut rng = Lcg(14);
    for _ in 0..ROUNDS {
        let mut source = rng.udp();
        let target = rng.udp();
        if source == target {
            continue;
        }
        let mut target_bytes = [0u8; MIN_LENGTH_USIZE];
        target.deparse(&mut target_bytes).unwrap();
        source.set_source(target.source());
        assert_eq!(source.source(), target.source());
        source.set_destination(target.destination());
        assert_eq!(source.destination(), target.destination());
        source.set_length(target.length());
        assert_eq!(source.length(), target.length());
        source.set_checksum(target.checksum());
        assert_eq!(source.checksum(), target.checksum());
        assert_eq!(source, target);
        let mut source_bytes = [0u8; MIN_LENGTH_USIZE];
        source.deparse(&mut source_bytes).unwrap();
        assert_eq!(source_bytes, target_bytes);
    }
}

#[test]
fn udp_bytes_are_big_endian() {
    let mut h = Udp::new(UdpPort::new_checked(0x1234).unwrap(), UdpPort::new_checked(4789).unwrap());
    h.set_length(0x0102);
    h.set_checksum(0xBEEF);
    let mut buf = [0u8; 9];
    assert_eq!(h.deparse(&mut buf), Ok(8));
    assert_eq!(buf, [0x12, 0x34, 0x12, 0xB5, 0x01, 0x02, 0xBE, 0xEF, 0]);
    let (back, n) = Udp::parse(&buf).unwrap();
    assert_eq!(n, 8);
    assert_eq!(back.source().as_u16(), 0x1234);
    assert_eq!(back.destination().as_u16(), 4789);
    assert_eq!(back.length(), 0x0102);
    assert_eq!(back.checksum(), 0xBEEF);
}

#[test]
fn udp_constructors_and_errors() {
    let e = Udp::empty();
    assert_eq!(e.length(), 8);
    assert_eq!(e.checksum(), 0);
    assert_eq!(e.size(), 8);
    let n = Udp::new(UdpPort::new_checked(7).unwrap(), UdpPort::new_checked(9).unwrap());
    assert_eq!(n.length(), 8);
    assert_eq!(u16::from(n.source()), 7);
    assert!(UdpPort::new_checked(0).is_none());
    let mut small = [0u8; 4];
    assert_eq!(
        n.deparse(&mut small),
        Err(DeParseError::Length(LengthError { expected: 8, actual: 4 }))
    );
    assert_eq!(small, [0u8; 4]);
    let too_long = vec![1u8; 70_000];
    assert_eq!(Udp::parse(&too_long).unwrap_err(), ParseError::BufferTooLong(70_000));
}

#[test]
fn udp_payload_is_vxlan_only_on_its_port() {
    let vx = Vxlan::new(Vni::new_checked(42).unwrap());
    let mut payload = [0u8; 8];
    vx.deparse(&mut payload).unwrap();
    let to_vxlan = Udp::new(UdpPort::new_checked(1000).unwrap(), UdpPort::new_checked(VXLAN_PORT).unwrap());
    assert_eq!(to_vxlan.parse_payload(&payload), Some(UdpEncap::Vxlan(vx)));
    assert_eq!(to_vxlan.parse_payload(&payload[..4]), None);
    let elsewhere = Udp::new(UdpPort::new_checked(1000).unwrap(), UdpPort::new_checked(53).unwrap());
    assert_eq!(elsewhere.parse_payload(&payload), None);
}

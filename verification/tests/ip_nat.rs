use net::headers::Net;
use net::ip::{Ipv4, Ipv6, PROTO_UDP};
use net::ip_nat::{get_dst_addr, get_src_addr, nat_addr, nat_supported, translate, NatDirection, NatMode};
use net::packet::IpAddress;

fn v4(source: u32, destination: u32) -> Net {
    Net::Ipv4(Ipv4 { source, destination, protocol: PROTO_UDP, ttl: 64 })
}

fn v6(source: u128, destination: u128) -> Net {
    Net::Ipv6(Ipv6 { source, destination, next_header: PROTO_UDP, hop_limit: 64 })
}

const A: u32 = 0x0a00_0005; // 10.0.0.5
const B: u32 = 0x0808_0808; // 8.8.8.8
const T: u32 = 0x0102_0305; // 1.2.3.5

#[test]
fn only_stateless_nat_is_supported() {
    assert!(nat_supported(NatMode::Stateless));
    assert!(!nat_supported(NatMode::Stateful));
}

#[test]
fn addresses_of_either_ip_version() {
    assert_eq!(get_src_addr(&v4(A, B)), IpAddress::V4(A));
    assert_eq!(get_dst_addr(&v4(A, B)), IpAddress::V4(B));
    assert_eq!(get_src_addr(&v6(1, 2)), IpAddress::V6(1));
    assert_eq!(get_dst_addr(&v6(1, 2)), IpAddress::V6(2));
    assert_eq!(nat_addr(NatDirection::SrcNat, &v4(A, B)), IpAddress::V4(A));
    assert_eq!(nat_addr(NatDirection::DstNat, &v4(A, B)), IpAddress::V4(B));
}

#[test]
fn source_nat_rewrites_the_source_only() {
    let mut net = v4(A, B);
    assert_eq!(translate(NatDirection::SrcNat, &mut net, IpAddress::V4(T)), Some(()));
    assert_eq!(net, v4(T, B));
    let mut net = v6(1, 2);
    assert_eq!(translate(NatDirection::SrcNat, &mut net, IpAddress::V6(3)), Some(()));
    assert_eq!(net, v6(3, 2));
}

#[test]
fn destination_nat_rewrites_the_destination_only() {
    let mut net = v4(A, B);
    assert_eq!(translate(NatDirection::DstNat, &mut net, IpAddress::V4(T)), Some(()));
    assert_eq!(net, v4(A, T));
    let mut net = v6(1, 2);
    assert_eq!(translate(NatDirection::DstNat, &mut net, IpAddress::V6(3)), Some(()));
    assert_eq!(net, v6(1, 3));
}

#[test]
fn source_nat_refuses_a_multicast_target() {
    let mut net = v4(A, B);
    assert_eq!(translate(NatDirection::SrcNat, &mut net, IpAddress::V4(0xE000_0001)), None);
    assert_eq!(net, v4(A, B));
    let mut net = v6(1, 2);
    assert_eq!(translate(NatDirection::SrcNat, &mut net, IpAddress::V6(0xff02 << 112 | 1)), None);
    assert_eq!(net, v6(1, 2));
    // destination NAT does not check
    let mut net = v4(A, B);
    assert_eq!(translate(NatDirection::DstNat, &mut net, IpAddress::V4(0xE000_0001)), Some(()));
    assert_eq!(net, v4(A, 0xE000_0001));
}

#[test]
fn translation_keeps_the_ip_version() {
    for direction in [NatDirection::SrcNat, NatDirection::DstNat] {
        let mut net = v4(A, B);
        assert_eq!(translate(direction, &mut net, IpAddress::V6(3)), None);
        assert_eq!(net, v4(A, B));
        let mut net = v6(1, 2);
        assert_eq!(translate(direction, &mut net, IpAddress::V4(T)), None);
        assert_eq!(net, v6(1, 2));
    }
}

#[test]
fn translating_back_restores_the_header() {
    let mut net = v4(A, B);
    translate(NatDirection::SrcNat, &mut net, IpAddress::V4(T)).unwrap();
    translate(NatDirection::SrcNat, &mut net, IpAddress::V4(A)).unwrap();
    assert_eq!(net, v4(A, B));
}

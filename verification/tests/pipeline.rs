use net::buffer::TestBuffer;
use net::eth::{Eth, EthType, Mac, ETH_TYPE_IPV4, ETH_TYPE_IPV6};
use net::headers::{Headers, Net, Transport, TryEth, TryIpv4, TryIpv6};
use net::ip::{Ipv4, Ipv6, PROTO_UDP};
use net::hash::{FlowHasher, HashWord};
use net::packet::{IpAddress, Packet};
use net::pipeline::{NetworkFunction, StaticChain};
use net::sample_nfs::{BroadcastMacs, DecrementTtl, InspectHeaders, Passthrough};
use net::udp::{Udp, UdpPort};
use std::collections::BTreeMap;

fn build_test_ipv4_packet(ttl: u8) -> Packet<TestBuffer> {
    let mut headers = Headers::new(Eth::new(
        Mac([0x02, 0, 0, 0, 0, 1]),
        Mac([0x02, 0, 0, 0, 0, 2]),
        EthType(ETH_TYPE_IPV4),
    ));
    headers.net = Some(Net::Ipv4(Ipv4 {
        source: 0x0A00_0001,
        destination: 0x0A00_0002,
        protocol: PROTO_UDP,
        ttl,
    }));
    Packet::from_parts(headers, TestBuffer::from_raw_data(&[0xAA; 16]))
}

fn build_test_ipv6_packet(hop_limit: u8) -> Packet<TestBuffer> {
    let mut headers = Headers::new(Eth::new(
        Mac([0x02, 0, 0, 0, 0, 1]),
        Mac([0x02, 0, 0, 0, 0, 2]),
        EthType(ETH_TYPE_IPV6),
    ));
    headers.net = Some(Net::Ipv6(Ipv6 { source: 1, destination: 2, next_header: PROTO_UDP, hop_limit }));
    Packet::from_parts(headers, TestBuffer::from_raw_data(&[]))
}

fn build_test_udp_ipv4_packet(src: u32, dst: u32, sport: u16, dport: u16) -> Packet<TestBuffer> {
    let mut p = build_test_ipv4_packet(64);
    let mut headers = p.get_headers().clone();
    if let Some(Net::Ipv4(ip)) = headers.net.as_mut() {
        ip.source = src;
        ip.destination = dst;
    }
    headers.transport = Some(Transport::Udp(Udp::new(
        UdpPort::new_checked(sport).unwrap(),
        UdpPort::new_checked(dport).unwrap(),
    )));
    p = Packet::from_parts(headers, TestBuffer::from_raw_data(&[]));
    p
}

fn build_test_packets(number: u16) -> Vec<Packet<TestBuffer>> {
    let mut packets = Vec::new();
    for n in 1..=number {
        packets.push(build_test_udp_ipv4_packet(
            0x0A00_0000 + u32::from(n % 255),
            0x0A00_0000 + u32::from(255 - n % 255),
            (1 + n) % u16::MAX,
            u16::MAX - (n % u16::MAX),
        ));
    }
    packets
}

#[test]
fn static_chain() {
    const MAX_TTL: u8 = u8::MAX;
    const NUM_TTL_DECS: usize = 3;
    let mut chain = InspectHeaders
        .chain(BroadcastMacs)
        .chain(InspectHeaders)
        .chain(Passthrough)
        .chain(DecrementTtl)
        .chain(DecrementTtl)
        .chain(DecrementTtl);

    let packets = vec![build_test_ipv4_packet(u8::MAX)];
    let packets_out: Vec<_> = chain.process(packets);

    assert_eq!(packets_out.len(), 1);

    let p0_out = &packets_out[0];
    assert_eq!(Mac::broadcast(), p0_out.try_eth().unwrap().destination());
    assert_eq!(
        (MAX_TTL as usize) - NUM_TTL_DECS,
        p0_out.try_ipv4().unwrap().ttl() as usize
    );
}

#[test]
fn test_hash_bounds() {
    let start: u64 = 4;
    let end: u64 = 10;
    let num_packets: u64 = 2000;
    let packets = build_test_packets(num_packets.try_into().unwrap());
    let mut values: BTreeMap<u64, u64> = BTreeMap::new();
    for packet in &packets {
        let hash = packet.packet_hash_ecmp(
            u8::try_from(start).expect("Bad start"),
            u8::try_from(end).expect("Bad start"),
        );
        values.entry(hash).and_modify(|counter| *counter += 1).or_insert(1);
    }
    /* test bounds */
    assert_eq!(values.get(&(start - 1)), None);
    assert_eq!(values.get(&(end + 1)), None);

    /* distribution */
    let normalized: Vec<f64> = values
        .values()
        .map(|value| (value * 100 / num_packets) as f64)
        .collect();
    let ifreq = 100_f64 / (end - start + 1) as f64;
    for value in &normalized {
        if *value < ifreq * 0.85 {
            println!("  {value} % : too low (15% below ideal)");
        } else if *value > ifreq * 1.15 {
            println!("  {value} % : too high (15% above ideal)");
        } else {
            println!("  {value} % : fair");
        }
    }
}

#[test]
fn same_flow_same_bucket() {
    let a = build_test_udp_ipv4_packet(1, 2, 3, 4);
    let b = build_test_udp_ipv4_packet(1, 2, 3, 4);
    assert_eq!(a.hash_key(), Some((IpAddress::V4(1), IpAddress::V4(2), PROTO_UDP, Some((3, 4)))));
    assert_eq!(a.packet_hash_ecmp(0, 200), b.packet_hash_ecmp(0, 200));
    assert_eq!(a.packet_hash_ecmp(7, 7), 7);
    assert_eq!(net::hash::multipath_bucket(23, 4, 10), 23 % 7 + 4);
}

#[test]
fn decrement_ttl_drops_at_zero_and_keeps_non_ip() {
    let mut non_ip = build_test_ipv4_packet(1);
    let mut headers = non_ip.get_headers().clone();
    headers.net = None;
    non_ip = Packet::from_parts(headers, TestBuffer::from_raw_data(&[]));
    let input = vec![
        build_test_ipv4_packet(0),
        build_test_ipv4_packet(1),
        non_ip,
        build_test_ipv6_packet(0),
        build_test_ipv6_packet(9),
    ];
    let out = DecrementTtl.process(input);
    assert_eq!(out.len(), 3);
    assert_eq!(out[0].try_ipv4().unwrap().ttl(), 0);
    assert!(out[1].try_ipv4().is_none() && out[1].try_ipv6().is_none());
    assert_eq!(out[2].try_ipv6().unwrap().hop_limit(), 8);
}

#[test]
fn broadcast_and_passthrough() {
    let input = vec![build_test_ipv4_packet(5), build_test_ipv6_packet(5)];
    let out = BroadcastMacs.process(input);
    assert_eq!(out.len(), 2);
    for p in &out {
        assert!(p.try_eth().unwrap().destination().is_broadcast());
        assert_eq!(p.try_eth().unwrap().source(), Mac([0x02, 0, 0, 0, 0, 1]));
    }
    let out = Passthrough.process(out);
    assert_eq!(out.len(), 2);
    assert_eq!(out[0].try_ipv4().unwrap().ttl(), 5);
}

#[test]
fn hash_ip_feeds_addresses_protocol_and_ports_in_order() {
    let p = build_test_udp_ipv4_packet(1, 2, 3, 4);
    let mut by_packet = FlowHasher::new();
    p.hash_ip(&mut by_packet);
    let mut by_hand = FlowHasher::new();
    for word in [HashWord::Ipv4(1), HashWord::Ipv4(2), HashWord::U8(PROTO_UDP), HashWord::U16(3), HashWord::U16(4)] {
        by_hand.write_word(word);
    }
    assert_eq!(by_packet.finish(), by_hand.finish());
    let mut swapped = FlowHasher::new();
    for word in [HashWord::Ipv4(2), HashWord::Ipv4(1), HashWord::U8(PROTO_UDP), HashWord::U16(3), HashWord::U16(4)] {
        swapped.write_word(word);
    }
    assert_ne!(by_packet.finish(), swapped.finish());
}

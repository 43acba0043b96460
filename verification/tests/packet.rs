use net::buffer::{Append, BufferData, BufferDataMut, Headroom, Prepend, Tailroom, TestBuffer, TrimFromEnd, TrimFromStart};
use net::eth::{Eth, EthType, Mac, ETH_TYPE_IPV4, ETH_TYPE_VLAN};
use net::headers::{Header, Headers, Net, TooManyVlans, TryEth, TryIp, TryIpv4, TryIpv4Mut, TryUdp, TryVxlan, MAX_VLANS};
use net::ip::{Ipv4, PROTO_UDP};
use net::packet::{DoneReason, Packet};
use net::udp::{Udp, UdpEncap, UdpPort};
use net::vlan::{Pcp, Vid, Vlan};
use net::vni::Vni;
use net::vxlan::Vxlan;

fn mac(last: u8) -> Mac {
    Mac([0x02, 0, 0, 0, 0, last])
}

fn ipv4_headers(ttl: u8) -> Headers {
    let mut h = Headers::new(Eth::new(mac(1), mac(2), EthType(ETH_TYPE_IPV4)));
    h.net = Some(Net::Ipv4(Ipv4 { source: 0x0A00_0001, destination: 0x0A00_0002, protocol: PROTO_UDP, ttl }));
    h
}

#[test]
fn push_and_pop_vlan() {
    let mut h = ipv4_headers(64);
    let before = h.clone();
    let vid = Vid::new_checked(100).unwrap();
    h.push_vlan(vid).unwrap();
    assert_eq!(h.eth.ether_type, EthType(ETH_TYPE_VLAN));
    assert_eq!(h.vlan.len(), 1);
    assert_eq!(h.vlan[0].inner_ethtype, EthType(ETH_TYPE_IPV4));
    let popped = h.pop_vlan().unwrap();
    assert_eq!(popped.vid, vid);
    assert_eq!(popped.pcp, Pcp::lowest());
    assert!(!popped.dei);
    assert_eq!(h, before);
    assert_eq!(h.pop_vlan(), None);
    assert_eq!(h, before);
}

#[test]
fn too_many_vlans() {
    let mut h = ipv4_headers(64);
    for i in 0..MAX_VLANS {
        h.push_vlan(Vid::new_checked(10 + i as u16).unwrap()).unwrap();
    }
    let full = h.clone();
    assert_eq!(h.push_vlan(Vid::new_checked(99).unwrap()), Err(TooManyVlans));
    assert_eq!(h, full);
    // tags come off in the reverse order they went on
    assert_eq!(h.pop_vlan().unwrap().vid, Vid::new_checked(13).unwrap());
    assert_eq!(h.pop_vlan().unwrap().inner_ethtype, EthType(ETH_TYPE_VLAN));
}

#[test]
fn parsed_chain_is_stored_until_a_stack_is_full() {
    let eth = Eth::new(mac(1), mac(2), EthType(ETH_TYPE_VLAN));
    let vlan = Vlan::new(Vid::new_checked(5).unwrap(), EthType(ETH_TYPE_VLAN), Pcp::lowest(), false);
    let ip = Ipv4 { source: 1, destination: 2, protocol: PROTO_UDP, ttl: 9 };
    let udp = Udp::new(UdpPort::new_checked(1).unwrap(), UdpPort::new_checked(4789).unwrap());
    let vx = Vxlan::new(Vni::new_checked(7).unwrap());
    let chain = vec![Header::Ipv4(ip), Header::Udp(udp), Header::Encap(UdpEncap::Vxlan(vx))];
    let h = Headers::from_parsed_chain(eth, &chain);
    assert_eq!(h.try_ipv4(), Some(&ip));
    assert_eq!(h.try_ip(), Some(&Net::Ipv4(ip)));
    assert_eq!(h.try_udp(), Some(&udp));
    assert_eq!(h.try_vxlan(), Some(&vx));
    // five VLAN tags: the fifth does not fit, and parsing stops there
    let mut chain = vec![Header::Vlan(vlan); MAX_VLANS + 1];
    chain.push(Header::Ipv4(ip));
    let h = Headers::from_parsed_chain(eth, &chain);
    assert_eq!(h.vlan.len(), MAX_VLANS);
    assert_eq!(h.try_ipv4(), None);
    assert_eq!(Header::from(Net::Ipv4(ip)), Header::Ipv4(ip));
    // tags are read outermost first and kept innermost first: the last is the outermost
    let outer = Vlan::new(Vid::new_checked(5).unwrap(), EthType(ETH_TYPE_VLAN), Pcp::lowest(), false);
    let inner = Vlan::new(Vid::new_checked(6).unwrap(), EthType(ETH_TYPE_IPV4), Pcp::lowest(), false);
    let h = Headers::from_parsed_chain(eth, &vec![Header::Vlan(outer), Header::Vlan(inner)]);
    assert_eq!(h.vlan.len(), 2);
    assert_eq!(h.vlan[0], inner);
    assert_eq!(h.vlan[1], outer);
    let mut popped = h.clone();
    assert_eq!(popped.pop_vlan().unwrap(), outer);
    assert_eq!(Header::from(vx), Header::Encap(UdpEncap::Vxlan(vx)));
}

#[test]
fn done_keeps_the_first_reason() {
    let mut p = Packet::from_parts(ipv4_headers(64), TestBuffer::with_room(64, &[1, 2, 3], 0));
    assert!(!p.is_done());
    assert_eq!(p.payload_len(), 3);
    p.done(DoneReason::RouteDrop);
    p.done(DoneReason::Delivered);
    assert_eq!(p.get_done(), Some(DoneReason::RouteDrop));
    p.done_force(DoneReason::Delivered);
    assert_eq!(p.get_done(), Some(DoneReason::Delivered));
    p.done_clear();
    assert!(!p.is_done());
    assert_eq!(p.headroom(), 64);
    assert_eq!(p.tailroom(), 0);
}

#[test]
fn packet_headers_through_traits() {
    let mut p = Packet::from_parts(ipv4_headers(64), TestBuffer::from_raw_data(&[]));
    assert_eq!(p.try_eth().unwrap().destination, mac(2));
    p.try_ipv4_mut().unwrap().set_ttl(3);
    assert_eq!(p.try_ipv4().unwrap().ttl(), 3);
    assert_eq!(p.get_headers().try_ipv4().unwrap().ttl, 3);
}

#[test]
fn payload_trim() {
    let mut p = Packet::from_parts(ipv4_headers(64), TestBuffer::with_room(0, &[9, 8, 7, 6], 0));
    p.trim_from_start(2).unwrap();
    assert_eq!(p.payload().data(), &[7, 6]);
    assert_eq!(p.payload().headroom(), 2);
}

#[test]
fn test_buffer_room() {
    let mut b = TestBuffer::with_room(4, &[1, 2, 3], 2);
    assert_eq!(b.headroom(), 4);
    assert_eq!(b.tailroom(), 2);
    assert_eq!(b.data(), &[1, 2, 3]);
    assert!(b.prepend(5).is_err());
    b.prepend(2).unwrap().copy_from_slice(&[7, 7, 1, 2, 3]);
    assert_eq!(b.data(), &[7, 7, 1, 2, 3]);
    assert_eq!(b.headroom(), 2);
    b.trim_from_start(2).unwrap();
    assert_eq!(b.data(), &[1, 2, 3]);
    assert!(b.trim_from_start(4).is_err());
    assert!(b.append(3).is_err());
    assert_eq!(b.append(2).unwrap(), &[1, 2, 3, 0, 0]);
    b.trim_from_end(4).unwrap();
    assert_eq!(b.data(), &[1]);
    assert!(b.trim_from_end(2).is_err());
    b.data_mut()[0] = 9;
    assert_eq!(b.data(), &[9]);
    let r = TestBuffer::from_raw_data(&[5; 10]);
    assert_eq!(r.headroom(), 96);
    assert_eq!(r.tailroom(), 96);
}

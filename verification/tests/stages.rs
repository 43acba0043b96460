use net::buffer::TestBuffer;
use net::egress::{egress_packet, interface_egress, Egress};
use net::eth::{Eth, EthType, Mac, ETH_TYPE_IPV4};
use net::headers::{Headers, Net, TryEth, TryIpv4};
use net::ingress::{ingress_packet, interface_ingress, Ingress};
use net::interface::{Attachment, IfDataEthernet, IfState, IfType, Interface, Lookup};
use net::ip::{Ipv4, Ipv6, PROTO_UDP};
use net::eth::ETH_TYPE_IPV6;
use net::headers::Transport;
use net::ipforward::{
    build_vxlan_headers, decrement_ttl, packet_exec_instruction_drop, packet_exec_instruction_egress, EgressObject,
    IpForwarder, VxlanEncapsulation,
};
use net::ipforward::{
    forward_packet, packet_exec_instruction, packet_exec_instruction_local, packet_exec_instructions, Encapsulation,
    LocalOutcome, PktInstruction,
};
use net::udp::UdpEncap;
use net::vni::Vni;
use net::packet::{DoneReason, InterfaceId, IpAddress, Packet};

const IF_MAC: Mac = Mac([0x12, 0x06, 0x6f, 0x60, 0x2c, 0x84]);

fn eth0() -> Interface {
    Interface {
        name: "eth0".to_string(),
        ifindex: 20,
        admin_state: IfState::Up,
        oper_state: IfState::Up,
        iftype: IfType::Ethernet(IfDataEthernet { mac: IF_MAC }),
        attachment: Some(Attachment::VRF(7)),
    }
}

fn packet_to(dst: Mac, ip: bool) -> Packet<TestBuffer> {
    let mut headers = Headers::new(Eth::new(Mac([0x02, 0, 0, 0, 0, 1]), dst, EthType(ETH_TYPE_IPV4)));
    if ip {
        headers.net = Some(Net::Ipv4(Ipv4 { source: 1, destination: 2, protocol: PROTO_UDP, ttl: 64 }));
    }
    Packet::from_parts(headers, TestBuffer::from_raw_data(&[]))
}

#[test]
fn stages_keep_their_names() {
    let i = Ingress::new("ingress", 1u8);
    let e = Egress::new("egress", 1u8, 2u16);
    let f = IpForwarder::new("forward", 3u32);
    let _ = (i, e, f);
}

#[test]
fn ingress_routes_local_ip_in_the_vrf() {
    let mut p = packet_to(IF_MAC, true);
    interface_ingress("in", &eth0(), &mut p);
    assert_eq!(p.get_meta().vrf, Some(7));
    assert!(!p.is_done());
}

#[test]
fn ingress_decisions() {
    let mut p = packet_to(IF_MAC, false);
    interface_ingress("in", &eth0(), &mut p);
    assert_eq!(p.get_done(), Some(DoneReason::NotIp));

    let mut p = packet_to(Mac::broadcast(), true);
    interface_ingress("in", &eth0(), &mut p);
    assert!(p.get_meta().is_l2bcast);
    assert_eq!(p.get_done(), Some(DoneReason::Unhandled));

    let mut p = packet_to(Mac([0x02, 9, 9, 9, 9, 9]), true);
    interface_ingress("in", &eth0(), &mut p);
    assert_eq!(p.get_done(), Some(DoneReason::MacNotForUs));

    let mut detached = eth0();
    detached.attachment = None;
    let mut p = packet_to(IF_MAC, true);
    interface_ingress("in", &detached, &mut p);
    assert_eq!(p.get_done(), Some(DoneReason::InterfaceDetached));

    let mut down = eth0();
    down.admin_state = IfState::Down;
    let mut p = packet_to(IF_MAC, true);
    interface_ingress("in", &down, &mut p);
    assert_eq!(p.get_done(), Some(DoneReason::InterfaceAdmDown));

    let mut oper_down = eth0();
    oper_down.oper_state = IfState::Down;
    let mut p = packet_to(IF_MAC, true);
    interface_ingress("in", &oper_down, &mut p);
    assert_eq!(p.get_done(), Some(DoneReason::InterfaceOperDown));

    let mut lo = eth0();
    lo.iftype = IfType::Loopback;
    let mut p = packet_to(IF_MAC, true);
    interface_ingress("in", &lo, &mut p);
    assert_eq!(p.get_done(), Some(DoneReason::InterfaceUnsupported));

    // a packet already done is left alone
    let mut p = packet_to(IF_MAC, true);
    p.done(DoneReason::RouteDrop);
    interface_ingress("in", &down, &mut p);
    assert_eq!(p.get_done(), Some(DoneReason::RouteDrop));

    let mut p = packet_to(IF_MAC, true);
    ingress_packet("in", Lookup::Missing, &mut p);
    assert_eq!(p.get_done(), Some(DoneReason::InterfaceUnknown));
    let mut p = packet_to(IF_MAC, true);
    ingress_packet("in", Lookup::Unavailable, &mut p);
    assert!(!p.is_done());
    let iface = eth0();
    let mut p = packet_to(IF_MAC, true);
    ingress_packet("in", Lookup::Found(&iface), &mut p);
    assert_eq!(p.get_meta().vrf, Some(7));
}

#[test]
fn egress_rewrites_macs_and_delivers() {
    let next_hop = Mac([0x02, 0xaa, 0, 0, 0, 1]);
    let mut p = packet_to(IF_MAC, true);
    interface_egress(&eth0(), &mut p, next_hop);
    assert_eq!(p.get_done(), Some(DoneReason::Delivered));
    assert_eq!(p.try_eth().unwrap().source(), IF_MAC);
    assert_eq!(p.try_eth().unwrap().destination(), next_hop);

    let mut lo = eth0();
    lo.iftype = IfType::Loopback;
    let mut p = packet_to(IF_MAC, true);
    interface_egress(&lo, &mut p, next_hop);
    assert_eq!(p.get_done(), Some(DoneReason::InterfaceUnsupported));
}

#[test]
fn egress_lookups() {
    let iface = eth0();
    let nh = Mac([0x02, 0xaa, 0, 0, 0, 1]);
    let mut p = packet_to(IF_MAC, true);
    egress_packet(Lookup::Found(nh), Lookup::Found(&iface), &mut p);
    assert_eq!(p.get_done(), Some(DoneReason::RouteFailure));

    let routed = |p: &mut Packet<TestBuffer>| {
        p.get_meta_mut().oif = Some(InterfaceId::new(20));
        p.get_meta_mut().nh_addr = Some(IpAddress::V4(3));
    };
    let mut p = packet_to(IF_MAC, true);
    p.get_meta_mut().oif = Some(InterfaceId::new(20));
    egress_packet(Lookup::Found(nh), Lookup::Found(&iface), &mut p);
    assert_eq!(p.get_done(), Some(DoneReason::Unhandled));

    let mut p = packet_to(IF_MAC, true);
    routed(&mut p);
    egress_packet(Lookup::Missing, Lookup::Found(&iface), &mut p);
    assert_eq!(p.get_done(), Some(DoneReason::MissL2resolution));

    let mut p = packet_to(IF_MAC, true);
    routed(&mut p);
    egress_packet(Lookup::Unavailable, Lookup::Found(&iface), &mut p);
    assert_eq!(p.get_done(), Some(DoneReason::InternalFailure));

    let mut p = packet_to(IF_MAC, true);
    routed(&mut p);
    egress_packet(Lookup::Found(nh), Lookup::Missing, &mut p);
    assert_eq!(p.get_done(), Some(DoneReason::InterfaceUnknown));

    let mut p = packet_to(IF_MAC, true);
    routed(&mut p);
    egress_packet(Lookup::Found(nh), Lookup::Found(&iface), &mut p);
    assert_eq!(p.get_done(), Some(DoneReason::Delivered));
    assert_eq!(p.try_eth().unwrap().destination(), nh);
}

#[test]
fn forwarding_steps() {
    let mut p = packet_to(IF_MAC, true);
    decrement_ttl(&mut p, IpAddress::V4(2));
    assert_eq!(p.try_ipv4().unwrap().ttl(), 63);
    assert!(!p.is_done());

    let mut headers = p.get_headers().clone();
    headers.net = Some(Net::Ipv4(Ipv4 { source: 1, destination: 2, protocol: PROTO_UDP, ttl: 1 }));
    let mut p = Packet::from_parts(headers.clone(), TestBuffer::from_raw_data(&[]));
    decrement_ttl(&mut p, IpAddress::V4(2));
    assert_eq!(p.try_ipv4().unwrap().ttl(), 0);
    assert_eq!(p.get_done(), Some(DoneReason::HopLimitExceeded));

    headers.net = Some(Net::Ipv6(Ipv6 { source: 1, destination: 2, next_header: PROTO_UDP, hop_limit: 0 }));
    let mut p = Packet::from_parts(headers, TestBuffer::from_raw_data(&[]));
    decrement_ttl(&mut p, IpAddress::V6(2));
    assert_eq!(p.get_done(), Some(DoneReason::HopLimitExceeded));

    let mut p = packet_to(IF_MAC, true);
    packet_exec_instruction_egress(&mut p, &EgressObject { ifindex: Some(20), address: None });
    assert_eq!(p.get_meta().oif, Some(InterfaceId(20)));
    assert_eq!(p.get_meta().nh_addr, None);
    packet_exec_instruction_egress(&mut p, &EgressObject { ifindex: None, address: Some(IpAddress::V4(9)) });
    assert_eq!(p.get_meta().oif, Some(InterfaceId(20)));
    assert_eq!(p.get_meta().nh_addr, Some(IpAddress::V4(9)));
    packet_exec_instruction_drop(&mut p);
    assert_eq!(p.get_done(), Some(DoneReason::RouteDrop));
}

fn encapsulation(remote: IpAddress, local: Option<IpAddress>) -> VxlanEncapsulation {
    VxlanEncapsulation {
        vni: Vni::new_checked(3000).unwrap(),
        remote,
        local,
        smac: Some(Mac([0x02, 0, 0, 0, 0, 0x0a])),
        dmac: Some(Mac([0x02, 0, 0, 0, 0, 0x0b])),
    }
}

#[test]
fn vxlan_headers_over_ipv4() {
    let v = encapsulation(IpAddress::V4(0x0a00_0002), Some(IpAddress::V4(0x0a00_0001)));
    let h = build_vxlan_headers(&v).unwrap();
    assert_eq!(h.eth.source, Mac([0x02, 0, 0, 0, 0, 0x0a]));
    assert_eq!(h.eth.destination, Mac([0x02, 0, 0, 0, 0, 0x0b]));
    assert_eq!(h.eth.ether_type, EthType(ETH_TYPE_IPV4));
    assert_eq!(h.vlan.len(), 0);
    assert_eq!(h.net_ext.len(), 0);
    assert_eq!(
        h.net,
        Some(Net::Ipv4(Ipv4 { source: 0x0a00_0001, destination: 0x0a00_0002, protocol: PROTO_UDP, ttl: 64 }))
    );
    match h.transport {
        Some(Transport::Udp(udp)) => {
            assert_eq!(udp.source().as_u16(), 1000);
            assert_eq!(udp.destination().as_u16(), 4789);
            assert_eq!(udp.length(), 8);
            assert_eq!(udp.checksum(), 0);
        }
        other => panic!("expected a UDP header, got {other:?}"),
    }
    match h.udp_encap {
        Some(UdpEncap::Vxlan(vxlan)) => assert_eq!(vxlan.vni().as_u32(), 3000),
        other => panic!("expected a VXLAN header, got {other:?}"),
    }
}

#[test]
fn vxlan_headers_over_ipv6() {
    let v = encapsulation(IpAddress::V6(0x2001_0db8 << 96 | 2), Some(IpAddress::V6(0x2001_0db8 << 96 | 1)));
    let h = build_vxlan_headers(&v).unwrap();
    assert_eq!(h.eth.ether_type, EthType(ETH_TYPE_IPV6));
    assert_eq!(
        h.net,
        Some(Net::Ipv6(Ipv6 {
            source: 0x2001_0db8 << 96 | 1,
            destination: 0x2001_0db8 << 96 | 2,
            next_header: PROTO_UDP,
            hop_limit: 64,
        }))
    );
}

#[test]
fn vxlan_headers_need_resolved_endpoints() {
    let mut v = encapsulation(IpAddress::V4(2), Some(IpAddress::V4(1)));
    v.smac = None;
    assert!(build_vxlan_headers(&v).is_err());
    let mut v = encapsulation(IpAddress::V4(2), Some(IpAddress::V4(1)));
    v.dmac = None;
    assert!(build_vxlan_headers(&v).is_err());
    assert!(build_vxlan_headers(&encapsulation(IpAddress::V4(2), None)).is_err());
    assert!(build_vxlan_headers(&encapsulation(IpAddress::V6(2), Some(IpAddress::V4(1)))).is_err());
    assert!(build_vxlan_headers(&encapsulation(IpAddress::V4(2), Some(IpAddress::V6(1)))).is_err());
}

fn ip_packet_in_vrf() -> Packet<TestBuffer> {
    let mut p = packet_to(IF_MAC, true);
    p.meta.iif = InterfaceId::new(5);
    p.meta.vrf = Some(9);
    p
}

#[test]
fn forward_clears_the_vrf_and_skips_non_ip_and_done_packets() {
    let insts = [PktInstruction::Drop];
    let mut p = packet_to(IF_MAC, false);
    p.meta.vrf = Some(9);
    assert!(forward_packet(&mut p, Lookup::Found(&insts[..]), &[]).is_empty());
    assert_eq!(p.meta.vrf, None);
    assert_eq!(p.get_done(), None);

    let mut p = ip_packet_in_vrf();
    p.done(DoneReason::Unhandled);
    assert!(forward_packet(&mut p, Lookup::Found(&insts[..]), &[]).is_empty());
    assert_eq!(p.meta.vrf, None);
    assert_eq!(p.get_done(), Some(DoneReason::Unhandled));

    let mut p = ip_packet_in_vrf();
    assert!(forward_packet(&mut p, Lookup::Missing, &[]).is_empty());
    assert_eq!(p.meta.vrf, None);
    assert_eq!(p.get_done(), None);
}

#[test]
fn forward_runs_every_instruction_in_order() {
    let egress = EgressObject { ifindex: Some(20), address: Some(IpAddress::V4(0x0a00_0001)) };
    let insts = [PktInstruction::Nat, PktInstruction::Egress(egress), PktInstruction::Drop];
    let mut p = ip_packet_in_vrf();
    assert!(forward_packet(&mut p, Lookup::Found(&insts[..]), &[]).is_empty());
    assert_eq!(p.meta.oif, Some(InterfaceId::new(20)));
    assert_eq!(p.meta.nh_addr, Some(IpAddress::V4(0x0a00_0001)));
    assert_eq!(p.get_done(), Some(DoneReason::RouteDrop));
}

#[test]
fn forward_delivers_locally_with_the_decapsulation_outcome() {
    let insts = [PktInstruction::Nat, PktInstruction::Local(5), PktInstruction::Drop];
    let mut p = ip_packet_in_vrf();
    assert!(forward_packet(&mut p, Lookup::Found(&insts[..]), &[LocalOutcome::NotVxlan]).is_empty());
    assert_eq!(p.meta.oif, Some(InterfaceId::new(5)));
    // the first reason stands: delivered, though a drop follows
    assert_eq!(p.get_done(), Some(DoneReason::Delivered));

    let mut q = ip_packet_in_vrf();
    forward_packet(&mut q, Lookup::Found(&insts[..]), &[LocalOutcome::Vxlan(Lookup::Found(42))]);
    assert_eq!(q.meta.vrf, Some(42));
    assert_eq!(q.get_done(), Some(DoneReason::RouteDrop));

    let mut r = ip_packet_in_vrf();
    packet_exec_instruction_local(&mut r, LocalOutcome::BadInner);
    assert_eq!(r.meta.vrf, Some(9));
    assert_eq!(r.get_done(), None);
}

#[test]
fn forward_hands_out_the_encapsulations_and_goes_on_after_them() {
    let v = encapsulation(IpAddress::V4(0x0a00_0002), Some(IpAddress::V4(0x0a00_0001)));
    let insts = [PktInstruction::Encap(Encapsulation::Vxlan(v)), PktInstruction::Drop];
    let mut p = ip_packet_in_vrf();
    let encaps = forward_packet(&mut p, Lookup::Found(&insts[..]), &[]);
    assert_eq!(encaps.len(), 1);
    assert_eq!(encaps[0].0, 0);
    assert_eq!(encaps[0].1, build_vxlan_headers(&v).unwrap());
    assert_eq!(p.get_done(), Some(DoneReason::RouteDrop));

    let mut q = ip_packet_in_vrf();
    let one = packet_exec_instruction(&mut q, &insts[0], LocalOutcome::BadInner);
    assert_eq!(one, Some(build_vxlan_headers(&v).unwrap()));
    let all = packet_exec_instructions(&mut q, &insts, &[]);
    assert_eq!(all.len(), 1);
}

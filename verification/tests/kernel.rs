use net::eth::Mac;
use net::kernel::{
    arp_adjacencies, get_interface_ifindex, is_any_interface, select_interfaces, Adjacency, ArpEntry, KernelInterface,
    NoInterfaceRequested,
};
use net::packet::IpAddress;

fn kernel_interfaces() -> Vec<KernelInterface> {
    vec![
        KernelInterface { index: 1, name: "lo".to_string() },
        KernelInterface { index: 2, name: "eth0".to_string() },
        KernelInterface { index: 3, name: "eth1".to_string() },
        KernelInterface { index: 7, name: "eth1".to_string() },
    ]
}

fn pairs(v: &[KernelInterface]) -> Vec<(u32, String)> {
    v.iter().map(|i| (i.index, i.name.clone())).collect()
}

#[test]
fn ifindex_of_first_interface_with_the_name() {
    let ifs = kernel_interfaces();
    assert_eq!(get_interface_ifindex(&ifs, "eth0"), Some(2));
    assert_eq!(get_interface_ifindex(&ifs, "eth1"), Some(3));
    assert_eq!(get_interface_ifindex(&ifs, "eth2"), None);
    assert_eq!(get_interface_ifindex(&[], "lo"), None);
}

#[test]
fn any_in_any_case() {
    for name in ["any", "ANY", "Any", "aNy", "anY"] {
        assert!(is_any_interface(&name.to_string()), "{name}");
    }
    for name in ["", "an", "anyy", "eth0", "äny", "a y"] {
        assert!(!is_any_interface(&name.to_string()), "{name}");
    }
}

#[test]
fn no_interface_requested_is_an_error() {
    let ifs = kernel_interfaces();
    assert_eq!(select_interfaces(&ifs, &[]).err(), Some(NoInterfaceRequested));
}

#[test]
fn any_alone_selects_every_interface() {
    let ifs = kernel_interfaces();
    let chosen = select_interfaces(&ifs, &["Any".to_string()]).unwrap();
    assert_eq!(pairs(&chosen), pairs(&ifs));
}

#[test]
fn named_interfaces_in_the_order_asked() {
    let ifs = kernel_interfaces();
    let names = ["eth1".to_string(), "missing".to_string(), "lo".to_string()];
    let chosen = select_interfaces(&ifs, &names).unwrap();
    assert_eq!(pairs(&chosen), vec![(3, "eth1".to_string()), (1, "lo".to_string())]);
}

#[test]
fn any_among_other_names_is_a_name() {
    let ifs = kernel_interfaces();
    let names = ["any".to_string(), "eth0".to_string()];
    let chosen = select_interfaces(&ifs, &names).unwrap();
    assert_eq!(pairs(&chosen), vec![(2, "eth0".to_string())]);
}

#[test]
fn arp_entries_with_a_mac_on_a_known_interface_become_adjacencies() {
    let ifs = kernel_interfaces();
    let mac_a = Mac([0x02, 0, 0, 0, 0, 0xaa]);
    let mac_b = Mac([0x02, 0, 0, 0, 0, 0xbb]);
    let entries = vec![
        ArpEntry { ip_address: 0x0a00_0001, hw_address: Some(mac_a), device: "eth0".to_string() },
        ArpEntry { ip_address: 0x0a00_0002, hw_address: None, device: "eth0".to_string() },
        ArpEntry { ip_address: 0x0a00_0003, hw_address: Some(mac_b), device: "eth9".to_string() },
        ArpEntry { ip_address: 0x0a00_0004, hw_address: Some(mac_b), device: "eth1".to_string() },
    ];
    assert_eq!(
        arp_adjacencies(&ifs, &entries),
        vec![
            Adjacency { address: IpAddress::V4(0x0a00_0001), ifindex: 2, mac: mac_a },
            Adjacency { address: IpAddress::V4(0x0a00_0004), ifindex: 3, mac: mac_b },
        ]
    );
    assert_eq!(arp_adjacencies(&ifs, &[]), vec![]);
}

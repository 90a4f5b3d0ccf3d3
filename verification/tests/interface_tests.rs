use mdns_reflector::addr::Address;
use mdns_reflector::addr::Ipv4Cidr;
use mdns_reflector::interface::Interface;
use mdns_reflector::interface::InterfaceV4;
use mdns_reflector::interface::InterfaceV6;

fn eth0_v4() -> Interface {
    let network = Ipv4Cidr::new(0x0a000001, 24).unwrap();
    Interface::V4(InterfaceV4::new("eth0".to_string(), network, 10, 11))
}

fn eth0_v6() -> Interface {
    Interface::V6(InterfaceV6::new(
        "eth0".to_string(),
        0xfe80_0000_0000_0000_0000_0000_0000_0001,
        30,
        31,
    ))
}

#[test]
fn v4_endpoint_accessors() {
    let iface = eth0_v4();
    assert_eq!(iface.name().as_str(), "eth0");
    assert_eq!(iface.addr(), Address::V4(0x0a000001));
    assert_eq!(iface.tx_fd(), 10);
    assert_eq!(iface.rx_fd(), 11);
    assert!(iface.is_v4());
    assert!(iface.is_wf());
}

#[test]
fn v6_endpoint_accessors() {
    let iface = eth0_v6();
    assert_eq!(iface.name().as_str(), "eth0");
    assert_eq!(iface.addr(), Address::V6(0xfe80_0000_0000_0000_0000_0000_0000_0001));
    assert_eq!(iface.tx_fd(), 30);
    assert_eq!(iface.rx_fd(), 31);
    assert!(!iface.is_v4());
    assert!(iface.is_wf());
}

#[test]
fn v4_network_membership() {
    let iface = eth0_v4();
    assert!(iface.network_contains_addr(Address::V4(0x0a000042)));
    assert!(!iface.network_contains_addr(Address::V4(0x0a000142)));
    assert!(!iface.network_contains_addr(Address::V6(1)));
}

#[test]
fn v6_endpoint_tracks_no_network() {
    let iface = eth0_v6();
    assert!(!iface.network_contains_addr(Address::V6(
        0xfe80_0000_0000_0000_0000_0000_0000_0001
    )));
    assert!(!iface.network_contains_addr(Address::V4(0x0a000001)));
}

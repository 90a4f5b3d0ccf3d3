use mdns_reflector::addr::Address;
use mdns_reflector::addr::Ipv4Cidr;
use mdns_reflector::config::Config;
use mdns_reflector::config::build_config;
use mdns_reflector::interface::Interface;
use mdns_reflector::interface::InterfaceV4;
use mdns_reflector::interface::InterfaceV6;
use mdns_reflector::reflector::Decision;
use mdns_reflector::reflector::Destination;
use mdns_reflector::reflector::DropReason;
use mdns_reflector::reflector::Registry;
use mdns_reflector::reflector::handle_datagram;

fn v4_iface(name: &str, addr: u32, prefix: u8, tx_fd: i32, rx_fd: i32) -> Interface {
    let network = Ipv4Cidr::new(addr, prefix).unwrap();
    Interface::V4(InterfaceV4::new(name.to_string(), network, tx_fd, rx_fd))
}

fn v6_iface(name: &str, own_addr: u128, tx_fd: i32, rx_fd: i32) -> Interface {
    Interface::V6(InterfaceV6::new(name.to_string(), own_addr, tx_fd, rx_fd))
}

// eth0 = 10.0.0.1/24 (tx 10, rx 11), eth1 = 10.0.1.1/24 (tx 20, rx 21)
fn two_v4_registry() -> Registry {
    let interfaces = vec![
        v4_iface("eth0", 0x0a000001, 24, 10, 11),
        v4_iface("eth1", 0x0a000101, 24, 20, 21),
    ];
    Registry::new(interfaces).unwrap()
}

fn config_from(additional: Vec<&str>, ignore: Vec<&str>) -> Config {
    let interfaces = vec!["eth0".to_string(), "eth1".to_string()];
    let additional: Vec<String> = additional.iter().map(|s| s.to_string()).collect();
    let ignore: Vec<String> = ignore.iter().map(|s| s.to_string()).collect();
    build_config(&interfaces, &additional, &ignore, false, false, false).unwrap()
}

fn dns_query() -> Vec<u8> {
    let mut p = vec![0, 0, 0, 0, 0, 1, 0, 0, 0, 0, 0, 0];
    p.extend_from_slice(&[1, b'a', 0, 0, 1, 0, 1]);
    p
}

fn dns_answer_only() -> Vec<u8> {
    let mut p = vec![0, 0, 0x84, 0, 0, 0, 0, 1, 0, 0, 0, 0];
    p.extend_from_slice(&[1, b'a', 0, 0, 1, 0, 1, 0, 0, 0, 120, 0, 4, 10, 0, 0, 5]);
    p
}

fn expect_forward(d: Decision) -> (Vec<u8>, Vec<mdns_reflector::reflector::SendAction>) {
    match d {
        Decision::Forward { payload, sends } => (payload, sends),
        Decision::Drop { reason } => panic!("expected a forward, got drop: {:?}", reason),
    }
}

fn expect_drop(d: Decision) -> DropReason {
    match d {
        Decision::Forward { .. } => panic!("expected a drop, got a forward"),
        Decision::Drop { reason } => reason,
    }
}

#[test]
fn question_from_member_host_is_reflected_once() {
    let reg = two_v4_registry();
    let cfg = config_from(vec![], vec![]);
    let mut data = dns_query();
    data.resize(120, 0);
    let d = handle_datagram(&reg, &cfg, 11, Address::V4(0x0a000005), &data);
    let (payload, sends) = expect_forward(d);
    assert_eq!(payload.len(), 120);
    assert_eq!(payload, data);
    assert_eq!(sends.len(), 1);
    assert_eq!(sends[0].iface_index, 1);
    assert_eq!(sends[0].tx_fd, 20);
    assert_eq!(sends[0].dest, Destination::V4 { addr: 0xe00000fb, port: 5353 });
}

#[test]
fn own_address_is_never_reflected() {
    let reg = two_v4_registry();
    let cfg = config_from(vec![], vec![]);
    let d = handle_datagram(&reg, &cfg, 11, Address::V4(0x0a000001), &dns_query());
    assert_eq!(expect_drop(d), DropReason::SelfEcho);
}

#[test]
fn outside_source_is_dropped() {
    let reg = two_v4_registry();
    let cfg = config_from(vec![], vec![]);
    let d = handle_datagram(&reg, &cfg, 11, Address::V4(0xc0a80909), &dns_query());
    assert_eq!(expect_drop(d), DropReason::OutsideSourceNetwork);
}

#[test]
fn additional_subnet_admits_outside_source() {
    let reg = two_v4_registry();
    let cfg = config_from(vec!["192.168.9.0/24"], vec![]);
    let d = handle_datagram(&reg, &cfg, 11, Address::V4(0xc0a80909), &dns_query());
    let (_, sends) = expect_forward(d);
    assert_eq!(sends.len(), 1);
    assert_eq!(sends[0].iface_index, 1);
}

#[test]
fn question_from_ignored_subnet_is_dropped() {
    let reg = two_v4_registry();
    let cfg = config_from(vec![], vec!["10.0.0.0/24"]);
    let d = handle_datagram(&reg, &cfg, 11, Address::V4(0x0a000005), &dns_query());
    assert_eq!(expect_drop(d), DropReason::IgnoredQuestion);
}

#[test]
fn answer_from_ignored_subnet_still_passes() {
    let reg = two_v4_registry();
    let cfg = config_from(vec![], vec!["10.0.0.0/24"]);
    let d = handle_datagram(&reg, &cfg, 11, Address::V4(0x0a000005), &dns_answer_only());
    let (_, sends) = expect_forward(d);
    assert_eq!(sends.len(), 1);
    assert_eq!(sends[0].iface_index, 1);
}

#[test]
fn question_from_subnet_not_ignored_passes() {
    let reg = two_v4_registry();
    let cfg = config_from(vec![], vec!["10.0.9.0/24"]);
    let d = handle_datagram(&reg, &cfg, 11, Address::V4(0x0a000005), &dns_query());
    let (_, sends) = expect_forward(d);
    assert_eq!(sends.len(), 1);
}

#[test]
fn three_interfaces_fan_out_in_registry_order() {
    let interfaces = vec![
        v4_iface("eth0", 0x0a000001, 24, 10, 11),
        v4_iface("eth1", 0x0a000101, 24, 20, 21),
        v4_iface("eth2", 0x0a000201, 24, 30, 31),
    ];
    let reg = Registry::new(interfaces).unwrap();
    let cfg = config_from(vec![], vec![]);
    let d = handle_datagram(&reg, &cfg, 11, Address::V4(0x0a000005), &dns_query());
    let (_, sends) = expect_forward(d);
    assert_eq!(sends.len(), 2);
    assert_eq!(sends[0].iface_index, 1);
    assert_eq!(sends[0].tx_fd, 20);
    assert_eq!(sends[1].iface_index, 2);
    assert_eq!(sends[1].tx_fd, 30);
}

#[test]
fn v6_fan_out_targets_only_v6_endpoints() {
    let interfaces = vec![
        v4_iface("eth0", 0x0a000001, 24, 10, 11),
        v4_iface("eth1", 0x0a000101, 24, 20, 21),
        v6_iface("eth0", 0xfe80_0000_0000_0000_0000_0000_0000_0001, 30, 31),
        v6_iface("eth1", 0xfe80_0000_0000_0000_0000_0000_0000_0011, 40, 41),
    ];
    let reg = Registry::new(interfaces).unwrap();
    let cfg = config_from(vec![], vec![]);
    let src = Address::V6(0xfe80_0000_0000_0000_0000_0000_0000_0002);
    let d = handle_datagram(&reg, &cfg, 31, src, &dns_query());
    let (payload, sends) = expect_forward(d);
    assert_eq!(payload, dns_query());
    assert_eq!(sends.len(), 1);
    assert_eq!(sends[0].iface_index, 3);
    assert_eq!(sends[0].tx_fd, 40);
    assert_eq!(
        sends[0].dest,
        Destination::V6 { addr: 0xff02_0000_0000_0000_0000_0000_0000_00fb, port: 5353 },
    );
}

#[test]
fn v6_self_echo_is_dropped() {
    let interfaces = vec![
        v6_iface("eth0", 0xfe80_0000_0000_0000_0000_0000_0000_0001, 30, 31),
        v6_iface("eth1", 0xfe80_0000_0000_0000_0000_0000_0000_0011, 40, 41),
    ];
    let reg = Registry::new(interfaces).unwrap();
    let cfg = config_from(vec![], vec![]);
    let src = Address::V6(0xfe80_0000_0000_0000_0000_0000_0000_0001);
    let d = handle_datagram(&reg, &cfg, 31, src, &dns_query());
    assert_eq!(expect_drop(d), DropReason::SelfEcho);
}

#[test]
fn empty_payload_forwarded_unchanged() {
    let reg = two_v4_registry();
    let cfg = config_from(vec![], vec![]);
    let d = handle_datagram(&reg, &cfg, 21, Address::V4(0x0a000105), &[]);
    let (payload, sends) = expect_forward(d);
    assert!(payload.is_empty());
    assert_eq!(sends.len(), 1);
    assert_eq!(sends[0].iface_index, 0);
    assert_eq!(sends[0].tx_fd, 10);
}

#[test]
fn ignore_subnets_without_match_do_not_parse_away_questions() {
    let reg = two_v4_registry();
    let cfg = config_from(vec![], vec!["fd00::/8"]);
    let d = handle_datagram(&reg, &cfg, 11, Address::V4(0x0a000005), &dns_query());
    let (_, sends) = expect_forward(d);
    assert_eq!(sends.len(), 1);
}

#[test]
fn unknown_descriptor_is_dropped() {
    let reg = two_v4_registry();
    let cfg = config_from(vec![], vec![]);
    let d = handle_datagram(&reg, &cfg, 99, Address::V4(0x0a000005), &dns_query());
    assert_eq!(expect_drop(d), DropReason::UnknownDescriptor);
}

#[test]
fn registry_lookup_finds_each_endpoint() {
    let reg = two_v4_registry();
    assert_eq!(reg.lookup(11), Some(0));
    assert_eq!(reg.lookup(21), Some(1));
    assert_eq!(reg.lookup(10), None);
    assert_eq!(reg.lookup(99), None);
    assert_eq!(reg.interfaces().len(), 2);
}

#[test]
fn registry_rejects_duplicate_rx_descriptors() {
    let interfaces = vec![
        v4_iface("eth0", 0x0a000001, 24, 10, 11),
        v4_iface("eth1", 0x0a000101, 24, 20, 11),
    ];
    assert!(Registry::new(interfaces).is_none());
}

use mdns_reflector::sockets::BindAddr;
use mdns_reflector::sockets::IPV4_MDNS_ADDR;
use mdns_reflector::sockets::IPV6_MDNS_ADDR;
use mdns_reflector::sockets::MDNS_PORT;
use mdns_reflector::sockets::MDNS_TTL;
use mdns_reflector::sockets::SockOpt;
use mdns_reflector::sockets::rx_socket_plan_v4;
use mdns_reflector::sockets::rx_socket_plan_v6;
use mdns_reflector::sockets::tx_socket_plan_v4;
use mdns_reflector::sockets::tx_socket_plan_v6;

#[test]
fn group_constants() {
    assert_eq!(MDNS_PORT, 5353);
    assert_eq!(IPV4_MDNS_ADDR, u32::from_be_bytes([224, 0, 0, 251]));
    let ff02_fb: u128 = 0xff02_0000_0000_0000_0000_0000_0000_00fb;
    assert_eq!(IPV6_MDNS_ADDR, ff02_fb);
    assert_eq!(MDNS_TTL, 255);
}

#[test]
fn rx_plan_v4_binds_wildcard_and_joins_group() {
    let plan = rx_socket_plan_v4(0x0a000001);
    assert_eq!(
        plan.pre_bind,
        vec![
            SockOpt::MulticastLoopV4,
            SockOpt::PacketInfoV4,
            SockOpt::BindToDevice,
            SockOpt::ReuseAddr,
            SockOpt::NonBlocking,
        ],
    );
    assert_eq!(plan.bind, Some(BindAddr::V4 { addr: 0, port: 5353 }));
    assert_eq!(
        plan.post_bind,
        vec![SockOpt::JoinGroupV4 { group: IPV4_MDNS_ADDR, local: 0x0a000001 }],
    );
}

#[test]
fn tx_plan_v4_pins_egress_and_raises_ttl() {
    let plan = tx_socket_plan_v4(7, 0x0a000001);
    assert_eq!(
        plan.pre_bind,
        vec![
            SockOpt::MulticastLoopV4,
            SockOpt::MulticastIfV4 { if_index: 7 },
            SockOpt::ReuseAddr,
            SockOpt::NonBlocking,
        ],
    );
    assert_eq!(plan.bind, Some(BindAddr::V4 { addr: 0x0a000001, port: 5353 }));
    assert_eq!(
        plan.post_bind,
        vec![
            SockOpt::JoinGroupV4 { group: IPV4_MDNS_ADDR, local: 0x0a000001 },
            SockOpt::MulticastTtlV4 { ttl: 255 },
        ],
    );
}

#[test]
fn rx_plan_v6_binds_scoped_group_and_joins() {
    let plan = rx_socket_plan_v6(9);
    assert_eq!(
        plan.pre_bind,
        vec![
            SockOpt::V6Only,
            SockOpt::RecvPacketInfoV6,
            SockOpt::BindToDevice,
            SockOpt::ReuseAddr,
            SockOpt::NonBlocking,
        ],
    );
    assert_eq!(plan.bind, Some(BindAddr::V6 { addr: IPV6_MDNS_ADDR, port: 5353, scope: 9 }));
    assert_eq!(plan.post_bind, vec![SockOpt::JoinGroupV6 { group: IPV6_MDNS_ADDR, if_index: 9 }]);
}

#[test]
fn tx_plan_v6_pins_egress_and_raises_hop_limit() {
    let plan = tx_socket_plan_v6(9);
    assert_eq!(
        plan.pre_bind,
        vec![
            SockOpt::V6Only,
            SockOpt::MulticastIfV6 { if_index: 9 },
            SockOpt::ReuseAddr,
            SockOpt::NonBlocking,
        ],
    );
    assert_eq!(plan.bind, None);
    assert_eq!(plan.post_bind, vec![SockOpt::MulticastHopsV6 { hops: 255 }]);
}

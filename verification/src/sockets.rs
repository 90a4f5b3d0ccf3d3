//! Socket configuration plans.
//!
//! Building an endpoint's two sockets is a fixed sequence of decisions:
//! which options to set, where to bind, which group to join. The library
//! states those decisions as data with exact contracts; the surrounding
//! binary carries each step out with the corresponding system call, in
//! order: the options before the bind, the bind, then the options after
//! the bind.

use vstd::prelude::*;

verus! {

/// The UDP port of mDNS.
pub const MDNS_PORT: u16 = 5353;

/// The IPv4 mDNS group 224.0.0.251 as a 32-bit value.
pub const IPV4_MDNS_ADDR: u32 = 0xe000_00fb;

/// The IPv6 mDNS group ff02::fb as a 128-bit value.
pub const IPV6_MDNS_ADDR: u128 = 0xff02_0000_0000_0000_0000_0000_0000_00fb;

/// The multicast TTL and hop limit required of mDNS senders.
pub const MDNS_TTL: u8 = 255;

/// One socket option to set.
#[derive(Clone, Copy, PartialEq, Eq, Structural, Debug)]
#[allow(inconsistent_fields)]
pub enum SockOpt {
    /// Allow several endpoints to co-bind the mDNS port on the wildcard.
    ReuseAddr,
    /// Put the socket in non-blocking mode.
    NonBlocking,
    /// Deliver multicast sent by this host back to listening sockets (v4).
    MulticastLoopV4,
    /// Request packet info ancillary data on receive (v4).
    PacketInfoV4,
    /// Request packet info ancillary data on receive (v6).
    RecvPacketInfoV6,
    /// Restrict the socket to IPv6.
    V6Only,
    /// Bind the socket to the endpoint's interface by name.
    BindToDevice,
    /// Pin multicast egress to the interface with this kernel index (v4).
    MulticastIfV4 { if_index: u32 },
    /// Pin multicast egress to the interface with this kernel index (v6).
    MulticastIfV6 { if_index: u32 },
    /// Set the multicast TTL (v4).
    MulticastTtlV4 { ttl: u8 },
    /// Set the multicast hop limit (v6).
    MulticastHopsV6 { hops: u8 },
    /// Join an IPv4 group on the interface that owns `local`.
    JoinGroupV4 { group: u32, local: u32 },
    /// Join an IPv6 group on the interface with this kernel index.
    JoinGroupV6 { group: u128, if_index: u32 },
}

/// The local address a socket is bound to.
#[derive(Clone, Copy, PartialEq, Eq, Structural, Debug)]
#[allow(inconsistent_fields)]
pub enum BindAddr {
    V4 { addr: u32, port: u16 },
    V6 { addr: u128, port: u16, scope: u32 },
}

/// The full configuration of one socket: options to set right after
/// creation, the address to bind, and options to set after the bind.
pub struct SocketPlan {
    pub pre_bind: Vec<SockOpt>,
    pub bind: Option<BindAddr>,
    pub post_bind: Vec<SockOpt>,
}

/// The plan of an IPv4 receive socket: multicast loop on, packet info
/// requested, bound to the device and to the wildcard address on the mDNS
/// port, and joined to the mDNS group via the interface's own address.
pub fn rx_socket_plan_v4(own_addr: u32) -> (r: SocketPlan)
    ensures
        r.pre_bind@ =~= seq![
            SockOpt::MulticastLoopV4,
            SockOpt::PacketInfoV4,
            SockOpt::BindToDevice,
            SockOpt::ReuseAddr,
            SockOpt::NonBlocking,
        ],
        r.bind == Some(BindAddr::V4 { addr: 0u32, port: MDNS_PORT }),
        r.post_bind@ =~= seq![SockOpt::JoinGroupV4 { group: IPV4_MDNS_ADDR, local: own_addr }],
{
    SocketPlan {
        pre_bind: vec![
            SockOpt::MulticastLoopV4,
            SockOpt::PacketInfoV4,
            SockOpt::BindToDevice,
            SockOpt::ReuseAddr,
            SockOpt::NonBlocking,
        ],
        bind: Some(BindAddr::V4 { addr: 0u32, port: MDNS_PORT }),
        post_bind: vec![SockOpt::JoinGroupV4 { group: IPV4_MDNS_ADDR, local: own_addr }],
    }
}

/// The plan of an IPv4 transmit socket: multicast loop on, egress pinned
/// to the interface index, bound to the interface's own address on the
/// mDNS port, joined to the mDNS group, and TTL raised to 255.
pub fn tx_socket_plan_v4(if_index: u32, own_addr: u32) -> (r: SocketPlan)
    ensures
        r.pre_bind@ =~= seq![
            SockOpt::MulticastLoopV4,
            SockOpt::MulticastIfV4 { if_index },
            SockOpt::ReuseAddr,
            SockOpt::NonBlocking,
        ],
        r.bind == Some(BindAddr::V4 { addr: own_addr, port: MDNS_PORT }),
        r.post_bind@ =~= seq![
            SockOpt::JoinGroupV4 { group: IPV4_MDNS_ADDR, local: own_addr },
            SockOpt::MulticastTtlV4 { ttl: MDNS_TTL },
        ],
{
    SocketPlan {
        pre_bind: vec![
            SockOpt::MulticastLoopV4,
            SockOpt::MulticastIfV4 { if_index },
            SockOpt::ReuseAddr,
            SockOpt::NonBlocking,
        ],
        bind: Some(BindAddr::V4 { addr: own_addr, port: MDNS_PORT }),
        post_bind: vec![
            SockOpt::JoinGroupV4 { group: IPV4_MDNS_ADDR, local: own_addr },
            SockOpt::MulticastTtlV4 { ttl: MDNS_TTL },
        ],
    }
}

/// The plan of an IPv6 receive socket: restricted to IPv6, packet info
/// requested, bound to the device and to the mDNS group address on the
/// mDNS port scoped to the interface, and joined to the group there.
pub fn rx_socket_plan_v6(if_index: u32) -> (r: SocketPlan)
    ensures
        r.pre_bind@ =~= seq![
            SockOpt::V6Only,
            SockOpt::RecvPacketInfoV6,
            SockOpt::BindToDevice,
            SockOpt::ReuseAddr,
            SockOpt::NonBlocking,
        ],
        r.bind == Some(BindAddr::V6 { addr: IPV6_MDNS_ADDR, port: MDNS_PORT, scope: if_index }),
        r.post_bind@ =~= seq![SockOpt::JoinGroupV6 { group: IPV6_MDNS_ADDR, if_index }],
{
    SocketPlan {
        pre_bind: vec![
            SockOpt::V6Only,
            SockOpt::RecvPacketInfoV6,
            SockOpt::BindToDevice,
            SockOpt::ReuseAddr,
            SockOpt::NonBlocking,
        ],
        bind: Some(BindAddr::V6 { addr: IPV6_MDNS_ADDR, port: MDNS_PORT, scope: if_index }),
        post_bind: vec![SockOpt::JoinGroupV6 { group: IPV6_MDNS_ADDR, if_index }],
    }
}

/// The plan of an IPv6 transmit socket: restricted to IPv6, egress pinned
/// to the interface index, unbound, and hop limit raised to 255.
pub fn tx_socket_plan_v6(if_index: u32) -> (r: SocketPlan)
    ensures
        r.pre_bind@ =~= seq![
            SockOpt::V6Only,
            SockOpt::MulticastIfV6 { if_index },
            SockOpt::ReuseAddr,
            SockOpt::NonBlocking,
        ],
        r.bind is None,
        r.post_bind@ =~= seq![SockOpt::MulticastHopsV6 { hops: MDNS_TTL }],
{
    SocketPlan {
        pre_bind: vec![
            SockOpt::V6Only,
            SockOpt::MulticastIfV6 { if_index },
            SockOpt::ReuseAddr,
            SockOpt::NonBlocking,
        ],
        bind: None,
        post_bind: vec![SockOpt::MulticastHopsV6 { hops: MDNS_TTL }],
    }
}

} // verus!

//! Interface endpoints.
//!
//! An endpoint stands for one local interface in one address family. It
//! carries the logical interface name, the address the interface owns, and
//! the two socket descriptors — one for receiving and one for transmitting
//! — that the surrounding binary opened for it. An IPv4 endpoint also
//! carries the interface's network, read from the kernel at startup; the
//! IPv6 origin check is scope-based, so the IPv6 endpoint keeps no network
//! of its own.

use vstd::prelude::*;

use crate::addr::Address;
use crate::addr::Ipv4Cidr;

verus! {

/// An endpoint for one interface in one address family.
pub enum Interface {
    V4(InterfaceV4),
    V6(InterfaceV6),
}

/// The IPv4 endpoint of one interface.
pub struct InterfaceV4 {
    pub name: String,
    pub network: Ipv4Cidr,
    pub tx_fd: i32,
    pub rx_fd: i32,
}

/// The IPv6 endpoint of one interface.
pub struct InterfaceV6 {
    pub name: String,
    pub own_addr: u128,
    pub tx_fd: i32,
    pub rx_fd: i32,
}

impl Interface {
    /// The endpoint's CIDR network is well formed.
    pub open spec fn wf(self) -> bool {
        match self {
            Interface::V4(x) => x.network.wf(),
            Interface::V6(_) => true,
        }
    }

    pub open spec fn spec_name(self) -> Seq<char> {
        match self {
            Interface::V4(x) => x.name@,
            Interface::V6(x) => x.name@,
        }
    }

    /// The interface's own unicast address in the endpoint's family.
    pub open spec fn spec_addr(self) -> Address {
        match self {
            Interface::V4(x) => Address::V4(x.network.addr),
            Interface::V6(x) => Address::V6(x.own_addr),
        }
    }

    pub open spec fn spec_rx_fd(self) -> i32 {
        match self {
            Interface::V4(x) => x.rx_fd,
            Interface::V6(x) => x.rx_fd,
        }
    }

    pub open spec fn spec_tx_fd(self) -> i32 {
        match self {
            Interface::V4(x) => x.tx_fd,
            Interface::V6(x) => x.tx_fd,
        }
    }

    /// Whether two endpoints belong to the same address family.
    pub open spec fn same_family(self, other: Interface) -> bool {
        (self is V4) == (other is V4)
    }

    /// Whether `other` lies in the endpoint's own network. An IPv6
    /// endpoint tracks no network — ingress on it is already restricted
    /// to the link by the scope of the group address — so no address
    /// counts as inside.
    pub open spec fn spec_network_contains(self, other: Address) -> bool {
        match (self, other) {
            (Interface::V4(x), Address::V4(ip)) => x.network.spec_contains(ip),
            _ => false,
        }
    }

    /// The logical interface name this endpoint was created for.
    pub fn name(&self) -> (r: &String)
        ensures
            r@ == self.spec_name(),
    {
        match self {
            Interface::V4(x) => &x.name,
            Interface::V6(x) => &x.name,
        }
    }

    /// The interface's own unicast address.
    pub fn addr(&self) -> (r: Address)
        ensures
            r == self.spec_addr(),
    {
        match self {
            Interface::V4(x) => Address::V4(x.network.addr),
            Interface::V6(x) => Address::V6(x.own_addr),
        }
    }

    /// The descriptor of the receive socket.
    pub fn rx_fd(&self) -> (r: i32)
        ensures
            r == self.spec_rx_fd(),
    {
        match self {
            Interface::V4(x) => x.rx_fd,
            Interface::V6(x) => x.rx_fd,
        }
    }

    /// The descriptor of the transmit socket.
    pub fn tx_fd(&self) -> (r: i32)
        ensures
            r == self.spec_tx_fd(),
    {
        match self {
            Interface::V4(x) => x.tx_fd,
            Interface::V6(x) => x.tx_fd,
        }
    }

    /// Whether the endpoint is an IPv4 endpoint.
    pub fn is_v4(&self) -> (r: bool)
        ensures
            r == self is V4,
    {
        match self {
            Interface::V4(_) => true,
            Interface::V6(_) => false,
        }
    }

    /// Whether the endpoint's network is well formed.
    pub fn is_wf(&self) -> (r: bool)
        ensures
            r == self.wf(),
    {
        match self {
            Interface::V4(x) => x.network.prefix <= 32,
            Interface::V6(_) => true,
        }
    }

    /// Whether `other` lies in the endpoint's own network.
    pub fn network_contains_addr(&self, other: Address) -> (r: bool)
        requires
            self.wf(),
        ensures
            r == self.spec_network_contains(other),
    {
        match (self, other) {
            (Interface::V4(x), Address::V4(ip)) => x.network.contains(ip),
            _ => false,
        }
    }
}

impl InterfaceV4 {
    /// Records an IPv4 endpoint from the parts the surrounding binary
    /// established: the two configured sockets' descriptors and the
    /// network read from the kernel.
    pub fn new(name: String, network: Ipv4Cidr, tx_fd: i32, rx_fd: i32) -> (r: InterfaceV4)
        ensures
            r.name@ == name@,
            r.network == network,
            r.tx_fd == tx_fd,
            r.rx_fd == rx_fd,
    {
        InterfaceV4 { name, network, tx_fd, rx_fd }
    }
}

impl InterfaceV6 {
    /// Records an IPv6 endpoint from the parts the surrounding binary
    /// established: the two configured sockets' descriptors and the
    /// interface's own address.
    pub fn new(name: String, own_addr: u128, tx_fd: i32, rx_fd: i32) -> (r: InterfaceV6)
        ensures
            r.name@ == name@,
            r.own_addr == own_addr,
            r.tx_fd == tx_fd,
            r.rx_fd == rx_fd,
    {
        InterfaceV6 { name, own_addr, tx_fd, rx_fd }
    }
}

} // verus!

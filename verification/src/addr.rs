//! Plain-value model of IP addresses and CIDR networks.
//!
//! An IPv4 address is held as its 32-bit big-endian integer value and an
//! IPv6 address as its 128-bit value. A CIDR network keeps the address it
//! was built from together with its prefix length; membership is decided
//! by comparing the prefix bits.

use vstd::prelude::*;

verus! {

/// An IP address of either family, as a plain integer value.
#[derive(Clone, Copy, PartialEq, Eq, Structural, Debug)]
pub enum Address {
    V4(u32),
    V6(u128),
}

/// The bit mask that keeps the top `prefix` bits of a 32-bit address.
pub open spec fn mask32(prefix: u8) -> u32 {
    if prefix == 0 {
        0u32
    } else {
        0xffff_ffffu32 << ((32 - prefix) as u32)
    }
}

/// The bit mask that keeps the top `prefix` bits of a 128-bit address.
pub open spec fn mask128(prefix: u8) -> u128 {
    if prefix == 0 {
        0u128
    } else {
        0xffff_ffff_ffff_ffff_ffff_ffff_ffff_ffffu128 << ((128 - prefix) as u32)
    }
}

/// An IPv4 CIDR network: the address it was configured with plus a prefix
/// length between 0 and 32.
#[derive(Clone, Copy, PartialEq, Eq, Structural, Debug)]
pub struct Ipv4Cidr {
    pub addr: u32,
    pub prefix: u8,
}

/// An IPv6 CIDR network: the address it was configured with plus a prefix
/// length between 0 and 128.
#[derive(Clone, Copy, PartialEq, Eq, Structural, Debug)]
pub struct Ipv6Cidr {
    pub addr: u128,
    pub prefix: u8,
}

impl Ipv4Cidr {
    /// The prefix length is within the width of an IPv4 address.
    pub open spec fn wf(self) -> bool {
        self.prefix <= 32
    }

    /// Whether `a` lies in the network: its prefix bits equal the
    /// network's prefix bits.
    pub open spec fn spec_contains(self, a: u32) -> bool {
        a & mask32(self.prefix) == self.addr & mask32(self.prefix)
    }

    pub fn new(addr: u32, prefix: u8) -> (r: Option<Ipv4Cidr>)
        ensures
            prefix <= 32 ==> r == Some(Ipv4Cidr { addr, prefix }),
            prefix > 32 ==> r is None,
            r matches Some(c) ==> c.wf(),
    {
        if prefix <= 32 {
            Some(Ipv4Cidr { addr, prefix })
        } else {
            None
        }
    }

    pub fn contains(&self, a: u32) -> (r: bool)
        requires
            self.wf(),
        ensures
            r == self.spec_contains(a),
    {
        if self.prefix == 0 {
            assert(a & 0u32 == self.addr & 0u32) by (bit_vector);
            true
        } else {
            let shift: u32 = (32 - self.prefix) as u32;
            let m: u32 = 0xffff_ffffu32 << shift;
            a & m == self.addr & m
        }
    }

    /// Combines an interface's address and netmask into its network, as the
    /// two interface-query results are combined at startup. Fails exactly
    /// when the mask is not a contiguous prefix mask.
    pub fn with_netmask(addr: u32, mask: u32) -> (r: Option<Ipv4Cidr>)
        ensures
            r matches Some(c) ==> c.wf() && c.addr == addr && mask == mask32(c.prefix),
            r is None ==> forall|p: u8| p <= 32 ==> mask != mask32(p),
    {
        match netmask_to_prefix(mask) {
            Some(p) => Some(Ipv4Cidr { addr, prefix: p }),
            None => None,
        }
    }
}

impl Ipv6Cidr {
    /// The prefix length is within the width of an IPv6 address.
    pub open spec fn wf(self) -> bool {
        self.prefix <= 128
    }

    /// Whether `a` lies in the network: its prefix bits equal the
    /// network's prefix bits.
    pub open spec fn spec_contains(self, a: u128) -> bool {
        a & mask128(self.prefix) == self.addr & mask128(self.prefix)
    }

    pub fn new(addr: u128, prefix: u8) -> (r: Option<Ipv6Cidr>)
        ensures
            prefix <= 128 ==> r == Some(Ipv6Cidr { addr, prefix }),
            prefix > 128 ==> r is None,
            r matches Some(c) ==> c.wf(),
    {
        if prefix <= 128 {
            Some(Ipv6Cidr { addr, prefix })
        } else {
            None
        }
    }

    pub fn contains(&self, a: u128) -> (r: bool)
        requires
            self.wf(),
        ensures
            r == self.spec_contains(a),
    {
        if self.prefix == 0 {
            assert(a & 0u128 == self.addr & 0u128) by (bit_vector);
            true
        } else {
            let shift: u32 = (128 - self.prefix) as u32;
            let m: u128 = 0xffff_ffff_ffff_ffff_ffff_ffff_ffff_ffffu128 << shift;
            a & m == self.addr & m
        }
    }
}

/// A CIDR network of either family.
#[derive(Clone, Copy, PartialEq, Eq, Structural, Debug)]
pub enum Cidr {
    V4(Ipv4Cidr),
    V6(Ipv6Cidr),
}

impl Cidr {
    pub open spec fn wf(self) -> bool {
        match self {
            Cidr::V4(c) => c.wf(),
            Cidr::V6(c) => c.wf(),
        }
    }

    /// Whether `a` lies in the network. An address of the other family
    /// never does.
    pub open spec fn spec_contains(self, a: Address) -> bool {
        match (self, a) {
            (Cidr::V4(c), Address::V4(x)) => c.spec_contains(x),
            (Cidr::V6(c), Address::V6(x)) => c.spec_contains(x),
            _ => false,
        }
    }

    pub fn contains(&self, a: &Address) -> (r: bool)
        requires
            self.wf(),
        ensures
            r == self.spec_contains(*a),
    {
        match (self, a) {
            (Cidr::V4(c), Address::V4(x)) => c.contains(*x),
            (Cidr::V6(c), Address::V6(x)) => c.contains(*x),
            _ => false,
        }
    }
}

/// The prefix length whose mask is `mask`, if the mask is contiguous.
pub fn netmask_to_prefix(mask: u32) -> (r: Option<u8>)
    ensures
        r matches Some(p) ==> p <= 32 && mask == mask32(p),
        r is None ==> forall|p: u8| p <= 32 ==> mask != mask32(p),
{
    let mut p: u8 = 0;
    while p <= 32
        invariant
            p <= 33,
            forall|q: u8| q < p ==> mask != mask32(q),
        decreases 33 - p,
    {
        let m: u32 = if p == 0 {
            0u32
        } else {
            0xffff_ffffu32 << ((32 - p) as u32)
        };
        assert(m == mask32(p));
        if m == mask {
            return Some(p);
        }
        p = p + 1;
    }
    None
}

/// The 32-bit value of an IPv4 address given by its four octets, most
/// significant first.
pub open spec fn spec_ipv4_from_octets(a: u8, b: u8, c: u8, d: u8) -> u32 {
    ((a as u32) * 0x100_0000 + (b as u32) * 0x1_0000 + (c as u32) * 0x100 + (d as u32)) as u32
}

/// Reads the IPv4 address out of the data bytes of a generic socket
/// address, where the octets stand at offsets 2 through 5.
pub fn sockaddr_to_ipv4addr(sa_data: &[u8]) -> (r: Option<u32>)
    ensures
        sa_data@.len() >= 6 ==> r == Some(
            spec_ipv4_from_octets(sa_data@[2], sa_data@[3], sa_data@[4], sa_data@[5]),
        ),
        sa_data@.len() < 6 ==> r is None,
{
    if sa_data.len() >= 6 {
        Some(ipv4_from_octets(sa_data[2], sa_data[3], sa_data[4], sa_data[5]))
    } else {
        None
    }
}

/// Builds the 32-bit value of an IPv4 address from its four octets.
pub fn ipv4_from_octets(a: u8, b: u8, c: u8, d: u8) -> (r: u32)
    ensures
        r == spec_ipv4_from_octets(a, b, c, d),
{
    (a as u32) * 0x100_0000 + (b as u32) * 0x1_0000 + (c as u32) * 0x100 + (d as u32)
}

} // verus!

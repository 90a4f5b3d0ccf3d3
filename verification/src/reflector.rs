//! The forwarding engine.
//!
//! The registry maps each receive descriptor to its endpoint. For every
//! received datagram the engine resolves the source endpoint, applies the
//! filter policy, and decides the fan-out: one send per other endpoint of
//! the same family, in registry order, to the family's mDNS destination,
//! with the payload unchanged. The surrounding binary waits for readiness,
//! reads the datagrams, and performs the decided sends.

use std::collections::HashMap;

use vstd::prelude::*;

use crate::addr::Address;
use crate::addr::Cidr;
use crate::config::Config;
use crate::dns;
use crate::interface::Interface;
use crate::sockets::IPV4_MDNS_ADDR;
use crate::sockets::IPV6_MDNS_ADDR;
use crate::sockets::MDNS_PORT;

verus! {

broadcast use vstd::std_specs::hash::group_hash_axioms;

/// The receive descriptors are pairwise distinct across the endpoints.
pub open spec fn spec_distinct_rx_fds(ifaces: Seq<Interface>) -> bool {
    forall|i: int, j: int|
        0 <= i < j < ifaces.len() ==> ifaces[i].spec_rx_fd() != ifaces[j].spec_rx_fd()
}

/// Every endpoint's network is well formed.
pub open spec fn spec_all_wf(ifaces: Seq<Interface>) -> bool {
    forall|i: int| 0 <= i < ifaces.len() ==> (#[trigger] ifaces[i]).wf()
}

/// The in-memory collection of endpoints, with a map from each receive
/// descriptor to the position of its endpoint.
pub struct Registry {
    interfaces: Vec<Interface>,
    by_rx_fd: HashMap<i32, usize>,
}

impl Registry {
    /// The endpoints, in configuration order.
    pub closed spec fn spec_interfaces(self) -> Seq<Interface> {
        self.interfaces@
    }

    /// The descriptor map mirrors the endpoint sequence: every key it
    /// holds is the receive descriptor of the endpoint at the mapped
    /// position, and every endpoint's receive descriptor is mapped to its
    /// position; and every endpoint's network is well formed.
    pub closed spec fn wf(self) -> bool {
        &&& forall|fd: i32| #[trigger]
            self.by_rx_fd@.contains_key(fd) ==> self.by_rx_fd@[fd] < self.interfaces@.len()
                && self.interfaces@[self.by_rx_fd@[fd] as int].spec_rx_fd() == fd
        &&& forall|j: int|
            0 <= j < self.interfaces@.len() ==> self.by_rx_fd@.contains_pair(
                (#[trigger] self.interfaces@[j]).spec_rx_fd(),
                j as usize,
            )
        &&& spec_all_wf(self.interfaces@)
    }

    /// What well-formedness gives a caller: every endpoint is well formed
    /// and the receive descriptors are pairwise distinct.
    pub proof fn lemma_wf_distinct(&self)
        requires
            self.wf(),
        ensures
            spec_all_wf(self.spec_interfaces()),
            spec_distinct_rx_fds(self.spec_interfaces()),
    {
        assert forall|i: int, j: int| 0 <= i < j < self.interfaces@.len() implies self.interfaces@[i].spec_rx_fd()
            != self.interfaces@[j].spec_rx_fd() by {
            if self.interfaces@[i].spec_rx_fd() == self.interfaces@[j].spec_rx_fd() {
                assert(self.interfaces.len() == self.interfaces@.len());
                let fd = self.interfaces@[i].spec_rx_fd();
                assert(self.by_rx_fd@.contains_pair(fd, i as usize));
                assert(self.by_rx_fd@.contains_pair(fd, j as usize));
            }
        }
    }

    /// Builds the registry, indexing every endpoint by its receive
    /// descriptor. Refused exactly when two endpoints share a receive
    /// descriptor or an endpoint's network is malformed.
    pub fn new(interfaces: Vec<Interface>) -> (r: Option<Registry>)
        ensures
            r matches Some(reg) ==> {
                &&& reg.wf()
                &&& reg.spec_interfaces() == interfaces@
                &&& spec_distinct_rx_fds(interfaces@)
                &&& spec_all_wf(interfaces@)
            },
            r is None ==> !(spec_distinct_rx_fds(interfaces@) && spec_all_wf(interfaces@)),
    {
        let mut by_rx_fd: HashMap<i32, usize> = HashMap::new();
        let mut i: usize = 0;
        while i < interfaces.len()
            invariant
                i <= interfaces@.len(),
                forall|fd: i32| #[trigger]
                    by_rx_fd@.contains_key(fd) ==> by_rx_fd@[fd] < i
                        && interfaces@[by_rx_fd@[fd] as int].spec_rx_fd() == fd,
                forall|j: int|
                    0 <= j < i ==> by_rx_fd@.contains_pair(
                        (#[trigger] interfaces@[j]).spec_rx_fd(),
                        j as usize,
                    ),
                forall|j: int| 0 <= j < i ==> (#[trigger] interfaces@[j]).wf(),
            decreases interfaces@.len() - i,
        {
            if !interfaces[i].is_wf() {
                assert(!spec_all_wf(interfaces@));
                return None;
            }
            let fd = interfaces[i].rx_fd();
            if by_rx_fd.contains_key(&fd) {
                proof {
                    let j = by_rx_fd@[fd];
                    assert(interfaces@[j as int].spec_rx_fd() == interfaces@[i as int].spec_rx_fd());
                    assert(!spec_distinct_rx_fds(interfaces@));
                }
                return None;
            }
            by_rx_fd.insert(fd, i);
            i = i + 1;
        }
        let reg = Registry { interfaces, by_rx_fd };
        proof {
            reg.lemma_wf_distinct();
        }
        Some(reg)
    }

    /// The endpoints, in configuration order.
    pub fn interfaces(&self) -> (r: &Vec<Interface>)
        ensures
            r@ == self.spec_interfaces(),
    {
        &self.interfaces
    }

    /// The position of the endpoint whose receive socket is `rx_fd`, if
    /// any endpoint owns that descriptor.
    pub fn lookup(&self, rx_fd: i32) -> (r: Option<usize>)
        requires
            self.wf(),
        ensures
            r matches Some(j) ==> j < self.spec_interfaces().len()
                && self.spec_interfaces()[j as int].spec_rx_fd() == rx_fd,
            r is None ==> forall|j: int|
                0 <= j < self.spec_interfaces().len() ==> (
                #[trigger] self.spec_interfaces()[j]).spec_rx_fd() != rx_fd,
    {
        match self.by_rx_fd.get(&rx_fd) {
            Some(j) => Some(*j),
            None => {
                proof {
                    assert forall|j: int| 0 <= j < self.interfaces@.len() implies (
                    #[trigger] self.interfaces@[j]).spec_rx_fd() != rx_fd by {
                        if self.interfaces@[j].spec_rx_fd() == rx_fd {
                            assert(self.interfaces.len() == self.interfaces@.len());
                            assert(self.by_rx_fd@.contains_pair(rx_fd, j as usize));
                        }
                    }
                }
                None
            },
        }
    }
}

/// The canonical mDNS destination of a family's fan-out sends.
#[derive(Clone, Copy, PartialEq, Eq, Structural, Debug)]
#[allow(inconsistent_fields)]
pub enum Destination {
    V4 { addr: u32, port: u16 },
    V6 { addr: u128, port: u16 },
}

/// The destination of every fan-out send of a family: the family's mDNS
/// group on the mDNS port.
pub open spec fn spec_mdns_destination(is_v4: bool) -> Destination {
    if is_v4 {
        Destination::V4 { addr: IPV4_MDNS_ADDR, port: MDNS_PORT }
    } else {
        Destination::V6 { addr: IPV6_MDNS_ADDR, port: MDNS_PORT }
    }
}

/// Why a received datagram was not forwarded.
#[derive(Clone, Copy, PartialEq, Eq, Structural, Debug)]
pub enum DropReason {
    /// No endpoint owns the descriptor the datagram arrived on.
    UnknownDescriptor,
    /// The source address is the receiving endpoint's own address.
    SelfEcho,
    /// The source lies outside the receiving endpoint's network and
    /// outside every additional subnet.
    OutsideSourceNetwork,
    /// The source lies in an ignore-question subnet and the datagram
    /// carries a DNS question.
    IgnoredQuestion,
}

/// One fan-out send: which endpoint transmits, over which descriptor, and
/// to which destination.
#[derive(Clone, Copy, PartialEq, Eq, Structural, Debug)]
pub struct SendAction {
    /// The position of the transmitting endpoint in the registry.
    pub iface_index: usize,
    /// The descriptor of that endpoint's transmit socket.
    pub tx_fd: i32,
    /// The address the datagram is sent to.
    pub dest: Destination,
}

/// What to do with one received datagram.
#[derive(PartialEq, Eq, Debug)]
pub enum Decision {
    /// Send `payload` once per entry of `sends`, in order.
    Forward { payload: Vec<u8>, sends: Vec<SendAction> },
    /// Send nothing.
    Drop { reason: DropReason },
}

/// Some subnet of the list contains the address.
pub open spec fn spec_any_contains(subnets: Seq<Cidr>, a: Address) -> bool {
    exists|i: int| 0 <= i < subnets.len() && (#[trigger] subnets[i]).spec_contains(a)
}

/// Whether the source's origin is acceptable on this endpoint: an IPv6
/// endpoint accepts every origin (ingress is already restricted to the
/// link by the group's scope); an IPv4 endpoint accepts sources in its
/// own network or in some additional subnet.
pub open spec fn spec_origin_allowed(iface: Interface, cfg: Config, src: Address) -> bool {
    ||| !(iface is V4)
    ||| iface.spec_network_contains(src)
    ||| spec_any_contains(cfg.additional_subnets@, src)
}

/// Whether the datagram falls to question suppression: some ignore
/// subnet is configured and contains the source, and the bytes parse as
/// a DNS message with at least one question.
pub open spec fn spec_question_suppressed(cfg: Config, src: Address, data: Seq<u8>) -> bool {
    &&& cfg.ignore_question_subnets@.len() > 0
    &&& spec_any_contains(cfg.ignore_question_subnets@, src)
    &&& dns::spec_has_question(data)
}

/// The filter policy: a datagram is forwarded when it is not a self-echo,
/// its origin is acceptable, and it does not fall to question suppression.
pub open spec fn spec_should_forward(
    iface: Interface,
    cfg: Config,
    src: Address,
    data: Seq<u8>,
) -> bool {
    &&& src != iface.spec_addr()
    &&& spec_origin_allowed(iface, cfg, src)
    &&& !spec_question_suppressed(cfg, src, data)
}

/// The endpoint at `j` is a fan-out target for the source endpoint at
/// `si`: another interface, same family.
pub open spec fn spec_is_target(ifaces: Seq<Interface>, si: int, j: int) -> bool {
    &&& 0 <= j < ifaces.len()
    &&& ifaces[j].spec_name() != ifaces[si].spec_name()
    &&& ifaces[j].same_family(ifaces[si])
}

/// One send is sound for the source at `si`: it targets a fan-out target,
/// over that target's transmit descriptor, to the family's destination.
pub open spec fn spec_send_ok(ifaces: Seq<Interface>, si: int, a: SendAction) -> bool {
    &&& spec_is_target(ifaces, si, a.iface_index as int)
    &&& a.tx_fd == ifaces[a.iface_index as int].spec_tx_fd()
    &&& a.dest == spec_mdns_destination(ifaces[si] is V4)
}

/// The send list is exactly the fan-out of the source at `si`: every send
/// is sound, the sends come in registry order, and every fan-out target
/// gets one.
pub open spec fn spec_sends_ok(ifaces: Seq<Interface>, si: int, sends: Seq<SendAction>) -> bool {
    &&& forall|k: int| 0 <= k < sends.len() ==> spec_send_ok(ifaces, si, #[trigger] sends[k])
    &&& forall|k1: int, k2: int|
        0 <= k1 < k2 < sends.len() ==> sends[k1].iface_index < sends[k2].iface_index
    &&& forall|j: int| #[trigger]
        spec_is_target(ifaces, si, j) ==> exists|k: int|
            0 <= k < sends.len() && (#[trigger] sends[k]).iface_index == j
}

/// Some subnet of the list contains the address.
pub fn any_subnet_contains(subnets: &Vec<Cidr>, a: &Address) -> (r: bool)
    requires
        forall|i: int| 0 <= i < subnets@.len() ==> (#[trigger] subnets@[i]).wf(),
    ensures
        r == spec_any_contains(subnets@, *a),
{
    let mut i: usize = 0;
    while i < subnets.len()
        invariant
            i <= subnets@.len(),
            forall|k: int| 0 <= k < subnets@.len() ==> (#[trigger] subnets@[k]).wf(),
            forall|k: int| 0 <= k < i ==> !(#[trigger] subnets@[k]).spec_contains(*a),
        decreases subnets@.len() - i,
    {
        if subnets[i].contains(a) {
            return true;
        }
        i = i + 1;
    }
    false
}

/// Applies the filter policy to one datagram on the endpoint it arrived
/// on, giving the reason it is dropped, or nothing when it is forwarded.
pub fn filter_verdict(iface: &Interface, config: &Config, src: &Address, data: &[u8]) -> (r:
    Option<DropReason>)
    requires
        iface.wf(),
        config.wf(),
    ensures
        r is None <==> spec_should_forward(*iface, *config, *src, data@),
        (r == Some(DropReason::SelfEcho)) <==> *src == iface.spec_addr(),
        (r == Some(DropReason::OutsideSourceNetwork)) <==> (*src != iface.spec_addr()
            && !spec_origin_allowed(*iface, *config, *src)),
        (r == Some(DropReason::IgnoredQuestion)) <==> (*src != iface.spec_addr()
            && spec_origin_allowed(*iface, *config, *src) && spec_question_suppressed(
            *config,
            *src,
            data@,
        )),
        r != Some(DropReason::UnknownDescriptor),
{
    if *src == iface.addr() {
        return Some(DropReason::SelfEcho);
    }
    if iface.is_v4() && !iface.network_contains_addr(*src) && !any_subnet_contains(
        &config.additional_subnets,
        src,
    ) {
        return Some(DropReason::OutsideSourceNetwork);
    }
    if config.ignore_question_subnets.len() > 0 && any_subnet_contains(
        &config.ignore_question_subnets,
        src,
    ) && dns::packet_has_question(data) {
        return Some(DropReason::IgnoredQuestion);
    }
    None
}

/// Decides the fan-out of one accepted datagram: one send per endpoint
/// whose name differs from the source's and whose family matches, in
/// registry order, to the family's mDNS destination.
pub fn fanout_sends(interfaces: &Vec<Interface>, src_index: usize) -> (r: Vec<SendAction>)
    requires
        src_index < interfaces@.len(),
    ensures
        spec_sends_ok(interfaces@, src_index as int, r@),
{
    let src_is_v4 = interfaces[src_index].is_v4();
    let dest = if src_is_v4 {
        Destination::V4 { addr: IPV4_MDNS_ADDR, port: MDNS_PORT }
    } else {
        Destination::V6 { addr: IPV6_MDNS_ADDR, port: MDNS_PORT }
    };
    let mut sends: Vec<SendAction> = Vec::new();
    let mut j: usize = 0;
    while j < interfaces.len()
        invariant
            src_index < interfaces@.len(),
            j <= interfaces@.len(),
            src_is_v4 == interfaces@[src_index as int] is V4,
            dest == spec_mdns_destination(src_is_v4),
            forall|k: int|
                0 <= k < sends@.len() ==> spec_send_ok(
                    interfaces@,
                    src_index as int,
                    #[trigger] sends@[k],
                ),
            forall|k: int| 0 <= k < sends@.len() ==> (#[trigger] sends@[k]).iface_index < j,
            forall|k1: int, k2: int|
                0 <= k1 < k2 < sends@.len() ==> sends@[k1].iface_index < sends@[k2].iface_index,
            forall|t: int|
                0 <= t < j && #[trigger] spec_is_target(interfaces@, src_index as int, t)
                    ==> exists|k: int|
                    0 <= k < sends@.len() && (#[trigger] sends@[k]).iface_index == t,
        decreases interfaces@.len() - j,
    {
        let candidate = &interfaces[j];
        let name_eq = *candidate.name() == *interfaces[src_index].name();
        let fam_eq = candidate.is_v4() == src_is_v4;
        let ghost prev = sends@;
        if !name_eq && fam_eq {
            sends.push(SendAction { iface_index: j, tx_fd: candidate.tx_fd(), dest });
        }
        proof {
            assert forall|t: int|
                0 <= t < j + 1 && #[trigger] spec_is_target(
                    interfaces@,
                    src_index as int,
                    t,
                ) implies exists|k: int|
                0 <= k < sends@.len() && (#[trigger] sends@[k]).iface_index == t by {
                if t == j as int {
                    assert(!name_eq && fam_eq);
                    assert(sends@[sends@.len() - 1].iface_index == t);
                } else {
                    let k = choose|k: int|
                        0 <= k < prev.len() && (#[trigger] prev[k]).iface_index == t;
                    assert(sends@[k].iface_index == t);
                }
            }
        }
        j = j + 1;
    }
    sends
}

/// What the decision for one datagram must be, given the position `si` of
/// the endpoint it arrived on: the three drop rules in their order of
/// precedence, and otherwise a forward of the unchanged payload with the
/// exact fan-out.
pub open spec fn spec_decision_ok(
    ifaces: Seq<Interface>,
    cfg: Config,
    si: int,
    src: Address,
    data: Seq<u8>,
    r: Decision,
) -> bool {
    let iface = ifaces[si];
    &&& (src == iface.spec_addr() ==> r == (Decision::Drop { reason: DropReason::SelfEcho }))
    &&& (src != iface.spec_addr() && !spec_origin_allowed(iface, cfg, src) ==> r == (Decision::Drop {
        reason: DropReason::OutsideSourceNetwork,
    }))
    &&& (src != iface.spec_addr() && spec_origin_allowed(iface, cfg, src)
        && spec_question_suppressed(cfg, src, data) ==> r == (Decision::Drop {
        reason: DropReason::IgnoredQuestion,
    }))
    &&& (spec_should_forward(iface, cfg, src, data) ==> (r matches Decision::Forward {
        payload,
        sends,
    } && payload@ == data && spec_sends_ok(ifaces, si, sends@)))
}

/// Handles one received datagram: resolves the endpoint that owns the
/// descriptor it arrived on, applies the filter policy, and decides the
/// fan-out.
pub fn handle_datagram(
    registry: &Registry,
    config: &Config,
    rx_fd: i32,
    src: Address,
    data: &[u8],
) -> (r: Decision)
    requires
        registry.wf(),
        config.wf(),
    ensures
        (forall|j: int|
            0 <= j < registry.spec_interfaces().len() ==> (
            #[trigger] registry.spec_interfaces()[j]).spec_rx_fd() != rx_fd) <==> r == (
        Decision::Drop { reason: DropReason::UnknownDescriptor }),
        forall|si: int|
            0 <= si < registry.spec_interfaces().len() && (
            #[trigger] registry.spec_interfaces()[si]).spec_rx_fd() == rx_fd
                ==> spec_decision_ok(registry.spec_interfaces(), *config, si, src, data@, r),
{
    proof {
        registry.lemma_wf_distinct();
    }
    let src_index = match registry.lookup(rx_fd) {
        Some(j) => j,
        None => {
            return Decision::Drop { reason: DropReason::UnknownDescriptor };
        },
    };
    let iface = &registry.interfaces[src_index];
    match filter_verdict(iface, config, &src, data) {
        Some(reason) => Decision::Drop { reason },
        None => {
            let sends = fanout_sends(&registry.interfaces, src_index);
            let payload = vstd::slice::slice_to_vec(data);
            Decision::Forward { payload, sends }
        },
    }
}

/// A packet whose source address equals the receiving endpoint's own
/// address is never forwarded.
pub proof fn lemma_self_echo_never_forwarded(
    ifaces: Seq<Interface>,
    cfg: Config,
    si: int,
    src: Address,
    data: Seq<u8>,
    r: Decision,
)
    requires
        0 <= si < ifaces.len(),
        spec_decision_ok(ifaces, cfg, si, src, data, r),
        src == ifaces[si].spec_addr(),
    ensures
        r == (Decision::Drop { reason: DropReason::SelfEcho }),
{
}

/// A packet whose source is outside the receiving v4 endpoint's network
/// and outside every additional subnet is never forwarded.
pub proof fn lemma_outside_source_never_forwarded(
    ifaces: Seq<Interface>,
    cfg: Config,
    si: int,
    src: Address,
    data: Seq<u8>,
    r: Decision,
)
    requires
        0 <= si < ifaces.len(),
        spec_decision_ok(ifaces, cfg, si, src, data, r),
        ifaces[si] is V4,
        !ifaces[si].spec_network_contains(src),
        !spec_any_contains(cfg.additional_subnets@, src),
    ensures
        !(r is Forward),
{
}

/// With a non-empty set of ignore-question subnets, a packet whose source
/// lies in one of them and that parses to a DNS message with at least one
/// question is never forwarded.
pub proof fn lemma_ignored_question_never_forwarded(
    ifaces: Seq<Interface>,
    cfg: Config,
    si: int,
    src: Address,
    data: Seq<u8>,
    r: Decision,
)
    requires
        0 <= si < ifaces.len(),
        spec_decision_ok(ifaces, cfg, si, src, data, r),
        cfg.ignore_question_subnets@.len() > 0,
        spec_any_contains(cfg.ignore_question_subnets@, src),
        dns::spec_has_question(data),
    ensures
        !(r is Forward),
{
}

/// Every forwarded packet carries the received payload unchanged,
/// byte-for-byte and length-for-length, and its sends are exactly the
/// fan-out of the source endpoint.
pub proof fn lemma_forwarded_payload_unchanged(
    ifaces: Seq<Interface>,
    cfg: Config,
    si: int,
    src: Address,
    data: Seq<u8>,
    r: Decision,
)
    requires
        0 <= si < ifaces.len(),
        spec_decision_ok(ifaces, cfg, si, src, data, r),
    ensures
        r matches Decision::Forward { payload, sends } ==> payload@ == data && spec_sends_ok(
            ifaces,
            si,
            sends@,
        ),
{
}

/// For every forwarded packet, the source endpoint is not among the
/// destinations: no send of a sound fan-out targets the endpoint the
/// datagram arrived on, by position or by name.
pub proof fn lemma_source_not_a_destination(
    ifaces: Seq<Interface>,
    si: int,
    sends: Seq<SendAction>,
    k: int,
)
    requires
        0 <= si < ifaces.len(),
        spec_sends_ok(ifaces, si, sends),
        0 <= k < sends.len(),
    ensures
        sends[k].iface_index != si,
        ifaces[sends[k].iface_index as int].spec_name() != ifaces[si].spec_name(),
{
    assert(spec_send_ok(ifaces, si, sends[k]));
}

/// For every forwarded packet, all destinations share the source
/// endpoint's address family.
pub proof fn lemma_destinations_share_family(
    ifaces: Seq<Interface>,
    si: int,
    sends: Seq<SendAction>,
    k: int,
)
    requires
        0 <= si < ifaces.len(),
        spec_sends_ok(ifaces, si, sends),
        0 <= k < sends.len(),
    ensures
        ifaces[sends[k].iface_index as int].same_family(ifaces[si]),
{
    assert(spec_send_ok(ifaces, si, sends[k]));
}

} // verus!

//! Configuration: the filter rules the process is started with.
//!
//! The subnets arrive as CIDR strings. An outside parser turns each string
//! into a network; the library validates the whole configuration and
//! rejects it exactly when fewer than two interfaces are named or some
//! string is not a CIDR.

use vstd::prelude::*;

use crate::addr::Cidr;
use crate::addr::Ipv4Cidr;
use crate::addr::Ipv6Cidr;

verus! {

/// What a CIDR string parses to: `None` when the string is not a CIDR,
/// otherwise the family flag (true for IPv4), the address value, and the
/// prefix length. The outcome depends on the characters alone.
pub uninterp spec fn ipnet_of_str(s: Seq<char>) -> Option<(bool, u128, u8)>;

/// Relies on ipnet::IpNet's FromStr: the parse outcome depends on the
/// characters alone; a parsed IPv4 network has a 32-bit address and a
/// prefix length of at most 32, a parsed IPv6 network a prefix length of
/// at most 128.
#[verifier::external_body]
fn parse_ipnet(s: &str) -> (r: Option<(bool, u128, u8)>)
    ensures
        r == ipnet_of_str(s@),
        r matches Some(t) ==> (t.0 ==> t.1 <= u32::MAX && t.2 <= 32),
        r matches Some(t) ==> (!t.0 ==> t.2 <= 128),
{
    match s.parse::<ipnet::IpNet>() {
        Ok(ipnet::IpNet::V4(n)) => Some((true, u32::from(n.addr()) as u128, n.prefix_len())),
        Ok(ipnet::IpNet::V6(n)) => Some((false, u128::from(n.addr()), n.prefix_len())),
        Err(_) => None,
    }
}

/// The library's network for a parse outcome: an IPv4 outcome whose
/// address and prefix length fit their widths becomes a v4 network, an
/// IPv6 outcome whose prefix length fits becomes a v6 network.
pub open spec fn spec_cidr_of_parts(t: (bool, u128, u8)) -> Option<Cidr> {
    if t.0 {
        if t.1 <= u32::MAX && t.2 <= 32 {
            Some(Cidr::V4(Ipv4Cidr { addr: t.1 as u32, prefix: t.2 }))
        } else {
            None
        }
    } else {
        if t.2 <= 128 {
            Some(Cidr::V6(Ipv6Cidr { addr: t.1, prefix: t.2 }))
        } else {
            None
        }
    }
}

/// Turns one parse outcome into the library's network.
pub fn cidr_of_parts(t: (bool, u128, u8)) -> (r: Option<Cidr>)
    ensures
        r == spec_cidr_of_parts(t),
        r matches Some(c) ==> c.wf(),
{
    if t.0 {
        if t.1 <= u32::MAX as u128 && t.2 <= 32 {
            Some(Cidr::V4(Ipv4Cidr { addr: t.1 as u32, prefix: t.2 }))
        } else {
            None
        }
    } else {
        if t.2 <= 128 {
            Some(Cidr::V6(Ipv6Cidr { addr: t.1, prefix: t.2 }))
        } else {
            None
        }
    }
}

/// What a CIDR string means as a network of the library.
pub open spec fn spec_parse_cidr(s: Seq<char>) -> Option<Cidr> {
    match ipnet_of_str(s) {
        Some(t) => spec_cidr_of_parts(t),
        None => None,
    }
}

/// Parses one CIDR string into a network.
pub fn parse_cidr(s: &str) -> (r: Option<Cidr>)
    ensures
        r == spec_parse_cidr(s@),
        r matches Some(c) ==> c.wf(),
        ipnet_of_str(s@) is Some ==> r is Some,
{
    match parse_ipnet(s) {
        Some(t) => cidr_of_parts(t),
        None => None,
    }
}

/// The filter rules, immutable for the process lifetime.
#[derive(Debug)]
pub struct Config {
    /// Sources in any of these are accepted even outside the receiving
    /// interface's own network.
    pub additional_subnets: Vec<Cidr>,
    /// Question-bearing packets whose source lies in any of these are
    /// dropped.
    pub ignore_question_subnets: Vec<Cidr>,
    /// On a send failure, log and continue instead of terminating.
    pub error_instead_of_exit: bool,
    /// Skip creation of IPv4 endpoints.
    pub disable_v4: bool,
    /// Skip creation of IPv6 endpoints.
    pub disable_v6: bool,
}

impl Config {
    /// Every configured network is well formed.
    pub open spec fn wf(self) -> bool {
        &&& forall|i: int|
            0 <= i < self.additional_subnets@.len() ==> (#[trigger] self.additional_subnets@[i]).wf()
        &&& forall|i: int|
            0 <= i < self.ignore_question_subnets@.len() ==> (
            #[trigger] self.ignore_question_subnets@[i]).wf()
    }
}

/// Why a configuration was rejected.
#[derive(Clone, Copy, PartialEq, Eq, Structural, Debug)]
pub enum ConfigError {
    /// Fewer than two interfaces were named.
    TooFewInterfaces,
    /// The additional subnet at this position is not a CIDR.
    BadAdditionalSubnet(usize),
    /// The ignore-question subnet at this position is not a CIDR.
    BadIgnoreQuestionSubnet(usize),
}

/// Parses a list of CIDR strings, failing on the first that is not a CIDR.
pub fn parse_subnet_list(strings: &Vec<String>) -> (r: Result<Vec<Cidr>, usize>)
    ensures
        r matches Ok(subnets) ==> {
            &&& subnets@.len() == strings@.len()
            &&& forall|i: int|
                0 <= i < strings@.len() ==> Some(#[trigger] subnets@[i]) == spec_parse_cidr(
                    strings@[i]@,
                )
            &&& forall|i: int| 0 <= i < subnets@.len() ==> (#[trigger] subnets@[i]).wf()
        },
        r matches Err(i) ==> i < strings@.len() && spec_parse_cidr(strings@[i as int]@) is None,
        (forall|i: int| 0 <= i < strings@.len() ==> spec_parse_cidr(#[trigger] strings@[i]@)
            is Some) ==> r is Ok,
{
    let mut subnets: Vec<Cidr> = Vec::new();
    let mut i: usize = 0;
    while i < strings.len()
        invariant
            i <= strings@.len(),
            subnets@.len() == i,
            forall|j: int|
                0 <= j < i ==> Some(#[trigger] subnets@[j]) == spec_parse_cidr(strings@[j]@),
            forall|j: int| 0 <= j < i ==> (#[trigger] subnets@[j]).wf(),
        decreases strings@.len() - i,
    {
        match parse_cidr(strings[i].as_str()) {
            Some(c) => subnets.push(c),
            None => {
                return Err(i);
            },
        }
        i = i + 1;
    }
    Ok(subnets)
}

/// Builds the configuration out of the raw option values, rejecting it
/// exactly when fewer than two interfaces are named or a subnet string is
/// not a CIDR.
pub fn build_config(
    interfaces: &Vec<String>,
    additional_subnet: &Vec<String>,
    ignore_question_subnet: &Vec<String>,
    error_instead_of_exit: bool,
    disable_v4: bool,
    disable_v6: bool,
) -> (r: Result<Config, ConfigError>)
    ensures
        r matches Ok(c) ==> {
            &&& interfaces@.len() >= 2
            &&& c.additional_subnets@.len() == additional_subnet@.len()
            &&& forall|i: int|
                0 <= i < additional_subnet@.len() ==> Some(#[trigger] c.additional_subnets@[i])
                    == spec_parse_cidr(additional_subnet@[i]@)
            &&& c.ignore_question_subnets@.len() == ignore_question_subnet@.len()
            &&& forall|i: int|
                0 <= i < ignore_question_subnet@.len() ==> Some(
                    #[trigger] c.ignore_question_subnets@[i],
                ) == spec_parse_cidr(ignore_question_subnet@[i]@)
            &&& c.error_instead_of_exit == error_instead_of_exit
            &&& c.disable_v4 == disable_v4
            &&& c.disable_v6 == disable_v6
            &&& c.wf()
        },
        r matches Err(e) ==> match e {
            ConfigError::TooFewInterfaces => interfaces@.len() < 2,
            ConfigError::BadAdditionalSubnet(i) => i < additional_subnet@.len()
                && spec_parse_cidr(additional_subnet@[i as int]@) is None,
            ConfigError::BadIgnoreQuestionSubnet(i) => i < ignore_question_subnet@.len()
                && spec_parse_cidr(ignore_question_subnet@[i as int]@) is None,
        },
        (interfaces@.len() >= 2 && (forall|i: int|
            0 <= i < additional_subnet@.len() ==> spec_parse_cidr(
                #[trigger] additional_subnet@[i]@,
            ) is Some) && (forall|i: int|
            0 <= i < ignore_question_subnet@.len() ==> spec_parse_cidr(
                #[trigger] ignore_question_subnet@[i]@,
            ) is Some)) ==> r is Ok,
{
    if interfaces.len() < 2 {
        return Err(ConfigError::TooFewInterfaces);
    }
    let additional_subnets = match parse_subnet_list(additional_subnet) {
        Ok(s) => s,
        Err(i) => {
            return Err(ConfigError::BadAdditionalSubnet(i));
        },
    };
    let ignore_question_subnets = match parse_subnet_list(ignore_question_subnet) {
        Ok(s) => s,
        Err(i) => {
            return Err(ConfigError::BadIgnoreQuestionSubnet(i));
        },
    };
    Ok(
        Config {
            additional_subnets,
            ignore_question_subnets,
            error_instead_of_exit,
            disable_v4,
            disable_v6,
        },
    )
}

} // verus!

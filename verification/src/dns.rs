//! The black-box view of DNS wire decoding.
//!
//! The reflector reads one thing out of a datagram's bytes: whether they
//! parse as a DNS message that carries at least one question record. The
//! decoding itself is done by an outside parser; the library only names
//! its outcome.

use vstd::prelude::*;

verus! {

/// What the outside DNS parser yields on a byte string: `None` when the
/// bytes do not parse as a DNS message, otherwise the number of question
/// records of the parsed message. The outcome depends on the bytes alone.
pub uninterp spec fn dns_question_count(data: Seq<u8>) -> Option<usize>;

/// `data` parses as a DNS message that carries at least one question.
pub open spec fn spec_has_question(data: Seq<u8>) -> bool {
    dns_question_count(data) matches Some(n) && n >= 1
}

/// Relies on dns_parser::Packet::parse: whether the bytes parse, and how
/// many entries the parsed message's question section holds, depend on the
/// input bytes alone.
#[verifier::external_body]
fn parse_question_count(data: &[u8]) -> (r: Option<usize>)
    ensures
        r == dns_question_count(data@),
{
    match dns_parser::Packet::parse(data) {
        Ok(packet) => Some(packet.questions.len()),
        Err(_) => None,
    }
}

/// Whether a parse outcome counts as a question-bearing message: the
/// parse succeeded and found at least one question. Bytes that do not
/// parse never count.
pub fn counts_as_question(outcome: Option<usize>) -> (r: bool)
    ensures
        r == (outcome matches Some(n) && n >= 1),
{
    match outcome {
        Some(n) => n >= 1,
        None => false,
    }
}

/// Whether `data` parses as a DNS message with at least one question.
pub fn packet_has_question(data: &[u8]) -> (r: bool)
    ensures
        r == spec_has_question(data@),
{
    let outcome = parse_question_count(data);
    counts_as_question(outcome)
}

} // verus!

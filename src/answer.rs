//! Answer synthesis: a stored record becomes an address or alias answer when
//! its content parses for its type.

use vstd::prelude::*;
use core::str::FromStr;
use crate::record::Record;
use crate::text::text_eq;
use crate::upstream::{is_dns_name, parse_name};

verus! {

/// The IPv4 address that dotted-decimal text denotes, as a big-endian `u32`.
pub uninterp spec fn ipv4_of(s: Seq<char>) -> Option<u32>;

/// The IPv6 address that colon-form text denotes, as a big-endian `u128`.
pub uninterp spec fn ipv6_of(s: Seq<char>) -> Option<u128>;

/// Relies on `Ipv4Addr::from_str` (core's address parser) and the `u32` form of
/// the address.
#[verifier::external_body]
pub(crate) fn parse_ipv4(s: &str) -> (r: Option<u32>)
    ensures
        r == ipv4_of(s@),
{
    core::net::Ipv4Addr::from_str(s).ok().map(u32::from)
}

/// Relies on `Ipv6Addr::from_str` (core's address parser) and the `u128` form
/// of the address.
#[verifier::external_body]
pub(crate) fn parse_ipv6(s: &str) -> (r: Option<u128>)
    ensures
        r == ipv6_of(s@),
{
    core::net::Ipv6Addr::from_str(s).ok().map(u128::from)
}

/// The payload of a synthesized answer.
#[derive(Debug)]
pub enum AnswerData {
    /// An IPv4 address, big-endian.
    A(u32),
    /// An IPv6 address, big-endian.
    Aaaa(u128),
    /// The alias target, as stored.
    Cname(String),
}

/// An answer record built from a stored record.
#[derive(Debug)]
pub struct Answer {
    pub name: String,
    pub ttl: u32,
    pub data: AnswerData,
}

/// The payload a record's type and content give, if the content parses for
/// the type.
pub open spec fn payload_agrees(d: AnswerData, t: Seq<char>, c: Seq<char>) -> bool {
    match d {
        AnswerData::A(ip) => t == "A"@ && ipv4_of(c) == Some(ip),
        AnswerData::Aaaa(ip) => t == "AAAA"@ && ipv6_of(c) == Some(ip),
        AnswerData::Cname(target) => t == "CNAME"@ && is_dns_name(c) && target@ == c,
    }
}

/// Whether a record of type `t` with content `c` yields an answer.
pub open spec fn synthesizable(t: Seq<char>, c: Seq<char>) -> bool {
    ||| t == "A"@ && ipv4_of(c) is Some
    ||| t == "AAAA"@ && ipv6_of(c) is Some
    ||| t == "CNAME"@ && is_dns_name(c)
}

/// Builds the answer that a stored record gives for `query_name`: `A` needs an
/// IPv4 literal, `AAAA` an IPv6 literal and `CNAME` a domain name; any other
/// type, or content that does not parse, gives no answer.
pub fn build_dns_record(query_name: &str, record: &Record) -> (r: Option<Answer>)
    ensures
        r is Some <==> synthesizable(record.record_type@, record.content@),
        r matches Some(a) ==> {
            &&& a.name@ == query_name@
            &&& a.ttl == record.ttl as u32
            &&& payload_agrees(a.data, record.record_type@, record.content@)
        },
{
    proof {
        reveal_strlit("A");
        reveal_strlit("AAAA");
        reveal_strlit("CNAME");
        assert("A"@.len() == 1 && "AAAA"@.len() == 4 && "CNAME"@.len() == 5);
    }
    let ttl: u32 = #[verifier::truncate] (record.ttl as u32);
    let t = record.record_type.as_str();
    let c = record.content.as_str();
    let data = if text_eq(t, "A") {
        match parse_ipv4(c) {
            Some(ip) => AnswerData::A(ip),
            None => return None,
        }
    } else if text_eq(t, "AAAA") {
        match parse_ipv6(c) {
            Some(ip) => AnswerData::Aaaa(ip),
            None => return None,
        }
    } else if text_eq(t, "CNAME") {
        if parse_name(c).is_ok() {
            AnswerData::Cname(record.content.clone())
        } else {
            return None;
        }
    } else {
        return None;
    };
    Some(Answer { name: query_name.to_string(), ttl, data })
}

} // verus!

//! Validation of a record before it is stored.

use vstd::prelude::*;
use crate::answer::{ipv4_of, ipv6_of, parse_ipv4, parse_ipv6};
use crate::record::CreateRecordRequest;
use crate::text::{contains_char, is_blank, is_blank_text, text_eq};

verus! {

/// Why a record was refused.
#[derive(Debug, Clone, Copy, PartialEq, Eq)]
pub enum ValidationError {
    EmptyDomain,
    UnsupportedType,
    EmptyContent,
    InvalidIpv4,
    InvalidIpv6,
    CnameWithSpace,
    TtlOutOfRange,
}

pub open spec fn is_supported_type(t: Seq<char>) -> bool {
    t == "A"@ || t == "AAAA"@ || t == "CNAME"@
}

/// Whether the content is an address of the record's type; content of an
/// alias record is not an address and passes.
pub open spec fn address_parses(t: Seq<char>, c: Seq<char>) -> bool {
    if t == "A"@ {
        ipv4_of(c) is Some
    } else if t == "AAAA"@ {
        ipv6_of(c) is Some
    } else {
        true
    }
}

/// The verdict on a record with pattern `d`, type `t`, content `c` and time to
/// live `ttl`, given whether its content parses as an address of its type; the
/// checks are made in this order and the first that fails is reported.
pub open spec fn verdict(d: Seq<char>, t: Seq<char>, c: Seq<char>, ttl: i64, address_ok: bool) -> Result<
    (),
    ValidationError,
> {
    if is_blank_text(d) {
        Err(ValidationError::EmptyDomain)
    } else if !is_supported_type(t) {
        Err(ValidationError::UnsupportedType)
    } else if is_blank_text(c) {
        Err(ValidationError::EmptyContent)
    } else if t == "A"@ && !address_ok {
        Err(ValidationError::InvalidIpv4)
    } else if t == "AAAA"@ && !address_ok {
        Err(ValidationError::InvalidIpv6)
    } else if t == "CNAME"@ && c.contains(' ') {
        Err(ValidationError::CnameWithSpace)
    } else if ttl < 1 || ttl > 86400 {
        Err(ValidationError::TtlOutOfRange)
    } else {
        Ok(())
    }
}

pub open spec fn validation(d: Seq<char>, t: Seq<char>, c: Seq<char>, ttl: i64) -> Result<
    (),
    ValidationError,
> {
    verdict(d, t, c, ttl, address_parses(t, c))
}

/// Checks a record to create, given whether its content parses as an address
/// of its type: a pattern that is not blank, a supported type, content that is
/// not blank and fits the type (an address, or an alias target without
/// spaces), and a time to live from 1 to 86400 seconds.
pub fn check_record(req: &CreateRecordRequest, address_ok: bool) -> (r: Result<(), ValidationError>)
    ensures
        r == verdict(req.domain_pattern@, req.record_type@, req.content@, req.ttl, address_ok),
{
    proof {
        reveal_strlit("A");
        reveal_strlit("AAAA");
        reveal_strlit("CNAME");
        assert("A"@.len() == 1 && "AAAA"@.len() == 4 && "CNAME"@.len() == 5);
    }
    let t = req.record_type.as_str();
    let c = req.content.as_str();
    if is_blank(req.domain_pattern.as_str()) {
        return Err(ValidationError::EmptyDomain);
    }
    let is_a = text_eq(t, "A");
    let is_aaaa = text_eq(t, "AAAA");
    let is_cname = text_eq(t, "CNAME");
    if !(is_a || is_aaaa || is_cname) {
        return Err(ValidationError::UnsupportedType);
    }
    if is_blank(c) {
        return Err(ValidationError::EmptyContent);
    }
    if is_a && !address_ok {
        return Err(ValidationError::InvalidIpv4);
    }
    if is_aaaa && !address_ok {
        return Err(ValidationError::InvalidIpv6);
    }
    if is_cname && contains_char(c, ' ') {
        return Err(ValidationError::CnameWithSpace);
    }
    if req.ttl < 1 || req.ttl > 86400 {
        return Err(ValidationError::TtlOutOfRange);
    }
    Ok(())
}

/// Checks a record to create, parsing its content as an IPv4 address for an
/// `A` record and as an IPv6 address for an `AAAA` record.
pub fn validate_record(req: &CreateRecordRequest) -> (r: Result<(), ValidationError>)
    ensures
        r == validation(req.domain_pattern@, req.record_type@, req.content@, req.ttl),
{
    let t = req.record_type.as_str();
    let c = req.content.as_str();
    let address_ok = if text_eq(t, "A") {
        parse_ipv4(c).is_some()
    } else if text_eq(t, "AAAA") {
        parse_ipv6(c).is_some()
    } else {
        true
    };
    check_record(req, address_ok)
}

} // verus!

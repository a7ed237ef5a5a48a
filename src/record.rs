//! Stored records and the matcher that decides whether a record answers a query name.

use vstd::prelude::*;
use vstd::string::*;
use crate::text::contains_char;

verus! {

/// A record of the operator's record set, as the store holds it.
#[derive(Debug)]
pub struct Record {
    pub id: i64,
    /// Literal labels, with `%` standing for any run of characters.
    pub domain_pattern: String,
    /// `A`, `AAAA` or `CNAME`.
    pub record_type: String,
    pub content: String,
    pub ttl: i64,
    /// 1 when the record takes part in matching.
    pub active: i64,
}

impl Clone for Record {
    fn clone(&self) -> (r: Self)
        ensures
            r == *self,
    {
        Record {
            id: self.id,
            domain_pattern: self.domain_pattern.clone(),
            record_type: self.record_type.clone(),
            content: self.content.clone(),
            ttl: self.ttl,
            active: self.active,
        }
    }
}

/// Whether the regex engine accepts `src` as a pattern.
pub uninterp spec fn regex_compiles(src: Seq<char>) -> bool;

/// Whether the compiled pattern `src` finds a match anywhere in `hay`.
pub uninterp spec fn regex_finds(src: Seq<char>, hay: Seq<char>) -> bool;

/// Relies on `regex::Regex::new`, which fails on an invalid pattern or one over
/// the default size limit, and on `Regex::is_match`, which tells whether the
/// pattern matches somewhere in the haystack.
#[verifier::external_body]
fn regex_search(src: &str, hay: &str) -> (r: Option<bool>)
    ensures
        r is Some <==> regex_compiles(src@),
        r matches Some(found) ==> found == regex_finds(src@, hay@),
{
    match regex::Regex::new(src) {
        Ok(re) => Some(re.is_match(hay)),
        Err(_) => None,
    }
}

/// What one character of a domain pattern becomes in the regex: `.` is a
/// literal dot, `%` is any run of characters, anything else stands for itself.
pub open spec fn regex_piece(c: char) -> Seq<char> {
    if c == '.' {
        seq!['\\', '.']
    } else if c == '%' {
        seq!['.', '*']
    } else {
        seq![c]
    }
}

pub open spec fn regex_body(p: Seq<char>) -> Seq<char>
    decreases p.len(),
{
    if p.len() == 0 {
        Seq::empty()
    } else {
        regex_body(p.drop_last()) + regex_piece(p.last())
    }
}

/// The regex a domain pattern compiles to, anchored at both ends.
pub open spec fn anchored_regex(p: Seq<char>) -> Seq<char> {
    seq!['^'] + regex_body(p) + seq!['$']
}

/// Whether the domain pattern accepts the query name; a pattern that does not
/// compile accepts nothing.
pub open spec fn pattern_accepts(p: Seq<char>, q: Seq<char>) -> bool {
    regex_compiles(anchored_regex(p)) && regex_finds(anchored_regex(p), q)
}

pub open spec fn record_active(r: Record) -> bool {
    r.active == 1
}

/// A pattern without `%` names one domain exactly.
pub open spec fn is_exact_pattern(p: Seq<char>) -> bool {
    !p.contains('%')
}

pub open spec fn record_matches(r: Record, q: Seq<char>) -> bool {
    record_active(r) && pattern_accepts(r.domain_pattern@, q)
}

/// Builds the anchored regex of a domain pattern.
pub fn pattern_regex(p: &str) -> (r: String)
    ensures
        r@ == anchored_regex(p@),
{
    let n = p.unicode_len();
    let mut out = String::new();
    out.append("^");
    proof {
        reveal_strlit("^");
    }
    let mut i: usize = 0;
    while i < n
        invariant
            n == p@.len(),
            i <= n,
            out@ == seq!['^'] + regex_body(p@.subrange(0, i as int)),
        decreases n - i,
    {
        let c = p.get_char(i);
        if c == '.' {
            out.append("\\.");
            proof {
                reveal_strlit("\\.");
            }
        } else if c == '%' {
            out.append(".*");
            proof {
                reveal_strlit(".*");
            }
        } else {
            out.append(p.substring_char(i, i + 1));
        }
        proof {
            let next = p@.subrange(0, i + 1);
            assert(next.drop_last() =~= p@.subrange(0, i as int));
            assert(next.last() == c);
            assert(p@.subrange(i as int, i + 1) =~= seq![c]);
            assert(out@ =~= seq!['^'] + regex_body(next));
        }
        i = i + 1;
    }
    out.append("$");
    proof {
        reveal_strlit("$");
        assert(p@.subrange(0, n as int) =~= p@);
        assert(out@ =~= anchored_regex(p@));
    }
    out
}

impl Record {
    /// Whether the record takes part in matching.
    pub fn is_active(&self) -> (r: bool)
        ensures
            r == record_active(*self),
    {
        self.active == 1
    }

    /// Whether the record's pattern holds no wildcard.
    pub fn is_exact_match(&self) -> (r: bool)
        ensures
            r == is_exact_pattern(self.domain_pattern@),
    {
        !contains_char(self.domain_pattern.as_str(), '%')
    }

    /// Whether the record answers `query_name`: it is active and its pattern,
    /// compiled to an anchored regex, matches the whole name.
    pub fn matches(&self, query_name: &str) -> (r: bool)
        ensures
            r == record_matches(*self, query_name@),
    {
        if !self.is_active() {
            return false;
        }
        let re = pattern_regex(self.domain_pattern.as_str());
        match regex_search(re.as_str(), query_name) {
            Some(found) => found,
            None => false,
        }
    }
}

/// The time to live a new record gets when none is given.
pub fn default_ttl() -> (r: i64)
    ensures
        r == 60,
{
    60
}

/// A logged query, as the store returns it.
#[derive(Debug, Clone)]
pub struct QueryLog {
    pub id: i64,
    pub query_name: String,
    pub q_type: String,
    pub result_type: String,
    pub duration_ms: i64,
    pub timestamp: String,
}

/// A query log entry ready to be stored.
#[derive(Debug, Clone)]
pub struct NewQueryLog {
    pub query_name: String,
    pub q_type: String,
    pub result_type: String,
    pub duration_ms: i64,
}

/// A key-value setting of the store.
#[derive(Debug, Clone)]
pub struct Setting {
    pub key: String,
    pub value: String,
}

/// The fields of a record to create.
#[derive(Debug, Clone)]
pub struct CreateRecordRequest {
    pub domain_pattern: String,
    pub record_type: String,
    pub content: String,
    pub ttl: i64,
}

/// The fields of a record to change; `None` leaves a field as it is.
#[derive(Debug, Clone)]
pub struct UpdateRecordRequest {
    pub domain_pattern: Option<String>,
    pub record_type: Option<String>,
    pub content: Option<String>,
    pub ttl: Option<i64>,
    pub active: Option<i64>,
}

/// The new value of a setting.
#[derive(Debug, Clone)]
pub struct UpdateSettingRequest {
    pub value: String,
}

pub open spec fn updated<T>(field: Option<T>, current: T) -> T {
    match field {
        Some(v) => v,
        None => current,
    }
}

/// The record after an update: each field the request gives replaces the
/// stored one, the others and the id stay.
pub fn apply_update(record: Record, req: UpdateRecordRequest) -> (r: Record)
    ensures
        r.id == record.id,
        r.domain_pattern == updated(req.domain_pattern, record.domain_pattern),
        r.record_type == updated(req.record_type, record.record_type),
        r.content == updated(req.content, record.content),
        r.ttl == updated(req.ttl, record.ttl),
        r.active == updated(req.active, record.active),
{
    let mut out = record;
    if let Some(domain_pattern) = req.domain_pattern {
        out.domain_pattern = domain_pattern;
    }
    if let Some(record_type) = req.record_type {
        out.record_type = record_type;
    }
    if let Some(content) = req.content {
        out.content = content;
    }
    if let Some(ttl) = req.ttl {
        out.ttl = ttl;
    }
    if let Some(active) = req.active {
        out.active = active;
    }
    out
}

} // verus!

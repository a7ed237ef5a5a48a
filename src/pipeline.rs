//! The per-query decision pipeline: normalize the name, look the query up in
//! the cache, fall back to the upstream resolver, classify the outcome and
//! describe the response and the log event. The caller performs the upstream
//! exchange and the sending; every decision is taken here.

use vstd::prelude::*;
use vstd::string::*;
use crate::answer::{Answer, build_dns_record, synthesizable, payload_agrees};
use crate::cache::{RecordCache, selected_record};
use crate::logger::QueryLogMessage;

verus! {

/// How a query was answered.
#[derive(Debug, Clone, Copy, PartialEq, Eq)]
pub enum ResultClass {
    Local,
    Forwarded,
    Error,
}

impl ResultClass {
    pub open spec fn spec_text(self) -> Seq<char> {
        match self {
            ResultClass::Local => "LOCAL"@,
            ResultClass::Forwarded => "FORWARDED"@,
            ResultClass::Error => "ERROR"@,
        }
    }

    /// The name under which the class is logged.
    pub fn as_str(&self) -> (r: &'static str)
        ensures
            r@ == self.spec_text(),
    {
        match self {
            ResultClass::Local => "LOCAL",
            ResultClass::Forwarded => "FORWARDED",
            ResultClass::Error => "ERROR",
        }
    }
}

/// The response codes the resolver sends.
#[derive(Debug, Clone, Copy, PartialEq, Eq)]
pub enum ResponseCode {
    NoError,
    NxDomain,
    NotImp,
    ServFail,
}

/// Requests that are not standard queries are refused with "not implemented"
/// and never enter the pipeline.
pub fn refusal_code(is_standard_query: bool) -> (r: Option<ResponseCode>)
    ensures
        r == if is_standard_query {
            None
        } else {
            Some(ResponseCode::NotImp)
        },
{
    if is_standard_query {
        None
    } else {
        Some(ResponseCode::NotImp)
    }
}

/// The name with one trailing root-label separator removed.
pub open spec fn strip_root(s: Seq<char>) -> Seq<char> {
    if s.len() > 0 && s.last() == '.' {
        s.drop_last()
    } else {
        s
    }
}

/// Removes exactly one trailing `.` from a fully qualified name.
pub fn normalize_query_name(raw: &str) -> (r: String)
    ensures
        r@ == strip_root(raw@),
{
    let n = raw.unicode_len();
    if n > 0 && raw.get_char(n - 1) == '.' {
        let s = raw.substring_char(0, n - 1);
        proof {
            assert(s@ =~= raw@.drop_last());
        }
        s.to_string()
    } else {
        raw.to_string()
    }
}

/// The answers a query gets.
pub enum Resolution<T> {
    /// An answer synthesized from a cached record.
    Local(Answer),
    /// The upstream answer records, never empty.
    Forwarded(Vec<T>),
    /// No answer.
    Unanswered,
}

impl<T> Resolution<T> {
    pub open spec fn spec_class(&self) -> ResultClass {
        match self {
            Resolution::Local(_) => ResultClass::Local,
            Resolution::Forwarded(_) => ResultClass::Forwarded,
            Resolution::Unanswered => ResultClass::Error,
        }
    }

    pub open spec fn spec_answer_count(&self) -> nat {
        match self {
            Resolution::Local(_) => 1,
            Resolution::Forwarded(v) => v@.len(),
            Resolution::Unanswered => 0,
        }
    }

    /// The class logged for the query.
    pub fn class(&self) -> (r: ResultClass)
        ensures
            r == self.spec_class(),
    {
        match self {
            Resolution::Local(_) => ResultClass::Local,
            Resolution::Forwarded(_) => ResultClass::Forwarded,
            Resolution::Unanswered => ResultClass::Error,
        }
    }

    /// The number of answer records sent.
    pub fn answer_count(&self) -> (r: usize)
        ensures
            r == self.spec_answer_count(),
    {
        match self {
            Resolution::Local(_) => 1,
            Resolution::Forwarded(v) => v.len(),
            Resolution::Unanswered => 0,
        }
    }

    /// `NXDOMAIN` when there is no answer, `NOERROR` otherwise.
    pub fn response_code(&self) -> (r: ResponseCode)
        ensures
            r == if self.spec_answer_count() == 0 {
                ResponseCode::NxDomain
            } else {
                ResponseCode::NoError
            },
    {
        if self.answer_count() == 0 {
            ResponseCode::NxDomain
        } else {
            ResponseCode::NoError
        }
    }
}

/// The step after the cache lookup.
pub enum LookupStep<T> {
    /// Ask the upstream resolver, then hand its outcome to `forwarded`.
    Forward,
    /// Respond with this resolution.
    Respond(Resolution<T>),
}

/// A query in the pipeline, once its name has been normalized.
pub struct QueryPipeline {
    /// The name as the request wrote it; answers carry it.
    pub raw_name: String,
    /// The name without its trailing root separator; lookups and logs use it.
    pub query_name: String,
    /// The requested type, as text.
    pub query_type: String,
}

impl QueryPipeline {
    /// Takes the name and type extracted from a request.
    pub fn received(raw_name: &str, query_type: &str) -> (r: QueryPipeline)
        ensures
            r.raw_name@ == raw_name@,
            r.query_name@ == strip_root(raw_name@),
            r.query_type@ == query_type@,
    {
        QueryPipeline {
            raw_name: raw_name.to_string(),
            query_name: normalize_query_name(raw_name),
            query_type: query_type.to_string(),
        }
    }

    /// The cache lookup: a hit whose record yields an answer is answered
    /// locally; a miss, or a hit whose content does not parse, goes upstream
    /// when an upstream is configured and is otherwise left unanswered.
    pub fn lookup<T>(&self, cache: &RecordCache, upstream_configured: bool) -> (r: LookupStep<T>)
        ensures
            match selected_record(cache@, self.query_name@, self.query_type@) {
                Some(rec) if synthesizable(rec.record_type@, rec.content@) => r matches LookupStep::Respond(
                    Resolution::Local(a),
                ) && a.name@ == self.raw_name@ && a.ttl == rec.ttl as u32 && payload_agrees(
                    a.data,
                    rec.record_type@,
                    rec.content@,
                ),
                _ => if upstream_configured {
                    r is Forward
                } else {
                    r matches LookupStep::Respond(Resolution::Unanswered)
                },
            },
    {
        let hit = cache.find_matching_record(self.query_name.as_str(), self.query_type.as_str());
        if let Some(record) = hit {
            if let Some(answer) = build_dns_record(self.raw_name.as_str(), &record) {
                return LookupStep::Respond(Resolution::Local(answer));
            }
        }
        if upstream_configured {
            LookupStep::Forward
        } else {
            LookupStep::Respond(Resolution::Unanswered)
        }
    }

    /// Classifies the upstream outcome: a non-empty answer set is forwarded;
    /// an empty one or a failure leaves the query unanswered.
    pub fn forwarded<T, E>(&self, outcome: Result<Vec<T>, E>) -> (r: Resolution<T>)
        ensures
            match outcome {
                Ok(v) => if v@.len() > 0 {
                    r == Resolution::Forwarded(v)
                } else {
                    r is Unanswered
                },
                Err(_) => r is Unanswered,
            },
    {
        match outcome {
            Ok(v) => if v.len() > 0 {
                Resolution::Forwarded(v)
            } else {
                Resolution::Unanswered
            },
            Err(_) => Resolution::Unanswered,
        }
    }

    /// The one log event of the query.
    pub fn log_event<T>(&self, resolution: &Resolution<T>, duration_ms: i64) -> (r: QueryLogMessage)
        ensures
            r.query_name@ == self.query_name@,
            r.q_type@ == self.query_type@,
            r.result_type@ == resolution.spec_class().spec_text(),
            r.duration_ms == duration_ms,
    {
        let class = resolution.class();
        QueryLogMessage {
            query_name: self.query_name.clone(),
            q_type: self.query_type.clone(),
            result_type: class.as_str().to_string(),
            duration_ms,
        }
    }
}

} // verus!

//! Log events and the decisions of the background log tasks.

use vstd::prelude::*;
use crate::record::NewQueryLog;

verus! {

/// One resolved query, as handed to the log pipeline.
#[derive(Debug, Clone)]
pub struct QueryLogMessage {
    pub query_name: String,
    pub q_type: String,
    pub result_type: String,
    pub duration_ms: i64,
}

/// The store entry for a log event, field for field.
pub fn to_new_query_log(message: QueryLogMessage) -> (r: NewQueryLog)
    ensures
        r.query_name == message.query_name,
        r.q_type == message.q_type,
        r.result_type == message.result_type,
        r.duration_ms == message.duration_ms,
{
    NewQueryLog {
        query_name: message.query_name,
        q_type: message.q_type,
        result_type: message.result_type,
        duration_ms: message.duration_ms,
    }
}

} // verus!

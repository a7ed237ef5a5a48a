//! The upstream side: which queries may be forwarded, the configured pair of
//! upstream endpoints, the query message and its reply, and the
//! primary-then-secondary failover.

use vstd::prelude::*;
use core::str::FromStr;
use hickory_proto::op::{Message, MessageType, OpCode, Query};
use hickory_proto::rr::RecordType;
use crate::text::text_eq;

verus! {

/// hickory's domain name, carried through opaque.
#[verifier::external_type_specification]
#[verifier::external_body]
pub struct ExName(hickory_proto::rr::Name);

/// hickory's protocol error, mapped to `UpstreamError` where it occurs.
#[verifier::external_type_specification]
#[verifier::external_body]
pub struct ExProtoError(hickory_proto::ProtoError);

/// hickory's DNS message, carried through opaque.
#[verifier::external_type_specification]
#[verifier::external_body]
pub struct ExMessage(hickory_proto::op::Message);

/// Whether the text is a domain name that hickory accepts.
pub uninterp spec fn is_dns_name(s: Seq<char>) -> bool;

/// The endpoint that `ip:port` text denotes, if it is a socket address.
pub uninterp spec fn socket_addr_of(s: Seq<char>) -> Option<UpstreamAddr>;

/// Whether the bytes decode as a DNS message.
pub uninterp spec fn is_dns_message(b: Seq<u8>) -> bool;

/// Relies on hickory's `Name::from_str`, which reads text as a domain name.
#[verifier::external_body]
pub(crate) fn parse_name(s: &str) -> (r: Result<hickory_proto::rr::Name, hickory_proto::ProtoError>)
    ensures
        r is Ok <==> is_dns_name(s@),
{
    hickory_proto::rr::Name::from_str(s)
}

/// Relies on `SocketAddr::from_str` (core's address parser), with the parsed
/// address and port moved into plain values.
#[verifier::external_body]
fn parse_socket_addr(s: &str) -> (r: Option<UpstreamAddr>)
    ensures
        r == socket_addr_of(s@),
{
    match core::net::SocketAddr::from_str(s) {
        Ok(core::net::SocketAddr::V4(a)) => Some(UpstreamAddr { ip: HostIp::V4(u32::from(*a.ip())), port: a.port() }),
        Ok(core::net::SocketAddr::V6(a)) => Some(UpstreamAddr {
            ip: HostIp::V6 { ip: u128::from(*a.ip()), scope_id: a.scope_id() },
            port: a.port(),
        }),
        Err(_) => None,
    }
}

/// Relies on rand's `random`, which draws a value from the thread-local
/// generator; nothing is known of the value.
pub assume_specification<T>[ rand::random::<T> ]() -> (r: T)
    where
        rand::distr::StandardUniform: rand::distr::Distribution<T>,
;

/// The type field of a question of the given kind, in network byte order.
pub open spec fn qtype_bytes(kind: QueryKind) -> Seq<u8> {
    match kind {
        QueryKind::A => seq![0u8, 1],
        QueryKind::Aaaa => seq![0u8, 28],
        QueryKind::Cname => seq![0u8, 5],
    }
}

/// The bytes of a query message with one question of the given kind, apart
/// from its id and the encoded name: after the two id bytes, a header with
/// opcode Query and recursion desired and counts of one question and no
/// other records; at the end, the question's type and class IN.
pub open spec fn is_query_encoding(b: Seq<u8>, kind: QueryKind) -> bool {
    &&& b.len() >= 16
    &&& b.subrange(2, 12) == seq![0x01u8, 0, 0, 1, 0, 0, 0, 0, 0, 0]
    &&& b.subrange(b.len() - 4, b.len() as int) == qtype_bytes(kind) + seq![0u8, 1]
}

/// Relies on hickory's `Message` builder and `Message::to_vec`: a message
/// without EDNS whose 12-byte header comes first (the id in network byte
/// order, then flags with opcode Query and recursion desired, then the four
/// counts) and whose one question follows (name, type, class IN). A `Name`
/// is bounded in length when it is built, so the encoding does not fail.
#[verifier::external_body]
fn encode_query(id: u16, name: &hickory_proto::rr::Name, kind: QueryKind) -> (r: Result<
    Vec<u8>,
    hickory_proto::ProtoError,
>)
    ensures
        r is Ok,
        r matches Ok(b) ==> b@.len() >= 12 && b@[0] == (id / 256) as u8 && b@[1] == (id % 256) as u8,
        r matches Ok(b) ==> is_query_encoding(b@, kind),
{
    let rtype = match kind {
        QueryKind::A => RecordType::A,
        QueryKind::Aaaa => RecordType::AAAA,
        QueryKind::Cname => RecordType::CNAME,
    };
    let mut message = Message::new();
    message.set_id(id).set_message_type(MessageType::Query).set_op_code(OpCode::Query);
    message.set_recursion_desired(true).add_query(Query::query(name.clone(), rtype));
    message.to_vec()
}

/// Relies on hickory's `Message::from_vec`, which decodes a DNS message.
#[verifier::external_body]
fn decode_message(b: &[u8]) -> (r: Result<Message, hickory_proto::ProtoError>)
    ensures
        r is Ok <==> is_dns_message(b@),
{
    Message::from_vec(b)
}

/// The record types that may be asked of an upstream resolver.
#[derive(Debug, Clone, Copy, PartialEq, Eq)]
pub enum QueryKind {
    A,
    Aaaa,
    Cname,
}

pub open spec fn query_kind_of(t: Seq<char>) -> Option<QueryKind> {
    if t == "A"@ {
        Some(QueryKind::A)
    } else if t == "AAAA"@ {
        Some(QueryKind::Aaaa)
    } else if t == "CNAME"@ {
        Some(QueryKind::Cname)
    } else {
        None
    }
}

/// The kind of a query type written as text; `None` for a type that is not forwarded.
pub fn query_kind(t: &str) -> (r: Option<QueryKind>)
    ensures
        r == query_kind_of(t@),
{
    if text_eq(t, "A") {
        Some(QueryKind::A)
    } else if text_eq(t, "AAAA") {
        Some(QueryKind::Aaaa)
    } else if text_eq(t, "CNAME") {
        Some(QueryKind::Cname)
    } else {
        None
    }
}

/// How an upstream query failed.
#[derive(Debug, Clone, Copy, PartialEq, Eq)]
pub enum UpstreamError {
    /// The query name is not a domain name.
    InvalidName,
    /// Sending or receiving failed.
    Transport,
    /// No reply came within the timeout.
    Timeout,
    /// The reply is not a DNS message.
    Decode,
}

/// What a query asks of the upstream endpoints.
pub enum QueryPlan {
    /// A type that is not forwarded: the result is empty and nothing is sent.
    Unsupported,
    /// Send a question for this name and kind.
    Ready { name: hickory_proto::rr::Name, kind: QueryKind },
}

/// Prepares an upstream query: an unsupported type is answered with nothing
/// before any network activity; otherwise the name must parse.
pub fn plan_query(query_name: &str, record_type: &str) -> (r: Result<QueryPlan, UpstreamError>)
    ensures
        query_kind_of(record_type@) is None ==> r matches Ok(QueryPlan::Unsupported),
        query_kind_of(record_type@) matches Some(k) ==> {
            &&& (r is Ok <==> is_dns_name(query_name@))
            &&& r matches Ok(QueryPlan::Ready { kind, .. }) ==> kind == k
            &&& r matches Err(e) ==> e == UpstreamError::InvalidName
            &&& !(r matches Ok(QueryPlan::Unsupported))
        },
{
    match query_kind(record_type) {
        None => Ok(QueryPlan::Unsupported),
        Some(kind) => match parse_name(query_name) {
            Ok(name) => Ok(QueryPlan::Ready { name, kind }),
            Err(_) => Err(UpstreamError::InvalidName),
        },
    }
}

/// The bytes of a query message for `name` and `kind`, under a fresh random
/// transaction id: one question of that kind, opcode Query, recursion desired.
pub fn request_bytes(name: &hickory_proto::rr::Name, kind: QueryKind) -> (r: Vec<u8>)
    ensures
        is_query_encoding(r@, kind),
{
    let id: u16 = rand::random::<u16>();
    match encode_query(id, name, kind) {
        Ok(b) => b,
        Err(_) => {
            proof {
                assert(false);
            }
            Vec::new()
        },
    }
}

/// The decoded reply; bytes that are not a DNS message are a decode failure.
pub fn read_reply(reply: &[u8]) -> (r: Result<Message, UpstreamError>)
    ensures
        r is Ok <==> is_dns_message(reply@),
        r matches Err(e) ==> e == UpstreamError::Decode,
{
    match decode_message(reply) {
        Ok(m) => Ok(m),
        Err(_) => Err(UpstreamError::Decode),
    }
}

/// Why an upstream configuration was refused.
#[derive(Debug, Clone, Copy, PartialEq, Eq)]
pub enum ConfigError {
    InvalidPrimary,
    InvalidSecondary,
}

/// The address of an upstream host.
#[derive(Debug, Clone, Copy, PartialEq, Eq)]
pub enum HostIp {
    /// An IPv4 address, big-endian.
    V4(u32),
    /// An IPv6 address, big-endian, with its scope id.
    V6 { ip: u128, scope_id: u32 },
}

/// An upstream endpoint: host address and port.
#[derive(Debug, Clone, Copy, PartialEq, Eq)]
pub struct UpstreamAddr {
    pub ip: HostIp,
    pub port: u16,
}

/// The two upstream endpoints and the time to wait for each reply.
#[derive(Debug, Clone, Copy, PartialEq, Eq)]
pub struct UpstreamConfig {
    pub primary: UpstreamAddr,
    pub secondary: UpstreamAddr,
    pub timeout_ms: u64,
}

impl UpstreamConfig {
    /// Reads the two endpoints as `ip:port` addresses, the primary first.
    pub fn new(primary: &str, secondary: &str, timeout_ms: u64) -> (r: Result<Self, ConfigError>)
        ensures
            r is Ok <==> socket_addr_of(primary@) is Some && socket_addr_of(secondary@) is Some,
            r matches Ok(c) ==> {
                &&& socket_addr_of(primary@) == Some(c.primary)
                &&& socket_addr_of(secondary@) == Some(c.secondary)
                &&& c.timeout_ms == timeout_ms
            },
            r matches Err(e) ==> (e == ConfigError::InvalidPrimary <==> socket_addr_of(
                primary@,
            ) is None),
    {
        let primary = match parse_socket_addr(primary) {
            Some(a) => a,
            None => return Err(ConfigError::InvalidPrimary),
        };
        let secondary = match parse_socket_addr(secondary) {
            Some(a) => a,
            None => return Err(ConfigError::InvalidSecondary),
        };
        Ok(UpstreamConfig { primary, secondary, timeout_ms })
    }
}

/// One of the two configured upstream endpoints.
#[derive(Debug, Clone, Copy, PartialEq, Eq)]
pub enum Endpoint {
    Primary,
    Secondary,
}

/// Where a failover resolution stands.
#[derive(Debug, Clone, Copy, PartialEq, Eq)]
pub enum FailoverState {
    AwaitingPrimary,
    AwaitingSecondary,
    Finished,
}

/// What to do next in a failover resolution.
pub enum FailoverAction<T> {
    /// Query this endpoint and hand its outcome back.
    Query(Endpoint),
    /// The resolution is over with this result.
    Deliver(Result<Vec<T>, UpstreamError>),
}

/// The step a failover resolution takes on the outcome of the attempt it awaits:
/// a primary success, empty or not, is delivered; a primary failure moves on to
/// the secondary; the secondary's outcome is delivered whatever it is.
pub open spec fn failover_next<T>(state: FailoverState, outcome: Result<Vec<T>, UpstreamError>) -> (
    FailoverState,
    FailoverAction<T>,
) {
    match state {
        FailoverState::AwaitingPrimary => if outcome is Ok {
            (FailoverState::Finished, FailoverAction::Deliver(outcome))
        } else {
            (FailoverState::AwaitingSecondary, FailoverAction::Query(Endpoint::Secondary))
        },
        _ => (FailoverState::Finished, FailoverAction::Deliver(outcome)),
    }
}

impl FailoverState {
    /// The start of a resolution: the primary is asked first.
    pub fn start() -> (r: (FailoverState, Endpoint))
        ensures
            r == (FailoverState::AwaitingPrimary, Endpoint::Primary),
    {
        (FailoverState::AwaitingPrimary, Endpoint::Primary)
    }

    /// Takes the outcome of the attempt this state awaits.
    pub fn step<T>(self, outcome: Result<Vec<T>, UpstreamError>) -> (r: (
        FailoverState,
        FailoverAction<T>,
    ))
        requires
            self != FailoverState::Finished,
        ensures
            r == failover_next(self, outcome),
    {
        match self {
            FailoverState::AwaitingPrimary => match outcome {
                Ok(v) => (FailoverState::Finished, FailoverAction::Deliver(Ok(v))),
                Err(_) => (FailoverState::AwaitingSecondary, FailoverAction::Query(Endpoint::Secondary)),
            },
            _ => (FailoverState::Finished, FailoverAction::Deliver(outcome)),
        }
    }
}

/// The result of a resolution whose primary attempt gave `primary` and whose
/// secondary attempt, if it is made, gives `secondary`.
pub open spec fn resolution<T>(
    primary: Result<Vec<T>, UpstreamError>,
    secondary: Result<Vec<T>, UpstreamError>,
) -> Result<Vec<T>, UpstreamError> {
    match failover_next(FailoverState::AwaitingPrimary, primary) {
        (_, FailoverAction::Deliver(r)) => r,
        (s, FailoverAction::Query(_)) => match failover_next(s, secondary) {
            (_, FailoverAction::Deliver(r)) => r,
            (_, FailoverAction::Query(_)) => secondary,
        },
    }
}

/// Failover: a primary success is returned as it is, also when it holds no
/// answers, and the secondary is not asked; after a primary failure the
/// secondary is asked, and its answers or its failure (not the primary's) are
/// returned. No more than the two endpoints are ever asked.
pub proof fn lemma_failover<T>(
    primary: Result<Vec<T>, UpstreamError>,
    secondary: Result<Vec<T>, UpstreamError>,
)
    ensures
        primary is Ok ==> failover_next(FailoverState::AwaitingPrimary, primary) == (
            FailoverState::Finished,
            FailoverAction::Deliver(primary),
        ),
        primary is Err ==> failover_next(FailoverState::AwaitingPrimary, primary) == (
            FailoverState::AwaitingSecondary,
            FailoverAction::<T>::Query(Endpoint::Secondary),
        ),
        failover_next(FailoverState::AwaitingSecondary, secondary).0 == FailoverState::Finished,
        failover_next(FailoverState::AwaitingSecondary, secondary).1 is Deliver,
        resolution(primary, secondary) == if primary is Ok {
            primary
        } else {
            secondary
        },
{
}

} // verus!

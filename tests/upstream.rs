use local_dns_pro::upstream::{
    plan_query, query_kind, read_reply, request_bytes, ConfigError, Endpoint, FailoverAction,
    FailoverState, HostIp, QueryKind, QueryPlan, UpstreamAddr, UpstreamConfig, UpstreamError,
};
use std::time::Duration;

#[test]
fn test_upstream_config_new() {
    let config = UpstreamConfig::new("8.8.8.8:53", "1.1.1.1:53", 2000).unwrap();
    assert_eq!(config.primary, UpstreamAddr { ip: HostIp::V4(0x0808_0808), port: 53 });
    assert_eq!(config.secondary, UpstreamAddr { ip: HostIp::V4(0x0101_0101), port: 53 });
    assert_eq!(Duration::from_millis(config.timeout_ms), Duration::from_millis(2000));
}

#[test]
fn test_upstream_config_invalid_address() {
    let result = UpstreamConfig::new("invalid", "1.1.1.1:53", 2000);
    assert!(result.is_err());
}

#[test]
fn config_names_the_bad_endpoint() {
    assert_eq!(UpstreamConfig::new("invalid", "1.1.1.1:53", 2000).unwrap_err(), ConfigError::InvalidPrimary);
    assert_eq!(UpstreamConfig::new("8.8.8.8:53", "1.1.1.1", 2000).unwrap_err(), ConfigError::InvalidSecondary);
    assert_eq!(UpstreamConfig::new("bad", "worse", 2000).unwrap_err(), ConfigError::InvalidPrimary);
    let v6 = UpstreamConfig::new("[::1]:5353", "127.0.0.1:53", 10).unwrap();
    assert_eq!(v6.primary, UpstreamAddr { ip: HostIp::V6 { ip: 1, scope_id: 0 }, port: 5353 });
    assert_eq!(v6.timeout_ms, 10);
}

#[test]
fn query_kinds() {
    assert_eq!(query_kind("A"), Some(QueryKind::A));
    assert_eq!(query_kind("AAAA"), Some(QueryKind::Aaaa));
    assert_eq!(query_kind("CNAME"), Some(QueryKind::Cname));
    assert_eq!(query_kind("MX"), None);
    assert_eq!(query_kind("a"), None);
}

#[test]
fn unsupported_type_is_not_sent() {
    assert!(matches!(plan_query("google.com", "MX"), Ok(QueryPlan::Unsupported)));
    assert!(matches!(plan_query("not a name..", "TXT"), Ok(QueryPlan::Unsupported)));
}

#[test]
fn supported_type_needs_a_name() {
    match plan_query("google.com", "AAAA") {
        Ok(QueryPlan::Ready { kind, .. }) => assert_eq!(kind, QueryKind::Aaaa),
        _ => panic!("expected a ready query"),
    }
    let long_label = format!("{}.test", "a".repeat(64));
    assert!(matches!(plan_query(&long_label, "A"), Err(UpstreamError::InvalidName)));
}

#[test]
fn request_round_trips_through_the_decoder() {
    let (name, kind) = match plan_query("google.com", "A") {
        Ok(QueryPlan::Ready { name, kind }) => (name, kind),
        _ => panic!("expected a ready query"),
    };
    let bytes = request_bytes(&name, kind);
    assert!(bytes.len() > 12);
    assert_eq!(&bytes[2..12], &[0x01, 0, 0, 1, 0, 0, 0, 0, 0, 0]);
    assert_eq!(&bytes[bytes.len() - 4..], &[0, 1, 0, 1]);
    let message = read_reply(&bytes).unwrap();
    assert_eq!(message.queries().len(), 1);
    assert_eq!(message.queries()[0].name().to_string(), "google.com.");
    assert!(message.recursion_desired());
    assert_eq!(message.id().to_be_bytes(), [bytes[0], bytes[1]]);
}

#[test]
fn garbage_reply_is_a_decode_failure() {
    assert_eq!(read_reply(&[1, 2, 3]).unwrap_err(), UpstreamError::Decode);
    assert_eq!(read_reply(&[]).unwrap_err(), UpstreamError::Decode);
}

fn run(primary: Result<Vec<u8>, UpstreamError>, secondary: Result<Vec<u8>, UpstreamError>) -> (Vec<Endpoint>, Result<Vec<u8>, UpstreamError>) {
    let (mut state, first) = FailoverState::start();
    let mut asked = vec![first];
    let mut outcomes = vec![primary, secondary].into_iter();
    loop {
        let (next, action) = state.step(outcomes.next().unwrap());
        state = next;
        match action {
            FailoverAction::Query(endpoint) => asked.push(endpoint),
            FailoverAction::Deliver(result) => return (asked, result),
        }
    }
}

#[test]
fn primary_success_is_returned() {
    let (asked, result) = run(Ok(vec![1]), Ok(vec![2]));
    assert_eq!(asked, vec![Endpoint::Primary]);
    assert_eq!(result, Ok(vec![1]));
}

#[test]
fn empty_primary_success_does_not_escalate() {
    let (asked, result) = run(Ok(vec![]), Ok(vec![2]));
    assert_eq!(asked, vec![Endpoint::Primary]);
    assert_eq!(result, Ok(vec![]));
}

#[test]
fn primary_failure_goes_to_secondary() {
    let (asked, result) = run(Err(UpstreamError::Timeout), Ok(vec![7, 8]));
    assert_eq!(asked, vec![Endpoint::Primary, Endpoint::Secondary]);
    assert_eq!(result, Ok(vec![7, 8]));
}

#[test]
fn both_failing_returns_secondary_failure() {
    let (asked, result) = run(Err(UpstreamError::Timeout), Err(UpstreamError::Transport));
    assert_eq!(asked, vec![Endpoint::Primary, Endpoint::Secondary]);
    assert_eq!(result, Err(UpstreamError::Transport));
}

#[test]
fn request_carries_the_question_type() {
    for (t, code) in [("AAAA", 28u8), ("CNAME", 5u8)] {
        let (name, kind) = match plan_query("example.test", t) {
            Ok(QueryPlan::Ready { name, kind }) => (name, kind),
            _ => panic!("expected a ready query"),
        };
        let bytes = request_bytes(&name, kind);
        assert_eq!(&bytes[bytes.len() - 4..], &[0, code, 0, 1]);
        let message = read_reply(&bytes).unwrap();
        assert_eq!(u16::from(message.queries()[0].query_type()), code as u16);
    }
}

use local_dns_pro::answer::AnswerData;
use local_dns_pro::cache::RecordCache;
use local_dns_pro::logger::to_new_query_log;
use local_dns_pro::pipeline::{
    normalize_query_name, refusal_code, LookupStep, QueryPipeline, Resolution, ResponseCode,
    ResultClass,
};
use local_dns_pro::record::Record;

fn cache_with(records: Vec<Record>) -> RecordCache {
    match RecordCache::new::<()>(Ok(records)) {
        Ok(c) => c,
        Err(_) => panic!("initial load failed"),
    }
}

fn app_record(record_type: &str, content: &str) -> Record {
    Record {
        id: 1,
        domain_pattern: "app.local.test".to_string(),
        record_type: record_type.to_string(),
        content: content.to_string(),
        ttl: 60,
        active: 1,
    }
}

#[test]
fn end_to_end_local_answer() {
    let cache = cache_with(vec![app_record("A", "127.0.0.1")]);
    let query = QueryPipeline::received("app.local.test.", "A");
    assert_eq!(query.query_name, "app.local.test");
    match query.lookup::<()>(&cache, false) {
        LookupStep::Respond(resolution) => {
            assert_eq!(resolution.class(), ResultClass::Local);
            assert_eq!(resolution.class().as_str(), "LOCAL");
            assert_eq!(resolution.response_code(), ResponseCode::NoError);
            match resolution {
                Resolution::Local(answer) => {
                    assert_eq!(answer.ttl, 60);
                    match answer.data {
                        AnswerData::A(ip) => assert_eq!(core::net::Ipv4Addr::from(ip).to_string(), "127.0.0.1"),
                        _ => panic!("Expected A record"),
                    }
                }
                _ => panic!("expected a local answer"),
            }
        }
        LookupStep::Forward => panic!("expected a local answer"),
    }
}

#[test]
fn end_to_end_miss_without_upstream() {
    let cache = cache_with(vec![app_record("A", "127.0.0.1")]);
    let query = QueryPipeline::received("app.local.test.", "AAAA");
    match query.lookup::<()>(&cache, false) {
        LookupStep::Respond(resolution) => {
            assert!(matches!(resolution, Resolution::Unanswered));
            assert_eq!(resolution.class(), ResultClass::Error);
            assert_eq!(resolution.answer_count(), 0);
            assert_eq!(resolution.response_code(), ResponseCode::NxDomain);
            let event = query.log_event(&resolution, 3);
            assert_eq!(event.query_name, "app.local.test");
            assert_eq!(event.q_type, "AAAA");
            assert_eq!(event.result_type, "ERROR");
            assert_eq!(event.duration_ms, 3);
        }
        LookupStep::Forward => panic!("no upstream is configured"),
    }
}

#[test]
fn miss_with_upstream_goes_forward() {
    let cache = cache_with(vec![app_record("A", "127.0.0.1")]);
    let query = QueryPipeline::received("other.local.test.", "A");
    assert!(matches!(query.lookup::<u8>(&cache, true), LookupStep::Forward));
}

#[test]
fn unparseable_hit_goes_forward() {
    let cache = cache_with(vec![app_record("A", "not-an-address")]);
    let query = QueryPipeline::received("app.local.test.", "A");
    assert!(matches!(query.lookup::<u8>(&cache, true), LookupStep::Forward));
    assert!(matches!(query.lookup::<u8>(&cache, false), LookupStep::Respond(Resolution::Unanswered)));
}

#[test]
fn upstream_outcomes_are_classified() {
    let query = QueryPipeline::received("google.com.", "A");
    let ok: Result<Vec<u8>, ()> = Ok(vec![1, 2]);
    let forwarded = query.forwarded(ok);
    assert_eq!(forwarded.class(), ResultClass::Forwarded);
    assert_eq!(forwarded.class().as_str(), "FORWARDED");
    assert_eq!(forwarded.answer_count(), 2);
    assert_eq!(forwarded.response_code(), ResponseCode::NoError);
    let empty: Result<Vec<u8>, ()> = Ok(vec![]);
    assert_eq!(query.forwarded(empty).class(), ResultClass::Error);
    let failed: Result<Vec<u8>, &str> = Err("timeout");
    let failed = query.forwarded(failed);
    assert_eq!(failed.class(), ResultClass::Error);
    assert_eq!(failed.response_code(), ResponseCode::NxDomain);
}

#[test]
fn exactly_one_trailing_dot_is_removed() {
    assert_eq!(normalize_query_name("app.local.test."), "app.local.test");
    assert_eq!(normalize_query_name("app.local.test"), "app.local.test");
    assert_eq!(normalize_query_name("app.local.test.."), "app.local.test.");
    assert_eq!(normalize_query_name("."), "");
    assert_eq!(normalize_query_name(""), "");
}

#[test]
fn non_queries_are_refused() {
    assert_eq!(refusal_code(false), Some(ResponseCode::NotImp));
    assert_eq!(refusal_code(true), None);
}

#[test]
fn log_event_becomes_store_entry() {
    let query = QueryPipeline::received("test.local.", "A");
    let cache = cache_with(vec![Record {
        id: 1,
        domain_pattern: "test.local".to_string(),
        record_type: "A".to_string(),
        content: "127.0.0.1".to_string(),
        ttl: 60,
        active: 1,
    }]);
    if let LookupStep::Respond(resolution) = query.lookup::<()>(&cache, false) {
        let entry = to_new_query_log(query.log_event(&resolution, 5));
        assert_eq!(entry.query_name, "test.local");
        assert_eq!(entry.q_type, "A");
        assert_eq!(entry.result_type, "LOCAL");
        assert_eq!(entry.duration_ms, 5);
    } else {
        panic!("expected a local answer");
    }
}

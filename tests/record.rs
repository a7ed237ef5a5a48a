use local_dns_pro::record::{apply_update, default_ttl, Record, UpdateRecordRequest};

fn record(pattern: &str, record_type: &str, content: &str, active: i64) -> Record {
    Record {
        id: 1,
        domain_pattern: pattern.to_string(),
        record_type: record_type.to_string(),
        content: content.to_string(),
        ttl: 60,
        active,
    }
}

#[test]
fn test_record_matches_exact() {
    let record = record("app.local.test", "A", "127.0.0.1", 1);
    assert!(record.matches("app.local.test"));
    assert!(!record.matches("other.local.test"));
}

#[test]
fn test_record_matches_wildcard() {
    let record = record("%.local.test", "A", "127.0.0.1", 1);
    assert!(record.matches("app.local.test"));
    assert!(record.matches("api.local.test"));
    assert!(record.matches("anything.local.test"));
    assert!(!record.matches("local.test"));
}

#[test]
fn test_record_matches_inactive() {
    let record = record("app.local.test", "A", "127.0.0.1", 0);
    assert!(!record.matches("app.local.test"));
}

#[test]
fn dot_in_pattern_is_literal() {
    let record = record("app.local.test", "A", "127.0.0.1", 1);
    assert!(!record.matches("appxlocal.test"));
    assert!(!record.matches("app.local.testx"));
    assert!(!record.matches("xapp.local.test"));
}

#[test]
fn wildcard_spans_labels_and_may_be_empty() {
    let wild = record("%.local.test", "A", "127.0.0.1", 1);
    assert!(wild.matches("a.b.c.local.test"));
    assert!(wild.matches(".local.test"));
    let prefix = record("app%", "A", "127.0.0.1", 1);
    assert!(prefix.matches("app"));
    assert!(prefix.matches("app.local.test"));
}

#[test]
fn matching_is_case_sensitive() {
    let record = record("app.local.test", "A", "127.0.0.1", 1);
    assert!(!record.matches("APP.local.test"));
}

#[test]
fn malformed_pattern_never_matches() {
    let record = record("app(.local.test", "A", "127.0.0.1", 1);
    assert!(!record.matches("app(.local.test"));
    assert!(!record.matches("app.local.test"));
}

#[test]
fn exact_and_wildcard_patterns() {
    assert!(record("app.local.test", "A", "1.2.3.4", 1).is_exact_match());
    assert!(!record("%.local.test", "A", "1.2.3.4", 1).is_exact_match());
    assert!(record("app.local.test", "A", "1.2.3.4", 1).is_active());
    assert!(!record("app.local.test", "A", "1.2.3.4", 2).is_active());
}

#[test]
fn default_ttl_is_sixty() {
    assert_eq!(default_ttl(), 60);
}

#[test]
fn update_replaces_given_fields_only() {
    let old = record("app.local.test", "A", "127.0.0.1", 1);
    let req = UpdateRecordRequest {
        domain_pattern: None,
        record_type: None,
        content: Some("192.168.1.1".to_string()),
        ttl: Some(120),
        active: Some(0),
    };
    let new = apply_update(old, req);
    assert_eq!(new.id, 1);
    assert_eq!(new.domain_pattern, "app.local.test");
    assert_eq!(new.record_type, "A");
    assert_eq!(new.content, "192.168.1.1");
    assert_eq!(new.ttl, 120);
    assert_eq!(new.active, 0);
}

#[test]
fn record_clone_keeps_fields() {
    let a = record("%.x", "CNAME", "t.x", 1);
    let b = a.clone();
    assert_eq!(b.domain_pattern, "%.x");
    assert_eq!(b.record_type, "CNAME");
    assert_eq!(b.content, "t.x");
}

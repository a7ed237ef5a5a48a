use local_dns_pro::answer::{build_dns_record, AnswerData};
use local_dns_pro::record::Record;

fn record(pattern: &str, record_type: &str, content: &str) -> Record {
    Record {
        id: 1,
        domain_pattern: pattern.to_string(),
        record_type: record_type.to_string(),
        content: content.to_string(),
        ttl: 60,
        active: 1,
    }
}

#[test]
fn test_build_a_record() {
    let record = record("app.local.test", "A", "127.0.0.1");
    let answer = build_dns_record("app.local.test", &record).unwrap();
    assert_eq!(answer.name, "app.local.test");
    assert_eq!(answer.ttl, 60);
    if let AnswerData::A(ip) = answer.data {
        assert_eq!(core::net::Ipv4Addr::from(ip).to_string(), "127.0.0.1");
    } else {
        panic!("Expected A record");
    }
}

#[test]
fn test_build_aaaa_record() {
    let record = record("app.local.test", "AAAA", "::1");
    let answer = build_dns_record("app.local.test", &record).unwrap();
    if let AnswerData::Aaaa(ip) = answer.data {
        assert_eq!(core::net::Ipv6Addr::from(ip).to_string(), "::1");
    } else {
        panic!("Expected AAAA record");
    }
}

#[test]
fn test_build_cname_record() {
    let record = record("alias.local.test", "CNAME", "target.local.test");
    let answer = build_dns_record("alias.local.test", &record).unwrap();
    if let AnswerData::Cname(target) = answer.data {
        assert!(
            target == "target.local.test" || target == "target.local.test.",
            "Expected target.local.test or target.local.test., got {}",
            target
        );
    } else {
        panic!("Expected CNAME record");
    }
}

#[test]
fn test_build_invalid_a_record() {
    let record = record("app.local.test", "A", "invalid-ip");
    assert!(build_dns_record("app.local.test", &record).is_none());
}

#[test]
fn a_record_holds_the_parsed_address() {
    let answer = build_dns_record("x.test", &record("x.test", "A", "192.168.1.100")).unwrap();
    match answer.data {
        AnswerData::A(ip) => assert_eq!(ip, 0xc0a8_0164),
        _ => panic!("Expected A record"),
    }
}

#[test]
fn aaaa_record_holds_the_parsed_address() {
    let answer = build_dns_record("x.test", &record("x.test", "AAAA", "2001:db8::1")).unwrap();
    match answer.data {
        AnswerData::Aaaa(ip) => assert_eq!(ip, 0x2001_0db8_0000_0000_0000_0000_0000_0001),
        _ => panic!("Expected AAAA record"),
    }
}

#[test]
fn mismatched_content_gives_no_answer() {
    assert!(build_dns_record("x.test", &record("x.test", "AAAA", "127.0.0.1")).is_none());
    assert!(build_dns_record("x.test", &record("x.test", "A", "::1")).is_none());
    assert!(build_dns_record("x.test", &record("x.test", "MX", "mail.test")).is_none());
}

#[test]
fn answer_name_is_the_query_name() {
    let answer = build_dns_record("app.local.test.", &record("%.local.test", "A", "10.0.0.1")).unwrap();
    assert_eq!(answer.name, "app.local.test.");
}

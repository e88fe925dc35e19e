use orchestrator::naming::{
    candidate_queue_url, canonical_queue_name, parse_redrive_policy, redrive_policy,
};
use orchestrator::text::{parse_u16, parse_u64, u64_to_string};

#[test]
fn canonical_name_is_prefix_name_suffix() {
    assert_eq!(canonical_queue_name("orch", "jobs", "q1"), "orch_jobs_q1");
    assert_eq!(canonical_queue_name("", "jobs", ""), "_jobs_");
}

#[test]
fn candidate_url_joins_base_and_name() {
    assert_eq!(
        candidate_queue_url("https://q.example", "orch_jobs_q1"),
        "https://q.example/orch_jobs_q1"
    );
}

#[test]
fn redrive_policy_payload_is_byte_exact() {
    let p = redrive_policy("arn:aws:sqs:us-west-1:1:dlq", 5);
    assert_eq!(
        p,
        "{\"deadLetterTargetArn\":\"arn:aws:sqs:us-west-1:1:dlq\",\"maxReceiveCount\":\"5\"}"
    );
}

#[test]
fn redrive_policy_round_trips() {
    let p = redrive_policy("arn:aws:sqs:us-west-1:1:dlq", 17);
    let (arn, count) = parse_redrive_policy(p.as_str()).unwrap();
    assert_eq!(arn, "arn:aws:sqs:us-west-1:1:dlq");
    assert_eq!(count, 17);
}

#[test]
fn malformed_redrive_payloads_are_rejected() {
    assert!(parse_redrive_policy("").is_none());
    assert!(parse_redrive_policy("{\"deadLetterTargetArn\":\"a\"}").is_none());
    assert!(parse_redrive_policy(
        "{\"deadLetterTargetArn\":\"a\",\"maxReceiveCount\":\"\"}"
    )
    .is_none());
    assert!(parse_redrive_policy(
        "{\"deadLetterTargetArn\":\"a\",\"maxReceiveCount\":\"x\"}"
    )
    .is_none());
}

#[test]
fn decimal_printing_is_exact() {
    assert_eq!(u64_to_string(0), "0");
    assert_eq!(u64_to_string(30), "30");
    assert_eq!(u64_to_string(18446744073709551615), "18446744073709551615");
}

#[test]
fn decimal_parsing_accepts_the_integer_grammar() {
    assert_eq!(parse_u64("0"), Some(0));
    assert_eq!(parse_u64("60"), Some(60));
    assert_eq!(parse_u64("+60"), Some(60));
    assert_eq!(parse_u64("007"), Some(7));
    assert_eq!(parse_u64("18446744073709551615"), Some(18446744073709551615));
    assert_eq!(parse_u64("18446744073709551616"), None);
    assert_eq!(parse_u64(""), None);
    assert_eq!(parse_u64("+"), None);
    assert_eq!(parse_u64("-1"), None);
    assert_eq!(parse_u64("12a"), None);
    assert_eq!(parse_u16("3000"), Some(3000));
    assert_eq!(parse_u16("70000"), None);
}

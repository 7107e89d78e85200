use trunk_processor::{
    decimal_string, ends_with, health_report, last_segment, map_int_to_bool, Error, RetryPolicy,
    RetryStep,
};

#[test]
fn decimal_notation() {
    assert_eq!(decimal_string(0), "0");
    assert_eq!(decimal_string(1234), "1234");
    assert_eq!(decimal_string(-5), "-5");
    assert_eq!(decimal_string(i64::MIN), "-9223372036854775808");
    assert_eq!(decimal_string(i64::MAX), "9223372036854775807");
}

#[test]
fn suffixes_and_segments() {
    assert!(ends_with("call.json", ".json"));
    assert!(!ends_with("json", ".json"));
    assert!(ends_with("x", ""));
    assert_eq!(last_segment("county-sys-metro", '-'), "metro");
    assert_eq!(last_segment("metro", '-'), "metro");
    assert_eq!(last_segment("metro-", '-'), "");
    assert_eq!(last_segment("", '-'), "");
}

#[test]
fn integer_flags() {
    assert_eq!(map_int_to_bool(0).unwrap(), false);
    assert_eq!(map_int_to_bool(1).unwrap(), true);
    match map_int_to_bool(2) {
        Err(Error::JsonParsing(m)) => assert_eq!(m, "Expected 0 or 1, got 2"),
        _ => panic!("2 is no flag"),
    }
    assert!(map_int_to_bool(-1).is_err());
}

#[test]
fn error_status_and_message() {
    let e = Error::FileTooLarge { size: 60, max_size: 50 };
    assert_eq!(e.status_code(), 400);
    assert_eq!(e.message(), "File too large: 60 bytes (max: 50 bytes)");
    let e = Error::MissingField("audio".to_string());
    assert_eq!(e.message(), "Missing required field or filename: audio");
    let e = Error::Database("pool exhausted".to_string());
    assert_eq!(e.status_code(), 500);
    assert_eq!(e.message(), "Database error: pool exhausted");
    assert_eq!(Error::S3Upload("x".to_string()).status_code(), 500);
    assert_eq!(Error::WebhookSend("x".to_string()).message(), "Webhook Send Error: x");
    assert_eq!(Error::InvalidFileType("x".to_string()).status_code(), 400);
}

#[test]
fn retry_schedule() {
    let p = RetryPolicy::standard();
    assert_eq!(p.next_step(0, true), RetryStep::Done);
    assert_eq!(p.next_step(0, false), RetryStep::Wait(100));
    assert_eq!(p.next_step(1, false), RetryStep::Wait(200));
    assert_eq!(p.next_step(2, false), RetryStep::GiveUp);
    assert_eq!(p.next_step(2, true), RetryStep::Done);
    assert_eq!(p.delay(2), 400);
}

#[test]
fn retry_delay_saturates() {
    let p = RetryPolicy { max_attempts: 100, base_delay_ms: u64::MAX / 2 + 1, multiplier: 2 };
    assert_eq!(p.delay(0), u64::MAX / 2 + 1);
    assert_eq!(p.delay(1), u64::MAX);
    assert_eq!(p.delay(70), u64::MAX);
    let z = RetryPolicy { max_attempts: 5, base_delay_ms: 7, multiplier: 0 };
    assert_eq!(z.delay(0), 7);
    assert_eq!(z.delay(3), 0);
}

#[test]
fn health_body() {
    assert_eq!(
        health_report(&"2024-01-01T00:00:00.000Z".to_string()),
        "{\"status\":\"healthy\",\"timestamp\":\"2024-01-01T00:00:00.000Z\",\"service\":\"trunk-processor\"}"
    );
}

use rdashboard::domain::budget::LOG_EVENT_CAP_BYTES;
use rdashboard::domain::redaction::{truncate_utf8, Redactor};

const REDACTED: &str = "[REDACTED]";
const TRUNCATED: &str = "\n[TRUNCATED]";

#[test]
fn redacts_known_and_structural_secrets_without_erasing_the_failure() {
    let redactor = match Redactor::new(&vec!["exact-private-value".to_owned()]) {
        Ok(redactor) => redactor,
        Err(_) => panic!("static redaction regexes must compile"),
    };
    let redacted =
        redactor.redact("deploy failed: token=top-secret Bearer abcdefghijk exact-private-value");
    assert!(redacted.starts_with("deploy failed:"));
    assert!(!redacted.contains("top-secret"));
    assert!(!redacted.contains("abcdefghijk"));
    assert!(!redacted.contains("exact-private-value"));
    assert!(redacted.contains(REDACTED));
}

#[test]
fn truncation_keeps_valid_utf8_and_hard_cap() {
    let input = "я".repeat(LOG_EVENT_CAP_BYTES);
    let output = truncate_utf8(&input, 101, TRUNCATED);
    assert!(output.len() <= 101);
    assert!(output.ends_with(TRUNCATED));
}

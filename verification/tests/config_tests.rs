//! Tests for configuration-number parsing and connection-string redaction.
use player_server::configs::parse_env_number;
use player_server::db::{redact_password, PASSWORD_REDACTION};

#[test]
fn configs_parse_accepts_decimal_texts() {
    assert_eq!(parse_env_number("42"), Some(42));
    assert_eq!(parse_env_number("0"), Some(0));
    assert_eq!(parse_env_number("+7"), Some(7));
    assert_eq!(parse_env_number("007"), Some(7));
    assert_eq!(parse_env_number("4294967295"), Some(u32::MAX));
}

#[test]
fn configs_parse_rejects_malformed_texts() {
    assert_eq!(parse_env_number(""), None);
    assert_eq!(parse_env_number("+"), None);
    assert_eq!(parse_env_number("-1"), None);
    assert_eq!(parse_env_number("12a"), None);
    assert_eq!(parse_env_number("1 2"), None);
    assert_eq!(parse_env_number(" 1"), None);
    assert_eq!(parse_env_number("++1"), None);
}

#[test]
fn configs_parse_rejects_values_over_u32() {
    assert_eq!(parse_env_number("4294967296"), None);
    assert_eq!(parse_env_number("99999999999999999999"), None);
}

#[test]
fn db_redacts_password_in_connect_string() {
    let redacted = redact_password("postgres://app:hunter2@db:5432/players", "hunter2");
    assert_eq!(
        redacted,
        format!("postgres://app:{}@db:5432/players", PASSWORD_REDACTION)
    );
}

#[test]
fn db_redaction_edge_cases() {
    // Every occurrence is replaced, left to right, without overlap.
    assert_eq!(
        redact_password("aaaa", "aa"),
        format!("{}{}", PASSWORD_REDACTION, PASSWORD_REDACTION)
    );
    assert_eq!(
        redact_password("secret stays secret", "secret"),
        format!("{} stays {}", PASSWORD_REDACTION, PASSWORD_REDACTION)
    );
    // A password that does not occur leaves the string unchanged.
    assert_eq!(
        redact_password("postgres://app@db/players", "hunter2"),
        "postgres://app@db/players"
    );
    // An empty password replaces nothing.
    assert_eq!(redact_password("postgres://app@db/players", ""), "postgres://app@db/players");
}

use aura::console::split_command;
use aura::error::{Error, ErrorCode};
use aura::serde_duration::{parse_duration_str, serialize, trim, u64_to_decimal, Duration};
use aura::utils::{escape_like_pattern, generate_unique_id, is_valid_ident, validate_item_length};

#[test]
fn identifiers() {
    assert!(is_valid_ident("alice_01"));
    assert!(is_valid_ident("Ünïcödé"));
    assert!(is_valid_ident(""));
    assert!(!is_valid_ident("alice-01"));
    assert!(!is_valid_ident("a b"));
}

#[test]
fn like_patterns() {
    assert_eq!(escape_like_pattern("abc"), "%abc%");
    assert_eq!(escape_like_pattern("50%_off\\"), "%50\\%\\_off\\\\%");
    assert_eq!(escape_like_pattern(""), "%%");
}

#[test]
fn item_length_limit() {
    assert!(validate_item_length(50, 50).is_ok());
    let e = validate_item_length(51, 50).unwrap_err();
    assert_eq!(e.code, ErrorCode::InvalidFormat);
    assert_eq!(e.message, "Item length exceeds limit");
}

#[test]
fn unique_ids() {
    let a = generate_unique_id();
    let b = generate_unique_id();
    assert_eq!(a.chars().count(), 16);
    assert!(a.chars().all(|c| c.is_ascii_alphanumeric() || c == '_' || c == '-'));
    assert_ne!(a, b);
}

#[test]
fn durations_parse() {
    assert_eq!(parse_duration_str("250ms"), Ok(Duration { secs: 0, nanos: 250_000_000 }));
    assert_eq!(parse_duration_str(" 1500ms\n"), Ok(Duration { secs: 1, nanos: 500_000_000 }));
    assert_eq!(parse_duration_str("10us"), Ok(Duration { secs: 0, nanos: 10_000 }));
    assert_eq!(parse_duration_str("30s"), Ok(Duration { secs: 30, nanos: 0 }));
    assert_eq!(parse_duration_str("+7s"), Ok(Duration { secs: 7, nanos: 0 }));
    assert_eq!(parse_duration_str("xms"), Err("Invalid millisecond number in 'xms'".to_string()));
    assert_eq!(parse_duration_str("us"), Err("Invalid microsecond number in 'us'".to_string()));
    assert_eq!(parse_duration_str("-1s"), Err("Invalid second number in '-1s'".to_string()));
    assert_eq!(
        parse_duration_str(" 5m "),
        Err("Invalid duration unit in '5m'. Expected 's', 'ms', or 'us'".to_string())
    );
    assert_eq!(
        parse_duration_str("18446744073709551616s"),
        Err("Invalid second number in '18446744073709551616s'".to_string())
    );
    assert_eq!(parse_duration_str("18446744073709551615s"), Ok(Duration { secs: u64::MAX, nanos: 0 }));
}

#[test]
fn durations_serialize() {
    assert_eq!(serialize(&Duration { secs: 30, nanos: 0 }), Some("30s".to_string()));
    assert_eq!(serialize(&Duration { secs: 1, nanos: 500_000_000 }), Some("1500ms".to_string()));
    assert_eq!(serialize(&Duration { secs: 0, nanos: 10_000 }), Some("10us".to_string()));
    assert_eq!(serialize(&Duration { secs: 0, nanos: 1 }), None);
}

#[test]
fn durations_round_trip() {
    for d in [
        Duration { secs: 0, nanos: 0 },
        Duration { secs: 42, nanos: 0 },
        Duration { secs: 3, nanos: 7_000_000 },
        Duration { secs: 9, nanos: 123_456_000 },
    ] {
        let text = serialize(&d).unwrap();
        assert_eq!(parse_duration_str(&text), Ok(d));
    }
}

#[test]
fn decimal_and_trim() {
    assert_eq!(u64_to_decimal(0), "0");
    assert_eq!(u64_to_decimal(1234567890), "1234567890");
    assert_eq!(u64_to_decimal(u64::MAX), u64::MAX.to_string());
    assert_eq!(trim("\u{3000} a b \t"), vec!['a', ' ', 'b']);
    assert_eq!(trim("   "), Vec::<char>::new());
}

#[test]
fn console_lines() {
    assert_eq!(split_command("send chan bob hi"), ("send".to_string(), "chan bob hi".to_string()));
    assert_eq!(split_command("help"), ("help".to_string(), String::new()));
    assert_eq!(split_command(" x"), (String::new(), "x".to_string()));
}

#[test]
fn error_names() {
    let e = Error::restricted("nope");
    assert_eq!(e.code_name(), "RESTRICTED");
    assert_eq!(e.describe(), "RESTRICTED: nope");
    assert_eq!(Error::unwanted("x").code_name(), "UNWANTED");
    assert_eq!(Error::internal("x").code_name(), "INTERNAL");
    assert_eq!(Error::not_found("x").code_name(), "NOT_FOUND");
}

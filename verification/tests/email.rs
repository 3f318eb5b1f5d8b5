use aura::email::{code_expiry_text, is_pending, EmailRegister};
use aura::error::ErrorCode;

#[test]
fn register_accepts_a_code_once() {
    let mut reg = EmailRegister::new(6);
    let (token, expires) = reg.issue_code(1_000, 600);
    assert_eq!(token.len(), 6);
    assert!(token.chars().all(|c| c.is_ascii_digit()));
    assert_eq!(expires, 1_600);

    reg.record("a@b.c".to_string(), (token.clone(), expires));
    assert_eq!(reg.len(), 1);
    assert_eq!(reg.get_email_token("a@b.c"), Some(token.clone()));

    assert!(reg.verify_email("a@b.c", &token).is_ok());
    assert_eq!(reg.len(), 0);
    let again = reg.verify_email("a@b.c", &token).unwrap_err();
    assert_eq!(again.code, ErrorCode::NotFound);
    assert_eq!(again.message, "E-Mail not found");
}

#[test]
fn register_refuses_a_wrong_code_and_keeps_it() {
    let mut reg = EmailRegister::new(4);
    reg.record("x@y.z".to_string(), ("1234".to_string(), 50));
    let e = reg.verify_email("x@y.z", "4321").unwrap_err();
    assert_eq!(e.code, ErrorCode::Unauthorized);
    assert_eq!(e.message, "Invalid token");
    assert_eq!(reg.get_email_token("x@y.z"), Some("1234".to_string()));
    reg.record("x@y.z".to_string(), ("9999".to_string(), 60));
    assert_eq!(reg.len(), 1);
    assert!(reg.verify_email("x@y.z", "1234").is_err());
    assert!(reg.verify_email("x@y.z", "9999").is_ok());
}

#[test]
fn register_prunes_expired_codes() {
    let mut reg = EmailRegister::new(4);
    reg.record("old@x".to_string(), ("1111".to_string(), 100));
    reg.record("edge@x".to_string(), ("2222".to_string(), 200));
    reg.record("new@x".to_string(), ("3333".to_string(), 300));
    reg.prune(200);
    assert_eq!(reg.len(), 1);
    assert_eq!(reg.get_email_token("old@x"), None);
    assert_eq!(reg.get_email_token("edge@x"), None);
    assert_eq!(reg.get_email_token("new@x"), Some("3333".to_string()));
    assert!(is_pending(300, 200));
    assert!(!is_pending(200, 200));
    reg.maintain();
    assert_eq!(reg.get_email_token("new@x"), None);
}

#[test]
fn expiry_text_is_rfc3339() {
    assert_eq!(code_expiry_text(1_234_567_890).unwrap(), "2009-02-13T23:31:30+00:00");
    let e = code_expiry_text(u64::MAX / 2).unwrap_err();
    assert_eq!(e.code, ErrorCode::Internal);
    assert_eq!(e.message, "Failed to convert timestamp to DateTime");
}

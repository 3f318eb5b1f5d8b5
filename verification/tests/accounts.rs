use aura::auth::{check_credentials, hash, token_claims, use_password_login, verified_user, verify, TokenCheck};
use aura::email::{check_code, email_code_text, expires_at, generate_token, is_expired};
use aura::error::{Error, ErrorCode};
use aura::logic::user::{
    apply_update, block, check_new_user_id, check_user_request, create_admin, follow, new_account,
    unique_violation, AdminSetup,
};
use aura::utils::is_valid_ident;
use aura::types::common::Timestamp;
use aura::testing::{admin_user, test_user};
use aura::types::user::{Notification, NotificationBody, UserRole};

#[test]
fn hashed_password_authenticates() {
    let h = hash("secret".to_string()).unwrap();
    assert_ne!(h, "secret");
    assert!(h.starts_with("$argon2id$"));
    assert!(check_credentials(Some(&h), "secret").is_ok());
    let e = check_credentials(Some(&h), "wrong").unwrap_err();
    assert_eq!((e.code, e.message.as_str()), (ErrorCode::Unauthorized, "Invalid credentials"));
    let e = check_credentials(None, "secret").unwrap_err();
    assert_eq!((e.code, e.message.as_str()), (ErrorCode::Unauthorized, "Invalid credentials"));
}

#[test]
fn tokens() {
    let a = token_claims("alice".to_string(), 1000, 2);
    assert_eq!(a.exp, 1000 + 7200);
    assert_eq!(verify(TokenCheck::Valid("alice".to_string())).unwrap(), "alice");
    assert_eq!(verify(TokenCheck::Missing).unwrap_err().message, "Missing token");
    assert_eq!(verify(TokenCheck::Expired).unwrap_err().message, "Token expired");
    assert_eq!(verify(TokenCheck::Invalid).unwrap_err().message, "Invalid token");
    assert_eq!(verified_user(Some(3)).unwrap(), 3);
    assert_eq!(verified_user::<u8>(None).unwrap_err().code, ErrorCode::NotFound);
    assert!(use_password_login(&Error::unauthorized("x"), true, true));
    assert!(!use_password_login(&Error::unauthorized("x"), true, false));
    assert!(!use_password_login(&Error::not_found("x"), true, true));
}

#[test]
fn email_codes() {
    let t = generate_token(6);
    assert_eq!(t.len(), 6);
    assert!(t.chars().all(|c| c.is_ascii_digit()));
    assert!(check_code(Some("123456"), "123456").is_ok());
    let e = check_code(Some("123456"), "123457").unwrap_err();
    assert_eq!((e.code, e.message.as_str()), (ErrorCode::Unauthorized, "Invalid token"));
    let e = check_code(None, "123456").unwrap_err();
    assert_eq!((e.code, e.message.as_str()), (ErrorCode::NotFound, "E-Mail not found"));
    assert_eq!(expires_at(100, 3600), 3700);
    assert!(is_expired(3700, 3700));
    assert!(!is_expired(3701, 3700));
    assert_eq!(
        email_code_text("123456", "soon"),
        "Your verification code is: 123456\nThis code will expire in soon."
    );
}

#[test]
fn account_rules() {
    assert!(check_new_user_id("alice").is_ok());
    assert_eq!(check_new_user_id("al ice").unwrap_err().message, "Invalid User ID");
    assert_eq!(follow("a", "a", true).unwrap_err().message, "You cannot follow yourself");
    assert_eq!(follow("a", "b", false).unwrap_err().message, "User to follow not found");
    assert!(follow("a", "b", true).is_ok());
    assert!(block(true).is_ok());
    assert_eq!(block(false).unwrap_err().message, "User not found");
    assert_eq!(unique_violation(Some("users_email_unique")).message, "Email already registered");
    assert_eq!(unique_violation(Some("users_user_id_unique")).message, "User ID already exists");
    assert_eq!(unique_violation(None).message, "Database unique constraint violation");
    assert_eq!(unique_violation(Some("other")).code, ErrorCode::AlreadyExists);
}

#[test]
fn admin_check() {
    assert_eq!(create_admin(None).unwrap(), AdminSetup::Create);
    assert_eq!(create_admin(Some(Ok(()))).unwrap(), AdminSetup::Warn);
    assert_eq!(create_admin(Some(Err(Error::unauthorized("x")))).unwrap(), AdminSetup::Keep);
    assert_eq!(create_admin(Some(Err(Error::internal("db down")))).unwrap_err().message, "db down");
}

#[test]
fn updates_and_new_accounts() {
    let u = new_account("bob".to_string(), "Bob".to_string(), "bob@x".to_string(), "h".to_string());
    assert_eq!(u.role, UserRole::User);
    assert_eq!(u.icon.key, "default_icon.png");
    let u = apply_update(u, Some("Robert".to_string()), None, Some("pw".to_string())).unwrap();
    assert_eq!(u.username, "Robert");
    assert_eq!(u.email, "bob@x");
    assert!(check_credentials(Some(&u.password), "pw").is_ok());
    assert_eq!(u.exported_password(false), "");
    assert_eq!(u.exported_password(true), u.password);
}

#[test]
fn test_accounts() {
    let u = test_user(false).unwrap();
    assert_eq!(u.user_id, "user");
    assert_eq!(u.password, "user123");
    let a = admin_user(true).unwrap();
    assert_eq!(a.role, UserRole::Admin);
    assert!(check_credentials(Some(&a.password), "admin123").is_ok());
    assert_eq!(UserRole::from_name("moderator"), Some(UserRole::Moderator));
    assert_eq!(UserRole::from_name("root"), None);
}

#[test]
fn hash_records_the_argon2id_parameters() {
    let h = hash("secret".to_string()).unwrap();
    let prefix = "$argon2id$v=19$m=19456,t=2,p=1$";
    assert!(h.starts_with(prefix));
    let rest = &h[prefix.len()..];
    let (salt, out) = rest.split_once('$').unwrap();
    assert_eq!(salt.len(), 22);
    assert_eq!(out.len(), 43);
}

#[test]
fn user_requests_are_limited() {
    let ids: Vec<String> = vec!["a".to_string(), "b".to_string(), "c".to_string()];
    assert_eq!(check_user_request(&ids, 3).unwrap(), true);
    assert_eq!(check_user_request(&[], 3).unwrap(), false);
    let e = check_user_request(&ids, 2).unwrap_err();
    assert_eq!((e.code, e.message.as_str()), (ErrorCode::InvalidFormat, "Item length exceeds limit"));
}

#[test]
fn identifiers_are_ascii_letters_digits_and_underscores() {
    assert!(is_valid_ident("user_01"));
    assert!(!is_valid_ident("a/b"));
    assert!(!is_valid_ident(".."));
    assert!(!is_valid_ident("a-b"));
}

#[test]
fn wire_timestamps_round_trip() {
    let t = Timestamp::from_parts(1_700_000_000, 123_000).unwrap();
    let (s, n) = t.to_wire();
    assert_eq!((s, n), (1_700_000_000, 123_000));
    assert_eq!(Timestamp::from_wire(s, n).unwrap(), t);
    let e = Timestamp::from_wire(5, -1).unwrap_err();
    assert_eq!((e.code, e.message.as_str()), (ErrorCode::Internal, "Failed to convert timestamp"));
    assert!(Timestamp::from_wire(5, 1_000_000_000).is_err());
}

#[test]
fn leap_seconds_are_timestamps() {
    assert!(Timestamp::from_wire(59, 1_500_000_000).is_ok());
    assert!(Timestamp::from_parts(59, 1_999_999_999).is_some());
    assert!(Timestamp::from_parts(-1, 1_500_000_000).is_some());
    assert!(Timestamp::from_parts(58, 1_500_000_000).is_none());
    assert!(Timestamp::from_parts(59, 2_000_000_000).is_none());
    let t = Timestamp::from_parts(119, 1_250_000_000).unwrap();
    assert_eq!(t.millis(), 120_250);
    assert_eq!(t.to_wire(), (119, 1_250_000_000));
}

#[test]
fn notifications_from_wire_parts() {
    use_notification_parts();
}

fn use_notification_parts() {
    let invite = || {
        Some(NotificationBody::Invite {
            channel_id: "c".to_string(),
            invited_by: "bob".to_string(),
            uninvited: false,
        })
    };
    let e = Notification::from_parts("n".to_string(), None, None).unwrap_err();
    assert_eq!((e.code, e.message.as_str()), (ErrorCode::InvalidFormat, "Notification not provided"));
    let e = Notification::from_parts("n".to_string(), None, invite()).unwrap_err();
    assert_eq!((e.code, e.message.as_str()), (ErrorCode::InvalidFormat, "Timestamp not provided"));
    let e = Notification::from_parts("n".to_string(), Some((1, -5)), invite()).unwrap_err();
    assert_eq!((e.code, e.message.as_str()), (ErrorCode::Internal, "Failed to convert timestamp"));
    match Notification::from_parts("n".to_string(), Some((1, 0)), invite()).unwrap() {
        Notification::Invite { notification_id, channel_id, invited_by, uninvited, timestamp } => {
            assert_eq!(notification_id, "n");
            assert_eq!(channel_id, "c");
            assert_eq!(invited_by, "bob");
            assert!(!uninvited);
            assert_eq!(timestamp.seconds(), 1);
        }
        _ => panic!("expected an invite"),
    }
    let message = Some(NotificationBody::Message {
        channel_id: "c".to_string(),
        sender_id: "bob".to_string(),
        message: None,
    });
    let e = Notification::from_parts("n".to_string(), Some((1, 0)), message).unwrap_err();
    assert_eq!((e.code, e.message.as_str()), (ErrorCode::InvalidFormat, "Message not provided"));
    let failed = Some(NotificationBody::Message {
        channel_id: "c".to_string(),
        sender_id: "bob".to_string(),
        message: Some(Err(Error::invalid_format("Content not provided"))),
    });
    let e = Notification::from_parts("n".to_string(), None, failed).unwrap_err();
    assert_eq!(e.message, "Timestamp not provided");
}

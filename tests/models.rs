use sphinx::email::{self, Email};
use sphinx::identity::{OrphanIdentity, Provider};
use sphinx::password::{EncryptedPassword, Password, PasswordHandler};
use sphinx::session::{self, Session};
use sphinx::user::{self, User};

#[test]
fn email_validation() {
    assert_eq!(Email::parse("ann@example.com").unwrap().as_str(), "ann@example.com");
    assert!(matches!(Email::parse("not-an-email"), Err(email::Error::InvalidEmail(ref s)) if s == "not-an-email"));
    assert!(Email::parse("").is_err());
    assert!(Email::parse("a@").is_err());
}

#[test]
fn email_trusted_and_text() {
    let e = Email::from_trusted_str("whatever");
    assert_eq!(e.as_str(), "whatever");
    assert_eq!(e.to_string(), "whatever");
    assert!(e.same_as(&e.duplicate()));
    assert!(!e.same_as(&Email::from_trusted_str("other")));
}

#[test]
fn password_hash_and_compare() {
    let p = Password::parse("correct horse").unwrap();
    let h = p.encrypt();
    assert!(h.as_str().starts_with("$argon2"));
    assert!(h.compare_with(&p));
    assert!(!h.compare_with(&Password::parse("battery staple").unwrap()));
    let h2 = p.encrypt();
    assert_ne!(h.as_str(), h2.as_str());
    assert!(h2.compare_with(&p));
}

#[test]
fn malformed_hash_never_matches() {
    let h = EncryptedPassword::from_trusted_str("not a phc string");
    assert!(!h.compare_with(&Password::parse("x").unwrap()));
    assert_eq!(EncryptedPassword::from_trusted_string("abc".to_string()).to_string(), "abc");
    assert!(EncryptedPassword::parse("not a phc string").is_err());
}

#[test]
fn password_handler_round_trip() {
    let handler = PasswordHandler::default();
    let h = handler.encrypt_password("pw");
    assert!(handler.verify_password("pw", &h));
    assert!(!handler.verify_password("pw2", &h));
}

#[test]
fn user_ids_as_text() {
    let id = user::Id::from_uuid(0x0123_4567_89ab_cdef_0123_4567_89ab_cdefu128);
    assert_eq!(id.to_string(), "01234567-89ab-cdef-0123-456789abcdef");
    let back = user::Id::from_trusted_str("01234567-89ab-cdef-0123-456789abcdef").unwrap();
    assert_eq!(back, id);
    assert_eq!(back.as_uuid(), 0x0123_4567_89ab_cdef_0123_4567_89ab_cdefu128);
    assert!(user::Id::from_trusted_str("nope").is_none());
    assert_ne!(user::Id::new(), user::Id::new());
}

#[test]
fn new_users() {
    let u = User::new(Email::from_trusted_str("a@b.co"), None);
    assert!(u.email_confirmed_at.is_none());
    assert!(!u.is_admin);
    assert_eq!(u.created_at, u.updated_at);
    let v = User::with_confirmation(Email::from_trusted_str("a@b.co"), None, true);
    assert_eq!(v.email_confirmed_at, Some(v.created_at));
}

#[test]
fn sessions() {
    let uid = user::Id::new();
    let s = Session::new(uid, "agent".to_string(), "127.0.0.1".to_string());
    assert_eq!(s.user_id, uid);
    assert_eq!(s.id.to_string().len(), 36);
    assert_ne!(session::Id::new(), s.id);
}

#[test]
fn orphan_binding() {
    let o = OrphanIdentity::new("g-1".to_string(), Email::from_trusted_str("a@b.co"), Provider::Google, Some(true), "{}".to_string());
    assert!(o.email_verified());
    let uid = user::Id::from_uuid(9);
    let i = o.clone().to_identity(uid);
    assert_eq!(i.user_id, uid);
    assert_eq!(i.provider_user_id, "g-1");
    assert_eq!(i.provider, Provider::Google);
    assert_eq!(i.is_email_confirmed, Some(true));
    let unknown = OrphanIdentity::new("g-2".to_string(), Email::from_trusted_str("a@b.co"), Provider::Google, None, "{}".to_string());
    assert!(!unknown.email_verified());
}

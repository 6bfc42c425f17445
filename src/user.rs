use crate::email::Email;
use crate::ids::{now_micros, random_uuid, uuid_parse, uuid_text, uuid_text_of, uuid_value_of};
use crate::password::EncryptedPassword;
use vstd::prelude::*;

verus! {

/// A user identifier: a UUID held as its 128-bit value.
#[derive(Debug, Clone, Copy, PartialEq, Eq, Structural, Hash, Default)]
pub struct Id(pub u128);

impl Id {
    /// A fresh random identifier.
    pub fn new() -> (r: Id) {
        Id(random_uuid())
    }

    pub fn as_uuid(&self) -> (r: u128)
        ensures
            r == self.0,
    {
        self.0
    }

    pub fn from_uuid(value: u128) -> (r: Id)
        ensures
            r.0 == value,
    {
        Id(value)
    }

    /// Reads an identifier from its UUID text.
    pub fn from_trusted_str(text: &str) -> (r: Option<Id>)
        ensures
            r is Some <==> uuid_value_of(text@) is Some,
            r matches Some(id) ==> uuid_value_of(text@) == Some(id.0),
    {
        match uuid_parse(text) {
            Some(v) => Some(Id(v)),
            None => None,
        }
    }

    /// The hyphenated UUID text.
    pub fn to_string(&self) -> (r: String)
        ensures
            r@ == uuid_text_of(self.0),
    {
        uuid_text(self.0)
    }
}

/// An account, independent of how its owner authenticates. Times are
/// microseconds since the Unix epoch.
#[derive(Debug, Clone)]
pub struct User {
    pub id: Id,
    pub email: Email,
    pub email_confirmed_at: Option<i64>,
    pub phone: Option<String>,
    pub phone_confirmed_at: Option<i64>,
    pub encrypted_password: Option<EncryptedPassword>,
    pub last_sign_in_at: Option<i64>,
    pub is_admin: bool,
    pub created_at: i64,
    pub updated_at: i64,
}

impl User {
    /// A new account with a fresh identifier, created now, unconfirmed.
    pub fn new(email: Email, password: Option<EncryptedPassword>) -> (r: User)
        ensures
            r.email@ == email@,
            r.encrypted_password == password,
            r.email_confirmed_at is None,
            r.phone is None,
            r.phone_confirmed_at is None,
            r.last_sign_in_at is None,
            !r.is_admin,
            r.created_at == r.updated_at,
    {
        User::with_confirmation(email, password, false)
    }

    /// A new account with a fresh identifier, created now; its email counts
    /// as confirmed at creation time when `email_confirmed` holds.
    pub fn with_confirmation(email: Email, password: Option<EncryptedPassword>, email_confirmed: bool) -> (r: User)
        ensures
            r.email@ == email@,
            r.encrypted_password == password,
            r.email_confirmed_at is Some <==> email_confirmed,
            email_confirmed ==> r.email_confirmed_at == Some(r.created_at),
            r.phone is None,
            r.phone_confirmed_at is None,
            r.last_sign_in_at is None,
            !r.is_admin,
            r.created_at == r.updated_at,
    {
        let now = now_micros();
        User {
            id: Id::new(),
            email,
            email_confirmed_at: if email_confirmed { Some(now) } else { None },
            phone: None,
            phone_confirmed_at: None,
            encrypted_password: password,
            last_sign_in_at: None,
            is_admin: false,
            created_at: now,
            updated_at: now,
        }
    }
}

} // verus!

use crate::ids::{now_micros, random_uuid, uuid_text, uuid_text_of};
use crate::user;
use vstd::prelude::*;

verus! {

/// A session identifier: a UUID held as its 128-bit value.
#[derive(Debug, Clone, Copy, PartialEq, Eq, Structural, Hash, Default)]
pub struct Id(pub u128);

impl Id {
    /// A fresh random identifier.
    pub fn new() -> (r: Id) {
        Id(random_uuid())
    }

    pub fn as_uuid(&self) -> (r: u128)
        ensures
            r == self.0,
    {
        self.0
    }

    /// The hyphenated UUID text.
    pub fn to_string(&self) -> (r: String)
        ensures
            r@ == uuid_text_of(self.0),
    {
        uuid_text(self.0)
    }
}

/// One signed-in device: created per successful sign-in, never changed.
#[derive(Debug, Clone)]
pub struct Session {
    pub id: Id,
    pub user_id: user::Id,
    pub user_agent: String,
    /// The client address in its textual form.
    pub ip: String,
    /// Microseconds since the Unix epoch.
    pub created_at: i64,
}

impl Session {
    /// A session with a fresh identifier, created now.
    pub fn new(user_id: user::Id, user_agent: String, ip: String) -> (r: Session)
        ensures
            r.user_id == user_id,
            r.user_agent@ == user_agent@,
            r.ip@ == ip@,
    {
        Session { id: Id::new(), user_id, user_agent, ip, created_at: now_micros() }
    }
}

} // verus!

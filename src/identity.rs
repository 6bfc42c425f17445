use crate::email::Email;
use crate::ids::now_micros;
use crate::user;
use vstd::prelude::*;

verus! {

/// An authentication method: email/password or one OAuth provider.
#[derive(Debug, Clone, Copy, PartialEq, Eq, Structural, Hash)]
pub enum Provider {
    Email,
    Google,
    Discord,
    Apple,
    Github,
}

/// Binds `(provider, provider_user_id)` to a user. `provider_data` is the
/// provider's profile as JSON text, kept opaque. Times are microseconds
/// since the Unix epoch.
#[derive(Debug, Clone)]
pub struct Identity {
    pub user_id: user::Id,
    pub provider_user_id: String,
    pub email: Email,
    pub provider: Provider,
    pub is_email_confirmed: Option<bool>,
    pub phone: Option<String>,
    pub is_phone_confirmed: Option<bool>,
    pub provider_data: String,
    pub created_at: i64,
    pub updated_at: i64,
}

/// Identity data produced by an OAuth callback before it is bound to a user.
#[derive(Debug, Clone)]
pub struct OrphanIdentity {
    pub provider_user_id: String,
    pub email: Email,
    pub provider: Provider,
    pub is_email_confirmed: Option<bool>,
    pub phone: Option<String>,
    pub is_phone_confirmed: Option<bool>,
    pub provider_data: String,
    pub created_at: i64,
    pub updated_at: i64,
}

/// `i` is `o` bound to `user_id`, every other field carried over.
pub open spec fn binds(i: Identity, o: OrphanIdentity, user_id: user::Id) -> bool {
    &&& i.user_id == user_id
    &&& i.provider_user_id@ == o.provider_user_id@
    &&& i.email@ == o.email@
    &&& i.provider == o.provider
    &&& i.is_email_confirmed == o.is_email_confirmed
    &&& i.phone == o.phone
    &&& i.is_phone_confirmed == o.is_phone_confirmed
    &&& i.provider_data@ == o.provider_data@
    &&& i.created_at == o.created_at
    &&& i.updated_at == o.updated_at
}

/// `a` and `b` hold the same data.
pub open spec fn same_identity(a: Identity, b: Identity) -> bool {
    &&& a.user_id == b.user_id
    &&& a.provider_user_id@ == b.provider_user_id@
    &&& a.email@ == b.email@
    &&& a.provider == b.provider
    &&& a.is_email_confirmed == b.is_email_confirmed
    &&& a.phone == b.phone
    &&& a.is_phone_confirmed == b.is_phone_confirmed
    &&& a.provider_data@ == b.provider_data@
    &&& a.created_at == b.created_at
    &&& a.updated_at == b.updated_at
}

impl Identity {
    /// A copy of the identity.
    pub fn duplicate(&self) -> (r: Identity)
        ensures
            same_identity(r, *self),
    {
        Identity {
            user_id: self.user_id,
            provider_user_id: self.provider_user_id.clone(),
            email: self.email.duplicate(),
            provider: self.provider,
            is_email_confirmed: self.is_email_confirmed,
            phone: match &self.phone {
                Some(p) => Some(p.clone()),
                None => None,
            },
            is_phone_confirmed: self.is_phone_confirmed,
            provider_data: self.provider_data.clone(),
            created_at: self.created_at,
            updated_at: self.updated_at,
        }
    }

    /// An identity created now, with no phone, no confirmation flags and an
    /// empty JSON object as provider data.
    pub fn new(user_id: user::Id, provider_user_id: String, email: Email, provider: Provider) -> (r: Identity)
        ensures
            r.user_id == user_id,
            r.provider_user_id@ == provider_user_id@,
            r.email@ == email@,
            r.provider == provider,
            r.is_email_confirmed is None,
            r.phone is None,
            r.is_phone_confirmed is None,
            r.created_at == r.updated_at,
    {
        let now = now_micros();
        Identity {
            user_id,
            provider_user_id,
            email,
            provider,
            is_email_confirmed: None,
            phone: None,
            is_phone_confirmed: None,
            provider_data: "{}".to_owned(),
            created_at: now,
            updated_at: now,
        }
    }
}

impl OrphanIdentity {
    /// An orphan identity created now, with no phone.
    pub fn new(
        provider_user_id: String,
        email: Email,
        provider: Provider,
        is_email_confirmed: Option<bool>,
        provider_data: String,
    ) -> (r: OrphanIdentity)
        ensures
            r.provider_user_id@ == provider_user_id@,
            r.email@ == email@,
            r.provider == provider,
            r.is_email_confirmed == is_email_confirmed,
            r.phone is None,
            r.is_phone_confirmed is None,
            r.provider_data@ == provider_data@,
            r.created_at == r.updated_at,
    {
        let now = now_micros();
        OrphanIdentity {
            provider_user_id,
            email,
            provider,
            is_email_confirmed,
            phone: None,
            is_phone_confirmed: None,
            provider_data,
            created_at: now,
            updated_at: now,
        }
    }

    /// Binds the orphan identity to `user_id`.
    pub fn to_identity(self, user_id: user::Id) -> (r: Identity)
        ensures
            binds(r, self, user_id),
    {
        Identity {
            user_id,
            provider_user_id: self.provider_user_id,
            email: self.email,
            provider: self.provider,
            is_email_confirmed: self.is_email_confirmed,
            phone: self.phone,
            is_phone_confirmed: self.is_phone_confirmed,
            provider_data: self.provider_data,
            created_at: self.created_at,
            updated_at: self.updated_at,
        }
    }

    /// The provider asserted that the email is verified.
    pub fn email_verified(&self) -> (r: bool)
        ensures
            r == (self.is_email_confirmed == Some(true)),
    {
        match self.is_email_confirmed {
            Some(b) => b,
            None => false,
        }
    }
}

} // verus!

//! The protocol between the use cases and their collaborators: the durable
//! store, the expiring cache and the mail transport. A use case asks for one
//! [`Action`] at a time and is resumed with the [`Event`] that answers it.
use crate::email::Email;
use crate::identity::{Identity, Provider};
use crate::ids::{lemma_uuid_text_injective, lemma_uuid_text_len, uuid_text, uuid_text_of};
use crate::password::EncryptedPassword;
use crate::session::{self, Session};
use crate::user::{self, User};
use vstd::prelude::*;
use vstd::string::StringExecFns;

verus! {

/// How a store call failed.
#[derive(Debug, Clone)]
pub enum StoreError {
    /// No row or entry matched.
    NotFound,
    /// A unique constraint was violated.
    Conflict,
    /// Anything else, with its description.
    Other(String),
}

/// An entry of the expiring cache.
#[derive(Debug, Clone, Copy, PartialEq, Eq, Structural, Hash)]
pub enum CacheKey {
    /// A reset-password token that can still be redeemed.
    ResetPassword { user_id: user::Id, token_id: u128 },
    /// The refresh token of a live session; the value is the token's
    /// single-use identifier.
    RefreshToken { user_id: user::Id, session_id: session::Id },
}

/// A message for the mail transport.
#[derive(Debug, Clone)]
pub struct Mail {
    pub to: Email,
    pub subject: String,
    pub body: String,
}

/// One call to a collaborator.
#[derive(Debug, Clone)]
pub enum Action {
    FindUserByEmail(Email),
    InsertUser(User),
    /// Set the user's email confirmation time (microseconds since the epoch)
    /// if it is not set yet; answered by `Rows`: 1 when the row changed, 0
    /// when the email was already confirmed or the user is unknown.
    ConfirmUserEmail { user_id: user::Id, at: i64 },
    UpdatePassword { user_id: user::Id, password: EncryptedPassword },
    FindIdentity { provider: Provider, provider_user_id: String },
    InsertIdentity(Identity),
    /// Insert, or on a `(provider, provider_user_id)` collision update the
    /// stored profile data of that row.
    UpsertIdentity(Identity),
    InsertSession(Session),
    /// Store `value` under `key` for `ttl_secs` seconds.
    CacheSet { key: CacheKey, value: String, ttl_secs: u64 },
    /// Atomically read and remove an entry; answered by `Removed`.
    CacheGetAndDelete(CacheKey),
    CacheDelete(CacheKey),
}

/// The answer to an [`Action`].
#[derive(Debug, Clone)]
pub enum Event {
    User(User),
    Identity(Identity),
    /// The call succeeded and returns nothing.
    Done,
    /// An update succeeded and changed this many rows.
    Rows(u64),
    /// Whether the cache entry existed before the call removed it.
    Removed(bool),
    Failed(StoreError),
}

/// The expiring cache as the set of its live entries: how it answers an
/// action, and the entries after it. `CacheGetAndDelete` is atomic.
pub open spec fn cache_reply(cache: Set<CacheKey>, a: Action) -> (Event, Set<CacheKey>) {
    match a {
        Action::CacheSet { key, .. } => (Event::Done, cache.insert(key)),
        Action::CacheGetAndDelete(k) => (Event::Removed(cache.contains(k)), cache.remove(k)),
        Action::CacheDelete(k) => (Event::Removed(cache.contains(k)), cache.remove(k)),
        _ => (Event::Done, cache),
    }
}

/// Email confirmation in the user store, as a map from user to whether the
/// email is confirmed: how the store answers an action, and the map after it.
pub open spec fn confirm_reply(users: Map<user::Id, bool>, a: Action) -> (Event, Map<user::Id, bool>) {
    match a {
        Action::ConfirmUserEmail { user_id, .. } => if users.contains_key(user_id) && !users[user_id] {
            (Event::Rows(1), users.insert(user_id, true))
        } else {
            (Event::Rows(0), users)
        },
        _ => (Event::Done, users),
    }
}

/// The row key of an identity: provider and provider user id.
pub open spec fn identity_key(i: Identity) -> (Provider, Seq<char>) {
    (i.provider, i.provider_user_id@)
}

/// The identity store as a map from row key to row: how it answers an
/// action, and the rows after it. An upsert on an existing key refreshes the
/// profile fields and keeps the row's user.
pub open spec fn identity_reply(rows: Map<(Provider, Seq<char>), Identity>, a: Action) -> (Event, Map<(Provider, Seq<char>), Identity>) {
    match a {
        Action::FindIdentity { provider, provider_user_id } => if rows.contains_key((provider, provider_user_id@)) {
            (Event::Identity(rows[(provider, provider_user_id@)]), rows)
        } else {
            (Event::Failed(StoreError::NotFound), rows)
        },
        Action::UpsertIdentity(i) => if rows.contains_key(identity_key(i)) {
            let old = rows[identity_key(i)];
            (Event::Done, rows.insert(identity_key(i), Identity {
                provider_data: i.provider_data,
                email: i.email,
                is_email_confirmed: i.is_email_confirmed,
                phone: i.phone,
                is_phone_confirmed: i.is_phone_confirmed,
                ..old
            }))
        } else {
            (Event::Done, rows.insert(identity_key(i), i))
        },
        _ => (Event::Done, rows),
    }
}

/// The key text under which the cache stores `k`.
pub open spec fn cache_key_text(k: CacheKey) -> Seq<char> {
    match k {
        CacheKey::ResetPassword { user_id, token_id } =>
            "reset_password:"@ + uuid_text_of(user_id.0) + ":"@ + uuid_text_of(token_id),
        CacheKey::RefreshToken { user_id, session_id } =>
            "refresh_token:"@ + uuid_text_of(user_id.0) + ":"@ + uuid_text_of(session_id.0),
    }
}

/// Distinct cache entries are stored under distinct key texts.
pub proof fn lemma_cache_key_text_injective(a: CacheKey, b: CacheKey)
    requires
        cache_key_text(a) == cache_key_text(b),
    ensures
        a == b,
{
    reveal_strlit("reset_password:");
    reveal_strlit("refresh_token:");
    reveal_strlit(":");
    let t = cache_key_text(a);
    match (a, b) {
        (CacheKey::ResetPassword { user_id: u1, token_id: t1 }, CacheKey::ResetPassword { user_id: u2, token_id: t2 }) => {
            lemma_uuid_text_len(u1.0);
            lemma_uuid_text_len(u2.0);
            lemma_uuid_text_len(t1);
            lemma_uuid_text_len(t2);
            assert(uuid_text_of(u1.0) =~= t.subrange(15, 51));
            assert(uuid_text_of(u2.0) =~= t.subrange(15, 51));
            assert(uuid_text_of(t1) =~= t.subrange(52, 88));
            assert(uuid_text_of(t2) =~= t.subrange(52, 88));
            lemma_uuid_text_injective(u1.0, u2.0);
            lemma_uuid_text_injective(t1, t2);
        },
        (CacheKey::RefreshToken { user_id: u1, session_id: s1 }, CacheKey::RefreshToken { user_id: u2, session_id: s2 }) => {
            lemma_uuid_text_len(u1.0);
            lemma_uuid_text_len(u2.0);
            lemma_uuid_text_len(s1.0);
            lemma_uuid_text_len(s2.0);
            assert(uuid_text_of(u1.0) =~= t.subrange(14, 50));
            assert(uuid_text_of(u2.0) =~= t.subrange(14, 50));
            assert(uuid_text_of(s1.0) =~= t.subrange(51, 87));
            assert(uuid_text_of(s2.0) =~= t.subrange(51, 87));
            lemma_uuid_text_injective(u1.0, u2.0);
            lemma_uuid_text_injective(s1.0, s2.0);
        },
        (CacheKey::ResetPassword { user_id: u1, token_id: t1 }, CacheKey::RefreshToken { user_id: u2, session_id: s2 }) => {
            lemma_uuid_text_len(u1.0);
            lemma_uuid_text_len(t1);
            lemma_uuid_text_len(u2.0);
            lemma_uuid_text_len(s2.0);
            assert(cache_key_text(a).len() != cache_key_text(b).len());
        },
        (CacheKey::RefreshToken { user_id: u1, session_id: s1 }, CacheKey::ResetPassword { user_id: u2, token_id: t2 }) => {
            lemma_uuid_text_len(u1.0);
            lemma_uuid_text_len(s1.0);
            lemma_uuid_text_len(u2.0);
            lemma_uuid_text_len(t2);
            assert(cache_key_text(a).len() != cache_key_text(b).len());
        },
    }
}

/// The redis client that backs the cache, carried through unopened.
#[verifier::external_type_specification]
#[verifier::external_body]
pub struct ExRedisClient(redis::Client);

/// Key layout and refresh-token lifetime of the expiring cache.
#[derive(Debug)]
pub struct TokenRepository {
    redis_client: redis::Client,
    refresh_token_expiry_secs: u64,
}

impl TokenRepository {
    pub closed spec fn refresh_ttl(&self) -> u64 {
        self.refresh_token_expiry_secs
    }

    pub fn new(redis_client: redis::Client, refresh_token_expiry_secs: u64) -> (r: TokenRepository)
        ensures
            r.refresh_ttl() == refresh_token_expiry_secs,
    {
        TokenRepository { redis_client, refresh_token_expiry_secs }
    }

    pub fn client(&self) -> &redis::Client {
        &self.redis_client
    }

    pub fn refresh_token_expiry_secs(&self) -> (r: u64)
        ensures
            r == self.refresh_ttl(),
    {
        self.refresh_token_expiry_secs
    }

    /// The key text under which `key` is stored.
    pub fn key_text(key: &CacheKey) -> (r: String)
        ensures
            r@ == cache_key_text(*key),
    {
        let (prefix, a, b) = match *key {
            CacheKey::ResetPassword { user_id, token_id } => ("reset_password:", user_id.0, token_id),
            CacheKey::RefreshToken { user_id, session_id } => ("refresh_token:", user_id.0, session_id.0),
        };
        let mut r = prefix.to_owned();
        r.append(uuid_text(a).as_str());
        r.append(":");
        r.append(uuid_text(b).as_str());
        r
    }
}

} // verus!

//! Properties that relate several calls, or hold of every state.
use crate::authenticator::{sign_in_verdict, stored_account, SignInVerdict};
use crate::identity::{binds, Identity, OrphanIdentity, Provider};
use crate::session;
use crate::store::{cache_key_text, cache_reply, confirm_reply, identity_key, identity_reply, lemma_cache_key_text_injective, Action, CacheKey, Event};
use crate::ids::{uuid_text_of, uuid_value_of};
use crate::token::{
    expiry, field, fields_accepted, fields_describe, jwt_fields_of, jwt_signed_of, kind_name, kind_of_type, lemma_wire_kind_and_subject,
    opt_text, reads_back, wire_fields, TokenClaims, TokenFactory, TokenKind, TokenType,
};
use crate::user::{self, User};
use vstd::prelude::*;

verus! {

/// An account stored by sign-up passes the sign-in decision with the same
/// password (the sign-in then starts a session for that account's id), when
/// unverified sign-in is allowed.
pub proof fn sign_up_then_sign_in(u: User, email: Seq<char>, password: Seq<char>)
    requires
        stored_account(u, email, password),
    ensures
        sign_in_verdict(true, u, password) == SignInVerdict::Proceed,
{
}

/// With the right password, an unconfirmed account is refused as not
/// verified when unverified sign-in is disabled, and passes when it is
/// enabled.
pub proof fn unverified_sign_in(u: User, password: Seq<char>)
    requires
        u.encrypted_password matches Some(h) && crate::password::hash_matches(h@, password),
        u.email_confirmed_at is None,
    ensures
        sign_in_verdict(false, u, password) == SignInVerdict::NotVerified,
        sign_in_verdict(true, u, password) == SignInVerdict::Proceed,
{
}

/// The fields that carry a claim set of one kind are never accepted as a
/// claim set of another kind, whatever the audiences and the time, even
/// though the signature would check out.
pub proof fn kind_mismatch_rejected(c: TokenClaims, expected: TokenKind, aud: Seq<Seq<char>>, now: u64)
    requires
        c.kind != expected,
    ensures
        !fields_accepted(wire_fields(c), expected, aud, now),
{
    reveal_strlit("access");
    reveal_strlit("refresh");
    reveal_strlit("confirm_email");
    reveal_strlit("reset_password");
    lemma_wire_kind_and_subject(c);
    assert(kind_name(c.kind).len() != kind_name(expected).len());
}

/// A token signed for a claim set of one kind is accepted as no other kind,
/// whichever secret that kind is checked with.
pub proof fn tokens_keep_their_kind(f: TokenFactory, t: Seq<char>, c0: TokenClaims, expected: TokenKind, c: TokenClaims)
    requires
        reads_back(t, wire_fields(c0), f.secret_of(c0.kind)),
        c0.kind != expected,
    ensures
        !f.accepts(t, expected, c),
{
    lemma_wire_kind_and_subject(c0);
    reveal_strlit("access");
    reveal_strlit("refresh");
    reveal_strlit("confirm_email");
    reveal_strlit("reset_password");
    assert(kind_name(c0.kind).len() != kind_name(expected).len());
    if f.accepts(t, expected, c) {
        let g = jwt_fields_of(t, f.secret_of(expected))->0;
        assert(jwt_fields_of(t, f.secret_of(c0.kind)) is Some);
        assert(jwt_fields_of(t, f.secret_of(c0.kind)) == jwt_fields_of(t, f.secret_of(expected)));
        let now = choose|now: u64| #[trigger] fields_accepted(g, expected, f.audiences(), now) && now <= c.exp;
        assert(field(g, "kind"@) == field(wire_fields(c0), "kind"@));
        assert(false);
    }
}

/// An access token is accepted as no other kind.
pub proof fn access_token_kind_only(f: TokenFactory, t: Seq<char>, sub: u128, session_id: u128, data: Option<Seq<char>>, expected: TokenKind, c: TokenClaims)
    requires
        f.is_access_token(t, sub, session_id, data),
        expected != TokenKind::Access,
    ensures
        !f.accepts(t, expected, c),
{
    let c0 = choose|c0: TokenClaims|
        c0.kind == TokenKind::Access && c0.sub == sub && c0.session_id == Some(session_id)
        && c0.iss@ == f.issuer() && c0.aud.deep_view() == f.audiences()
        && c0.exp == expiry(c0.iat, f.duration_of(TokenKind::Access))
        && c0.jti is None && opt_text(c0.data) == data
        && t == #[trigger] jwt_signed_of(wire_fields(c0), f.secret_of(TokenKind::Access))
        && reads_back(t, wire_fields(c0), f.secret_of(TokenKind::Access))
        && uuid_value_of(uuid_text_of(sub)) == Some(sub);
    tokens_keep_their_kind(f, t, c0, expected, c);
}

/// A refresh token is accepted as no other kind.
pub proof fn refresh_token_kind_only(f: TokenFactory, t: Seq<char>, sub: u128, session_id: u128, jti: u128, expected: TokenKind, c: TokenClaims)
    requires
        f.is_refresh_token(t, sub, session_id, jti),
        expected != TokenKind::Refresh,
    ensures
        !f.accepts(t, expected, c),
{
    let c0 = choose|c0: TokenClaims|
        c0.kind == TokenKind::Refresh && c0.sub == sub && c0.jti == Some(jti)
        && c0.iss@ == f.issuer() && c0.aud.deep_view() == f.audiences()
        && c0.exp == expiry(c0.iat, f.duration_of(TokenKind::Refresh))
        && c0.session_id == Some(session_id) && c0.data is None
        && t == #[trigger] jwt_signed_of(wire_fields(c0), f.secret_of(TokenKind::Refresh))
        && reads_back(t, wire_fields(c0), f.secret_of(TokenKind::Refresh))
        && uuid_value_of(uuid_text_of(sub)) == Some(sub);
    tokens_keep_their_kind(f, t, c0, expected, c);
}

/// A confirm-email or reset-password token is accepted as no other kind; in
/// particular not as the other of the two, although both are signed with one
/// secret and the signature checks out.
pub proof fn generic_token_kind_only(
    f: TokenFactory,
    t: Seq<char>,
    issued: TokenType,
    sub: u128,
    exp: Option<u64>,
    jti: Option<u128>,
    expected: TokenKind,
    c: TokenClaims,
)
    requires
        f.is_generic_token(t, issued, sub, exp, jti),
        expected != kind_of_type(issued),
    ensures
        !f.accepts(t, expected, c),
{
    let c0 = choose|c0: TokenClaims|
        c0.kind == kind_of_type(issued) && c0.sub == sub && c0.jti == jti
        && c0.iss@ == f.issuer() && c0.aud.deep_view() == f.audiences()
        && c0.exp == expiry(c0.iat, match exp { Some(d) => d, None => f.duration_of(kind_of_type(issued)) })
        && c0.session_id is None && c0.data is None
        && t == #[trigger] jwt_signed_of(wire_fields(c0), f.secret_of(kind_of_type(issued)))
        && reads_back(t, wire_fields(c0), f.secret_of(kind_of_type(issued)))
        && uuid_value_of(uuid_text_of(sub)) == Some(sub);
    tokens_keep_their_kind(f, t, c0, expected, c);
}

/// An access token names, in every reading that decoding accepts, the user
/// it was issued for.
pub proof fn access_token_subject(f: TokenFactory, t: Seq<char>, sub: u128, session_id: u128, data: Option<Seq<char>>, c: TokenClaims)
    requires
        f.is_access_token(t, sub, session_id, data),
        f.accepts(t, TokenKind::Access, c),
    ensures
        c.sub == sub,
{
    let c0 = choose|c0: TokenClaims|
        c0.kind == TokenKind::Access && c0.sub == sub && c0.session_id == Some(session_id)
        && c0.iss@ == f.issuer() && c0.aud.deep_view() == f.audiences()
        && c0.exp == expiry(c0.iat, f.duration_of(TokenKind::Access))
        && c0.jti is None && opt_text(c0.data) == data
        && t == #[trigger] jwt_signed_of(wire_fields(c0), f.secret_of(TokenKind::Access))
        && reads_back(t, wire_fields(c0), f.secret_of(TokenKind::Access))
        && uuid_value_of(uuid_text_of(sub)) == Some(sub);
    lemma_wire_kind_and_subject(c0);
    let g = jwt_fields_of(t, f.secret_of(TokenKind::Access))->0;
    assert(field(g, "sub"@) == field(wire_fields(c0), "sub"@));
    assert(fields_describe(g, TokenKind::Access, f.audiences(), c));
}

/// Two redemptions of one reset-password token, in whichever order the
/// cache serializes them. Both read the same cache entry (the one that
/// `reset_password` asks to read and remove), and the cache answers the first
/// `Removed(true)`, on which `reset_password_step` stores the new password,
/// and the second `Removed(false)`, on which it reports `InvalidToken`.
pub proof fn single_redemption(f: TokenFactory, token: Seq<char>, c1: TokenClaims, c2: TokenClaims, cache: Set<CacheKey>)
    requires
        f.accepts(token, TokenKind::ResetPassword, c1),
        f.accepts(token, TokenKind::ResetPassword, c2),
        c1.jti is Some,
        cache.contains(CacheKey::ResetPassword { user_id: user::Id(c1.sub), token_id: c1.jti->0 }),
    ensures
        c2.jti == c1.jti && c2.sub == c1.sub,
        ({
            let k = CacheKey::ResetPassword { user_id: user::Id(c1.sub), token_id: c1.jti->0 };
            let (first, after) = cache_reply(cache, Action::CacheGetAndDelete(k));
            let (second, _) = cache_reply(after, Action::CacheGetAndDelete(k));
            first == Event::Removed(true) && second == Event::Removed(false)
        }),
{
}

/// Confirming an email twice: the store changes the row once, so
/// `confirm_email_step` answers `Ok(true)` and then `Ok(false)`.
pub proof fn confirm_twice(users: Map<user::Id, bool>, user_id: user::Id, at1: i64, at2: i64)
    requires
        users.contains_key(user_id),
        !users[user_id],
    ensures
        ({
            let (first, after) = confirm_reply(users, Action::ConfirmUserEmail { user_id, at: at1 });
            let (second, _) = confirm_reply(after, Action::ConfirmUserEmail { user_id, at: at2 });
            first == Event::Rows(1) && second == Event::Rows(0)
        }),
{
}

/// Signing out session `a` (the deletion that `sign_out` asks for) removes
/// its refresh-token entry and leaves every other entry as it was, in
/// particular that of another session `b` of the same user; the two entries
/// are stored under different key texts.
pub proof fn sign_out_is_per_session(cache: Set<CacheKey>, user_id: user::Id, a: session::Id, b: session::Id)
    requires
        a != b,
    ensures
        ({
            let (answer, after) = cache_reply(cache, Action::CacheDelete(CacheKey::RefreshToken { user_id, session_id: a }));
            &&& answer == Event::Removed(cache.contains(CacheKey::RefreshToken { user_id, session_id: a }))
            &&& !after.contains(CacheKey::RefreshToken { user_id, session_id: a })
            &&& after.contains(CacheKey::RefreshToken { user_id, session_id: b })
                == cache.contains(CacheKey::RefreshToken { user_id, session_id: b })
        }),
        cache_key_text(CacheKey::RefreshToken { user_id, session_id: a })
            != cache_key_text(CacheKey::RefreshToken { user_id, session_id: b }),
{
    if cache_key_text(CacheKey::RefreshToken { user_id, session_id: a })
        == cache_key_text(CacheKey::RefreshToken { user_id, session_id: b }) {
        lemma_cache_key_text_injective(
            CacheKey::RefreshToken { user_id, session_id: a },
            CacheKey::RefreshToken { user_id, session_id: b },
        );
    }
}

/// Two OAuth sign-ins with the same provider account. The first either
/// finds the row (and signs in its user) or upserts the identity `first`
/// that `link_step` bound to some user. The second's lookup, the action that
/// `oauth_sign_in` asks for, then finds that row with the same user, on
/// which `oauth_step` starts the session for that user; an upsert for the
/// same account keeps the rows' keys and the row's user, so the account
/// never gets a second row.
pub proof fn oauth_relogin_same_user(
    rows: Map<(Provider, Seq<char>), Identity>,
    orphan: OrphanIdentity,
    first: Identity,
    again: Identity,
    user_id: user::Id,
    provider_user_id: String,
)
    requires
        binds(first, orphan, user_id),
        provider_user_id@ == orphan.provider_user_id@,
        identity_key(again) == identity_key(first),
    ensures
        ({
            let k = identity_key(first);
            let user1 = if rows.contains_key(k) { rows[k].user_id } else { first.user_id };
            let rows1 = if rows.contains_key(k) { rows } else { identity_reply(rows, Action::UpsertIdentity(first)).1 };
            let (found, rows2) = identity_reply(rows1, Action::FindIdentity { provider: orphan.provider, provider_user_id });
            let rows3 = identity_reply(rows1, Action::UpsertIdentity(again)).1;
            &&& found matches Event::Identity(i) && i.user_id == user1
            &&& rows2 == rows1
            &&& rows1.dom() == rows.dom().insert(k)
            &&& rows3.dom() == rows1.dom()
            &&& rows3[k].user_id == user1
        }),
{
    let k = identity_key(first);
    if !rows.contains_key(k) {
        let rows1 = identity_reply(rows, Action::UpsertIdentity(first)).1;
        assert(rows1.dom() =~= rows.dom().insert(k));
        let rows3 = identity_reply(rows1, Action::UpsertIdentity(again)).1;
        assert(rows3.dom() =~= rows1.dom());
    } else {
        assert(rows.dom() =~= rows.dom().insert(k));
        let rows3 = identity_reply(rows, Action::UpsertIdentity(again)).1;
        assert(rows3.dom() =~= rows.dom());
    }
}

} // verus!

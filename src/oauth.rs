//! The anti-forgery handshake around an OAuth redirect, and the mapping of a
//! provider's profile into an orphan identity.
//!
//! `initiate` yields the authorization URL and the random `state` value to
//! keep in a short-lived server-side session addressed by a cookie. The
//! callback then loads that session, destroys it, and compares the stored
//! value with the `state` it received; only on equality does it exchange the
//! code and fetch the profile.
use crate::authenticator::Authenticator;
use crate::config::{provider_entry, url_serialized_of, ProviderSettings};
use crate::email::{valid_email_of, Email};
use crate::identity::{OrphanIdentity, Provider};
use oauth2::basic::BasicClient;
use oauth2::{AuthUrl, ClientId, CsrfToken, RedirectUrl, Scope};
use vstd::prelude::*;

verus! {

/// The authorization URL that oauth2 builds for a client with these
/// settings, these scopes and this `state` value, when the authorization and
/// redirect URLs parse.
pub uninterp spec fn authorize_url_of(
    auth_url: Seq<char>,
    client_id: Seq<char>,
    redirect_url: Seq<char>,
    scopes: Seq<Seq<char>>,
    state: Seq<char>,
) -> Option<Seq<char>>;

/// Relies on `oauth2::CsrfToken::new_random`: a random, base64-encoded
/// 128-bit value. Nothing is known of it.
#[verifier::external_body]
fn random_state() -> (r: String) {
    CsrfToken::new_random().secret().clone()
}

/// Relies on oauth2 4.4: `AuthUrl::new` and `RedirectUrl::new` parse their
/// text with `url::Url::parse`; `BasicClient::new`, `set_redirect_uri`,
/// `authorize_url`, `add_scopes` and `url` do not fail, and `url` embeds the
/// given token as the `state` parameter.
#[verifier::external_body]
fn authorize_with_state(s: &ProviderSettings, scopes: Vec<String>, state: &String) -> (r: Option<String>)
    ensures
        r is Some <==> (url_serialized_of(s.auth_url@) is Some && url_serialized_of(s.redirect_url@) is Some),
        authorize_url_of(s.auth_url@, s.client_id@, s.redirect_url@, scopes.deep_view(), state@) == match r {
            Some(u) => Some(u@),
            None => None::<Seq<char>>,
        },
{
    let client = BasicClient::new(ClientId::new(s.client_id.clone()), None, AuthUrl::new(s.auth_url.clone()).ok()?, None)
        .set_redirect_uri(RedirectUrl::new(s.redirect_url.clone()).ok()?);
    let token = CsrfToken::new(state.clone());
    let (url, _) = client.authorize_url(|| token).add_scopes(scopes.into_iter().map(Scope::new)).url();
    Some(url.to_string())
}

/// Why an OAuth handshake stopped.
#[derive(Debug, Clone)]
pub enum OAuthError {
    /// The provider is not configured.
    Unsupported,
    /// The `state` value does not match the stored one, or there is none.
    CsrfMismatch,
    /// The provider's answer cannot be used.
    InvalidProfile(String),
    /// A collaborator failed.
    Internal(String),
}

/// A provider's profile, reduced to what sign-in needs; `raw` is the whole
/// profile as JSON text.
#[derive(Debug, Clone)]
pub struct ProviderProfile {
    pub id: String,
    pub email: Option<String>,
    pub email_verified: Option<bool>,
    pub raw: String,
}

/// One address listed by a provider that reports several.
#[derive(Debug, Clone)]
pub struct ProviderEmail {
    pub email: String,
    pub primary: bool,
    pub verified: bool,
}

/// One call the handshake needs made.
#[derive(Debug, Clone)]
pub enum HandshakeAction {
    /// Read the anti-forgery value stored in the session behind the cookie.
    LoadCsrfSession(String),
    /// Destroy the session behind the cookie.
    DestroyCsrfSession(String),
    /// Exchange the authorization code for a provider access token.
    ExchangeCode { provider: Provider, code: String },
    /// Fetch the profile with the provider access token.
    FetchProfile { provider: Provider, access_token: String },
}

/// The answer to a [`HandshakeAction`].
#[derive(Debug, Clone)]
pub enum HandshakeEvent {
    CsrfSession(Option<String>),
    Done,
    ProviderToken(String),
    Profile(ProviderProfile),
    Failed(String),
}

/// Where a callback stands.
#[derive(Debug, Clone)]
pub enum Callback {
    Load { provider: Provider, code: String, state: String, cookie: String },
    Destroy { provider: Provider, code: String, matched: bool },
    Exchange { provider: Provider },
    Fetch { provider: Provider },
}

/// What the handshake does next.
#[derive(Debug)]
pub enum HandshakeStep {
    Perform(Callback, HandshakeAction),
    Finish(Result<OrphanIdentity, OAuthError>),
}

/// The scopes asked of each provider.
pub open spec fn scopes_of(p: Provider) -> Seq<Seq<char>> {
    match p {
        Provider::Google => seq![
            "https://www.googleapis.com/auth/userinfo.profile"@,
            "https://www.googleapis.com/auth/userinfo.email"@,
            "openid"@,
        ],
        Provider::Github => seq!["user:email"@],
        Provider::Discord => seq!["identify"@],
        _ => Seq::empty(),
    }
}

pub fn provider_scopes(p: Provider) -> (r: Vec<String>)
    ensures
        r.deep_view() == scopes_of(p),
{
    let mut r: Vec<String> = Vec::new();
    match p {
        Provider::Google => {
            r.push("https://www.googleapis.com/auth/userinfo.profile".to_owned());
            r.push("https://www.googleapis.com/auth/userinfo.email".to_owned());
            r.push("openid".to_owned());
        },
        Provider::Github => {
            r.push("user:email".to_owned());
        },
        Provider::Discord => {
            r.push("identify".to_owned());
        },
        _ => {},
    }
    assert(r.deep_view() =~= scopes_of(p));
    r
}

/// Index of the first address that is both primary and verified.
pub fn primary_verified_email(emails: &Vec<ProviderEmail>) -> (r: Option<usize>)
    ensures
        r matches Some(i) ==> i < emails@.len() && emails@[i as int].primary && emails@[i as int].verified
            && forall|j: int| 0 <= j < i ==> !(#[trigger] emails@[j].primary && emails@[j].verified),
        r is None ==> forall|j: int| 0 <= j < emails@.len() ==> !(#[trigger] emails@[j].primary && emails@[j].verified),
{
    let mut i: usize = 0;
    while i < emails.len()
        invariant
            i <= emails@.len(),
            forall|j: int| 0 <= j < i ==> !(#[trigger] emails@[j].primary && emails@[j].verified),
        decreases emails@.len() - i,
    {
        if emails[i].primary && emails[i].verified {
            return Some(i);
        }
        i = i + 1;
    }
    None
}

/// The profile yields an orphan identity: it has a valid email, and Discord
/// also states whether that email is verified.
pub open spec fn profile_usable(provider: Provider, p: ProviderProfile) -> bool {
    &&& p.email matches Some(e) && valid_email_of(e@)
    &&& (provider == Provider::Discord ==> p.email_verified is Some)
}

/// `o` is the orphan identity that a usable profile yields.
pub open spec fn profile_yields(provider: Provider, p: ProviderProfile, o: OrphanIdentity) -> bool {
    &&& o.provider == provider
    &&& o.provider_user_id@ == p.id@
    &&& o.email@ == p.email->0@
    &&& o.is_email_confirmed == p.email_verified
    &&& o.provider_data@ == p.raw@
    &&& o.phone is None
    &&& o.is_phone_confirmed is None
}

/// Maps a provider's profile into an orphan identity.
pub fn profile_identity(provider: Provider, profile: ProviderProfile) -> (r: Result<OrphanIdentity, OAuthError>)
    ensures
        r is Ok <==> profile_usable(provider, profile),
        r is Err ==> r matches Err(OAuthError::InvalidProfile(_)),
        r matches Ok(o) ==> profile_yields(provider, profile, o),
{
    if provider == Provider::Discord && profile.email_verified.is_none() {
        return Err(OAuthError::InvalidProfile("the provider does not state whether the email is verified".to_owned()));
    }
    let email = match &profile.email {
        Some(e) => match Email::parse(e.as_str()) {
            Ok(e) => e,
            Err(_) => return Err(OAuthError::InvalidProfile("invalid email attached to the account".to_owned())),
        },
        None => return Err(OAuthError::InvalidProfile("a valid email is required".to_owned())),
    };
    Ok(OrphanIdentity::new(profile.id, email, provider, profile.email_verified, profile.raw))
}

impl Authenticator {
    /// The authorization URL of `provider` and the anti-forgery value it
    /// embeds as `state`: a fresh random value.
    pub fn oauth_initiate(&self, provider: Provider) -> (r: Result<(String, String), OAuthError>)
        ensures
            provider_entry(self.oauth_settings(), provider) is None ==> r matches Err(OAuthError::Unsupported),
            provider_entry(self.oauth_settings(), provider) matches Some(s) ==> (r is Ok <==>
                (url_serialized_of(s.auth_url@) is Some && url_serialized_of(s.redirect_url@) is Some)),
            provider_entry(self.oauth_settings(), provider) matches Some(s) ==> (r matches Ok((u, st)) ==>
                authorize_url_of(s.auth_url@, s.client_id@, s.redirect_url@, scopes_of(provider), st@) == Some(u@)),
            r is Err ==> (r matches Err(OAuthError::Unsupported) || r matches Err(OAuthError::Internal(_))),
    {
        let settings = match self.get_oauth_client(provider) {
            Some(s) => s,
            None => return Err(OAuthError::Unsupported),
        };
        let state = random_state();
        match authorize_with_state(settings, provider_scopes(provider), &state) {
            Some(url) => Ok((url, state)),
            None => Err(OAuthError::Internal("invalid provider URL in configuration".to_owned())),
        }
    }

    /// Starts a callback: without a configured provider it stops with
    /// `Unsupported`, without a cookie with `CsrfMismatch`; otherwise the
    /// stored anti-forgery value is loaded. Nothing reaches the provider.
    pub fn oauth_callback(&self, provider: Provider, code: String, state: String, cookie: Option<String>) -> (r: HandshakeStep)
        ensures
            provider_entry(self.oauth_settings(), provider) is None ==> r matches HandshakeStep::Finish(Err(OAuthError::Unsupported)),
            provider_entry(self.oauth_settings(), provider) is Some && cookie is None ==> r matches HandshakeStep::Finish(Err(OAuthError::CsrfMismatch)),
            provider_entry(self.oauth_settings(), provider) is Some ==> (cookie matches Some(c) ==> (r matches HandshakeStep::Perform(
                Callback::Load { provider: p, code: k, state: s, cookie: c2 }, HandshakeAction::LoadCsrfSession(c3))
                && p == provider && k == code && s == state && c2 == c && c3@ == c@)),
    {
        if self.get_oauth_client(provider).is_none() {
            return HandshakeStep::Finish(Err(OAuthError::Unsupported));
        }
        match cookie {
            Some(cookie) => {
                let load = cookie.clone();
                HandshakeStep::Perform(Callback::Load { provider, code, state, cookie }, HandshakeAction::LoadCsrfSession(load))
            },
            None => HandshakeStep::Finish(Err(OAuthError::CsrfMismatch)),
        }
    }

    /// Advances a callback. The stored session is destroyed whether or not
    /// its value matches `state`; a mismatch then ends with `CsrfMismatch`,
    /// and the code is exchanged only after a match.
    pub fn oauth_callback_step(&self, cb: Callback, event: HandshakeEvent) -> (r: HandshakeStep)
        ensures
            cb matches Callback::Load { provider, code, state, cookie } ==> (match event {
                HandshakeEvent::CsrfSession(Some(stored)) => r matches HandshakeStep::Perform(
                    Callback::Destroy { provider: p, code: k, matched }, HandshakeAction::DestroyCsrfSession(c))
                    && p == provider && k == code && c@ == cookie@ && matched == (stored@ == state@),
                HandshakeEvent::CsrfSession(None) => r matches HandshakeStep::Finish(Err(OAuthError::CsrfMismatch)),
                _ => r matches HandshakeStep::Finish(Err(OAuthError::Internal(_))),
            }),
            cb matches Callback::Destroy { provider, code, matched } ==> (if !matched {
                r matches HandshakeStep::Finish(Err(OAuthError::CsrfMismatch))
            } else if event is Done {
                r matches HandshakeStep::Perform(Callback::Exchange { provider: p }, HandshakeAction::ExchangeCode { provider: q, code: k })
                    && p == provider && q == provider && k == code
            } else {
                r matches HandshakeStep::Finish(Err(OAuthError::Internal(_)))
            }),
            cb matches Callback::Exchange { provider } ==> (match event {
                HandshakeEvent::ProviderToken(t) => r matches HandshakeStep::Perform(
                    Callback::Fetch { provider: p }, HandshakeAction::FetchProfile { provider: q, access_token: a })
                    && p == provider && q == provider && a == t,
                _ => r matches HandshakeStep::Finish(Err(OAuthError::Internal(_))),
            }),
            cb matches Callback::Fetch { provider } ==> (match event {
                HandshakeEvent::Profile(profile) => if profile_usable(provider, profile) {
                    r matches HandshakeStep::Finish(Ok(o)) && profile_yields(provider, profile, o)
                } else {
                    r matches HandshakeStep::Finish(Err(OAuthError::InvalidProfile(_)))
                },
                _ => r matches HandshakeStep::Finish(Err(OAuthError::Internal(_))),
            }),
            r matches HandshakeStep::Perform(_, HandshakeAction::ExchangeCode { .. }) ==> cb matches Callback::Destroy { matched: true, .. },
    {
        match cb {
            Callback::Load { provider, code, state, cookie } => match event {
                HandshakeEvent::CsrfSession(Some(stored)) => {
                    let matched = stored == state;
                    HandshakeStep::Perform(Callback::Destroy { provider, code, matched }, HandshakeAction::DestroyCsrfSession(cookie))
                },
                HandshakeEvent::CsrfSession(None) => HandshakeStep::Finish(Err(OAuthError::CsrfMismatch)),
                HandshakeEvent::Failed(d) => HandshakeStep::Finish(Err(OAuthError::Internal(d))),
                _ => HandshakeStep::Finish(Err(OAuthError::Internal("unexpected answer".to_owned()))),
            },
            Callback::Destroy { provider, code, matched } => {
                if !matched {
                    return HandshakeStep::Finish(Err(OAuthError::CsrfMismatch));
                }
                match event {
                    HandshakeEvent::Done => HandshakeStep::Perform(
                        Callback::Exchange { provider },
                        HandshakeAction::ExchangeCode { provider, code },
                    ),
                    HandshakeEvent::Failed(d) => HandshakeStep::Finish(Err(OAuthError::Internal(d))),
                    _ => HandshakeStep::Finish(Err(OAuthError::Internal("unexpected answer".to_owned()))),
                }
            },
            Callback::Exchange { provider } => match event {
                HandshakeEvent::ProviderToken(access_token) => HandshakeStep::Perform(
                    Callback::Fetch { provider },
                    HandshakeAction::FetchProfile { provider, access_token },
                ),
                HandshakeEvent::Failed(d) => HandshakeStep::Finish(Err(OAuthError::Internal(d))),
                _ => HandshakeStep::Finish(Err(OAuthError::Internal("unexpected answer".to_owned()))),
            },
            Callback::Fetch { provider } => match event {
                HandshakeEvent::Profile(profile) => HandshakeStep::Finish(profile_identity(provider, profile)),
                HandshakeEvent::Failed(d) => HandshakeStep::Finish(Err(OAuthError::Internal(d))),
                _ => HandshakeStep::Finish(Err(OAuthError::Internal("unexpected answer".to_owned()))),
            },
        }
    }
}

} // verus!

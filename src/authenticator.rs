//! The use cases. Each one is a start function and a step function: the
//! start function returns the first collaborator call to make, and the step
//! function takes the state and the answer to the last call and returns the
//! next call or the result.
use crate::config::{provider_entry, url_serialized_of, CallbackUrl, Config, OAuthSettings, ProviderSettings};
use crate::email::Email;
use crate::identity::{binds, same_identity, Identity, OrphanIdentity, Provider};
use crate::ids::{now_micros, random_uuid, uuid_text, uuid_text_of};
use crate::password::{hash_matches, Password};
use crate::session::{self, Session};
use crate::store::{Action, CacheKey, Event, Mail, StoreError};
use crate::token::{AuthTokens, TokenFactory, TokenKind, TokenType};
use crate::user::{self, User};
use vstd::prelude::*;
use vstd::string::StringExecFns;

verus! {

/// The outcomes a caller of the use cases can see.
#[derive(Debug, Clone)]
pub enum Error {
    /// The email already belongs to an account.
    EmailAlreadyUsed(String),
    /// Unknown user, no password, or a wrong password: never told apart.
    InvalidCredentials,
    /// A collaborator failed.
    InternalError(String),
    /// The account's email is not confirmed and that is required.
    NotVerifiedAccount(String),
    /// Bad signature, expired, wrong audience, wrong kind, or already used.
    InvalidToken,
}

/// The sentence that describes an error.
pub open spec fn error_message(e: Error) -> Seq<char> {
    match e {
        Error::EmailAlreadyUsed(s) => "Provided email is already used: "@ + s@ + "."@,
        Error::InvalidCredentials => "Provided credentials are invalid."@,
        Error::InternalError(d) => "Internal Error: "@ + d@ + "."@,
        Error::NotVerifiedAccount(s) => "Can't log in unverified user: "@ + s@ + "."@,
        Error::InvalidToken => "Provided Token is invalid."@,
    }
}

impl Error {
    /// A sentence describing the error.
    pub fn message(&self) -> (r: String)
        ensures
            r@ == error_message(*self),
    {
        match self {
            Error::EmailAlreadyUsed(e) => {
                let mut r = "Provided email is already used: ".to_owned();
                r.append(e.as_str());
                r.append(".");
                r
            },
            Error::InvalidCredentials => "Provided credentials are invalid.".to_owned(),
            Error::InternalError(d) => {
                let mut r = "Internal Error: ".to_owned();
                r.append(d.as_str());
                r.append(".");
                r
            },
            Error::NotVerifiedAccount(e) => {
                let mut r = "Can't log in unverified user: ".to_owned();
                r.append(e.as_str());
                r.append(".");
                r
            },
            Error::InvalidToken => "Provided Token is invalid.".to_owned(),
        }
    }
}

/// What a use case does next.
#[derive(Debug)]
pub enum Step<S, T> {
    /// Perform the action, then resume with the state and the answer.
    Perform(S, Action),
    /// The use case is over. The mail, if any, is sent in the background and
    /// its failure does not change the result.
    Finish(Result<T, Error>, Option<Mail>),
}

/// The link that carries `token`: the callback with `token=<token>` added
/// to its query.
pub open spec fn link_text(base: Seq<char>, token: Seq<char>) -> Seq<char> {
    url_with_pair_of(base, "token"@, token)
}

/// The URL `base` with the query pair `key=value` appended
/// (form-urlencoded).
pub uninterp spec fn url_with_pair_of(base: Seq<char>, key: Seq<char>, value: Seq<char>) -> Seq<char>;

/// Relies on `url::Url::parse`, `Url::query_pairs_mut().append_pair` and the
/// URL's serialization; appending a pair to a parsed URL does not fail.
#[verifier::external_body]
fn url_with_pair(base: &str, key: &str, value: &str) -> (r: Option<String>)
    ensures
        r is Some <==> url_serialized_of(base@) is Some,
        r matches Some(u) ==> u@ == url_with_pair_of(base@, key@, value@),
{
    let mut url = url::Url::parse(base).ok()?;
    url.query_pairs_mut().append_pair(key, value);
    Some(url.to_string())
}

/// `m` is the mail to `to` that carries the link for `token`.
pub open spec fn link_mail(m: Option<Mail>, to: Seq<char>, subject: Seq<char>, intro: Seq<char>, base: Seq<char>, token: Seq<char>) -> bool {
    m matches Some(mail) && mail.to@ == to && mail.subject@ == subject
        && mail.body@ == intro + link_text(base, token)
}

fn store_failure(e: StoreError) -> (r: Error)
    ensures
        r is InternalError,
{
    match e {
        StoreError::NotFound => Error::InternalError("not found".to_owned()),
        StoreError::Conflict => Error::InternalError("unique constraint violated".to_owned()),
        StoreError::Other(d) => Error::InternalError(d),
    }
}

fn unexpected() -> (r: Error)
    ensures
        r is InternalError,
{
    Error::InternalError("unexpected answer from a collaborator".to_owned())
}

/// Where a session flow stands.
#[derive(Debug, Clone)]
pub enum SessionFlow {
    /// Waiting for the session row to be stored.
    Insert { user_id: user::Id, session_id: session::Id, data: Option<String> },
    /// Waiting for the refresh token to be registered in the cache.
    Register { tokens: AuthTokens },
}

/// Where an email sign-up stands.
#[derive(Debug, Clone)]
pub enum SignUp {
    Lookup { email: Email, password: Password },
    InsertUser { user_id: user::Id, email: Email },
    InsertIdentity { user_id: user::Id, email: Email },
}

/// Where an email sign-in stands.
#[derive(Debug, Clone)]
pub enum SignIn {
    Lookup { password: Password, user_agent: String, ip: String },
    Session(SessionFlow),
}

/// Where an email confirmation stands.
#[derive(Debug, Clone, Copy)]
pub enum ConfirmEmail {
    Update,
}

/// Where the start of a password reset stands.
#[derive(Debug, Clone)]
pub enum InitiateReset {
    Lookup,
    Store { user_id: user::Id, email: Email, token_id: u128 },
}

/// Where a password reset stands.
#[derive(Debug, Clone)]
pub enum ResetPassword {
    Redeem { user_id: user::Id, password: Password },
    Update,
}

/// Where a sign-out stands.
#[derive(Debug, Clone, Copy)]
pub enum SignOut {
    Delete,
}

/// Where the binding of an orphan identity stands.
#[derive(Debug, Clone)]
pub enum Link {
    Lookup { orphan: OrphanIdentity },
    InsertUser { orphan: OrphanIdentity, user_id: user::Id },
    Upsert { identity: Identity },
}

/// Where an OAuth sign-in stands.
#[derive(Debug, Clone)]
pub enum OAuthSignIn {
    FindIdentity { orphan: OrphanIdentity, user_agent: String, ip: String },
    Link { flow: Link, user_agent: String, ip: String },
    Session(SessionFlow),
}

/// What sign-in decides about an account found by its email.
#[derive(Debug, Clone, Copy, PartialEq, Eq, Structural)]
pub enum SignInVerdict {
    Proceed,
    InvalidCredentials,
    NotVerified,
}

/// The decision: credentials first, then the confirmation requirement.
pub open spec fn sign_in_verdict(allow_unverified: bool, u: User, password: Seq<char>) -> SignInVerdict {
    if !credentials_ok(u, password) {
        SignInVerdict::InvalidCredentials
    } else if !may_sign_in(allow_unverified, u) {
        SignInVerdict::NotVerified
    } else {
        SignInVerdict::Proceed
    }
}

/// The account that sign-up stores for `email` and `password`: a hash of
/// the password, the email unconfirmed, no admin rights.
pub open spec fn stored_account(u: User, email: Seq<char>, password: Seq<char>) -> bool {
    &&& u.email@ == email
    &&& u.encrypted_password matches Some(h) && hash_matches(h@, password)
    &&& u.email_confirmed_at is None
    &&& !u.is_admin
}

/// The password matches the account's hash.
pub open spec fn credentials_ok(u: User, password: Seq<char>) -> bool {
    u.encrypted_password matches Some(h) && hash_matches(h@, password)
}

/// The account may sign in: its email is confirmed, or unconfirmed accounts
/// are allowed.
pub open spec fn may_sign_in(allow_unverified: bool, u: User) -> bool {
    u.email_confirmed_at is Some || allow_unverified
}

/// Orchestrates the use cases over injected settings.
#[derive(Debug)]
pub struct Authenticator {
    token_factory: TokenFactory,
    config: Config,
    oauth_config: OAuthSettings,
}

impl Authenticator {
    pub closed spec fn factory(&self) -> TokenFactory {
        self.token_factory
    }

    pub closed spec fn settings(&self) -> Config {
        self.config
    }

    pub closed spec fn oauth_settings(&self) -> OAuthSettings {
        self.oauth_config
    }

    pub fn new(token_factory: TokenFactory, config: Config, oauth_config: OAuthSettings) -> (r: Authenticator)
        ensures
            r.factory() == token_factory,
            r.settings() == config,
            r.oauth_settings() == oauth_config,
    {
        Authenticator { token_factory, config, oauth_config }
    }

    pub fn token_factory(&self) -> (r: &TokenFactory)
        ensures
            *r == self.factory(),
    {
        &self.token_factory
    }

    /// The OAuth application of `provider`; `None` when it is not configured.
    pub fn get_oauth_client(&self, provider: Provider) -> (r: Option<&ProviderSettings>)
        ensures
            r is Some <==> provider_entry(self.oauth_settings(), provider) is Some,
            r matches Some(x) ==> provider_entry(self.oauth_settings(), provider) == Some(*x),
    {
        self.oauth_config.provider(provider)
    }

    pub fn get_oauth_callback(&self) -> (r: &String)
        ensures
            *r == self.oauth_settings().callback,
    {
        &self.oauth_config.callback
    }

    pub fn get_confirm_email_callback(&self) -> (r: &CallbackUrl)
        ensures
            *r == self.settings().confirm_email.callback,
    {
        &self.config.confirm_email.callback
    }

    /// The reset-password link for `token`.
    pub fn create_reset_password_url(&self, token: &str) -> (r: String)
        ensures
            r@ == link_text(self.settings().reset_password.callback@, token@),
    {
        self.link(&self.config.reset_password.callback, token)
    }

    /// The confirm-email link for `token`.
    pub fn create_confirm_email_url(&self, token: &str) -> (r: String)
        ensures
            r@ == link_text(self.settings().confirm_email.callback@, token@),
    {
        self.link(&self.config.confirm_email.callback, token)
    }

    fn link(&self, base: &CallbackUrl, token: &str) -> (r: String)
        ensures
            r@ == link_text(base@, token@),
    {
        proof {
            reveal_strlit("token");
        }
        match url_with_pair(base.as_str(), "token", token) {
            Some(u) => u,
            None => String::new(),
        }
    }

    // ----- sessions -----

    /// `r` is how a session flow in `state` answers `event`, where `inner`
    /// reads the session flow back out of the enclosing flow's state. Once
    /// the session row is stored, an access and a refresh token are issued
    /// and the refresh token is registered under `(user, session)` for the
    /// refresh lifetime; once that is done the tokens are the result. Any
    /// failure ends with `InternalError`.
    pub open spec fn session_answer<S>(&self, state: SessionFlow, event: Event, r: Step<S, AuthTokens>, inner: spec_fn(S) -> Option<SessionFlow>) -> bool {
        match state {
            SessionFlow::Insert { user_id, session_id, data } => if event is Done {
                match r {
                    Step::Perform(st, Action::CacheSet { key, value, ttl_secs }) => match inner(st) {
                        Some(SessionFlow::Register { tokens }) =>
                            key == (CacheKey::RefreshToken { user_id, session_id })
                            && ttl_secs == self.factory().duration_of(TokenKind::Refresh)
                            && self.factory().is_access_token(tokens.access_jwt@, user_id.0, session_id.0, crate::token::opt_text(data))
                            && exists|jti: u128| #[trigger] self.factory().is_refresh_token(tokens.refresh_jwt@, user_id.0, session_id.0, jti)
                                && value@ == uuid_text_of(jti),
                        _ => false,
                    },
                    _ => false,
                }
            } else {
                r matches Step::Finish(Err(e), None) && e is InternalError
            },
            SessionFlow::Register { tokens } => if event is Done {
                r matches Step::Finish(Ok(t), None) && t == tokens
            } else {
                r matches Step::Finish(Err(e), None) && e is InternalError
            },
        }
    }

    /// Starts a session for `user_id`: store the session row.
    pub fn create_user_session(&self, user_id: user::Id, user_agent: String, ip: String, data: Option<String>) -> (r: Step<SessionFlow, AuthTokens>)
        ensures
            r matches Step::Perform(SessionFlow::Insert { user_id: u, session_id: sid, data: d }, Action::InsertSession(s))
                && u == user_id && s.id == sid && s.user_id == user_id
                && s.user_agent@ == user_agent@ && s.ip@ == ip@ && d == data,
    {
        let session = Session::new(user_id, user_agent, ip);
        let session_id = session.id;
        Step::Perform(SessionFlow::Insert { user_id, session_id, data }, Action::InsertSession(session))
    }

    /// Advances a session flow. Once the row is stored, an access token and a
    /// refresh token are issued and the refresh token is registered in the
    /// cache under `(user, session)` for the refresh lifetime. Any failure
    /// ends the flow with `InternalError`.
    pub fn session_step(&self, state: SessionFlow, event: Event) -> (r: Step<SessionFlow, AuthTokens>)
        ensures
            self.session_answer(state, event, r, |st: SessionFlow| Some(st)),
    {
        match state {
            SessionFlow::Insert { user_id, session_id, data } => match event {
                Event::Done => {
                    let access = self.token_factory.create_access_token(user_id.0, session_id.0, data);
                    let (refresh, jti) = self.token_factory.create_refresh_token(user_id.0, session_id.0);
                    let tokens = AuthTokens::new(access, refresh);
                    let key = CacheKey::RefreshToken { user_id, session_id };
                    let value = uuid_text(jti);
                    let ttl_secs = self.token_factory.duration(TokenKind::Refresh);
                    Step::Perform(SessionFlow::Register { tokens }, Action::CacheSet { key, value, ttl_secs })
                },
                Event::Failed(e) => Step::Finish(Err(store_failure(e)), None),
                _ => Step::Finish(Err(unexpected()), None),
            },
            SessionFlow::Register { tokens } => match event {
                Event::Done => Step::Finish(Ok(tokens), None),
                Event::Failed(e) => Step::Finish(Err(store_failure(e)), None),
                _ => Step::Finish(Err(unexpected()), None),
            },
        }
    }

    // ----- email sign-up -----

    /// Starts a sign-up: look for an account with this email first.
    pub fn email_sign_up(&self, email: Email, password: Password) -> (r: Step<SignUp, user::Id>)
        ensures
            r matches Step::Perform(SignUp::Lookup { email: e, password: p }, Action::FindUserByEmail(a))
                && e@ == email@ && p@ == password@ && a@ == email@,
    {
        let lookup = email.duplicate();
        Step::Perform(SignUp::Lookup { email, password }, Action::FindUserByEmail(lookup))
    }

    /// Advances a sign-up. An account found by the lookup, or a unique
    /// violation when the account is inserted, both end with
    /// `EmailAlreadyUsed`. Otherwise the account is stored with an Argon2 hash
    /// of the password, then its email identity, and the flow ends with the
    /// new id and a confirmation mail.
    pub fn sign_up_step(&self, state: SignUp, event: Event) -> (r: Step<SignUp, user::Id>)
        ensures
            state matches SignUp::Lookup { email, password } ==> (if event is User {
                r matches Step::Finish(Err(Error::EmailAlreadyUsed(s)), None) && s@ == email@
            } else {
                r matches Step::Perform(SignUp::InsertUser { user_id, email: e }, Action::InsertUser(u))
                    && u.id == user_id && e@ == email@ && stored_account(u, email@, password@)
            }),
            state matches SignUp::InsertUser { user_id, email } ==> (match event {
                Event::Done => r matches Step::Perform(SignUp::InsertIdentity { user_id: u, email: e }, Action::InsertIdentity(i))
                    && u == user_id && e@ == email@ && i.user_id == user_id && i.email@ == email@
                    && i.provider == Provider::Email && i.provider_user_id@ == uuid_text_of(user_id.0),
                Event::Failed(StoreError::Conflict) => r matches Step::Finish(Err(Error::EmailAlreadyUsed(s)), None)
                    && s@ == email@,
                _ => r matches Step::Finish(Err(e), None) && e is InternalError,
            }),
            state matches SignUp::InsertIdentity { user_id, email } ==> (if event is Done {
                r matches Step::Finish(Ok(id), mail) && id == user_id
                    && exists|t: Seq<char>| self.factory().is_generic_token(t, TokenType::ConfirmEmail, user_id.0,
                        Some(self.settings().confirm_email.token_expiration_secs), None)
                        && #[trigger] link_mail(mail, email@, "Confirm Email"@, "Confirm your Email: "@,
                            self.settings().confirm_email.callback@, t)
            } else {
                r matches Step::Finish(Err(e), None) && e is InternalError
            }),
    {
        match state {
            SignUp::Lookup { email, password } => match event {
                Event::User(_) => Step::Finish(Err(Error::EmailAlreadyUsed(email.to_string())), None),
                _ => {
                    let user = User::new(email.duplicate(), Some(password.encrypt()));
                    let user_id = user.id;
                    Step::Perform(SignUp::InsertUser { user_id, email }, Action::InsertUser(user))
                },
            },
            SignUp::InsertUser { user_id, email } => match event {
                Event::Done => {
                    let identity = Identity::new(user_id, user_id.to_string(), email.duplicate(), Provider::Email);
                    Step::Perform(SignUp::InsertIdentity { user_id, email }, Action::InsertIdentity(identity))
                },
                Event::Failed(StoreError::Conflict) => Step::Finish(Err(Error::EmailAlreadyUsed(email.to_string())), None),
                Event::Failed(e) => Step::Finish(Err(store_failure(e)), None),
                _ => Step::Finish(Err(unexpected()), None),
            },
            SignUp::InsertIdentity { user_id, email } => match event {
                Event::Done => {
                    let token = self.token_factory.create_token(
                        TokenType::ConfirmEmail,
                        user_id.0,
                        Some(self.config.confirm_email.token_expiration_secs),
                        None,
                    );
                    let ghost to = email@;
                    let link = self.create_confirm_email_url(token.as_str());
                    let mail = self.link_mail(email, "Confirm Email", "Confirm your Email: ", link);
                    assert(link_mail(mail, to, "Confirm Email"@, "Confirm your Email: "@,
                        self.settings().confirm_email.callback@, token@));
                    Step::Finish(Ok(user_id), mail)
                },
                Event::Failed(e) => Step::Finish(Err(store_failure(e)), None),
                _ => Step::Finish(Err(unexpected()), None),
            },
        }
    }

    // ----- email sign-in -----

    /// Starts a sign-in: look the account up by email.
    pub fn email_sign_in(&self, email: Email, password: Password, user_agent: String, ip: String) -> (r: Step<SignIn, AuthTokens>)
        ensures
            r matches Step::Perform(SignIn::Lookup { password: p, user_agent: ua, ip: a }, Action::FindUserByEmail(e))
                && e@ == email@ && p@ == password@ && ua@ == user_agent@ && a@ == ip@,
    {
        Step::Perform(SignIn::Lookup { password, user_agent, ip }, Action::FindUserByEmail(email))
    }

    /// Advances a sign-in. No account, no password hash, and a wrong password
    /// all end with `InvalidCredentials`. An unconfirmed email ends with
    /// `NotVerifiedAccount` unless unverified sign-in is allowed. Otherwise a
    /// session is started for the account.
    pub fn sign_in_step(&self, state: SignIn, event: Event) -> (r: Step<SignIn, AuthTokens>)
        ensures
            state matches SignIn::Lookup { password, user_agent, ip } ==> (match event {
                Event::User(u) => match sign_in_verdict(self.settings().allow_unverified, u, password@) {
                    SignInVerdict::InvalidCredentials => r matches Step::Finish(Err(Error::InvalidCredentials), None),
                    SignInVerdict::NotVerified => r matches Step::Finish(Err(Error::NotVerifiedAccount(s)), None) && s@ == u.email@,
                    SignInVerdict::Proceed => r matches Step::Perform(SignIn::Session(SessionFlow::Insert { user_id, session_id, data }), Action::InsertSession(s))
                        && user_id == u.id && data is None && s.id == session_id && s.user_id == u.id
                        && s.user_agent@ == user_agent@ && s.ip@ == ip@,
                },
                Event::Failed(StoreError::NotFound) => r matches Step::Finish(Err(Error::InvalidCredentials), None),
                _ => r matches Step::Finish(Err(e), None) && e is InternalError,
            }),
            state matches SignIn::Session(s) ==> self.session_answer(s, event, r,
                |st: SignIn| match st { SignIn::Session(x) => Some(x), _ => None }),
    {
        match state {
            SignIn::Lookup { password, user_agent, ip } => match event {
                Event::User(u) => {
                    let ok = match &u.encrypted_password {
                        Some(h) => h.compare_with(&password),
                        None => false,
                    };
                    if !ok {
                        return Step::Finish(Err(Error::InvalidCredentials), None);
                    }
                    if u.email_confirmed_at.is_none() && !self.config.allow_unverified {
                        return Step::Finish(Err(Error::NotVerifiedAccount(u.email.to_string())), None);
                    }
                    match self.create_user_session(u.id, user_agent, ip, None) {
                        Step::Perform(s, a) => Step::Perform(SignIn::Session(s), a),
                        Step::Finish(res, m) => Step::Finish(res, m),
                    }
                },
                Event::Failed(StoreError::NotFound) => Step::Finish(Err(Error::InvalidCredentials), None),
                Event::Failed(e) => Step::Finish(Err(store_failure(e)), None),
                _ => Step::Finish(Err(unexpected()), None),
            },
            SignIn::Session(s) => match self.session_step(s, event) {
                Step::Perform(s, a) => Step::Perform(SignIn::Session(s), a),
                Step::Finish(res, m) => Step::Finish(res, m),
            },
        }
    }

    // ----- email confirmation -----

    /// Starts an email confirmation. A token that does not decode as a
    /// confirm-email token ends with `InvalidToken`; otherwise the account's
    /// confirmation time is set to now.
    pub fn confirm_email(&self, token: &str) -> (r: Step<ConfirmEmail, bool>)
        ensures
            r is Finish ==> r matches Step::Finish(Err(Error::InvalidToken), None),
            r matches Step::Perform(_, a) ==> (a matches Action::ConfirmUserEmail { user_id, .. }
                && exists|c: crate::token::TokenClaims| #[trigger] self.factory().accepts(token@, TokenKind::ConfirmEmail, c)
                    && c.sub == user_id.0),
            crate::token::jwt_fields_of(token@, self.factory().secret_of(TokenKind::ConfirmEmail)) is None ==> r is Finish,
    {
        match self.token_factory.decode_token(token, TokenKind::ConfirmEmail) {
            Ok(c) => Step::Perform(ConfirmEmail::Update, Action::ConfirmUserEmail { user_id: user::Id(c.sub), at: now_micros() }),
            Err(_) => Step::Finish(Err(Error::InvalidToken), None),
        }
    }

    /// Advances an email confirmation: the result tells whether a row changed,
    /// so confirming twice is not an error.
    pub fn confirm_email_step(&self, state: ConfirmEmail, event: Event) -> (r: Step<ConfirmEmail, bool>)
        ensures
            event matches Event::Rows(n) ==> r matches Step::Finish(Ok(b), None) && b == (n == 1),
            !(event is Rows) ==> (r matches Step::Finish(Err(e), None) && e is InternalError),
    {
        match event {
            Event::Rows(n) => Step::Finish(Ok(n == 1), None),
            Event::Failed(e) => Step::Finish(Err(store_failure(e)), None),
            _ => Step::Finish(Err(unexpected()), None),
        }
    }

    // ----- password reset -----

    /// Starts a password reset: look the account up by email.
    pub fn intiate_reset_password(&self, email: &Email) -> (r: Step<InitiateReset, ()>)
        ensures
            r matches Step::Perform(InitiateReset::Lookup, Action::FindUserByEmail(e)) && e@ == email@,
    {
        Step::Perform(InitiateReset::Lookup, Action::FindUserByEmail(email.duplicate()))
    }

    /// Advances the start of a password reset. An unknown email ends with
    /// `InvalidCredentials`. Otherwise a fresh single-use identifier is stored
    /// in the cache for the reset lifetime, and the flow ends with a mail
    /// carrying a reset-password token that embeds the identifier.
    pub fn initiate_reset_step(&self, state: InitiateReset, event: Event) -> (r: Step<InitiateReset, ()>)
        ensures
            state is Lookup ==> (match event {
                Event::User(u) => r matches Step::Perform(InitiateReset::Store { user_id, email, token_id }, Action::CacheSet { key, value, ttl_secs })
                    && user_id == u.id && email@ == u.email@ && value@.len() == 0
                    && key == (CacheKey::ResetPassword { user_id: u.id, token_id })
                    && ttl_secs == self.settings().reset_password.token_expiration_secs,
                Event::Failed(StoreError::NotFound) => r matches Step::Finish(Err(Error::InvalidCredentials), None),
                _ => r matches Step::Finish(Err(e), None) && e is InternalError,
            }),
            state matches InitiateReset::Store { user_id, email, token_id } ==> (if event is Done {
                r matches Step::Finish(Ok(()), mail)
                    && exists|t: Seq<char>| self.factory().is_generic_token(t, TokenType::ResetPassword, user_id.0,
                        Some(self.settings().reset_password.token_expiration_secs), Some(token_id))
                        && #[trigger] link_mail(mail, email@, "Reset Password"@, "Reset your Password: "@,
                            self.settings().reset_password.callback@, t)
            } else {
                r matches Step::Finish(Err(e), None) && e is InternalError
            }),
    {
        match state {
            InitiateReset::Lookup => match event {
                Event::User(u) => {
                    let token_id = random_uuid();
                    let key = CacheKey::ResetPassword { user_id: u.id, token_id };
                    let ttl_secs = self.config.reset_password.token_expiration_secs;
                    let value = String::new();
                    Step::Perform(InitiateReset::Store { user_id: u.id, email: u.email, token_id }, Action::CacheSet { key, value, ttl_secs })
                },
                Event::Failed(StoreError::NotFound) => Step::Finish(Err(Error::InvalidCredentials), None),
                Event::Failed(e) => Step::Finish(Err(store_failure(e)), None),
                _ => Step::Finish(Err(unexpected()), None),
            },
            InitiateReset::Store { user_id, email, token_id } => match event {
                Event::Done => {
                    let token = self.token_factory.create_token(
                        TokenType::ResetPassword,
                        user_id.0,
                        Some(self.config.reset_password.token_expiration_secs),
                        Some(token_id),
                    );
                    let ghost to = email@;
                    let link = self.create_reset_password_url(token.as_str());
                    let mail = self.link_mail(email, "Reset Password", "Reset your Password: ", link);
                    assert(link_mail(mail, to, "Reset Password"@, "Reset your Password: "@,
                        self.settings().reset_password.callback@, token@));
                    Step::Finish(Ok(()), mail)
                },
                Event::Failed(e) => Step::Finish(Err(store_failure(e)), None),
                _ => Step::Finish(Err(unexpected()), None),
            },
        }
    }

    /// Starts redeeming a reset-password token. A token that does not decode
    /// as a reset-password token, or carries no single-use identifier, ends
    /// with `InvalidToken`. Otherwise the identifier's cache entry is read and
    /// removed in one atomic call.
    pub fn reset_password(&self, token: &str, new_password: Password) -> (r: Step<ResetPassword, bool>)
        ensures
            r is Finish ==> r matches Step::Finish(Err(Error::InvalidToken), None),
            r is Perform ==> match r {
                Step::Perform(
                    ResetPassword::Redeem { user_id, password },
                    Action::CacheGetAndDelete(CacheKey::ResetPassword { user_id: u, token_id }),
                ) => password@ == new_password@ && u == user_id
                    && exists|c: crate::token::TokenClaims| #[trigger] self.factory().accepts(token@, TokenKind::ResetPassword, c)
                        && c.sub == user_id.0 && c.jti == Some(token_id),
                _ => false,
            },
            crate::token::jwt_fields_of(token@, self.factory().secret_of(TokenKind::ResetPassword)) is None ==> r is Finish,
    {
        match self.token_factory.decode_token(token, TokenKind::ResetPassword) {
            Ok(c) => match c.jti {
                Some(token_id) => {
                    let user_id = user::Id(c.sub);
                    Step::Perform(
                        ResetPassword::Redeem { user_id, password: new_password },
                        Action::CacheGetAndDelete(CacheKey::ResetPassword { user_id, token_id }),
                    )
                },
                None => Step::Finish(Err(Error::InvalidToken), None),
            },
            Err(_) => Step::Finish(Err(Error::InvalidToken), None),
        }
    }

    /// Advances a password reset. Only a cache entry that was still there
    /// lets the reset go on: then the new password's hash is stored, and the
    /// result tells whether a row changed. An entry already gone (never
    /// issued, expired, or redeemed) ends with `InvalidToken`.
    pub fn reset_password_step(&self, state: ResetPassword, event: Event) -> (r: Step<ResetPassword, bool>)
        ensures
            state matches ResetPassword::Redeem { user_id, password } ==> (match event {
                Event::Removed(true) => r matches Step::Perform(ResetPassword::Update, Action::UpdatePassword { user_id: u, password: h })
                    && u == user_id && hash_matches(h@, password@),
                Event::Removed(false) => r matches Step::Finish(Err(Error::InvalidToken), None),
                _ => r matches Step::Finish(Err(e), None) && e is InternalError,
            }),
            state is Update ==> (match event {
                Event::Rows(n) => r matches Step::Finish(Ok(b), None) && b == (n == 1),
                _ => r matches Step::Finish(Err(e), None) && e is InternalError,
            }),
    {
        match state {
            ResetPassword::Redeem { user_id, password } => match event {
                Event::Removed(true) => Step::Perform(
                    ResetPassword::Update,
                    Action::UpdatePassword { user_id, password: password.encrypt() },
                ),
                Event::Removed(false) => Step::Finish(Err(Error::InvalidToken), None),
                Event::Failed(e) => Step::Finish(Err(store_failure(e)), None),
                _ => Step::Finish(Err(unexpected()), None),
            },
            ResetPassword::Update => match event {
                Event::Rows(n) => Step::Finish(Ok(n == 1), None),
                Event::Failed(e) => Step::Finish(Err(store_failure(e)), None),
                _ => Step::Finish(Err(unexpected()), None),
            },
        }
    }

    // ----- sign-out -----

    /// Starts a sign-out: delete the refresh-token entry of this session only.
    pub fn sign_out(&self, user_id: user::Id, session_id: session::Id) -> (r: Step<SignOut, bool>)
        ensures
            r matches Step::Perform(SignOut::Delete, Action::CacheDelete(k))
                && k == (CacheKey::RefreshToken { user_id, session_id }),
    {
        Step::Perform(SignOut::Delete, Action::CacheDelete(CacheKey::RefreshToken { user_id, session_id }))
    }

    /// Advances a sign-out: the result tells whether an entry was removed; a
    /// missing entry is not an error.
    pub fn sign_out_step(&self, state: SignOut, event: Event) -> (r: Step<SignOut, bool>)
        ensures
            event matches Event::Removed(b) ==> r matches Step::Finish(Ok(x), None) && x == b,
            !(event is Removed) ==> (r matches Step::Finish(Err(e), None) && e is InternalError),
    {
        match event {
            Event::Removed(b) => Step::Finish(Ok(b), None),
            Event::Failed(e) => Step::Finish(Err(store_failure(e)), None),
            _ => Step::Finish(Err(unexpected()), None),
        }
    }

    // ----- identity resolution -----

    /// Starts binding an orphan identity: look for an account with its email.
    pub fn add_or_link_identity(&self, orphan: OrphanIdentity) -> (r: Step<Link, Identity>)
        ensures
            r matches Step::Perform(Link::Lookup { orphan: o }, Action::FindUserByEmail(e))
                && o == orphan && e@ == orphan.email@,
    {
        let email = orphan.email.duplicate();
        Step::Perform(Link::Lookup { orphan }, Action::FindUserByEmail(email))
    }

    /// `r` is how an identity binding in `state` answers `event`, short of
    /// its final answer; `inner` reads the binding back out of the enclosing
    /// flow's state. An existing account gets the identity upserted under its
    /// id. Without one, an account is created first, its email confirmed iff
    /// the provider asserted it verified, then the identity is upserted under
    /// the new id. Any failure ends with `InternalError`.
    pub open spec fn link_answer<S, T>(&self, state: Link, event: Event, r: Step<S, T>, inner: spec_fn(S) -> Option<Link>) -> bool {
        match state {
            Link::Lookup { orphan } => match event {
                Event::User(u) => match r {
                    Step::Perform(st, Action::UpsertIdentity(a)) => match inner(st) {
                        Some(Link::Upsert { identity }) => binds(identity, orphan, u.id) && same_identity(a, identity),
                        _ => false,
                    },
                    _ => false,
                },
                Event::Failed(StoreError::NotFound) => match r {
                    Step::Perform(st, Action::InsertUser(u)) => match inner(st) {
                        Some(Link::InsertUser { orphan: o, user_id }) =>
                            o == orphan && user_id == u.id && u.email@ == orphan.email@
                            && u.encrypted_password is None && !u.is_admin
                            && (u.email_confirmed_at is Some <==> orphan.is_email_confirmed == Some(true)),
                        _ => false,
                    },
                    _ => false,
                },
                _ => r matches Step::Finish(Err(e), None) && e is InternalError,
            },
            Link::InsertUser { orphan, user_id } => if event is Done {
                match r {
                    Step::Perform(st, Action::UpsertIdentity(a)) => match inner(st) {
                        Some(Link::Upsert { identity }) => binds(identity, orphan, user_id) && same_identity(a, identity),
                        _ => false,
                    },
                    _ => false,
                }
            } else {
                r matches Step::Finish(Err(e), None) && e is InternalError
            },
            Link::Upsert { identity } => !(event is Done) ==> (r matches Step::Finish(Err(e), None) && e is InternalError),
        }
    }

    /// Advances an identity binding; once the identity is upserted it is the
    /// result.
    pub fn link_step(&self, state: Link, event: Event) -> (r: Step<Link, Identity>)
        ensures
            self.link_answer(state, event, r, |st: Link| Some(st)),
            state matches Link::Upsert { identity } ==> (event is Done ==> (r matches Step::Finish(Ok(i), None) && i == identity)),
    {
        match state {
            Link::Lookup { orphan } => match event {
                Event::User(u) => {
                    let identity = orphan.to_identity(u.id);
                    let copy = identity.duplicate();
                    Step::Perform(Link::Upsert { identity }, Action::UpsertIdentity(copy))
                },
                Event::Failed(StoreError::NotFound) => {
                    let user = User::with_confirmation(orphan.email.duplicate(), None, orphan.email_verified());
                    let user_id = user.id;
                    Step::Perform(Link::InsertUser { orphan, user_id }, Action::InsertUser(user))
                },
                Event::Failed(e) => Step::Finish(Err(store_failure(e)), None),
                _ => Step::Finish(Err(unexpected()), None),
            },
            Link::InsertUser { orphan, user_id } => match event {
                Event::Done => {
                    let identity = orphan.to_identity(user_id);
                    let copy = identity.duplicate();
                    Step::Perform(Link::Upsert { identity }, Action::UpsertIdentity(copy))
                },
                Event::Failed(e) => Step::Finish(Err(store_failure(e)), None),
                _ => Step::Finish(Err(unexpected()), None),
            },
            Link::Upsert { identity } => match event {
                Event::Done => Step::Finish(Ok(identity), None),
                Event::Failed(e) => Step::Finish(Err(store_failure(e)), None),
                _ => Step::Finish(Err(unexpected()), None),
            },
        }
    }

    // ----- OAuth sign-in -----

    /// Starts an OAuth sign-in: look the identity up by provider and
    /// provider user id.
    pub fn oauth_sign_in(&self, orphan: OrphanIdentity, user_agent: String, ip: String) -> (r: Step<OAuthSignIn, AuthTokens>)
        ensures
            r matches Step::Perform(OAuthSignIn::FindIdentity { orphan: o, user_agent: ua, ip: a }, Action::FindIdentity { provider, provider_user_id })
                && o == orphan && ua@ == user_agent@ && a@ == ip@
                && provider == orphan.provider && provider_user_id@ == orphan.provider_user_id@,
    {
        let provider = orphan.provider;
        let provider_user_id = orphan.provider_user_id.clone();
        Step::Perform(OAuthSignIn::FindIdentity { orphan, user_agent, ip }, Action::FindIdentity { provider, provider_user_id })
    }

    fn oauth_session(&self, identity: Identity, user_agent: String, ip: String) -> (r: Step<OAuthSignIn, AuthTokens>)
        ensures
            r matches Step::Perform(OAuthSignIn::Session(SessionFlow::Insert { user_id, session_id, data }), Action::InsertSession(s))
                && user_id == identity.user_id && data == Some(identity.provider_data)
                && s.id == session_id && s.user_id == identity.user_id && s.user_agent@ == user_agent@ && s.ip@ == ip@,
    {
        match self.create_user_session(identity.user_id, user_agent, ip, Some(identity.provider_data)) {
            Step::Perform(s, a) => Step::Perform(OAuthSignIn::Session(s), a),
            Step::Finish(res, m) => Step::Finish(res, m),
        }
    }

    /// Advances an OAuth sign-in. A stored identity starts a session for its
    /// user at once. Otherwise the orphan identity is bound first (see
    /// [`Authenticator::link_step`]) and the session is started for the user
    /// it was bound to. The identity's provider data becomes the session's
    /// opaque data. Any failure ends with `InternalError`.
    pub fn oauth_step(&self, state: OAuthSignIn, event: Event) -> (r: Step<OAuthSignIn, AuthTokens>)
        ensures
            state matches OAuthSignIn::FindIdentity { orphan, user_agent, ip } ==> (match event {
                Event::Identity(i) => r matches Step::Perform(OAuthSignIn::Session(SessionFlow::Insert { user_id, session_id, data }), Action::InsertSession(s))
                    && user_id == i.user_id && data == Some(i.provider_data)
                    && s.id == session_id && s.user_id == i.user_id && s.user_agent@ == user_agent@ && s.ip@ == ip@,
                Event::Failed(StoreError::NotFound) => r matches Step::Perform(OAuthSignIn::Link { flow: Link::Lookup { orphan: o }, user_agent: ua, ip: a }, Action::FindUserByEmail(e))
                    && o == orphan && ua == user_agent && a == ip && e@ == orphan.email@,
                _ => r matches Step::Finish(Err(e), None) && e is InternalError,
            }),
            state matches OAuthSignIn::Link { flow, user_agent, ip } ==> (if flow is Upsert && event is Done {
                r matches Step::Perform(OAuthSignIn::Session(SessionFlow::Insert { user_id, session_id, data }), Action::InsertSession(s))
                    && user_id == flow->identity.user_id && data == Some(flow->identity.provider_data)
                    && s.id == session_id && s.user_id == user_id && s.user_agent@ == user_agent@ && s.ip@ == ip@
            } else {
                self.link_answer(flow, event, r, |st: OAuthSignIn| match st { OAuthSignIn::Link { flow, .. } => Some(flow), _ => None })
            }),
            state matches OAuthSignIn::Session(s) ==> self.session_answer(s, event, r,
                |st: OAuthSignIn| match st { OAuthSignIn::Session(x) => Some(x), _ => None }),
    {
        match state {
            OAuthSignIn::FindIdentity { orphan, user_agent, ip } => match event {
                Event::Identity(i) => self.oauth_session(i, user_agent, ip),
                Event::Failed(StoreError::NotFound) => match self.add_or_link_identity(orphan) {
                    Step::Perform(flow, a) => Step::Perform(OAuthSignIn::Link { flow, user_agent, ip }, a),
                    Step::Finish(_, _) => Step::Finish(Err(unexpected()), None),
                },
                Event::Failed(e) => Step::Finish(Err(store_failure(e)), None),
                _ => Step::Finish(Err(unexpected()), None),
            },
            OAuthSignIn::Link { flow, user_agent, ip } => match self.link_step(flow, event) {
                Step::Perform(flow, a) => Step::Perform(OAuthSignIn::Link { flow, user_agent, ip }, a),
                Step::Finish(Ok(identity), _) => self.oauth_session(identity, user_agent, ip),
                Step::Finish(Err(e), _) => Step::Finish(Err(Error::InternalError(e.message())), None),
            },
            OAuthSignIn::Session(s) => match self.session_step(s, event) {
                Step::Perform(s, a) => Step::Perform(OAuthSignIn::Session(s), a),
                Step::Finish(res, m) => Step::Finish(res, m),
            },
        }
    }

    fn link_mail(&self, to: Email, subject: &str, intro: &str, link: String) -> (r: Option<Mail>)
        ensures
            r matches Some(m) && m.to@ == to@ && m.subject@ == subject@ && m.body@ == intro@ + link@,
    {
        let mut body = intro.to_owned();
        body.append(link.as_str());
        Some(Mail { to, subject: subject.to_owned(), body })
    }
}

} // verus!

use sphinx::authenticator::{Authenticator, Error, SignIn, Step};
use sphinx::config::{CallbackUrl, Config, JwtSettings, LinkSettings, OAuthSettings, TokenSettings};
use sphinx::email::Email;
use sphinx::identity::{Identity, OrphanIdentity, Provider};
use sphinx::password::Password;
use sphinx::session;
use sphinx::store::{Action, CacheKey, Event, Mail, StoreError, TokenRepository};
use sphinx::token::{AuthTokens, TokenKind};
use sphinx::user::{self, User};
use std::collections::HashSet;

fn authenticator(allow_unverified: bool) -> Authenticator {
    let jwt = JwtSettings {
        iss: "sphinx".to_string(),
        aud: vec!["web".to_string()],
        access_token: TokenSettings { exp_duration_secs: 900, secret: "access-secret".to_string() },
        refresh_token: TokenSettings { exp_duration_secs: 86400, secret: "refresh-secret".to_string() },
        default_token: TokenSettings { exp_duration_secs: 3600, secret: "default-secret".to_string() },
    };
    let config = Config {
        allow_unverified,
        reset_password: LinkSettings { callback: CallbackUrl::parse("https://app.example.com/reset").unwrap(), token_expiration_secs: 600 },
        confirm_email: LinkSettings { callback: CallbackUrl::parse("https://app.example.com/confirm").unwrap(), token_expiration_secs: 1200 },
    };
    let oauth = OAuthSettings { discord: None, google: None, apple: None, github: None, callback: "https://app.example.com/".to_string() };
    Authenticator::new(sphinx::token::TokenFactory::new(jwt), config, oauth)
}

fn email(s: &str) -> Email {
    Email::parse(s).unwrap()
}

fn password(s: &str) -> Password {
    Password::parse(s).unwrap()
}

fn token_of(mail: &Mail) -> String {
    mail.body.split("token=").nth(1).unwrap().to_string()
}

/// Runs a sign-up against an empty store and returns the stored user and the mail.
fn sign_up(a: &Authenticator, addr: &str, pw: &str) -> (User, Option<Mail>) {
    let (st, act) = match a.email_sign_up(email(addr), password(pw)) {
        Step::Perform(s, act) => (s, act),
        _ => panic!("expected a lookup"),
    };
    assert!(matches!(act, Action::FindUserByEmail(ref e) if e.as_str() == addr));
    let (st, user) = match a.sign_up_step(st, Event::Failed(StoreError::NotFound)) {
        Step::Perform(s, Action::InsertUser(u)) => (s, u),
        _ => panic!("expected an insert"),
    };
    let st = match a.sign_up_step(st, Event::Done) {
        Step::Perform(s, Action::InsertIdentity(i)) => {
            assert_eq!(i.provider, Provider::Email);
            assert_eq!(i.user_id, user.id);
            assert_eq!(i.provider_user_id, user.id.to_string());
            s
        },
        _ => panic!("expected an identity insert"),
    };
    match a.sign_up_step(st, Event::Done) {
        Step::Finish(Ok(id), mail) => {
            assert_eq!(id, user.id);
            (user, mail)
        },
        _ => panic!("expected success"),
    }
}

/// Runs a sign-in whose lookup answers `found`, with all later calls succeeding.
fn sign_in(a: &Authenticator, addr: &str, pw: &str, found: Event) -> Result<AuthTokens, Error> {
    let mut step = match a.email_sign_in(email(addr), password(pw), "agent".to_string(), "10.0.0.1".to_string()) {
        Step::Perform(s, _) => a.sign_in_step(s, found),
        _ => panic!("expected a lookup"),
    };
    loop {
        step = match step {
            Step::Perform(s, _) => a.sign_in_step(s, Event::Done),
            Step::Finish(r, mail) => {
                assert!(mail.is_none());
                return r;
            },
        };
    }
}

#[test]
fn sign_up_then_sign_in_succeeds() {
    let a = authenticator(true);
    let (user, mail) = sign_up(&a, "ann@example.com", "hunter22");
    let mail = mail.unwrap();
    assert_eq!(mail.to.as_str(), "ann@example.com");
    assert_eq!(mail.subject, "Confirm Email");
    assert!(mail.body.starts_with("Confirm your Email: https://app.example.com/confirm?token="));
    let confirm = a.token_factory().decode_token(&token_of(&mail), TokenKind::ConfirmEmail).unwrap();
    assert_eq!(confirm.sub, user.id.as_uuid());
    assert_eq!(confirm.exp, confirm.iat + 1200);

    let tokens = sign_in(&a, "ann@example.com", "hunter22", Event::User(user.clone())).unwrap();
    let access = a.token_factory().decode_token(&tokens.access_jwt, TokenKind::Access).unwrap();
    assert_eq!(access.sub, user.id.as_uuid());
    let refresh = a.token_factory().decode_token(&tokens.refresh_jwt, TokenKind::Refresh).unwrap();
    assert_eq!(refresh.sub, user.id.as_uuid());
    assert_eq!(refresh.session_id, access.session_id);
    assert_ne!(refresh.jti, access.session_id);
}

#[test]
fn session_registers_refresh_token_under_user_and_session() {
    let a = authenticator(true);
    let uid = user::Id::new();
    let (st, s) = match a.create_user_session(uid, "ua".to_string(), "::1".to_string(), Some("{}".to_string())) {
        Step::Perform(st, Action::InsertSession(s)) => (st, s),
        _ => panic!("expected a session insert"),
    };
    assert_eq!(s.user_id, uid);
    assert_eq!(s.user_agent, "ua");
    assert_eq!(s.ip, "::1");
    let (st, stored) = match a.session_step(st, Event::Done) {
        Step::Perform(st, Action::CacheSet { key, value, ttl_secs }) => {
            assert_eq!(key, CacheKey::RefreshToken { user_id: uid, session_id: s.id });
            assert_eq!(ttl_secs, 86400);
            (st, value)
        },
        _ => panic!("expected a cache write"),
    };
    match a.session_step(st, Event::Done) {
        Step::Finish(Ok(t), None) => {
            let c = a.token_factory().decode_token(&t.access_jwt, TokenKind::Access).unwrap();
            assert_eq!(c.session_id, Some(s.id.as_uuid()));
            assert_eq!(c.data.as_deref(), Some("{}"));
            let r = a.token_factory().decode_token(&t.refresh_jwt, TokenKind::Refresh).unwrap();
            assert_eq!(Some(stored), r.jti.map(|j| uuid::Uuid::from_u128(j).to_string()));
        },
        _ => panic!("expected tokens"),
    }
}

#[test]
fn session_write_failure_is_internal() {
    let a = authenticator(true);
    let st = match a.create_user_session(user::Id::new(), "ua".to_string(), "ip".to_string(), None) {
        Step::Perform(st, _) => st,
        _ => panic!(),
    };
    assert!(matches!(
        a.session_step(st, Event::Failed(StoreError::Other("down".to_string()))),
        Step::Finish(Err(Error::InternalError(ref d)), None) if d == "down"
    ));
}

#[test]
fn duplicate_sign_up_caught_by_lookup() {
    let a = authenticator(true);
    let (user, _) = sign_up(&a, "bob@example.com", "pw-one");
    let st = match a.email_sign_up(email("bob@example.com"), password("pw-two")) {
        Step::Perform(s, _) => s,
        _ => panic!(),
    };
    match a.sign_up_step(st, Event::User(user)) {
        Step::Finish(Err(Error::EmailAlreadyUsed(e)), None) => assert_eq!(e, "bob@example.com"),
        _ => panic!("expected EmailAlreadyUsed"),
    }
}

#[test]
fn duplicate_sign_up_caught_by_insert() {
    let a = authenticator(true);
    let st = match a.email_sign_up(email("bob@example.com"), password("pw-two")) {
        Step::Perform(s, _) => s,
        _ => panic!(),
    };
    let st = match a.sign_up_step(st, Event::Failed(StoreError::NotFound)) {
        Step::Perform(s, Action::InsertUser(_)) => s,
        _ => panic!(),
    };
    match a.sign_up_step(st, Event::Failed(StoreError::Conflict)) {
        Step::Finish(Err(Error::EmailAlreadyUsed(e)), None) => assert_eq!(e, "bob@example.com"),
        _ => panic!("expected EmailAlreadyUsed"),
    }
}

#[test]
fn sign_up_insert_failure_is_internal() {
    let a = authenticator(true);
    let st = match a.email_sign_up(email("c@example.com"), password("pw")) {
        Step::Perform(s, _) => s,
        _ => panic!(),
    };
    let st = match a.sign_up_step(st, Event::Failed(StoreError::Other("x".to_string()))) {
        Step::Perform(s, _) => s,
        _ => panic!("a failed lookup still goes on to the insert"),
    };
    assert!(matches!(
        a.sign_up_step(st, Event::Failed(StoreError::Other("disk".to_string()))),
        Step::Finish(Err(Error::InternalError(_)), None)
    ));
}

#[test]
fn unverified_sign_in_refused_when_disabled() {
    let strict = authenticator(false);
    let (user, _) = sign_up(&strict, "dan@example.com", "pw");
    match sign_in(&strict, "dan@example.com", "pw", Event::User(user.clone())) {
        Err(Error::NotVerifiedAccount(e)) => assert_eq!(e, "dan@example.com"),
        _ => panic!("expected NotVerifiedAccount"),
    }
    let lenient = authenticator(true);
    assert!(sign_in(&lenient, "dan@example.com", "pw", Event::User(user.clone())).is_ok());
    let mut confirmed = user;
    confirmed.email_confirmed_at = Some(1);
    assert!(sign_in(&strict, "dan@example.com", "pw", Event::User(confirmed)).is_ok());
}

#[test]
fn sign_in_credential_failures_look_alike() {
    let a = authenticator(true);
    let (user, _) = sign_up(&a, "eve@example.com", "right");
    assert!(matches!(sign_in(&a, "eve@example.com", "wrong", Event::User(user.clone())), Err(Error::InvalidCredentials)));
    assert!(matches!(
        sign_in(&a, "eve@example.com", "right", Event::Failed(StoreError::NotFound)),
        Err(Error::InvalidCredentials)
    ));
    let no_hash = User::new(email("eve@example.com"), None);
    assert!(matches!(sign_in(&a, "eve@example.com", "right", Event::User(no_hash)), Err(Error::InvalidCredentials)));
    assert!(matches!(
        sign_in(&a, "eve@example.com", "right", Event::Failed(StoreError::Other("x".to_string()))),
        Err(Error::InternalError(_))
    ));
}

#[test]
fn confirm_email_reports_changed_rows() {
    let a = authenticator(true);
    let (user, mail) = sign_up(&a, "fay@example.com", "pw");
    let token = token_of(&mail.unwrap());
    let st = match a.confirm_email(&token) {
        Step::Perform(st, Action::ConfirmUserEmail { user_id, .. }) => {
            assert_eq!(user_id, user.id);
            st
        },
        _ => panic!("expected an update"),
    };
    assert!(matches!(a.confirm_email_step(st, Event::Rows(1)), Step::Finish(Ok(true), None)));
    assert!(matches!(a.confirm_email_step(st, Event::Rows(0)), Step::Finish(Ok(false), None)));
}

#[test]
fn confirm_email_with_reset_token_is_invalid() {
    let a = authenticator(true);
    let reset = a.token_factory().create_token(sphinx::token::TokenType::ResetPassword, 9, None, Some(1));
    assert!(matches!(a.confirm_email(&reset), Step::Finish(Err(Error::InvalidToken), None)));
    assert!(matches!(a.confirm_email("garbage"), Step::Finish(Err(Error::InvalidToken), None)));
}

/// Starts a reset for `user` and returns the token sent by mail and the cache key it stored.
fn initiate_reset(a: &Authenticator, user: &User) -> (String, CacheKey) {
    let st = match a.intiate_reset_password(&user.email) {
        Step::Perform(st, Action::FindUserByEmail(_)) => st,
        _ => panic!(),
    };
    let (st, key) = match a.initiate_reset_step(st, Event::User(user.clone())) {
        Step::Perform(st, Action::CacheSet { key, value, ttl_secs }) => {
            assert_eq!(ttl_secs, 600);
            assert_eq!(value, "");
            (st, key)
        },
        _ => panic!("expected a cache write"),
    };
    match a.initiate_reset_step(st, Event::Done) {
        Step::Finish(Ok(()), Some(mail)) => {
            assert_eq!(mail.subject, "Reset Password");
            assert!(mail.body.starts_with("Reset your Password: https://app.example.com/reset?token="));
            (token_of(&mail), key)
        },
        _ => panic!("expected a mail"),
    }
}

/// Redeems `token` against `cache`, answering the atomic read-and-remove from it.
fn redeem(a: &Authenticator, cache: &mut HashSet<CacheKey>, token: &str, new_pw: &str) -> Result<bool, Error> {
    let (st, key) = match a.reset_password(token, password(new_pw)) {
        Step::Perform(st, Action::CacheGetAndDelete(k)) => (st, k),
        Step::Finish(r, _) => return r,
        _ => panic!(),
    };
    let removed = cache.remove(&key);
    match a.reset_password_step(st, Event::Removed(removed)) {
        Step::Perform(st, Action::UpdatePassword { password, .. }) => {
            assert!(password.compare_with(&Password::parse(new_pw).unwrap()));
            match a.reset_password_step(st, Event::Rows(1)) {
                Step::Finish(r, _) => r,
                _ => panic!(),
            }
        },
        Step::Finish(r, _) => r,
        _ => panic!(),
    }
}

#[test]
fn reset_token_redeems_once() {
    let a = authenticator(true);
    let (user, _) = sign_up(&a, "gus@example.com", "old");
    let (token, key) = initiate_reset(&a, &user);
    let mut cache = HashSet::new();
    cache.insert(key);
    assert!(matches!(redeem(&a, &mut cache, &token, "new-1"), Ok(true)));
    assert!(matches!(redeem(&a, &mut cache, &token, "new-2"), Err(Error::InvalidToken)));
}

#[test]
fn reset_with_confirm_token_is_invalid() {
    let a = authenticator(true);
    let (_, mail) = sign_up(&a, "hal@example.com", "pw");
    let mut cache = HashSet::new();
    assert!(matches!(redeem(&a, &mut cache, &token_of(&mail.unwrap()), "x"), Err(Error::InvalidToken)));
}

#[test]
fn reset_token_without_identifier_is_invalid() {
    let a = authenticator(true);
    let token = a.token_factory().create_token(sphinx::token::TokenType::ResetPassword, 3, None, None);
    assert!(matches!(a.reset_password(&token, password("x")), Step::Finish(Err(Error::InvalidToken), None)));
}

#[test]
fn reset_for_unknown_email_is_invalid_credentials() {
    let a = authenticator(true);
    let st = match a.intiate_reset_password(&email("nobody@example.com")) {
        Step::Perform(st, _) => st,
        _ => panic!(),
    };
    assert!(matches!(
        a.initiate_reset_step(st, Event::Failed(StoreError::NotFound)),
        Step::Finish(Err(Error::InvalidCredentials), None)
    ));
}

#[test]
fn sign_out_revokes_only_that_session() {
    let a = authenticator(true);
    let uid = user::Id::new();
    let (sa, sb) = (session::Id::new(), session::Id::new());
    let mut cache = HashSet::new();
    cache.insert(CacheKey::RefreshToken { user_id: uid, session_id: sa });
    cache.insert(CacheKey::RefreshToken { user_id: uid, session_id: sb });
    for expected in [true, false] {
        let (st, key) = match a.sign_out(uid, sa) {
            Step::Perform(st, Action::CacheDelete(k)) => (st, k),
            _ => panic!(),
        };
        let removed = cache.remove(&key);
        assert!(matches!(a.sign_out_step(st, Event::Removed(removed)), Step::Finish(Ok(b), None) if b == expected));
        assert!(cache.contains(&CacheKey::RefreshToken { user_id: uid, session_id: sb }));
    }
}

/// A store of identity rows and accounts, answering the OAuth flow's calls.
struct Stores {
    identities: Vec<Identity>,
    users: Vec<User>,
}

impl Stores {
    fn answer(&mut self, action: Action) -> Event {
        match action {
            Action::FindIdentity { provider, provider_user_id } => match self
                .identities
                .iter()
                .find(|i| i.provider == provider && i.provider_user_id == provider_user_id)
            {
                Some(i) => Event::Identity(i.clone()),
                None => Event::Failed(StoreError::NotFound),
            },
            Action::FindUserByEmail(e) => match self.users.iter().find(|u| u.email.as_str() == e.as_str()) {
                Some(u) => Event::User(u.clone()),
                None => Event::Failed(StoreError::NotFound),
            },
            Action::InsertUser(u) => {
                self.users.push(u);
                Event::Done
            },
            Action::UpsertIdentity(i) => {
                match self.identities.iter().position(|x| x.provider == i.provider && x.provider_user_id == i.provider_user_id) {
                    Some(p) => self.identities[p].provider_data = i.provider_data,
                    None => self.identities.push(i),
                }
                Event::Done
            },
            _ => Event::Done,
        }
    }
}

fn oauth_login(a: &Authenticator, stores: &mut Stores, orphan: OrphanIdentity) -> u128 {
    let mut step = a.oauth_sign_in(orphan, "ua".to_string(), "ip".to_string());
    loop {
        step = match step {
            Step::Perform(st, action) => {
                let ev = stores.answer(action);
                a.oauth_step(st, ev)
            },
            Step::Finish(r, _) => {
                let tokens = r.unwrap();
                return a.token_factory().decode_token(&tokens.access_jwt, TokenKind::Access).unwrap().sub;
            },
        };
    }
}

#[test]
fn repeated_oauth_login_keeps_one_identity() {
    let a = authenticator(true);
    let mut stores = Stores { identities: vec![], users: vec![] };
    let orphan = || OrphanIdentity::new("gh-42".to_string(), email("ivy@example.com"), Provider::Github, Some(true), "{\"id\":42}".to_string());
    let first = oauth_login(&a, &mut stores, orphan());
    let second = oauth_login(&a, &mut stores, orphan());
    assert_eq!(first, second);
    assert_eq!(stores.identities.len(), 1);
    assert_eq!(stores.users.len(), 1);
    assert!(stores.users[0].email_confirmed_at.is_some());
}

#[test]
fn second_provider_links_to_existing_account() {
    let a = authenticator(true);
    let mut stores = Stores { identities: vec![], users: vec![] };
    let gh = OrphanIdentity::new("gh-1".to_string(), email("jo@example.com"), Provider::Github, Some(false), "{}".to_string());
    let go = OrphanIdentity::new("go-1".to_string(), email("jo@example.com"), Provider::Google, Some(true), "{}".to_string());
    let u1 = oauth_login(&a, &mut stores, gh);
    assert!(stores.users[0].email_confirmed_at.is_none());
    let u2 = oauth_login(&a, &mut stores, go);
    assert_eq!(u1, u2);
    assert_eq!(stores.identities.len(), 2);
    assert_eq!(stores.users.len(), 1);
}

#[test]
fn oauth_access_token_carries_provider_data() {
    let a = authenticator(true);
    let mut stores = Stores { identities: vec![], users: vec![] };
    let o = OrphanIdentity::new("d-7".to_string(), email("kim@example.com"), Provider::Discord, Some(true), "{\"username\":\"kim\"}".to_string());
    let mut step = a.oauth_sign_in(o, "ua".to_string(), "ip".to_string());
    let tokens = loop {
        step = match step {
            Step::Perform(st, action) => {
                let ev = stores.answer(action);
                a.oauth_step(st, ev)
            },
            Step::Finish(r, _) => break r.unwrap(),
        };
    };
    let c = a.token_factory().decode_token(&tokens.access_jwt, TokenKind::Access).unwrap();
    assert_eq!(c.data.as_deref(), Some("{\"username\":\"kim\"}"));
}

#[test]
fn oauth_store_failure_is_internal() {
    let a = authenticator(true);
    let o = OrphanIdentity::new("x".to_string(), email("l@example.com"), Provider::Google, None, "{}".to_string());
    let st = match a.oauth_sign_in(o, "ua".to_string(), "ip".to_string()) {
        Step::Perform(st, _) => st,
        _ => panic!(),
    };
    assert!(matches!(
        a.oauth_step(st, Event::Failed(StoreError::Other("down".to_string()))),
        Step::Finish(Err(Error::InternalError(_)), None)
    ));
}

#[test]
fn error_messages() {
    assert_eq!(Error::EmailAlreadyUsed("a@b.c".to_string()).message(), "Provided email is already used: a@b.c.");
    assert_eq!(Error::InvalidCredentials.message(), "Provided credentials are invalid.");
    assert_eq!(Error::InternalError("boom".to_string()).message(), "Internal Error: boom.");
    assert_eq!(Error::NotVerifiedAccount("a@b.c".to_string()).message(), "Can't log in unverified user: a@b.c.");
    assert_eq!(Error::InvalidToken.message(), "Provided Token is invalid.");
}

#[test]
fn links_are_urls() {
    let a = authenticator(true);
    assert_eq!(a.create_reset_password_url("abc"), "https://app.example.com/reset?token=abc");
    assert_eq!(a.create_confirm_email_url("x.y"), "https://app.example.com/confirm?token=x.y");
    assert_eq!(a.get_confirm_email_callback().as_str(), "https://app.example.com/confirm");
    assert_eq!(a.get_oauth_callback(), "https://app.example.com/");
}

#[test]
fn cache_key_texts() {
    let uid = user::Id::from_uuid(1);
    let sid = session::Id(2);
    assert_eq!(
        TokenRepository::key_text(&CacheKey::RefreshToken { user_id: uid, session_id: sid }),
        "refresh_token:00000000-0000-0000-0000-000000000001:00000000-0000-0000-0000-000000000002"
    );
    assert_eq!(
        TokenRepository::key_text(&CacheKey::ResetPassword { user_id: uid, token_id: 255 }),
        "reset_password:00000000-0000-0000-0000-000000000001:00000000-0000-0000-0000-0000000000ff"
    );
    let repo = TokenRepository::new(redis::Client::open("redis://127.0.0.1/").unwrap(), 77);
    assert_eq!(repo.refresh_token_expiry_secs(), 77);
}

#[test]
fn sign_in_state_is_inspectable() {
    let a = authenticator(true);
    match a.email_sign_in(email("m@example.com"), password("p"), "ua".to_string(), "ip".to_string()) {
        Step::Perform(SignIn::Lookup { user_agent, ip, .. }, Action::FindUserByEmail(e)) => {
            assert_eq!(user_agent, "ua");
            assert_eq!(ip, "ip");
            assert_eq!(e.as_str(), "m@example.com");
        },
        _ => panic!(),
    }
}

#[test]
fn links_are_normalized() {
    let jwt = JwtSettings {
        iss: "sphinx".to_string(),
        aud: vec!["web".to_string()],
        access_token: TokenSettings { exp_duration_secs: 900, secret: "a".to_string() },
        refresh_token: TokenSettings { exp_duration_secs: 900, secret: "r".to_string() },
        default_token: TokenSettings { exp_duration_secs: 900, secret: "d".to_string() },
    };
    assert!(CallbackUrl::parse("not a url").is_none());
    let config = Config {
        allow_unverified: true,
        reset_password: LinkSettings { callback: CallbackUrl::parse("https://x.io/reset?lang=en").unwrap(), token_expiration_secs: 60 },
        confirm_email: LinkSettings { callback: CallbackUrl::parse("HTTPS://APP.Example.com:443/confirm").unwrap(), token_expiration_secs: 60 },
    };
    let oauth = OAuthSettings { discord: None, google: None, apple: None, github: None, callback: "https://x.io/".to_string() };
    let a = Authenticator::new(sphinx::token::TokenFactory::new(jwt), config, oauth);
    assert_eq!(a.create_confirm_email_url("t"), "https://app.example.com/confirm?token=t");
    assert_eq!(a.create_reset_password_url("t"), "https://x.io/reset?lang=en&token=t");
    let (_, mail) = sign_up(&a, "olu@example.com", "pw");
    assert!(mail.unwrap().body.starts_with("Confirm your Email: https://app.example.com/confirm?token="));
}

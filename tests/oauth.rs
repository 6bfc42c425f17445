use sphinx::authenticator::Authenticator;
use sphinx::config::{CallbackUrl, Config, JwtSettings, LinkSettings, OAuthSettings, ProviderSettings, TokenSettings};
use sphinx::identity::Provider;
use sphinx::oauth::{
    primary_verified_email, profile_identity, provider_scopes, Callback, HandshakeAction, HandshakeEvent,
    HandshakeStep, OAuthError, ProviderEmail, ProviderProfile,
};

fn provider(auth_url: &str) -> ProviderSettings {
    ProviderSettings {
        client_id: "client".to_string(),
        client_secret: "secret".to_string(),
        auth_url: auth_url.to_string(),
        token_url: "https://provider.example.com/token".to_string(),
        redirect_url: "https://app.example.com/oauth/callback".to_string(),
    }
}

fn authenticator() -> Authenticator {
    let t = |s: &str| TokenSettings { exp_duration_secs: 60, secret: s.to_string() };
    let jwt = JwtSettings { iss: "i".to_string(), aud: vec!["a".to_string()], access_token: t("x"), refresh_token: t("y"), default_token: t("z") };
    let link = || LinkSettings { callback: CallbackUrl::parse("https://app.example.com/cb").unwrap(), token_expiration_secs: 60 };
    let config = Config { allow_unverified: true, reset_password: link(), confirm_email: link() };
    let oauth = OAuthSettings {
        discord: Some(provider("https://discord.example.com/authorize")),
        google: None,
        apple: None,
        github: Some(provider("not a url")),
        callback: "https://app.example.com/".to_string(),
    };
    Authenticator::new(sphinx::token::TokenFactory::new(jwt), config, oauth)
}

fn load(a: &Authenticator, state: &str) -> Callback {
    match a.oauth_callback(Provider::Discord, "code-1".to_string(), state.to_string(), Some("cookie-1".to_string())) {
        HandshakeStep::Perform(cb, HandshakeAction::LoadCsrfSession(c)) => {
            assert_eq!(c, "cookie-1");
            cb
        },
        _ => panic!("expected a session load"),
    }
}

#[test]
fn csrf_mismatch_stops_before_the_provider() {
    let a = authenticator();
    let cb = load(&a, "state-from-query");
    let cb = match a.oauth_callback_step(cb, HandshakeEvent::CsrfSession(Some("stored-state".to_string()))) {
        HandshakeStep::Perform(cb, HandshakeAction::DestroyCsrfSession(c)) => {
            assert_eq!(c, "cookie-1");
            cb
        },
        _ => panic!("the session is destroyed first"),
    };
    assert!(matches!(a.oauth_callback_step(cb.clone(), HandshakeEvent::Done), HandshakeStep::Finish(Err(OAuthError::CsrfMismatch))));
    assert!(matches!(
        a.oauth_callback_step(cb, HandshakeEvent::Failed("gone".to_string())),
        HandshakeStep::Finish(Err(OAuthError::CsrfMismatch))
    ));
}

#[test]
fn csrf_match_then_exchange_and_fetch() {
    let a = authenticator();
    let cb = load(&a, "s");
    let cb = match a.oauth_callback_step(cb, HandshakeEvent::CsrfSession(Some("s".to_string()))) {
        HandshakeStep::Perform(cb, HandshakeAction::DestroyCsrfSession(_)) => cb,
        _ => panic!(),
    };
    let cb = match a.oauth_callback_step(cb, HandshakeEvent::Done) {
        HandshakeStep::Perform(cb, HandshakeAction::ExchangeCode { provider, code }) => {
            assert_eq!(provider, Provider::Discord);
            assert_eq!(code, "code-1");
            cb
        },
        _ => panic!("expected the code exchange"),
    };
    let cb = match a.oauth_callback_step(cb, HandshakeEvent::ProviderToken("tok".to_string())) {
        HandshakeStep::Perform(cb, HandshakeAction::FetchProfile { access_token, .. }) => {
            assert_eq!(access_token, "tok");
            cb
        },
        _ => panic!(),
    };
    let profile = ProviderProfile {
        id: "77".to_string(),
        email: Some("nia@example.com".to_string()),
        email_verified: Some(true),
        raw: "{\"id\":\"77\"}".to_string(),
    };
    match a.oauth_callback_step(cb, HandshakeEvent::Profile(profile)) {
        HandshakeStep::Finish(Ok(o)) => {
            assert_eq!(o.provider, Provider::Discord);
            assert_eq!(o.provider_user_id, "77");
            assert_eq!(o.email.as_str(), "nia@example.com");
            assert_eq!(o.provider_data, "{\"id\":\"77\"}");
        },
        _ => panic!(),
    }
}

#[test]
fn missing_session_or_cookie_is_a_mismatch() {
    let a = authenticator();
    assert!(matches!(
        a.oauth_callback(Provider::Discord, "c".to_string(), "s".to_string(), None),
        HandshakeStep::Finish(Err(OAuthError::CsrfMismatch))
    ));
    let cb = load(&a, "s");
    assert!(matches!(a.oauth_callback_step(cb, HandshakeEvent::CsrfSession(None)), HandshakeStep::Finish(Err(OAuthError::CsrfMismatch))));
}

#[test]
fn unconfigured_provider_is_unsupported() {
    let a = authenticator();
    assert!(matches!(
        a.oauth_callback(Provider::Google, "c".to_string(), "s".to_string(), Some("k".to_string())),
        HandshakeStep::Finish(Err(OAuthError::Unsupported))
    ));
    assert!(matches!(a.oauth_initiate(Provider::Google), Err(OAuthError::Unsupported)));
    assert!(matches!(a.oauth_initiate(Provider::Email), Err(OAuthError::Unsupported)));
    assert!(a.get_oauth_client(Provider::Google).is_none());
    assert_eq!(a.get_oauth_client(Provider::Discord).unwrap().client_id, "client");
}

#[test]
fn initiate_embeds_state_in_url() {
    let a = authenticator();
    let (url, state) = a.oauth_initiate(Provider::Discord).unwrap();
    assert!(url.starts_with("https://discord.example.com/authorize?"));
    assert!(url.contains(&format!("state={}", state)));
    assert!(url.contains("scope=identify"));
    assert!(!state.is_empty());
    let (_, other) = a.oauth_initiate(Provider::Discord).unwrap();
    assert_ne!(state, other);
    assert!(matches!(a.oauth_initiate(Provider::Github), Err(OAuthError::Internal(_))));
}

#[test]
fn scopes_per_provider() {
    assert_eq!(provider_scopes(Provider::Github), vec!["user:email".to_string()]);
    assert_eq!(provider_scopes(Provider::Discord), vec!["identify".to_string()]);
    assert_eq!(provider_scopes(Provider::Google).len(), 3);
    assert!(provider_scopes(Provider::Apple).is_empty());
}

#[test]
fn primary_verified_email_choice() {
    let e = |email: &str, primary: bool, verified: bool| ProviderEmail { email: email.to_string(), primary, verified };
    let list = vec![e("a@x.io", false, true), e("b@x.io", true, false), e("c@x.io", true, true), e("d@x.io", true, true)];
    assert_eq!(primary_verified_email(&list), Some(2));
    assert_eq!(primary_verified_email(&list[..2].to_vec()), None);
    assert_eq!(primary_verified_email(&vec![]), None);
}

#[test]
fn profile_mapping_rules() {
    let p = |email: Option<&str>, verified: Option<bool>| ProviderProfile {
        id: "1".to_string(),
        email: email.map(|s| s.to_string()),
        email_verified: verified,
        raw: "{}".to_string(),
    };
    assert!(matches!(profile_identity(Provider::Github, p(None, Some(true))), Err(OAuthError::InvalidProfile(_))));
    assert!(matches!(profile_identity(Provider::Github, p(Some("bad"), Some(true))), Err(OAuthError::InvalidProfile(_))));
    assert!(matches!(profile_identity(Provider::Discord, p(Some("a@b.co"), None)), Err(OAuthError::InvalidProfile(_))));
    let o = profile_identity(Provider::Google, p(Some("a@b.co"), None)).unwrap();
    assert_eq!(o.is_email_confirmed, None);
    let o = profile_identity(Provider::Discord, p(Some("a@b.co"), Some(false))).unwrap();
    assert_eq!(o.is_email_confirmed, Some(false));
}

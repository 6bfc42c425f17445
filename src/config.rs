//! Settings that the library reads. Loading them is left to the caller.
use crate::identity::Provider;
use vstd::prelude::*;

verus! {

/// Where the HTTP server listens.
#[derive(Debug, Clone)]
pub struct ApplicationSettings {
    pub port: u16,
    pub host: String,
}

/// Where the expiring key-value store is reached.
#[derive(Debug, Clone)]
pub struct RedisSettings {
    pub url: String,
}

/// The sender of outgoing mail.
#[derive(Debug, Clone)]
pub struct MailboxSettings {
    pub email: String,
    pub name: String,
}

/// Signing secret and lifetime of one kind of token.
#[derive(Debug, Clone)]
pub struct TokenSettings {
    pub exp_duration_secs: u64,
    pub secret: String,
}

/// Issuer, audiences, and per-kind secrets and lifetimes of tokens.
#[derive(Debug, Clone)]
pub struct JwtSettings {
    pub iss: String,
    pub aud: Vec<String>,
    pub access_token: TokenSettings,
    pub refresh_token: TokenSettings,
    pub default_token: TokenSettings,
}

/// What `url` makes of a text: its serialization when it parses as an
/// absolute URL.
pub uninterp spec fn url_serialized_of(text: Seq<char>) -> Option<Seq<char>>;

/// Relies on `url::Url::parse` and the URL's serialization.
#[verifier::external_body]
pub(crate) fn parse_url(text: &str) -> (r: Option<String>)
    ensures
        r is Some <==> url_serialized_of(text@) is Some,
        r matches Some(u) ==> url_serialized_of(text@) == Some(u@),
{
    url::Url::parse(text).ok().map(|u| u.to_string())
}

/// A callback address that parses as an absolute URL.
#[derive(Debug)]
pub struct CallbackUrl {
    text: String,
}

impl View for CallbackUrl {
    type V = Seq<char>;

    closed spec fn view(&self) -> Seq<char> {
        self.text@
    }
}

impl CallbackUrl {
    #[verifier::type_invariant]
    spec fn is_url(self) -> bool {
        url_serialized_of(self.text@) is Some
    }

    /// `text` as a callback address, when it parses as a URL.
    pub fn parse(text: &str) -> (r: Option<CallbackUrl>)
        ensures
            r is Some <==> url_serialized_of(text@) is Some,
            r matches Some(c) ==> c@ == text@,
    {
        if parse_url(text).is_some() {
            Some(CallbackUrl { text: text.to_owned() })
        } else {
            None
        }
    }

    pub fn as_str(&self) -> (r: &str)
        ensures
            r@ == self@,
            url_serialized_of(r@) is Some,
    {
        proof {
            use_type_invariant(self);
        }
        self.text.as_str()
    }
}

/// A callback link base and the lifetime of the tokens sent with it.
#[derive(Debug)]
pub struct LinkSettings {
    pub callback: CallbackUrl,
    pub token_expiration_secs: u64,
}

/// What the use cases read from configuration.
#[derive(Debug)]
pub struct Config {
    pub allow_unverified: bool,
    pub reset_password: LinkSettings,
    pub confirm_email: LinkSettings,
}

/// The OAuth application registered with one provider.
#[derive(Debug, Clone)]
pub struct ProviderSettings {
    pub client_id: String,
    pub client_secret: String,
    pub auth_url: String,
    pub token_url: String,
    pub redirect_url: String,
}

/// OAuth applications per provider; an absent one is not offered.
#[derive(Debug, Clone)]
pub struct OAuthSettings {
    pub discord: Option<ProviderSettings>,
    pub google: Option<ProviderSettings>,
    pub apple: Option<ProviderSettings>,
    pub github: Option<ProviderSettings>,
    /// Where the browser is sent after an OAuth sign-in.
    pub callback: String,
}

/// The settings of `p`, if it is configured. Email is not an OAuth provider.
pub open spec fn provider_entry(s: OAuthSettings, p: Provider) -> Option<ProviderSettings> {
    match p {
        Provider::Discord => s.discord,
        Provider::Google => s.google,
        Provider::Apple => s.apple,
        Provider::Github => s.github,
        Provider::Email => None,
    }
}

impl OAuthSettings {
    /// The settings of `provider`; `None` when it is not configured.
    pub fn provider(&self, provider: Provider) -> (r: Option<&ProviderSettings>)
        ensures
            r is Some <==> provider_entry(*self, provider) is Some,
            r matches Some(x) ==> provider_entry(*self, provider) == Some(*x),
    {
        match provider {
            Provider::Discord => self.discord.as_ref(),
            Provider::Google => self.google.as_ref(),
            Provider::Apple => self.apple.as_ref(),
            Provider::Github => self.github.as_ref(),
            Provider::Email => None,
        }
    }
}

} // verus!

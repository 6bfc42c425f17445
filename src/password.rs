use argon2::password_hash::{rand_core::OsRng, PasswordHasher, PasswordVerifier, SaltString};
use vstd::prelude::*;

verus! {

/// Whether the Argon2 verifier accepts `password` against the PHC string
/// `hash`; false when `hash` is not a well-formed PHC string. A function of the
/// two texts alone: the salt and parameters are read from `hash`.
pub uninterp spec fn argon2_accepts(hash: Seq<char>, password: Seq<char>) -> bool;

/// Relies on `argon2::PasswordHash::new` and `argon2::PasswordVerifier::verify_password`
/// with the default Argon2 instance: a parse error counts as a rejection.
#[verifier::external_body]
fn argon2_verify(hash: &str, password: &str) -> (r: bool)
    ensures
        r == argon2_accepts(hash@, password@),
{
    match argon2::PasswordHash::new(hash) {
        Ok(parsed) => argon2::Argon2::default().verify_password(password.as_bytes(), &parsed).is_ok(),
        Err(_) => false,
    }
}

/// Relies on `argon2::PasswordHasher::hash_password` with a fresh salt from
/// `SaltString::generate(&mut OsRng)`: the PHC string it returns is one that
/// the verifier accepts for the same password. The salt is random, so nothing
/// else is known of the text. Hashing a byte string with a freshly generated
/// salt and the default parameters does not fail.
#[verifier::external_body]
fn argon2_hash(password: &str) -> (r: String)
    ensures
        argon2_accepts(r@, password@),
{
    let salt = SaltString::generate(&mut OsRng);
    argon2::Argon2::default().hash_password(password.as_bytes(), &salt).unwrap().to_string()
}

/// Errors raised while handling passwords.
#[derive(Debug, Clone, PartialEq, Eq)]
pub enum Error {
    WeakPassword(String),
    InternalError(String),
}

/// A clear-text password as received from a user.
#[derive(Debug, Clone)]
pub struct Password(String);

impl View for Password {
    type V = Seq<char>;

    closed spec fn view(&self) -> Seq<char> {
        self.0@
    }
}

/// An Argon2 PHC string.
#[derive(Debug, Clone)]
pub struct EncryptedPassword(String);

impl View for EncryptedPassword {
    type V = Seq<char>;

    closed spec fn view(&self) -> Seq<char> {
        self.0@
    }
}

/// `hash` is an Argon2 hash of `password`.
pub open spec fn hash_matches(hash: Seq<char>, password: Seq<char>) -> bool {
    argon2_accepts(hash, password)
}

impl Password {
    /// Every text is accepted as a password.
    pub fn parse(password: &str) -> (r: Result<Password, Error>)
        ensures
            r matches Ok(p) && p@ == password@,
    {
        Ok(Password(password.to_owned()))
    }

    /// Hashes the password with a fresh random salt.
    pub fn encrypt(&self) -> (r: EncryptedPassword)
        ensures
            hash_matches(r@, self@),
    {
        EncryptedPassword(argon2_hash(self.0.as_str()))
    }
}

impl EncryptedPassword {
    /// Accepts `encrypted_password` when the verifier accepts the text itself
    /// as the password of the hash.
    pub fn parse(encrypted_password: &str) -> (r: Result<EncryptedPassword, Error>)
        ensures
            r is Ok <==> argon2_accepts(encrypted_password@, encrypted_password@),
            r matches Ok(e) ==> e@ == encrypted_password@,
    {
        if argon2_verify(encrypted_password, encrypted_password) {
            Ok(EncryptedPassword(encrypted_password.to_owned()))
        } else {
            Err(Error::InternalError("password hash rejected".to_owned()))
        }
    }

    pub fn to_string(&self) -> (r: String)
        ensures
            r@ == self@,
    {
        self.0.clone()
    }

    pub fn from_trusted_str(encrypted_password: &str) -> (r: EncryptedPassword)
        ensures
            r@ == encrypted_password@,
    {
        EncryptedPassword(encrypted_password.to_owned())
    }

    pub fn from_trusted_string(encrypted_password: String) -> (r: EncryptedPassword)
        ensures
            r@ == encrypted_password@,
    {
        EncryptedPassword(encrypted_password)
    }

    /// Whether `password` is the password this hash was made from.
    pub fn compare_with(&self, password: &Password) -> (r: bool)
        ensures
            r == hash_matches(self@, password@),
    {
        argon2_verify(self.0.as_str(), password.0.as_str())
    }

    pub fn as_str(&self) -> (r: &str)
        ensures
            r@ == self@,
    {
        self.0.as_str()
    }
}

/// Hashing and verification on plain texts.
#[derive(Debug, Clone, Default)]
pub struct PasswordHandler {}

impl PasswordHandler {
    pub fn encrypt_password(&self, password: &str) -> (r: String)
        ensures
            hash_matches(r@, password@),
    {
        argon2_hash(password)
    }

    pub fn verify_password(&self, password: &str, encrypted_password: &str) -> (r: bool)
        ensures
            r == hash_matches(encrypted_password@, password@),
    {
        argon2_verify(encrypted_password, password)
    }
}

} // verus!

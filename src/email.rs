use vstd::prelude::*;

verus! {

/// What the `validator` crate decides about an email address; a function of
/// the characters alone.
pub uninterp spec fn valid_email_of(s: Seq<char>) -> bool;

/// Relies on `validator::ValidateEmail::validate_email` for `&str`: a pure
/// syntactic check of the address.
#[verifier::external_body]
fn validate_email(s: &str) -> (r: bool)
    ensures
        r == valid_email_of(s@),
{
    validator::ValidateEmail::validate_email(&s)
}

/// Errors raised while reading an email address.
#[derive(Debug, Clone, PartialEq, Eq)]
pub enum Error {
    InvalidEmail(String),
}

/// An email address. Values built by [`Email::parse`] passed validation;
/// [`Email::from_trusted_str`] is for addresses read back from the store.
#[derive(Debug, Clone)]
pub struct Email(String);

impl View for Email {
    type V = Seq<char>;

    closed spec fn view(&self) -> Seq<char> {
        self.0@
    }
}

impl Email {
    /// Validates `email` and wraps it.
    pub fn parse(email: &str) -> (r: Result<Email, Error>)
        ensures
            r is Ok <==> valid_email_of(email@),
            r matches Ok(e) ==> e@ == email@,
            r matches Err(Error::InvalidEmail(s)) ==> s@ == email@,
    {
        if validate_email(email) {
            Ok(Email(email.to_owned()))
        } else {
            Err(Error::InvalidEmail(email.to_owned()))
        }
    }

    pub fn from_trusted_str(email: &str) -> (r: Email)
        ensures
            r@ == email@,
    {
        Email(email.to_owned())
    }

    pub fn as_str(&self) -> (r: &str)
        ensures
            r@ == self@,
    {
        self.0.as_str()
    }

    /// The address as text.
    pub fn to_string(&self) -> (r: String)
        ensures
            r@ == self@,
    {
        self.0.clone()
    }

    /// A copy of the address.
    pub fn duplicate(&self) -> (r: Email)
        ensures
            r@ == self@,
    {
        Email(self.0.clone())
    }

    /// Same address, compared character by character.
    pub fn same_as(&self, other: &Email) -> (r: bool)
        ensures
            r == (self@ == other@),
    {
        self.0 == other.0
    }
}

} // verus!

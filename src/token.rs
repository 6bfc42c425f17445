//! Signed claim sets for the four kinds of token.
//!
//! On the wire a token is an HS256 JWT whose payload is one JSON object of
//! text fields: `kind`, `iss`, `aud` (the audiences separated by spaces),
//! `sub`, `iat`, `exp` (decimal seconds), and when present `sid`, `jti` and
//! `data`. Which secret signs or checks a token is decided by its kind alone.
use crate::config::JwtSettings;
use crate::ids::{now_secs, random_uuid, uuid_parse, uuid_text, uuid_text_of, uuid_value_of};
use vstd::prelude::*;
use vstd::string::StringExecFns;

verus! {

/// Name of the cookie that carries the access token.
pub const ACCESS_TOKEN_NAME: &'static str = "access_token";

/// Name of the cookie that carries the refresh token.
pub const REFRESH_TOKEN_NAME: &'static str = "refresh_token";

// ----- outside functions -----

pub open spec fn decimal_digit(d: nat) -> char {
    seq!['0', '1', '2', '3', '4', '5', '6', '7', '8', '9'][d as int]
}

/// The decimal digits of `n`, most significant first, without leading zeros.
pub open spec fn decimal_digits(n: nat) -> Seq<char>
    decreases n,
{
    if n < 10 {
        seq![decimal_digit(n)]
    } else {
        decimal_digits(n / 10).push(decimal_digit(n % 10))
    }
}

/// The decimal text that std writes for an unsigned integer.
pub open spec fn decimal_text_of(n: u64) -> Seq<char> {
    decimal_digits(n as nat)
}

pub open spec fn is_decimal_digit(c: char) -> bool {
    '0' <= c && c <= '9'
}

/// The value of a string of decimal digits.
pub open spec fn digits_value(s: Seq<char>) -> int
    decreases s.len(),
{
    if s.len() == 0 {
        0
    } else {
        digits_value(s.drop_last()) * 10 + (s.last() as int - '0' as int)
    }
}

/// The text after an optional leading `+`.
pub open spec fn unsigned_part(text: Seq<char>) -> Seq<char> {
    if text.len() > 0 && text[0] == '+' { text.drop_first() } else { text }
}

pub open spec fn all_decimal_digits(s: Seq<char>) -> bool {
    forall|i: int| 0 <= i < s.len() ==> is_decimal_digit(#[trigger] s[i])
}

/// What `str::parse::<u64>` reads: an optional `+`, then one or more decimal
/// digits whose value fits in a `u64`.
pub open spec fn decimal_value_of(text: Seq<char>) -> Option<u64> {
    let d = unsigned_part(text);
    if d.len() > 0 && all_decimal_digits(d) && digits_value(d) <= u64::MAX {
        Some(digits_value(d) as u64)
    } else {
        None
    }
}

/// The compact JWT that `jsonwebtoken` writes for the given text fields and
/// secret; HMAC signing is deterministic.
pub uninterp spec fn jwt_signed_of(fields: Seq<(Seq<char>, Seq<char>)>, secret: Seq<char>) -> Seq<char>;

/// The text fields of a compact JWT whose HS256 signature checks out against
/// the secret; `None` when the signature, the header or the payload is wrong.
pub uninterp spec fn jwt_fields_of(token: Seq<char>, secret: Seq<char>) -> Option<Seq<(Seq<char>, Seq<char>)>>;

fn digit_text(d: u64) -> (r: &'static str)
    requires
        d < 10,
    ensures
        r@ == seq![decimal_digit(d as nat)],
{
    proof {
        reveal_strlit("0");
        reveal_strlit("1");
        reveal_strlit("2");
        reveal_strlit("3");
        reveal_strlit("4");
        reveal_strlit("5");
        reveal_strlit("6");
        reveal_strlit("7");
        reveal_strlit("8");
        reveal_strlit("9");
    }
    let r = match d {
        0 => "0",
        1 => "1",
        2 => "2",
        3 => "3",
        4 => "4",
        5 => "5",
        6 => "6",
        7 => "7",
        8 => "8",
        _ => "9",
    };
    assert(r@ =~= seq![decimal_digit(d as nat)]);
    r
}

/// The decimal form of `n`, as `u64`'s `Display` writes it.
fn decimal_text(n: u64) -> (r: String)
    ensures
        r@ == decimal_text_of(n),
    decreases n,
{
    if n < 10 {
        digit_text(n).to_owned()
    } else {
        let mut r = decimal_text(n / 10);
        r.append(digit_text(n % 10));
        assert(r@ =~= decimal_digits((n / 10) as nat).push(decimal_digit((n % 10) as nat)));
        r
    }
}

proof fn lemma_digits_value_nonneg(s: Seq<char>)
    requires
        forall|i: int| 0 <= i < s.len() ==> is_decimal_digit(#[trigger] s[i]),
    ensures
        digits_value(s) >= 0,
    decreases s.len(),
{
    if s.len() > 0 {
        assert forall|i: int| 0 <= i < s.drop_last().len() implies is_decimal_digit(#[trigger] s.drop_last()[i]) by {
            assert(s.drop_last()[i] == s[i]);
        }
        lemma_digits_value_nonneg(s.drop_last());
        assert(is_decimal_digit(s[s.len() - 1]));
    }
}

/// The value of `text` as `str::parse::<u64>` reads it.
fn decimal_value(text: &str) -> (r: Option<u64>)
    ensures
        r == decimal_value_of(text@),
{
    let len = text.unicode_len();
    let mut start: usize = 0;
    if len > 0 && text.get_char(0) == '+' {
        start = 1;
    }
    let ghost d = unsigned_part(text@);
    assert(d =~= text@.subrange(start as int, len as int));
    if start == len {
        return None;
    }
    let mut i: usize = start;
    let mut acc: u64 = 0;
    let mut overflow = false;
    while i < len
        invariant
            start < len,
            start <= i <= len,
            len == text@.len(),
            d == text@.subrange(start as int, len as int),
            d == unsigned_part(text@),
            forall|j: int| start <= j < i ==> is_decimal_digit(#[trigger] text@[j]),
            !overflow ==> acc == digits_value(text@.subrange(start as int, i as int)),
            overflow ==> digits_value(text@.subrange(start as int, i as int)) > u64::MAX,
        decreases len - i,
    {
        let c = text.get_char(i);
        let ghost p = text@.subrange(start as int, i as int);
        let ghost q = text@.subrange(start as int, i + 1);
        assert(q.drop_last() =~= p);
        assert(q.last() == c);
        if !('0' <= c && c <= '9') {
            let ghost k = i - start;
            assert(d[k] == c);
            assert(!is_decimal_digit(d[k]));
            assert(!all_decimal_digits(d));
            assert(decimal_value_of(text@) == None::<u64>);
            return None;
        }
        assert forall|j: int| 0 <= j < p.len() implies is_decimal_digit(#[trigger] p[j]) by {
            assert(p[j] == text@[start + j]);
        }
        proof {
            lemma_digits_value_nonneg(p);
        }
        let digit = (c as u32 - '0' as u32) as u64;
        assert(digit == c as int - '0' as int);
        if !overflow {
            match acc.checked_mul(10) {
                Some(t) => match t.checked_add(digit) {
                    Some(v) => {
                        acc = v;
                    },
                    None => {
                        overflow = true;
                    },
                },
                None => {
                    overflow = true;
                },
            }
        }
        i = i + 1;
    }
    assert(text@.subrange(start as int, len as int) == d);
    if overflow {
        None
    } else {
        Some(acc)
    }
}

/// Relies on `jsonwebtoken::encode` with the default header (HS256) and
/// `EncodingKey::from_secret`. The header's algorithm belongs to the key's
/// family and a map of strings always serializes, so encoding does not fail.
/// The payload is the JSON object of the fields, built by `BTreeMap::insert`
/// in order, which replaces the value of an earlier field of the same name;
/// `jsonwebtoken::decode` with the same secret,
/// as in [`jwt_verify`], accepts the signature and reads that object back
/// (its own claim pre-check turns unreadable values into "not present").
#[verifier::external_body]
fn jwt_sign(fields: &Vec<(String, String)>, secret: &str) -> (r: String)
    ensures
        r@ == jwt_signed_of(field_texts(fields@), secret@),
        reads_back(r@, field_texts(fields@), secret@),
{
    let mut claims = std::collections::BTreeMap::new();
    for (k, v) in fields.iter() {
        claims.insert(k.as_str(), v.as_str());
    }
    let key = jsonwebtoken::EncodingKey::from_secret(secret.as_bytes());
    jsonwebtoken::encode(&jsonwebtoken::Header::default(), &claims, &key).unwrap()
}

/// Relies on `jsonwebtoken::decode` with HS256, `DecodingKey::from_secret`,
/// and its own claim checks switched off (no required claims, no expiry or
/// audience check): it checks the signature and reads the payload as a JSON
/// object of strings. The secret only decides whether the signature is
/// accepted: the payload is decoded from the token alone.
#[verifier::external_body]
fn jwt_verify(token: &str, secret: &str) -> (r: Option<Vec<(String, String)>>)
    ensures
        r is Some <==> jwt_fields_of(token@, secret@) is Some,
        r matches Some(f) ==> jwt_fields_of(token@, secret@) == Some(field_texts(f@)),
        r matches Some(f) ==> forall|other: Seq<char>| #[trigger] jwt_fields_of(token@, other) is Some
            ==> jwt_fields_of(token@, other) == Some(field_texts(f@)),
{
    let mut validation = jsonwebtoken::Validation::new(jsonwebtoken::Algorithm::HS256);
    validation.required_spec_claims.clear();
    validation.validate_exp = false;
    validation.validate_aud = false;
    let key = jsonwebtoken::DecodingKey::from_secret(secret.as_bytes());
    let data = jsonwebtoken::decode::<std::collections::BTreeMap<String, String>>(token, &key, &validation).ok()?;
    Some(data.claims.into_iter().collect())
}

// ----- kinds and claims -----

/// The kinds of token that are neither access nor refresh tokens.
#[derive(Debug, Clone, Copy, PartialEq, Eq, Structural)]
pub enum TokenType {
    ConfirmEmail,
    ResetPassword,
}

/// The closed set of token kinds. A kind picks the secret and the lifetime.
#[derive(Debug, Clone, Copy, PartialEq, Eq, Structural)]
pub enum TokenKind {
    Access,
    Refresh,
    ConfirmEmail,
    ResetPassword,
}

pub open spec fn kind_of_type(t: TokenType) -> TokenKind {
    match t {
        TokenType::ConfirmEmail => TokenKind::ConfirmEmail,
        TokenType::ResetPassword => TokenKind::ResetPassword,
    }
}

impl TokenType {
    pub fn kind(self) -> (r: TokenKind)
        ensures
            r == kind_of_type(self),
    {
        match self {
            TokenType::ConfirmEmail => TokenKind::ConfirmEmail,
            TokenType::ResetPassword => TokenKind::ResetPassword,
        }
    }
}

pub open spec fn kind_name(k: TokenKind) -> Seq<char> {
    match k {
        TokenKind::Access => "access"@,
        TokenKind::Refresh => "refresh"@,
        TokenKind::ConfirmEmail => "confirm_email"@,
        TokenKind::ResetPassword => "reset_password"@,
    }
}

fn kind_text(k: TokenKind) -> (r: String)
    ensures
        r@ == kind_name(k),
{
    match k {
        TokenKind::Access => "access".to_owned(),
        TokenKind::Refresh => "refresh".to_owned(),
        TokenKind::ConfirmEmail => "confirm_email".to_owned(),
        TokenKind::ResetPassword => "reset_password".to_owned(),
    }
}

/// A claim set. `session_id` is set in access and refresh tokens, `jti` (a
/// single-use identifier) in refresh tokens and reset-password tokens, and `data` (an
/// opaque JSON text) only in access tokens. Times are seconds since the
/// Unix epoch; identifiers are UUID values.
#[derive(Debug, Clone, PartialEq, Eq)]
pub struct TokenClaims {
    pub kind: TokenKind,
    pub iss: String,
    pub aud: Vec<String>,
    pub sub: u128,
    pub iat: u64,
    pub exp: u64,
    pub session_id: Option<u128>,
    pub jti: Option<u128>,
    pub data: Option<String>,
}

/// The two tokens handed out at sign-in.
#[derive(Debug, Clone)]
pub struct AuthTokens {
    pub access_jwt: String,
    pub refresh_jwt: String,
}

impl AuthTokens {
    pub fn new(access_jwt: String, refresh_jwt: String) -> (r: AuthTokens)
        ensures
            r.access_jwt@ == access_jwt@,
            r.refresh_jwt@ == refresh_jwt@,
    {
        AuthTokens { access_jwt, refresh_jwt }
    }
}

/// The token could not be accepted. Bad signature, expiry, wrong audience
/// and wrong kind are deliberately not told apart.
#[derive(Debug, Clone, Copy, PartialEq, Eq, Structural)]
pub struct InvalidToken;

// ----- the wire form -----

pub open spec fn field_texts(f: Seq<(String, String)>) -> Seq<(Seq<char>, Seq<char>)> {
    f.map_values(|p: (String, String)| (p.0@, p.1@))
}

/// The value of the last field named `key`: a later field replaces an
/// earlier one of the same name, as in a JSON object.
pub open spec fn field(f: Seq<(Seq<char>, Seq<char>)>, key: Seq<char>) -> Option<Seq<char>>
    decreases f.len(),
{
    if f.len() == 0 {
        None
    } else if f.last().0 == key {
        Some(f.last().1)
    } else {
        field(f.drop_last(), key)
    }
}

/// Reading `t` back under `secret` gives the fields `f`, name by name.
pub open spec fn reads_back(t: Seq<char>, f: Seq<(Seq<char>, Seq<char>)>, secret: Seq<char>) -> bool {
    jwt_fields_of(t, secret) matches Some(g) && forall|k: Seq<char>| #[trigger] field(g, k) == field(f, k)
}

/// The audiences, separated by single spaces.
pub open spec fn aud_text(aud: Seq<Seq<char>>) -> Seq<char>
    decreases aud.len(),
{
    if aud.len() == 0 {
        Seq::empty()
    } else if aud.len() == 1 {
        aud[0]
    } else {
        aud_text(aud.drop_last()) + seq![' '] + aud.last()
    }
}

pub open spec fn opt_field(key: Seq<char>, value: Option<Seq<char>>) -> Seq<(Seq<char>, Seq<char>)> {
    match value {
        Some(v) => seq![(key, v)],
        None => Seq::empty(),
    }
}

pub open spec fn opt_uuid_text(v: Option<u128>) -> Option<Seq<char>> {
    match v {
        Some(x) => Some(uuid_text_of(x)),
        None => None,
    }
}

pub open spec fn opt_text(v: Option<String>) -> Option<Seq<char>> {
    match v {
        Some(x) => Some(x@),
        None => None,
    }
}

/// The text fields that carry a claim set.
pub open spec fn wire_fields(c: TokenClaims) -> Seq<(Seq<char>, Seq<char>)> {
    seq![
        ("kind"@, kind_name(c.kind)),
        ("iss"@, c.iss@),
        ("aud"@, aud_text(c.aud.deep_view())),
        ("sub"@, uuid_text_of(c.sub)),
        ("iat"@, decimal_text_of(c.iat)),
        ("exp"@, decimal_text_of(c.exp)),
    ] + opt_field("sid"@, opt_uuid_text(c.session_id)) + opt_field("jti"@, opt_uuid_text(c.jti))
        + opt_field("data"@, opt_text(c.data))
}

/// A field appended under another name does not change what `key` reads.
pub proof fn lemma_field_skip(s: Seq<(Seq<char>, Seq<char>)>, k: Seq<char>, v: Option<Seq<char>>, key: Seq<char>)
    requires
        k != key,
    ensures
        field(s + opt_field(k, v), key) == field(s, key),
{
    match v {
        Some(x) => {
            let t = s + opt_field(k, v);
            assert(t.last() == (k, x));
            assert(t.drop_last() =~= s);
        },
        None => {
            assert(s + opt_field(k, v) =~= s);
        },
    }
}

/// The kind and the subject that the fields of a claim set carry.
pub proof fn lemma_wire_kind_and_subject(c: TokenClaims)
    ensures
        field(wire_fields(c), "kind"@) == Some(kind_name(c.kind)),
        field(wire_fields(c), "sub"@) == Some(uuid_text_of(c.sub)),
{
    reveal_strlit("kind");
    reveal_strlit("iss");
    reveal_strlit("aud");
    reveal_strlit("sub");
    reveal_strlit("iat");
    reveal_strlit("exp");
    reveal_strlit("sid");
    reveal_strlit("jti");
    reveal_strlit("data");
    let h6: Seq<(Seq<char>, Seq<char>)> = seq![
        ("kind"@, kind_name(c.kind)),
        ("iss"@, c.iss@),
        ("aud"@, aud_text(c.aud.deep_view())),
        ("sub"@, uuid_text_of(c.sub)),
        ("iat"@, decimal_text_of(c.iat)),
        ("exp"@, decimal_text_of(c.exp)),
    ];
    let h5 = h6.drop_last();
    let h4 = h5.drop_last();
    let h3 = h4.drop_last();
    let h2 = h3.drop_last();
    let h1 = h2.drop_last();
    assert(h1 =~= seq![("kind"@, kind_name(c.kind))]);
    assert(h1.drop_last() =~= Seq::<(Seq<char>, Seq<char>)>::empty());
    let s1 = h6 + opt_field("sid"@, opt_uuid_text(c.session_id));
    let s2 = s1 + opt_field("jti"@, opt_uuid_text(c.jti));
    assert(wire_fields(c) == s2 + opt_field("data"@, opt_text(c.data)));
    assert("data"@ != "kind"@) by { assert("data"@[0] != "kind"@[0]); }
    assert("jti"@ != "kind"@) by { assert("jti"@.len() != "kind"@.len()); }
    assert("sid"@ != "kind"@) by { assert("sid"@.len() != "kind"@.len()); }
    assert("data"@ != "sub"@) by { assert("data"@.len() != "sub"@.len()); }
    assert("jti"@ != "sub"@) by { assert("jti"@[0] != "sub"@[0]); }
    assert("sid"@ != "sub"@) by { assert("sid"@[1] != "sub"@[1]); }
    lemma_field_skip(s2, "data"@, opt_text(c.data), "kind"@);
    lemma_field_skip(s1, "jti"@, opt_uuid_text(c.jti), "kind"@);
    lemma_field_skip(h6, "sid"@, opt_uuid_text(c.session_id), "kind"@);
    lemma_field_skip(s2, "data"@, opt_text(c.data), "sub"@);
    lemma_field_skip(s1, "jti"@, opt_uuid_text(c.jti), "sub"@);
    lemma_field_skip(h6, "sid"@, opt_uuid_text(c.session_id), "sub"@);
    assert(h6.last().0 == "exp"@);
    assert(h5.last().0 == "iat"@);
    assert(h4.last() == ("sub"@, uuid_text_of(c.sub)));
    assert(h3.last().0 == "aud"@);
    assert(h2.last().0 == "iss"@);
    assert(h1.last() == ("kind"@, kind_name(c.kind)));
    assert("exp"@ != "kind"@) by { assert("exp"@.len() != "kind"@.len()); }
    assert("iat"@ != "kind"@) by { assert("iat"@.len() != "kind"@.len()); }
    assert("sub"@ != "kind"@) by { assert("sub"@.len() != "kind"@.len()); }
    assert("aud"@ != "kind"@) by { assert("aud"@.len() != "kind"@.len()); }
    assert("iss"@ != "kind"@) by { assert("iss"@.len() != "kind"@.len()); }
    assert("exp"@ != "sub"@) by { assert("exp"@[0] != "sub"@[0]); }
    assert("iat"@ != "sub"@) by { assert("iat"@[0] != "sub"@[0]); }
    assert(field(h6, "kind"@) == field(h5, "kind"@));
    assert(field(h5, "kind"@) == field(h4, "kind"@));
    assert(field(h4, "kind"@) == field(h3, "kind"@));
    assert(field(h3, "kind"@) == field(h2, "kind"@));
    assert(field(h2, "kind"@) == field(h1, "kind"@));
    assert(field(h6, "sub"@) == field(h5, "sub"@));
    assert(field(h5, "sub"@) == field(h4, "sub"@));
}

/// An optional identifier field is either absent or a UUID.
pub open spec fn uuid_field_ok(v: Option<Seq<char>>) -> bool {
    v matches Some(t) ==> uuid_value_of(t) is Some
}

pub open spec fn uuid_field(v: Option<Seq<char>>) -> Option<u128> {
    match v {
        Some(t) => uuid_value_of(t),
        None => None,
    }
}

/// Fields read back from a token are accepted as a claim set of kind
/// `expected`, for audiences `aud`, at time `now`.
pub open spec fn fields_accepted(f: Seq<(Seq<char>, Seq<char>)>, expected: TokenKind, aud: Seq<Seq<char>>, now: u64) -> bool {
    &&& field(f, "kind"@) == Some(kind_name(expected))
    &&& field(f, "iss"@) is Some
    &&& field(f, "aud"@) == Some(aud_text(aud))
    &&& field(f, "sub"@) matches Some(s) && uuid_value_of(s) is Some
    &&& field(f, "iat"@) matches Some(s) && decimal_value_of(s) is Some
    &&& field(f, "exp"@) matches Some(s) && decimal_value_of(s) matches Some(e) && now <= e
    &&& uuid_field_ok(field(f, "sid"@))
    &&& uuid_field_ok(field(f, "jti"@))
    &&& (expected == TokenKind::Access ==> field(f, "sid"@) is Some)
    &&& (expected == TokenKind::Refresh ==> field(f, "jti"@) is Some && field(f, "sid"@) is Some)
}

/// `c` is the claim set that accepted fields `f` describe.
pub open spec fn fields_describe(f: Seq<(Seq<char>, Seq<char>)>, expected: TokenKind, aud: Seq<Seq<char>>, c: TokenClaims) -> bool {
    &&& c.kind == expected
    &&& field(f, "iss"@) == Some(c.iss@)
    &&& c.aud.deep_view() == aud
    &&& uuid_value_of(field(f, "sub"@)->0) == Some(c.sub)
    &&& decimal_value_of(field(f, "iat"@)->0) == Some(c.iat)
    &&& decimal_value_of(field(f, "exp"@)->0) == Some(c.exp)
    &&& c.session_id == uuid_field(field(f, "sid"@))
    &&& c.jti == uuid_field(field(f, "jti"@))
    &&& opt_text(c.data) == field(f, "data"@)
}

/// Index of the last field named `key`.
fn find_field(f: &Vec<(String, String)>, key: &str) -> (r: Option<usize>)
    ensures
        field(field_texts(f@), key@) is None ==> r is None,
        field(field_texts(f@), key@) is Some ==> (r matches Some(i) && i < f@.len()
            && field(field_texts(f@), key@) == Some(f@[i as int].1@)),
{
    let ghost ft = field_texts(f@);
    let mut i: usize = f.len();
    assert(ft.subrange(0, i as int) =~= ft);
    while i > 0
        invariant
            i <= f@.len(),
            ft == field_texts(f@),
            ft.len() == f@.len(),
            field(ft, key@) == field(ft.subrange(0, i as int), key@),
        decreases i,
    {
        let ghost prefix = ft.subrange(0, i as int);
        assert(prefix.drop_last() =~= ft.subrange(0, i - 1));
        assert(ft[i - 1] == (f@[i - 1].0@, f@[i - 1].1@));
        i = i - 1;
        if f[i].0 == key.to_owned() {
            return Some(i);
        }
    }
    assert(ft.subrange(0, 0) =~= Seq::<(Seq<char>, Seq<char>)>::empty());
    None
}

/// The value of the last field named `key`, if any.
fn field_value<'a>(f: &'a Vec<(String, String)>, key: &str) -> (r: Option<&'a String>)
    ensures
        r is Some <==> field(field_texts(f@), key@) is Some,
        r matches Some(s) ==> field(field_texts(f@), key@) == Some(s@),
{
    match find_field(f, key) {
        Some(i) => Some(&f[i].1),
        None => None,
    }
}

fn opt_field_push(fields: &mut Vec<(String, String)>, key: &str, value: Option<String>)
    ensures
        field_texts(final(fields)@) == field_texts(old(fields)@) + opt_field(key@, opt_text(value)),
{
    match value {
        Some(v) => {
            fields.push((key.to_owned(), v));
            assert(field_texts(final(fields)@) =~= field_texts(old(fields)@) + opt_field(key@, opt_text(value)));
        },
        None => {
            assert(field_texts(final(fields)@) =~= field_texts(old(fields)@) + opt_field(key@, opt_text(value)));
        },
    }
}

fn audience_text(aud: &Vec<String>) -> (r: String)
    ensures
        r@ == aud_text(aud.deep_view()),
{
    let ghost d = aud.deep_view();
    let mut r = String::new();
    let mut i: usize = 0;
    while i < aud.len()
        invariant
            i <= aud@.len(),
            d == aud.deep_view(),
            d.len() == aud@.len(),
            r@ == aud_text(d.subrange(0, i as int)),
        decreases aud@.len() - i,
    {
        assert(d.subrange(0, i + 1).drop_last() =~= d.subrange(0, i as int));
        if i > 0 {
            proof {
                reveal_strlit(" ");
            }
            r.append(" ");
        }
        r.append(aud[i].as_str());
        i = i + 1;
    }
    assert(d.subrange(0, aud@.len() as int) =~= d);
    r
}

fn clone_strings(v: &Vec<String>) -> (r: Vec<String>)
    ensures
        r.deep_view() == v.deep_view(),
{
    let mut r: Vec<String> = Vec::new();
    let mut i: usize = 0;
    while i < v.len()
        invariant
            i <= v@.len(),
            r@.len() == i,
            forall|j: int| 0 <= j < i ==> #[trigger] r@[j]@ == v@[j]@,
        decreases v@.len() - i,
    {
        r.push(v[i].clone());
        i = i + 1;
    }
    assert(r.deep_view() =~= v.deep_view());
    r
}

// ----- the factory -----

/// Builds, signs, checks and reads tokens. Each kind has its own secret and
/// lifetime; issuer and audiences are shared.
#[derive(Debug, Clone)]
pub struct TokenFactory {
    iss: String,
    aud: Vec<String>,
    access_secret: String,
    refresh_secret: String,
    default_secret: String,
    access_duration_secs: u64,
    refresh_duration_secs: u64,
    default_duration_secs: u64,
}

/// `start + duration`, capped at the largest time.
pub open spec fn expiry(start: u64, duration: u64) -> u64 {
    if start + duration > u64::MAX { u64::MAX } else { (start + duration) as u64 }
}

impl TokenFactory {
    pub closed spec fn issuer(&self) -> Seq<char> {
        self.iss@
    }

    pub closed spec fn audiences(&self) -> Seq<Seq<char>> {
        self.aud.deep_view()
    }

    /// The secret that signs and checks tokens of kind `k`.
    pub closed spec fn secret_of(&self, k: TokenKind) -> Seq<char> {
        match k {
            TokenKind::Access => self.access_secret@,
            TokenKind::Refresh => self.refresh_secret@,
            _ => self.default_secret@,
        }
    }

    /// The default lifetime of tokens of kind `k`.
    pub closed spec fn duration_of(&self, k: TokenKind) -> u64 {
        match k {
            TokenKind::Access => self.access_duration_secs,
            TokenKind::Refresh => self.refresh_duration_secs,
            _ => self.default_duration_secs,
        }
    }

    pub fn new(jwt_config: JwtSettings) -> (r: TokenFactory)
        ensures
            r.issuer() == jwt_config.iss@,
            r.audiences() == jwt_config.aud.deep_view(),
            r.secret_of(TokenKind::Access) == jwt_config.access_token.secret@,
            r.secret_of(TokenKind::Refresh) == jwt_config.refresh_token.secret@,
            r.secret_of(TokenKind::ConfirmEmail) == jwt_config.default_token.secret@,
            r.secret_of(TokenKind::ResetPassword) == jwt_config.default_token.secret@,
            r.duration_of(TokenKind::Access) == jwt_config.access_token.exp_duration_secs,
            r.duration_of(TokenKind::Refresh) == jwt_config.refresh_token.exp_duration_secs,
            r.duration_of(TokenKind::ConfirmEmail) == jwt_config.default_token.exp_duration_secs,
            r.duration_of(TokenKind::ResetPassword) == jwt_config.default_token.exp_duration_secs,
    {
        TokenFactory {
            iss: jwt_config.iss,
            aud: jwt_config.aud,
            access_secret: jwt_config.access_token.secret,
            refresh_secret: jwt_config.refresh_token.secret,
            default_secret: jwt_config.default_token.secret,
            access_duration_secs: jwt_config.access_token.exp_duration_secs,
            refresh_duration_secs: jwt_config.refresh_token.exp_duration_secs,
            default_duration_secs: jwt_config.default_token.exp_duration_secs,
        }
    }

    fn secret_for(&self, k: TokenKind) -> (r: &String)
        ensures
            r@ == self.secret_of(k),
    {
        match k {
            TokenKind::Access => &self.access_secret,
            TokenKind::Refresh => &self.refresh_secret,
            _ => &self.default_secret,
        }
    }

    /// Claims of kind `kind` issued now, valid for `duration` seconds.
    fn claims(&self, kind: TokenKind, sub: u128, duration: u64, session_id: Option<u128>, jti: Option<u128>, data: Option<String>) -> (r: TokenClaims)
        ensures
            r.kind == kind,
            r.iss@ == self.issuer(),
            r.aud.deep_view() == self.audiences(),
            r.sub == sub,
            r.exp == expiry(r.iat, duration),
            r.session_id == session_id,
            r.jti == jti,
            opt_text(r.data) == opt_text(data),
    {
        let now = now_secs();
        TokenClaims {
            kind,
            iss: self.iss.clone(),
            aud: clone_strings(&self.aud),
            sub,
            iat: now,
            exp: now.saturating_add(duration),
            session_id,
            jti,
            data,
        }
    }

    /// Access claims for `sub` in session `session_id`, carrying `data`.
    pub fn create_access_claims(&self, sub: u128, session_id: u128, data: Option<String>) -> (r: TokenClaims)
        ensures
            r.kind == TokenKind::Access,
            r.iss@ == self.issuer(),
            r.aud.deep_view() == self.audiences(),
            r.sub == sub,
            r.exp == expiry(r.iat, self.duration_of(TokenKind::Access)),
            r.session_id == Some(session_id),
            r.jti is None,
            opt_text(r.data) == opt_text(data),
    {
        self.claims(TokenKind::Access, sub, self.access_duration_secs, Some(session_id), None, data)
    }

    /// Refresh claims for `sub` in session `session_id`, with single-use
    /// identifier `jti`.
    pub fn create_refresh_claims(&self, sub: u128, session_id: u128, jti: u128) -> (r: TokenClaims)
        ensures
            r.kind == TokenKind::Refresh,
            r.iss@ == self.issuer(),
            r.aud.deep_view() == self.audiences(),
            r.sub == sub,
            r.exp == expiry(r.iat, self.duration_of(TokenKind::Refresh)),
            r.session_id == Some(session_id),
            r.jti == Some(jti),
            r.data is None,
    {
        self.claims(TokenKind::Refresh, sub, self.refresh_duration_secs, Some(session_id), Some(jti), None)
    }

    /// Claims of a generic kind; `exp` overrides the default lifetime.
    pub fn create_token_claims(&self, token_type: TokenType, sub: u128, exp: Option<u64>, jti: Option<u128>) -> (r: TokenClaims)
        ensures
            r.kind == kind_of_type(token_type),
            r.iss@ == self.issuer(),
            r.aud.deep_view() == self.audiences(),
            r.sub == sub,
            r.exp == expiry(r.iat, match exp { Some(d) => d, None => self.duration_of(kind_of_type(token_type)) }),
            r.session_id is None,
            r.jti == jti,
            r.data is None,
    {
        let duration = match exp {
            Some(d) => d,
            None => self.default_duration_secs,
        };
        self.claims(token_type.kind(), sub, duration, None, jti, None)
    }

    /// The text fields that carry `c`.
    pub fn claims_fields(c: &TokenClaims) -> (r: Vec<(String, String)>)
        ensures
            field_texts(r@) == wire_fields(*c),
            uuid_value_of(uuid_text_of(c.sub)) == Some(c.sub),
    {
        let mut fields: Vec<(String, String)> = Vec::new();
        fields.push(("kind".to_owned(), kind_text(c.kind)));
        fields.push(("iss".to_owned(), c.iss.clone()));
        fields.push(("aud".to_owned(), audience_text(&c.aud)));
        fields.push(("sub".to_owned(), uuid_text(c.sub)));
        fields.push(("iat".to_owned(), decimal_text(c.iat)));
        fields.push(("exp".to_owned(), decimal_text(c.exp)));
        let ghost head = field_texts(fields@);
        assert(head =~= seq![
            ("kind"@, kind_name(c.kind)),
            ("iss"@, c.iss@),
            ("aud"@, aud_text(c.aud.deep_view())),
            ("sub"@, uuid_text_of(c.sub)),
            ("iat"@, decimal_text_of(c.iat)),
            ("exp"@, decimal_text_of(c.exp)),
        ]);
        let sid = match c.session_id {
            Some(s) => Some(uuid_text(s)),
            None => None,
        };
        let jti = match c.jti {
            Some(s) => Some(uuid_text(s)),
            None => None,
        };
        opt_field_push(&mut fields, "sid", sid);
        opt_field_push(&mut fields, "jti", jti);
        opt_field_push(&mut fields, "data", c.data.clone());
        fields
    }

    /// Signs `claims` with the secret of their own kind.
    pub fn encode_token(&self, claims: &TokenClaims) -> (r: String)
        ensures
            r@ == jwt_signed_of(wire_fields(*claims), self.secret_of(claims.kind)),
            reads_back(r@, wire_fields(*claims), self.secret_of(claims.kind)),
            uuid_value_of(uuid_text_of(claims.sub)) == Some(claims.sub),
    {
        let fields = TokenFactory::claims_fields(claims);
        jwt_sign(&fields, self.secret_for(claims.kind).as_str())
    }

    /// `t` is a signed access token for `sub` in session `session_id`
    /// carrying `data`, issued by this factory.
    pub open spec fn is_access_token(&self, t: Seq<char>, sub: u128, session_id: u128, data: Option<Seq<char>>) -> bool {
        exists|c: TokenClaims|
            c.kind == TokenKind::Access && c.sub == sub && c.session_id == Some(session_id)
            && c.iss@ == self.issuer() && c.aud.deep_view() == self.audiences()
            && c.exp == expiry(c.iat, self.duration_of(TokenKind::Access))
            && c.jti is None && opt_text(c.data) == data
            && t == #[trigger] jwt_signed_of(wire_fields(c), self.secret_of(TokenKind::Access))
            && reads_back(t, wire_fields(c), self.secret_of(TokenKind::Access))
            && uuid_value_of(uuid_text_of(sub)) == Some(sub)
    }

    /// `t` is a signed refresh token for `sub` in session `session_id` with
    /// single-use identifier `jti`, issued by this factory.
    pub open spec fn is_refresh_token(&self, t: Seq<char>, sub: u128, session_id: u128, jti: u128) -> bool {
        exists|c: TokenClaims|
            c.kind == TokenKind::Refresh && c.sub == sub && c.jti == Some(jti)
            && c.iss@ == self.issuer() && c.aud.deep_view() == self.audiences()
            && c.exp == expiry(c.iat, self.duration_of(TokenKind::Refresh))
            && c.session_id == Some(session_id) && c.data is None
            && t == #[trigger] jwt_signed_of(wire_fields(c), self.secret_of(TokenKind::Refresh))
            && reads_back(t, wire_fields(c), self.secret_of(TokenKind::Refresh))
            && uuid_value_of(uuid_text_of(sub)) == Some(sub)
    }

    /// `t` is a signed token of generic type `token_type` for `sub`, issued by
    /// this factory with lifetime override `exp` and identifier `jti`.
    pub open spec fn is_generic_token(&self, t: Seq<char>, token_type: TokenType, sub: u128, exp: Option<u64>, jti: Option<u128>) -> bool {
        exists|c: TokenClaims|
            c.kind == kind_of_type(token_type) && c.sub == sub && c.jti == jti
            && c.iss@ == self.issuer() && c.aud.deep_view() == self.audiences()
            && c.exp == expiry(c.iat, match exp { Some(d) => d, None => self.duration_of(kind_of_type(token_type)) })
            && c.session_id is None && c.data is None
            && t == #[trigger] jwt_signed_of(wire_fields(c), self.secret_of(kind_of_type(token_type)))
            && reads_back(t, wire_fields(c), self.secret_of(kind_of_type(token_type)))
            && uuid_value_of(uuid_text_of(sub)) == Some(sub)
    }

    pub fn create_access_token(&self, sub: u128, session_id: u128, data: Option<String>) -> (r: String)
        ensures
            self.is_access_token(r@, sub, session_id, opt_text(data)),
    {
        let claims = self.create_access_claims(sub, session_id, data);
        self.encode_token(&claims)
    }

    /// A refresh token for `sub` in session `session_id`, with a freshly
    /// generated single-use identifier, returned beside the token.
    pub fn create_refresh_token(&self, sub: u128, session_id: u128) -> (r: (String, u128))
        ensures
            self.is_refresh_token(r.0@, sub, session_id, r.1),
    {
        let jti = random_uuid();
        let claims = self.create_refresh_claims(sub, session_id, jti);
        (self.encode_token(&claims), jti)
    }

    pub fn create_token(&self, token_type: TokenType, sub: u128, exp: Option<u64>, jti: Option<u128>) -> (r: String)
        ensures
            self.is_generic_token(r@, token_type, sub, exp, jti),
    {
        let claims = self.create_token_claims(token_type, sub, exp, jti);
        self.encode_token(&claims)
    }

    /// The default lifetime of tokens of kind `k`.
    pub fn duration(&self, k: TokenKind) -> (r: u64)
        ensures
            r == self.duration_of(k),
    {
        match k {
            TokenKind::Access => self.access_duration_secs,
            TokenKind::Refresh => self.refresh_duration_secs,
            _ => self.default_duration_secs,
        }
    }

    /// `token` reads, under the secret of `expected`, as fields accepted at
    /// some time not after the expiry, and `c` is what they say; under any
    /// other secret it reads as the same fields or not at all.
    pub open spec fn accepts(&self, token: Seq<char>, expected: TokenKind, c: TokenClaims) -> bool {
        &&& jwt_fields_of(token, self.secret_of(expected)) is Some
        &&& forall|other: Seq<char>| #[trigger] jwt_fields_of(token, other) is Some
            ==> jwt_fields_of(token, other) == jwt_fields_of(token, self.secret_of(expected))
        &&& c.kind == expected
        &&& fields_describe(jwt_fields_of(token, self.secret_of(expected))->0, expected, self.audiences(), c)
        &&& exists|now: u64|
            #[trigger] fields_accepted(jwt_fields_of(token, self.secret_of(expected))->0, expected, self.audiences(), now)
                && now <= c.exp
    }

    /// Reads a claim set of kind `expected` from fields whose signature was
    /// checked, at time `now`.
    pub fn check_fields(&self, fields: &Vec<(String, String)>, expected: TokenKind, now: u64) -> (r: Result<TokenClaims, InvalidToken>)
        ensures
            r is Ok <==> fields_accepted(field_texts(fields@), expected, self.audiences(), now),
            r matches Ok(c) ==> fields_describe(field_texts(fields@), expected, self.audiences(), c),
    {
        let ghost f = field_texts(fields@);
        proof {
            reveal_strlit("kind");
            reveal_strlit("iss");
            reveal_strlit("aud");
            reveal_strlit("sub");
            reveal_strlit("iat");
            reveal_strlit("exp");
            reveal_strlit("sid");
            reveal_strlit("jti");
            reveal_strlit("data");
        }
        let kind = match field_value(fields, "kind") {
            Some(k) => k,
            None => return Err(InvalidToken),
        };
        if *kind != kind_text(expected) {
            return Err(InvalidToken);
        }
        let iss = match field_value(fields, "iss") {
            Some(s) => s,
            None => return Err(InvalidToken),
        };
        match field_value(fields, "aud") {
            Some(a) => {
                if *a != audience_text(&self.aud) {
                    return Err(InvalidToken);
                }
            },
            None => return Err(InvalidToken),
        }
        let sub = match field_value(fields, "sub") {
            Some(s) => match uuid_parse(s.as_str()) {
                Some(v) => v,
                None => return Err(InvalidToken),
            },
            None => return Err(InvalidToken),
        };
        let iat = match field_value(fields, "iat") {
            Some(s) => match decimal_value(s.as_str()) {
                Some(v) => v,
                None => return Err(InvalidToken),
            },
            None => return Err(InvalidToken),
        };
        let exp = match field_value(fields, "exp") {
            Some(s) => match decimal_value(s.as_str()) {
                Some(v) => v,
                None => return Err(InvalidToken),
            },
            None => return Err(InvalidToken),
        };
        if exp < now {
            return Err(InvalidToken);
        }
        let session_id = match field_value(fields, "sid") {
            Some(s) => match uuid_parse(s.as_str()) {
                Some(v) => Some(v),
                None => return Err(InvalidToken),
            },
            None => None,
        };
        let jti = match field_value(fields, "jti") {
            Some(s) => match uuid_parse(s.as_str()) {
                Some(v) => Some(v),
                None => return Err(InvalidToken),
            },
            None => None,
        };
        if expected == TokenKind::Access && session_id.is_none() {
            return Err(InvalidToken);
        }
        if expected == TokenKind::Refresh && (jti.is_none() || session_id.is_none()) {
            return Err(InvalidToken);
        }
        let data = match field_value(fields, "data") {
            Some(d) => Some(d.clone()),
            None => None,
        };
        Ok(TokenClaims {
            kind: expected,
            iss: iss.clone(),
            aud: clone_strings(&self.aud),
            sub,
            iat,
            exp,
            session_id,
            jti,
            data,
        })
    }

    /// Checks `token` as a token of kind `expected`: its signature against
    /// the secret of `expected`, then audience, expiry and kind. Every
    /// failure is reported as the same [`InvalidToken`].
    pub fn decode_token(&self, token: &str, expected: TokenKind) -> (r: Result<TokenClaims, InvalidToken>)
        ensures
            jwt_fields_of(token@, self.secret_of(expected)) is None ==> r is Err,
            r matches Ok(c) ==> self.accepts(token@, expected, c),
    {
        let fields = match jwt_verify(token, self.secret_for(expected).as_str()) {
            Some(f) => f,
            None => return Err(InvalidToken),
        };
        let now = now_secs();
        let r = self.check_fields(&fields, expected, now);
        proof {
            if r is Ok {
                let ghost f = field_texts(fields@);
                assert(jwt_fields_of(token@, self.secret_of(expected))->0 == f);
                assert(fields_accepted(f, expected, self.audiences(), now));
                assert(fields_describe(f, expected, self.audiences(), r->Ok_0));
                reveal_strlit("exp");
                assert(now <= r->Ok_0.exp);
            }
        }
        r
    }
}

/// Signs arbitrary text fields with `secret`.
pub fn create_jwt(claims: &Vec<(String, String)>, secret: &str) -> (r: String)
    ensures
        r@ == jwt_signed_of(field_texts(claims@), secret@),
{
    jwt_sign(claims, secret)
}

/// The text fields of `jwt` if its signature checks out against `secret`;
/// no claim is checked.
pub fn parse_jwt(jwt: &str, secret: &str) -> (r: Option<Vec<(String, String)>>)
    ensures
        r is Some <==> jwt_fields_of(jwt@, secret@) is Some,
        r matches Some(f) ==> jwt_fields_of(jwt@, secret@) == Some(field_texts(f@)),
{
    jwt_verify(jwt, secret)
}

} // verus!

//! Identifiers and clocks supplied by outside crates.
use vstd::arithmetic::div_mod::{lemma_mod_breakdown, lemma_small_mod};
use vstd::prelude::*;

verus! {

/// The lower-case hexadecimal digit of `d`, for `d < 16`.
pub open spec fn hex_digit(d: nat) -> char {
    seq!['0', '1', '2', '3', '4', '5', '6', '7', '8', '9', 'a', 'b', 'c', 'd', 'e', 'f'][d as int]
}

/// The last `n` hexadecimal digits of `v`, most significant first.
pub open spec fn hex_text(v: nat, n: nat) -> Seq<char>
    decreases n,
{
    if n == 0 {
        Seq::empty()
    } else {
        hex_text(v / 16, (n - 1) as nat).push(hex_digit(v % 16))
    }
}

/// The hyphenated lower-case text of a UUID: its 32 hexadecimal digits in
/// groups of 8, 4, 4, 4 and 12.
pub open spec fn uuid_text_of(value: u128) -> Seq<char> {
    let h = hex_text(value as nat, 32);
    h.subrange(0, 8) + seq!['-'] + h.subrange(8, 12) + seq!['-'] + h.subrange(12, 16) + seq!['-']
        + h.subrange(16, 20) + seq!['-'] + h.subrange(20, 32)
}

/// The value of a lower-case hexadecimal digit.
pub open spec fn hex_value(c: char) -> nat {
    if c == '0' { 0 } else if c == '1' { 1 } else if c == '2' { 2 } else if c == '3' { 3 }
    else if c == '4' { 4 } else if c == '5' { 5 } else if c == '6' { 6 } else if c == '7' { 7 }
    else if c == '8' { 8 } else if c == '9' { 9 } else if c == 'a' { 10 } else if c == 'b' { 11 }
    else if c == 'c' { 12 } else if c == 'd' { 13 } else if c == 'e' { 14 } else { 15 }
}

pub open spec fn pow16(n: nat) -> nat
    decreases n,
{
    if n == 0 { 1 } else { 16 * pow16((n - 1) as nat) }
}

proof fn lemma_hex_digit_value(d: nat)
    requires
        d < 16,
    ensures
        hex_value(hex_digit(d)) == d,
{
    if d == 0 { assert(hex_value(hex_digit(0)) == 0); }
    else if d == 1 { assert(hex_value(hex_digit(1)) == 1); }
    else if d == 2 { assert(hex_value(hex_digit(2)) == 2); }
    else if d == 3 { assert(hex_value(hex_digit(3)) == 3); }
    else if d == 4 { assert(hex_value(hex_digit(4)) == 4); }
    else if d == 5 { assert(hex_value(hex_digit(5)) == 5); }
    else if d == 6 { assert(hex_value(hex_digit(6)) == 6); }
    else if d == 7 { assert(hex_value(hex_digit(7)) == 7); }
    else if d == 8 { assert(hex_value(hex_digit(8)) == 8); }
    else if d == 9 { assert(hex_value(hex_digit(9)) == 9); }
    else if d == 10 { assert(hex_value(hex_digit(10)) == 10); }
    else if d == 11 { assert(hex_value(hex_digit(11)) == 11); }
    else if d == 12 { assert(hex_value(hex_digit(12)) == 12); }
    else if d == 13 { assert(hex_value(hex_digit(13)) == 13); }
    else if d == 14 { assert(hex_value(hex_digit(14)) == 14); }
    else { assert(hex_value(hex_digit(15)) == 15); }
}

proof fn lemma_hex_text_len(v: nat, n: nat)
    ensures
        hex_text(v, n).len() == n,
    decreases n,
{
    if n > 0 {
        lemma_hex_text_len(v / 16, (n - 1) as nat);
    }
}

/// Equal digit texts of length `n` agree on the value modulo `16^n`.
proof fn lemma_hex_text_determines(a: nat, b: nat, n: nat)
    requires
        hex_text(a, n) == hex_text(b, n),
    ensures
        pow16(n) > 0,
        a % pow16(n) == b % pow16(n),
    decreases n,
{
    if n == 0 {
        assert(a % 1 == 0) by (nonlinear_arith);
        assert(b % 1 == 0) by (nonlinear_arith);
    } else {
        let m = (n - 1) as nat;
        let ha = hex_text(a, n);
        let hb = hex_text(b, n);
        assert(ha.drop_last() =~= hex_text(a / 16, m));
        assert(hb.drop_last() =~= hex_text(b / 16, m));
        lemma_hex_text_determines(a / 16, b / 16, m);
        assert(ha.last() == hex_digit(a % 16));
        assert(hb.last() == hex_digit(b % 16));
        lemma_hex_digit_value(a % 16);
        lemma_hex_digit_value(b % 16);
        lemma_mod_breakdown(a as int, 16, pow16(m) as int);
        lemma_mod_breakdown(b as int, 16, pow16(m) as int);
    }
}

/// Distinct UUID values have distinct hyphenated texts.
pub proof fn lemma_uuid_text_injective(a: u128, b: u128)
    requires
        uuid_text_of(a) == uuid_text_of(b),
    ensures
        a == b,
{
    let ha = hex_text(a as nat, 32);
    let hb = hex_text(b as nat, 32);
    lemma_hex_text_len(a as nat, 32);
    lemma_hex_text_len(b as nat, 32);
    let t = uuid_text_of(a);
    assert(ha =~= t.subrange(0, 8) + t.subrange(9, 13) + t.subrange(14, 18) + t.subrange(19, 23) + t.subrange(24, 36));
    assert(hb =~= t.subrange(0, 8) + t.subrange(9, 13) + t.subrange(14, 18) + t.subrange(19, 23) + t.subrange(24, 36));
    lemma_hex_text_determines(a as nat, b as nat, 32);
    reveal_with_fuel(pow16, 33);
    assert(pow16(32) == 0x1_0000_0000_0000_0000_0000_0000_0000_0000);
    lemma_small_mod(a as nat, pow16(32));
    lemma_small_mod(b as nat, pow16(32));
}

/// The hyphenated text is 36 characters long.
pub proof fn lemma_uuid_text_len(a: u128)
    ensures
        uuid_text_of(a).len() == 36,
{
    lemma_hex_text_len(a as nat, 32);
}

/// The value that `uuid` reads from a text, if the text is a UUID.
pub uninterp spec fn uuid_value_of(text: Seq<char>) -> Option<u128>;

/// Relies on `uuid::Uuid::new_v4`: a random version-4 UUID. Nothing is known
/// of the value.
#[verifier::external_body]
pub(crate) fn random_uuid() -> (r: u128) {
    uuid::Uuid::new_v4().as_u128()
}

/// Relies on `uuid::Uuid::from_u128` (big-endian bytes) and its `Display`,
/// which writes the lower-case hyphenated form; `Uuid::try_from(&str)`
/// reads that form back.
#[verifier::external_body]
pub(crate) fn uuid_text(value: u128) -> (r: String)
    ensures
        r@ == uuid_text_of(value),
        uuid_value_of(r@) == Some(value),
{
    uuid::Uuid::from_u128(value).to_string()
}

/// Relies on `<uuid::Uuid as TryFrom<&str>>::try_from`.
#[verifier::external_body]
pub(crate) fn uuid_parse(text: &str) -> (r: Option<u128>)
    ensures
        r == uuid_value_of(text@),
{
    uuid::Uuid::try_from(text).ok().map(|u| u.as_u128())
}

/// Relies on `chrono::Utc::now`: the current time in microseconds since the
/// Unix epoch. Nothing is known of the value.
#[verifier::external_body]
pub(crate) fn now_micros() -> (r: i64) {
    chrono::Utc::now().timestamp_micros()
}

/// Relies on `jsonwebtoken::get_current_timestamp`: the current time in whole
/// seconds since the Unix epoch. Nothing is known of the value.
#[verifier::external_body]
pub(crate) fn now_secs() -> (r: u64) {
    jsonwebtoken::get_current_timestamp()
}

} // verus!

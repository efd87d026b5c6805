//! The patterns that a new account's mail address and phone number must match.

use vstd::prelude::*;

verus! {

#[verifier::external_type_specification]
#[verifier::external_body]
pub struct ExRegexError(regex::Error);

/// A mail address: a local part of letters, digits, `.`, `_` and `-`, an `@`, and a domain of
/// at least two dot-separated labels.
pub const MAIL_PATTERN: &'static str = r"^[.a-zA-Z0-9_-]+@[a-zA-Z0-9_-]+(\.[a-zA-Z0-9_-]+)+$";

/// A mainland mobile number: an optional `+86` or `86`, then `1`, one of `3|5789`, and nine
/// digits.
pub const PHONE_PATTERN: &'static str = r"^((\+86)|(86))?(1[3|5|7|8|9])\d{9}$";

/// Whether the `regex` crate accepts a pattern (`Regex::new` returns `Ok`).
pub uninterp spec fn regex_compiles(pattern: Seq<char>) -> bool;

/// Whether a compiled pattern matches somewhere in a text (`Regex::is_match`).
pub uninterp spec fn regex_matches(pattern: Seq<char>, text: Seq<char>) -> bool;

/// Compiles `pattern` with `regex::Regex::new` and, when that succeeds, asks
/// `Regex::is_match` about `text`. Trusted: the call fails exactly when the pattern does not
/// compile (`regex_compiles`), and the answer is `regex_matches` of the two arguments.
#[verifier::external_body]
fn regex_is_match(pattern: &str, text: &str) -> (r: Result<bool, regex::Error>)
    ensures
        r is Ok <==> regex_compiles(pattern@),
        r matches Ok(b) ==> b == regex_matches(pattern@, text@),
{
    let re = regex::Regex::new(pattern)?;
    Ok(re.is_match(text))
}

/// Whether a text passes a pattern: the pattern compiles and matches the text.
pub open spec fn passes(pattern: Seq<char>, text: Seq<char>) -> bool {
    regex_compiles(pattern) && regex_matches(pattern, text)
}

/// Whether `text` matches `pattern`; a pattern that does not compile matches nothing.
pub fn pattern_matches(pattern: &str, text: &str) -> (r: bool)
    ensures
        r == passes(pattern@, text@),
{
    match regex_is_match(pattern, text) {
        Ok(b) => b,
        Err(_) => false,
    }
}

/// Whether `mail` is a well-formed mail address (`MAIL_PATTERN`).
pub fn mail_matches(mail: &str) -> (r: bool)
    ensures
        r == passes(MAIL_PATTERN@, mail@),
{
    pattern_matches(MAIL_PATTERN, mail)
}

/// Whether `phone` is a well-formed phone number (`PHONE_PATTERN`).
pub fn phone_matches(phone: &str) -> (r: bool)
    ensures
        r == passes(PHONE_PATTERN@, phone@),
{
    pattern_matches(PHONE_PATTERN, phone)
}

} // verus!

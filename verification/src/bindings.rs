//! The functions of other crates and of the standard library that this crate
//! calls. Their contracts are taken on trust from the documentation and source
//! of the crate in question; nothing in this file is proved.

use vstd::prelude::*;
use vstd::string::*;
use vstd::utf8::*;

verus! {

/// The one pattern with which instants are written: `YYYY-MM-DD HH:MM:SS`.
pub const INSTANT_PATTERN: &'static str = "%Y-%m-%d %H:%M:%S";

/// The error of the `jwt` crate.
#[verifier::external_type_specification]
#[verifier::external_body]
pub struct ExJwtError(jwt::error::Error);

/// `String::push`: appends one character to the end of the string.
#[verifier::external_body]
pub(crate) fn push_char(s: &mut String, c: char)
    ensures
        final(s)@ == old(s)@.push(c),
{
    s.push(c)
}

/// `core::str::from_utf8`: the bytes as text when they are well-formed UTF-8,
/// and nothing otherwise. The text is a view of the very same bytes.
#[verifier::external_body]
pub(crate) fn text_of_utf8<'a>(bytes: &'a [u8]) -> (r: Option<&'a str>)
    ensures
        r is Some <==> valid_utf8(bytes@),
        r matches Some(s) ==> s.spec_bytes() == bytes@,
{
    match core::str::from_utf8(bytes) {
        Ok(s) => Some(s),
        Err(_) => None,
    }
}

/// What chrono writes for the instant `seconds` after the Unix epoch under
/// `pattern`; `None` where chrono cannot represent the instant.
pub uninterp spec fn civil_text_of_seconds(seconds: int, pattern: Seq<char>) -> Option<Seq<char>>;

/// What chrono writes for the instant `millis` milliseconds after the Unix
/// epoch under `pattern`; `None` where chrono cannot represent the instant.
pub uninterp spec fn civil_text_of_millis(millis: int, pattern: Seq<char>) -> Option<Seq<char>>;

/// What chrono writes for the instant `micros` microseconds after the Unix
/// epoch under `pattern`; `None` where chrono cannot represent the instant.
pub uninterp spec fn civil_text_of_micros(micros: int, pattern: Seq<char>) -> Option<Seq<char>>;

/// `chrono::NaiveDateTime::from_timestamp_opt` with no nanoseconds, written
/// with `NaiveDateTime::format`. The result depends on the two arguments
/// alone. Formatting fails on a malformed pattern, so only the pattern of this
/// crate is admitted.
#[allow(deprecated)]
#[verifier::external_body]
pub(crate) fn format_seconds(seconds: i64, pattern: &str) -> (r: Option<String>)
    requires
        pattern@ == INSTANT_PATTERN@,
    ensures
        match r {
            Some(text) => civil_text_of_seconds(seconds as int, pattern@) == Some(text@),
            None => civil_text_of_seconds(seconds as int, pattern@) is None,
        },
{
    match chrono::NaiveDateTime::from_timestamp_opt(seconds, 0) {
        Some(instant) => Some(instant.format(pattern).to_string()),
        None => None,
    }
}

/// `chrono::NaiveDateTime::from_timestamp_millis`, written with
/// `NaiveDateTime::format`. The result depends on the two arguments alone.
/// Only the pattern of this crate is admitted.
#[allow(deprecated)]
#[verifier::external_body]
pub(crate) fn format_millis(millis: i64, pattern: &str) -> (r: Option<String>)
    requires
        pattern@ == INSTANT_PATTERN@,
    ensures
        match r {
            Some(text) => civil_text_of_millis(millis as int, pattern@) == Some(text@),
            None => civil_text_of_millis(millis as int, pattern@) is None,
        },
{
    match chrono::NaiveDateTime::from_timestamp_millis(millis) {
        Some(instant) => Some(instant.format(pattern).to_string()),
        None => None,
    }
}

/// `chrono::NaiveDateTime::from_timestamp_micros`, written with
/// `NaiveDateTime::format`. The result depends on the two arguments alone.
/// Only the pattern of this crate is admitted.
#[allow(deprecated)]
#[verifier::external_body]
pub(crate) fn format_micros(micros: i64, pattern: &str) -> (r: Option<String>)
    requires
        pattern@ == INSTANT_PATTERN@,
    ensures
        match r {
            Some(text) => civil_text_of_micros(micros as int, pattern@) == Some(text@),
            None => civil_text_of_micros(micros as int, pattern@) is None,
        },
{
    match chrono::NaiveDateTime::from_timestamp_micros(micros) {
        Some(instant) => Some(instant.format(pattern).to_string()),
        None => None,
    }
}

/// `chrono::Utc::now().timestamp()`: the seconds since the Unix epoch on this
/// machine's clock. Nothing is claimed of the value. On a machine whose clock
/// stands before the epoch chrono does not return.
#[verifier::external_body]
pub(crate) fn unix_time_now() -> (r: i64) {
    chrono::Utc::now().timestamp()
}

/// The expiration claim that the `jwt` crate reads from `token` without
/// checking its signature: `None` where the token cannot be parsed,
/// `Some(None)` where it parses and carries no such claim.
pub uninterp spec fn jwt_expiration(token: Seq<char>) -> Option<Option<u64>>;

/// `jwt::Token::parse_unverified` with the crate's own `Header` and `Claims`,
/// and the `exp` field of the registered claims. The result depends on the
/// token's text alone.
#[verifier::external_body]
pub(crate) fn unverified_expiration(token: &str) -> (r: Result<Option<u64>, jwt::error::Error>)
    ensures
        match r {
            Ok(claim) => jwt_expiration(token@) == Some(claim),
            Err(_) => jwt_expiration(token@) is None,
        },
{
    let parsed: jwt::Token<jwt::Header, jwt::Claims, jwt::Unverified> =
        jwt::Token::parse_unverified(token)?;
    Ok(parsed.claims().registered.expiration)
}

/// The media type that `new_mime_guess` associates first with the extension of
/// `path`; `None` where the path has no extension or the extension is unknown.
pub uninterp spec fn guessed_content_type(path: Seq<char>) -> Option<Seq<char>>;

/// `new_mime_guess::from_path(path).first()`, written out as text. No disk
/// access is made; the result depends on the path's text alone.
#[verifier::external_body]
pub(crate) fn guess_content_type(path: &str) -> (r: Option<String>)
    ensures
        match r {
            Some(media_type) => guessed_content_type(path@) == Some(media_type@),
            None => guessed_content_type(path@) is None,
        },
{
    match new_mime_guess::from_path(path).first() {
        Some(media_type) => Some(media_type.to_string()),
        None => None,
    }
}

/// `uuid::Uuid::new_v4`, written out as text: a random identifier. Nothing is
/// claimed of the value.
#[verifier::external_body]
pub(crate) fn fresh_identifier() -> (r: String) {
    uuid::Uuid::new_v4().to_string()
}

} // verus!

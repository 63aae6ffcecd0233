//! The calls this library makes into outside crates and into parts of `std` that
//! vstd gives no specification. Each item here is trusted: Verus believes its
//! contract without reading its body.
use sha2::Digest;
use vstd::prelude::*;

use crate::formats::is_rfc3339_utc;
use crate::formats::is_uuid_v4_text;
use crate::formats::json_string_list;
use crate::text::is_ascii_alphanumeric;

verus! {

/// Whether `url::Url::parse` accepts the given text.
pub uninterp spec fn url_parses(input: Seq<char>) -> bool;

/// The SHA-256 digest of the given bytes.
pub uninterp spec fn sha256(bytes: Seq<u8>) -> Seq<u8>;

/// What `serde_json::from_str::<Vec<String>>` gives for a text (`None` when it fails).
pub uninterp spec fn json_decoded_strings(text: Seq<char>) -> Option<Seq<Seq<char>>>;

/// Whether `char::is_alphanumeric` holds: the Unicode `Alphabetic` property or a
/// numeric general category.
pub uninterp spec fn unicode_alphanumeric(c: char) -> bool;

/// Calls `url::Url::parse` and reports whether it succeeded. The contract claims
/// only that the answer depends on the text alone.
#[verifier::external_body]
pub(crate) fn url_parse_succeeds(input: &str) -> (ok: bool)
    ensures
        ok == url_parses(input@),
{
    url::Url::parse(input).is_ok()
}

/// Calls `sha2::Sha256::digest`. The contract claims that the result is the
/// (unspecified) SHA-256 function of the bytes, and that it is 32 bytes long,
/// the output size of `Sha256`.
#[verifier::external_body]
pub(crate) fn sha256_digest(bytes: &[u8]) -> (digest: Vec<u8>)
    ensures
        digest@ == sha256(bytes@),
        digest@.len() == 32,
{
    sha2::Sha256::digest(bytes).to_vec()
}

/// Calls `serde_json::to_string` on a list of strings. The contract claims that
/// it succeeds (it fails only for a `Serialize` impl that fails or a map with
/// keys that are not strings) and writes the compact JSON array of the strings,
/// escaped as its `format_escaped_str` does.
#[verifier::external_body]
pub(crate) fn json_encode_strings(values: &Vec<String>) -> (text: Option<String>)
    ensures
        text.is_some() && text.unwrap()@ == json_string_list(values.deep_view()),
{
    serde_json::to_string(values).ok()
}

/// Calls `serde_json::from_str::<Vec<String>>`. The contract claims that the
/// outcome depends on the text alone, and that the JSON array that
/// `serde_json::to_string` writes for a list of strings reads back as that list.
#[verifier::external_body]
pub(crate) fn json_decode_strings(text: &str) -> (values: Option<Vec<String>>)
    ensures
        match values {
            Some(v) => json_decoded_strings(text@) == Some(v.deep_view()),
            None => json_decoded_strings(text@) is None,
        },
        forall|written: Seq<Seq<char>>| #[trigger] json_string_list(written) == text@ ==> values.is_some() && values.unwrap().deep_view() == written,
{
    serde_json::from_str(text).ok()
}

/// Calls `char::is_alphanumeric`. The contract claims that the answer depends on
/// the character alone, and that on ASCII it holds exactly of letters and digits.
#[verifier::external_body]
pub(crate) fn char_is_alphanumeric(c: char) -> (r: bool)
    ensures
        r == unicode_alphanumeric(c),
        (c as u32) < 128 ==> (r == is_ascii_alphanumeric(c)),
{
    c.is_alphanumeric()
}

/// Calls `uuid::Uuid::new_v4` and formats it with `to_string`. The value is
/// random; the contract claims only its shape: the hyphenated lowercase text
/// of a version 4, RFC 4122 variant UUID. (`new_v4` panics only when the
/// operating system's random source fails.)
#[verifier::external_body]
pub(crate) fn new_uuid_v4() -> (id: String)
    ensures
        is_uuid_v4_text(id@),
{
    uuid::Uuid::new_v4().to_string()
}

/// Calls `chrono::Utc::now` and formats it with `to_rfc3339`. The value is the
/// current time; the contract claims only its shape: an RFC 3339 timestamp
/// with the offset `+00:00`. (`now` panics only when the system clock is set
/// before 1970.)
#[verifier::external_body]
pub(crate) fn now_rfc3339() -> (timestamp: String)
    ensures
        is_rfc3339_utc(timestamp@),
{
    chrono::Utc::now().to_rfc3339()
}

/// Calls `String::push`, which vstd does not specify. The contract claims that
/// the character is appended at the end.
#[verifier::external_body]
pub(crate) fn push_char(s: &mut String, c: char)
    ensures
        final(s)@ == old(s)@.push(c),
{
    s.push(c)
}

} // verus!

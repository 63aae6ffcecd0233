//! Best-effort local classification of clipboard text that looks like a secret.
use vstd::prelude::*;
use vstd::utf8::encode_utf8;
use vstd::utf8::is_ascii_chars;
use vstd::utf8::is_ascii_chars_encode_utf8;

use crate::text::ascii_lowercase;
use crate::text::chars_of;
use crate::text::contains;
use crate::text::contains_seq;
use crate::text::lemma_contains_window;
use crate::text::is_ascii_alphanumeric;
use crate::text::is_ascii_digit;
use crate::text::is_ascii_lower;
use crate::text::is_ascii_upper;
use crate::text::starts_with;
use crate::text::starts_with_seq;
use crate::text::to_ascii_lowercase;
use crate::text::trim;
use crate::text::trim_chars;

verus! {

/// The lowercase text holds one of the phrases that mark credentials.
pub open spec fn has_secret_marker(lower: Seq<char>) -> bool {
    ||| contains_seq(lower, "password"@)
    ||| contains_seq(lower, "passwd"@)
    ||| contains_seq(lower, "api_key"@)
    ||| contains_seq(lower, "access_token"@)
    ||| contains_seq(lower, "refresh_token"@)
    ||| contains_seq(lower, "private key"@)
    ||| contains_seq(lower, "connection string"@)
    ||| contains_seq(lower, "mongodb://"@)
    ||| contains_seq(lower, "postgres://"@)
}

/// A character that may appear in an opaque token: ASCII letters and digits and `-_.+/=`.
pub open spec fn is_token_char(c: char) -> bool {
    is_ascii_alphanumeric(c) || c == '-' || c == '_' || c == '.' || c == '+' || c == '/' || c
        == '='
}

/// The trimmed text is a single token of 32 to 512 bytes, made only of token characters,
/// with at least one lowercase letter and at least one uppercase letter or digit.
pub open spec fn spec_high_entropy_token(value: Seq<char>) -> bool {
    let t = trim_chars(value);
    &&& 32 <= encode_utf8(t).len() <= 512
    &&& forall|i: int| 0 <= i < t.len() ==> is_token_char(#[trigger] t[i])
    &&& exists|i: int| 0 <= i < t.len() && is_ascii_lower(#[trigger] t[i])
    &&& exists|i: int| 0 <= i < t.len() && (is_ascii_upper(#[trigger] t[i]) || is_ascii_digit(t[i]))
}

/// What `is_likely_secret` decides.
pub open spec fn spec_is_likely_secret(value: Seq<char>) -> bool {
    ||| has_secret_marker(ascii_lowercase(value))
    ||| starts_with_seq(value, "-----BEGIN "@) && contains_seq(value, "PRIVATE KEY-----"@)
    ||| spec_high_entropy_token(value)
}

fn contains_str(hay: &Vec<char>, needle: &str) -> (r: bool)
    ensures
        r == contains_seq(hay@, needle@),
{
    contains(hay, &chars_of(needle))
}

/// Best-effort local classification. It intentionally avoids logging the input.
pub fn is_likely_secret(value: &str) -> (secret: bool)
    ensures
        secret == spec_is_likely_secret(value@),
{
    let chars = chars_of(value);
    let lower = to_ascii_lowercase(&chars);
    let marker = contains_str(&lower, "password") || contains_str(&lower, "passwd")
        || contains_str(&lower, "api_key") || contains_str(&lower, "access_token")
        || contains_str(&lower, "refresh_token") || contains_str(&lower, "private key")
        || contains_str(&lower, "connection string") || contains_str(&lower, "mongodb://")
        || contains_str(&lower, "postgres://");
    let pem = starts_with(&chars, &chars_of("-----BEGIN ")) && contains_str(
        &chars,
        "PRIVATE KEY-----",
    );
    marker || pem || high_entropy_token(value)
}

/// The trimmed value looks like an opaque token (an API key, a bearer token).
pub fn high_entropy_token(value: &str) -> (token: bool)
    ensures
        token == spec_high_entropy_token(value@),
{
    let t = chars_of(trim(value));
    let ghost tv = trim_chars(value@);
    let n = t.len();
    let mut i: usize = 0;
    while i < n
        invariant
            n == t.len(),
            t@ == tv,
            tv == trim_chars(value@),
            forall|j: int| 0 <= j < i ==> is_token_char(#[trigger] t@[j]),
        decreases n - i,
    {
        let c = t[i];
        let ok = ('A' <= c && c <= 'Z') || ('a' <= c && c <= 'z') || ('0' <= c && c <= '9') || c
            == '-' || c == '_' || c == '.' || c == '+' || c == '/' || c == '=';
        if !ok {
            assert(!is_token_char(t@[i as int]));
            return false;
        }
        i = i + 1;
    }
    proof {
        assert(is_ascii_chars(tv)) by {
            assert forall|j: int| 0 <= j < tv.len() implies '\0' <= #[trigger] tv[j] <= '\u{7f}' by {
                assert(is_token_char(t@[j]));
            }
        }
        is_ascii_chars_encode_utf8(tv);
    }
    if n < 32 || n > 512 {
        return false;
    }
    let mut has_lower = false;
    let mut has_upper_or_digit = false;
    let mut k: usize = 0;
    while k < n
        invariant
            k <= n == t.len(),
            t@ == tv,
            tv == trim_chars(value@),
            32 <= encode_utf8(tv).len() <= 512,
            forall|j: int| 0 <= j < n ==> is_token_char(#[trigger] t@[j]),
            has_lower <==> exists|j: int| 0 <= j < k && is_ascii_lower(#[trigger] t@[j]),
            has_upper_or_digit <==> exists|j: int|
                0 <= j < k && (is_ascii_upper(#[trigger] t@[j]) || is_ascii_digit(t@[j])),
        decreases n - k,
    {
        let c = t[k];
        if 'a' <= c && c <= 'z' {
            has_lower = true;
        }
        if ('A' <= c && c <= 'Z') || ('0' <= c && c <= '9') {
            has_upper_or_digit = true;
        }
        k = k + 1;
    }
    has_lower && has_upper_or_digit
}

/// A character that an opaque token may hold: an ASCII letter or digit, or one
/// of `-`, `_`, `.`, `+`, `/`, `=`.
pub open spec fn token_alphabet(c: char) -> bool {
    ||| 'a' <= c <= 'z'
    ||| 'A' <= c <= 'Z'
    ||| '0' <= c <= '9'
    ||| c == '-' || c == '_' || c == '.' || c == '+' || c == '/' || c == '='
}

/// A value whose trimmed text holds any character outside the token alphabet
/// (a `:`, a space, a non-ASCII letter) is not an opaque token.
pub proof fn lemma_foreign_character_is_no_token(value: Seq<char>, i: int)
    requires
        0 <= i < trim_chars(value).len(),
        !token_alphabet(trim_chars(value)[i]),
    ensures
        !spec_high_entropy_token(value),
{
    assert(!is_token_char(trim_chars(value)[i]));
}

/// A trimmed value shorter than 32 bytes or longer than 512 is not an opaque token.
pub proof fn lemma_token_length(value: Seq<char>)
    requires
        encode_utf8(trim_chars(value)).len() < 32 || encode_utf8(trim_chars(value)).len() > 512,
    ensures
        !spec_high_entropy_token(value),
{
}

/// An opaque token holds a lowercase ASCII letter, and an uppercase ASCII letter
/// or an ASCII digit.
pub proof fn lemma_token_mixes_characters(value: Seq<char>)
    requires
        spec_high_entropy_token(value),
    ensures
        exists|i: int| 0 <= i < trim_chars(value).len() && 'a' <= #[trigger] trim_chars(value)[i] <= 'z',
        exists|i: int|
            0 <= i < trim_chars(value).len() && ('A' <= #[trigger] trim_chars(value)[i] <= 'Z' || '0'
                <= trim_chars(value)[i] <= '9'),
{
    let t = trim_chars(value);
    let i = choose|i: int| 0 <= i < t.len() && is_ascii_lower(#[trigger] t[i]);
    let j = choose|j: int| 0 <= j < t.len() && (is_ascii_upper(#[trigger] t[j]) || is_ascii_digit(t[j]));
    assert('a' <= t[i] <= 'z');
    assert('A' <= t[j] <= 'Z' || '0' <= t[j] <= '9');
}

/// A trimmed value of 32 to 512 characters of the token alphabet, holding a
/// lowercase ASCII letter and an uppercase ASCII letter or digit, is an opaque
/// token, and so is taken for a secret.
pub proof fn lemma_token_recognised(value: Seq<char>, lower: int, other: int)
    requires
        32 <= trim_chars(value).len() <= 512,
        forall|k: int| 0 <= k < trim_chars(value).len() ==> token_alphabet(#[trigger] trim_chars(value)[k]),
        0 <= lower < trim_chars(value).len(),
        'a' <= trim_chars(value)[lower] <= 'z',
        0 <= other < trim_chars(value).len(),
        'A' <= trim_chars(value)[other] <= 'Z' || '0' <= trim_chars(value)[other] <= '9',
    ensures
        spec_high_entropy_token(value),
        spec_is_likely_secret(value),
{
    let t = trim_chars(value);
    assert forall|k: int| 0 <= k < t.len() implies is_token_char(#[trigger] t[k]) by {
        assert(token_alphabet(t[k]));
    }
    assert(is_ascii_chars(t)) by {
        assert forall|k: int| 0 <= k < t.len() implies '\0' <= #[trigger] t[k] <= '\u{7f}' by {
            assert(token_alphabet(t[k]));
        }
    }
    is_ascii_chars_encode_utf8(t);
    assert(is_ascii_lower(t[lower]));
    assert(is_ascii_upper(t[other]) || is_ascii_digit(t[other]));
}

/// A value whose ASCII-lowercased text holds one of the credential phrases
/// (`password`, `passwd`, `api_key`, `access_token`, `refresh_token`,
/// `private key`, `connection string`, `mongodb://`, `postgres://`) is taken for
/// a secret.
pub proof fn lemma_marker_is_secret(value: Seq<char>, marker: Seq<char>, i: int)
    requires
        marker == "password"@ || marker == "passwd"@ || marker == "api_key"@ || marker
            == "access_token"@ || marker == "refresh_token"@ || marker == "private key"@ || marker
            == "connection string"@ || marker == "mongodb://"@ || marker == "postgres://"@,
        0 <= i,
        i + marker.len() <= value.len(),
        ascii_lowercase(value).subrange(i, i + marker.len()) == marker,
    ensures
        spec_is_likely_secret(value),
{
    lemma_contains_window(ascii_lowercase(value), marker);
    assert(ascii_lowercase(value).subrange(i, i + marker.len()) == marker);
}

} // verus!

//! What kind of content a clipboard text is, the key that identifies equal texts,
//! and the built-in group that new items fall into.
use vstd::prelude::*;
use vstd::utf8::encode_utf8;

use crate::external::push_char;
use crate::external::sha256;
use crate::external::sha256_digest;
use crate::external::url_parse_succeeds;
use crate::external::url_parses;
use crate::text::chars_of;
use crate::text::contains;
use crate::text::contains_seq;
use crate::text::lemma_contains_window;
use crate::text::eq_ignore_ascii_case;
use crate::text::eq_ignore_ascii_case_seq;
use crate::text::str_eq;
use crate::text::str_option_view;
use crate::text::trim;
use crate::text::trim_chars;

verus! {

/// The text holds one of the signs of source code: `{`, `=>`, `function ` or `const `.
pub open spec fn looks_like_code(content: Seq<char>) -> bool {
    ||| contains_seq(content, "{"@)
    ||| contains_seq(content, "=>"@)
    ||| contains_seq(content, "function "@)
    ||| contains_seq(content, "const "@)
}

/// The content type of a text, given whether its trimmed form parses as a URL.
pub open spec fn content_type_given(parses_as_url: bool, content: Seq<char>) -> Seq<char> {
    if parses_as_url {
        "url"@
    } else if looks_like_code(content) {
        "code"@
    } else {
        "text"@
    }
}

/// The content type that `detect_content_type` assigns to a text.
pub open spec fn spec_content_type(content: Seq<char>) -> Seq<char> {
    content_type_given(url_parses(trim_chars(content)), content)
}

/// The lowercase hexadecimal digit for `n` in `0..16`.
pub open spec fn hex_digit(n: int) -> char {
    if n < 10 {
        ((n + 48) as u32) as char
    } else {
        ((n + 87) as u32) as char
    }
}

/// Lowercase hexadecimal text of a byte string, two digits per byte.
pub open spec fn hex_of(bytes: Seq<u8>) -> Seq<char>
    decreases bytes.len(),
{
    if bytes.len() == 0 {
        Seq::empty()
    } else {
        hex_of(bytes.drop_last()) + seq![
            hex_digit((bytes.last() / 16) as int),
            hex_digit((bytes.last() % 16) as int),
        ]
    }
}

/// The key under which equal texts are coalesced: the lowercase hexadecimal
/// SHA-256 digest of the text's UTF-8 bytes.
pub open spec fn spec_content_hash(content: Seq<char>) -> Seq<char> {
    hex_of(sha256(encode_utf8(content)))
}

/// The built-in group that a new item of the given type and source falls into.
pub open spec fn spec_automatic_group(content_type: Seq<char>, source_application: Option<
    Seq<char>,
>) -> Option<Seq<char>> {
    if content_type == "url"@ {
        Some("system-links"@)
    } else if content_type == "code"@ || (source_application matches Some(app)
        && eq_ignore_ascii_case_seq(app, "Code.exe"@)) {
        Some("system-code"@)
    } else {
        None
    }
}

/// The content type of a text, once it is known whether its trimmed form is a URL.
pub fn content_type_for(parses_as_url: bool, content: &str) -> (content_type: &'static str)
    ensures
        content_type@ == content_type_given(parses_as_url, content@),
{
    if parses_as_url {
        return "url";
    }
    let chars = chars_of(content);
    if contains(&chars, &chars_of("{")) || contains(&chars, &chars_of("=>")) || contains(
        &chars,
        &chars_of("function "),
    ) || contains(&chars, &chars_of("const ")) {
        "code"
    } else {
        "text"
    }
}

/// Classifies a clipboard text as `url`, `code` or `text`.
pub fn detect_content_type(content: &str) -> (content_type: &'static str)
    ensures
        content_type@ == spec_content_type(content@),
{
    let parses = url_parse_succeeds(trim(content));
    content_type_for(parses, content)
}

fn hex_digit_char(n: u8) -> (c: char)
    requires
        n < 16,
    ensures
        c == hex_digit(n as int),
{
    if n < 10 {
        ((n + 48) as char)
    } else {
        ((n + 87) as char)
    }
}

/// Lowercase hexadecimal text of a byte string (`format!("{:x}", ..)` of a digest).
pub fn hex_lower(bytes: &[u8]) -> (text: String)
    ensures
        text@ == hex_of(bytes@),
{
    let mut text = String::new();
    let n = bytes.len();
    for i in 0..n
        invariant
            n == bytes@.len(),
            text@ == hex_of(bytes@.take(i as int)),
    {
        let b = bytes[i];
        push_char(&mut text, hex_digit_char(b / 16));
        push_char(&mut text, hex_digit_char(b % 16));
        assert(bytes@.take(i + 1).drop_last() == bytes@.take(i as int));
    }
    assert(bytes@.take(n as int) == bytes@);
    text
}

/// The key under which equal texts are coalesced in the history.
pub fn hash(content: &str) -> (key: String)
    ensures
        key@ == spec_content_hash(content@),
{
    let digest = sha256_digest(content.as_bytes());
    hex_lower(digest.as_slice())
}

/// The built-in group that a new item of the given type and source falls into.
pub fn automatic_group_id(content_type: &str, source_application: Option<&str>) -> (group: Option<
    &'static str,
>)
    ensures
        str_option_view(group) == spec_automatic_group(content_type@, str_option_view(source_application)),
{
    if str_eq(content_type, "url") {
        Some("system-links")
    } else if str_eq(content_type, "code") || match source_application {
        Some(app) => eq_ignore_ascii_case(app, "Code.exe"),
        None => false,
    } {
        Some("system-code")
    } else {
        None
    }
}

proof fn lemma_hex_digit_injective(a: int, b: int)
    requires
        0 <= a < 16,
        0 <= b < 16,
        hex_digit(a) == hex_digit(b),
    ensures
        a == b,
{
}

proof fn lemma_hex_of_len(bytes: Seq<u8>)
    ensures
        hex_of(bytes).len() == 2 * bytes.len(),
    decreases bytes.len(),
{
    if bytes.len() > 0 {
        lemma_hex_of_len(bytes.drop_last());
    }
}

/// Two byte strings have the same hexadecimal text only if they are equal.
pub proof fn lemma_hex_of_injective(a: Seq<u8>, b: Seq<u8>)
    requires
        hex_of(a) == hex_of(b),
    ensures
        a == b,
    decreases a.len(),
{
    lemma_hex_of_len(a);
    lemma_hex_of_len(b);
    if a.len() > 0 {
        let ha = hex_of(a);
        let n = ha.len();
        assert(ha[n - 2] == hex_digit((a.last() / 16) as int));
        assert(ha[n - 1] == hex_digit((a.last() % 16) as int));
        assert(hex_of(b)[n - 2] == hex_digit((b.last() / 16) as int));
        assert(hex_of(b)[n - 1] == hex_digit((b.last() % 16) as int));
        lemma_hex_digit_injective((a.last() / 16) as int, (b.last() / 16) as int);
        lemma_hex_digit_injective((a.last() % 16) as int, (b.last() % 16) as int);
        lemma_hex_of_len(a.drop_last());
        lemma_hex_of_len(b.drop_last());
        assert(hex_of(a.drop_last()) == ha.take(n - 2));
        assert(hex_of(b.drop_last()) == hex_of(b).take(n - 2));
        lemma_hex_of_injective(a.drop_last(), b.drop_last());
        assert(a == a.drop_last().push(a.last()));
        assert(b == b.drop_last().push(b.last()));
    }
}

/// Two texts are coalesced into one history item exactly when the SHA-256
/// digests of their UTF-8 bytes are equal.
pub proof fn lemma_coalescing_key(a: Seq<char>, b: Seq<char>)
    ensures
        spec_content_hash(a) == spec_content_hash(b) <==> sha256(encode_utf8(a)) == sha256(
            encode_utf8(b),
        ),
{
    if spec_content_hash(a) == spec_content_hash(b) {
        lemma_hex_of_injective(sha256(encode_utf8(a)), sha256(encode_utf8(b)));
    }
}

/// A text whose trimmed form parses as a URL is classified `url`, whatever it holds.
pub proof fn lemma_url_text_is_url(content: Seq<char>)
    requires
        url_parses(trim_chars(content)),
    ensures
        spec_content_type(content) == "url"@,
{
}

/// A text that is not a URL and holds `{`, `=>`, `function ` or `const `
/// (with its trailing space) somewhere is classified `code`.
pub proof fn lemma_marked_text_is_code(content: Seq<char>, marker: Seq<char>, i: int)
    requires
        !url_parses(trim_chars(content)),
        marker == "{"@ || marker == "=>"@ || marker == "function "@ || marker == "const "@,
        0 <= i,
        i + marker.len() <= content.len(),
        content.subrange(i, i + marker.len()) == marker,
    ensures
        spec_content_type(content) == "code"@,
{
    lemma_contains_window(content, marker);
    assert(content.subrange(i, i + marker.len()) == marker);
}

/// A text that is not a URL and holds none of `{`, `=>`, `function `, `const `
/// is classified `text`: words such as `construct` or `constant` do not make it
/// code.
pub proof fn lemma_unmarked_text_is_text(content: Seq<char>)
    requires
        !url_parses(trim_chars(content)),
        forall|i: int| 0 <= i && i + 1 <= content.len() ==> #[trigger] content.subrange(i, i + 1) != "{"@,
        forall|i: int| 0 <= i && i + 2 <= content.len() ==> #[trigger] content.subrange(i, i + 2) != "=>"@,
        forall|i: int| 0 <= i && i + 9 <= content.len() ==> #[trigger] content.subrange(i, i + 9) != "function "@,
        forall|i: int| 0 <= i && i + 6 <= content.len() ==> #[trigger] content.subrange(i, i + 6) != "const "@,
    ensures
        spec_content_type(content) == "text"@,
{
    reveal_strlit("{");
    reveal_strlit("=>");
    reveal_strlit("function ");
    reveal_strlit("const ");
    lemma_contains_window(content, "{"@);
    lemma_contains_window(content, "=>"@);
    lemma_contains_window(content, "function "@);
    lemma_contains_window(content, "const "@);
}

/// The character `c` is `lower` or its ASCII uppercase `upper`.
pub open spec fn either_case(c: char, lower: char, upper: char) -> bool {
    c == lower || c == upper
}

/// `app` is `Code.exe` in any mix of ASCII upper and lower case.
pub open spec fn names_vs_code(app: Seq<char>) -> bool {
    &&& app.len() == 8
    &&& either_case(app[0], 'c', 'C')
    &&& either_case(app[1], 'o', 'O')
    &&& either_case(app[2], 'd', 'D')
    &&& either_case(app[3], 'e', 'E')
    &&& app[4] == '.'
    &&& either_case(app[5], 'e', 'E')
    &&& either_case(app[6], 'x', 'X')
    &&& either_case(app[7], 'e', 'E')
}

proof fn lemma_lower_char_is(c: char, lower: char, upper: char)
    requires
        'a' <= lower <= 'z',
        upper as u32 == lower as u32 - 32,
    ensures
        crate::text::ascii_lower_char(c) == lower <==> either_case(c, lower, upper),
{
}

proof fn lemma_names_vs_code(app: Seq<char>)
    ensures
        eq_ignore_ascii_case_seq(app, "Code.exe"@) <==> names_vs_code(app),
{
    reveal_strlit("Code.exe");
    let lower = crate::text::ascii_lowercase(app);
    let target = crate::text::ascii_lowercase("Code.exe"@);
    assert(target =~= seq!['c', 'o', 'd', 'e', '.', 'e', 'x', 'e']);
    lemma_lower_char_is(app[0], 'c', 'C');
    lemma_lower_char_is(app[1], 'o', 'O');
    lemma_lower_char_is(app[2], 'd', 'D');
    lemma_lower_char_is(app[3], 'e', 'E');
    lemma_lower_char_is(app[5], 'e', 'E');
    lemma_lower_char_is(app[6], 'x', 'X');
    lemma_lower_char_is(app[7], 'e', 'E');
    if names_vs_code(app) {
        assert(lower =~= target);
    }
    if lower == target {
        assert(lower.len() == 8);
        assert(lower[0] == 'c');
        assert(lower[1] == 'o');
        assert(lower[2] == 'd');
        assert(lower[3] == 'e');
        assert(lower[4] == '.');
        assert(lower[5] == 'e');
        assert(lower[6] == 'x');
        assert(lower[7] == 'e');
    }
}

/// Every URL goes to the built-in links group, whatever application it came from.
pub proof fn lemma_urls_go_to_links(source_application: Option<Seq<char>>)
    ensures
        spec_automatic_group("url"@, source_application) == Some("system-links"@),
{
}

/// Every piece of code goes to the built-in code group, whatever application it
/// came from, known or not.
pub proof fn lemma_code_goes_to_code_group(source_application: Option<Seq<char>>)
    ensures
        spec_automatic_group("code"@, source_application) == Some("system-code"@),
{
    reveal_strlit("code");
    reveal_strlit("url");
    assert("code"@.len() != "url"@.len());
}

/// Anything that is not a URL, copied from VS Code (`Code.exe` in any ASCII
/// case), goes to the built-in code group.
pub proof fn lemma_vs_code_goes_to_code_group(content_type: Seq<char>, app: Seq<char>)
    requires
        content_type != "url"@,
        names_vs_code(app),
    ensures
        spec_automatic_group(content_type, Some(app)) == Some("system-code"@),
{
    lemma_names_vs_code(app);
}

/// Anything that is neither a URL nor code, copied from an application other
/// than VS Code or from an unknown one, gets no built-in group.
pub proof fn lemma_other_items_get_no_group(
    content_type: Seq<char>,
    source_application: Option<Seq<char>>,
)
    requires
        content_type != "url"@,
        content_type != "code"@,
        source_application matches Some(app) ==> !names_vs_code(app),
    ensures
        spec_automatic_group(content_type, source_application) is None,
{
    if let Some(app) = source_application {
        lemma_names_vs_code(app);
    }
}

} // verus!

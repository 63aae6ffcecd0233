//! The text formats that the outside crates write: a JSON list of strings, a
//! random UUID and an RFC 3339 UTC timestamp.
use vstd::prelude::*;

use crate::content::hex_digit;
use crate::text::is_ascii_digit;

verus! {

/// How one character is written inside a JSON string: `"` and `\` are escaped
/// with a backslash, the control characters below U+0020 as `\b`, `\t`, `\n`,
/// `\f`, `\r` or `\u00XX` (lowercase hexadecimal), and every other character
/// stands for itself.
pub open spec fn json_escaped_char(c: char) -> Seq<char> {
    let u = c as u32;
    if c == '"' {
        seq!['\\', '"']
    } else if c == '\\' {
        seq!['\\', '\\']
    } else if u == 0x08 {
        seq!['\\', 'b']
    } else if u == 0x09 {
        seq!['\\', 't']
    } else if u == 0x0A {
        seq!['\\', 'n']
    } else if u == 0x0C {
        seq!['\\', 'f']
    } else if u == 0x0D {
        seq!['\\', 'r']
    } else if u < 0x20 {
        seq!['\\', 'u', '0', '0', hex_digit((u / 16) as int), hex_digit((u % 16) as int)]
    } else {
        seq![c]
    }
}

/// The characters of a JSON string body, each written as `json_escaped_char`.
pub open spec fn json_escaped(s: Seq<char>) -> Seq<char>
    decreases s.len(),
{
    if s.len() == 0 {
        Seq::empty()
    } else {
        json_escaped(s.drop_last()) + json_escaped_char(s.last())
    }
}

/// A JSON string: the escaped characters between double quotes.
pub open spec fn json_string(s: Seq<char>) -> Seq<char> {
    seq!['"'] + json_escaped(s) + seq!['"']
}

/// The JSON strings of `values`, separated by commas.
pub open spec fn json_items(values: Seq<Seq<char>>) -> Seq<char>
    decreases values.len(),
{
    if values.len() == 0 {
        Seq::empty()
    } else if values.len() == 1 {
        json_string(values[0])
    } else {
        json_items(values.drop_last()) + seq![','] + json_string(values.last())
    }
}

/// The compact JSON array of strings that `serde_json::to_string` writes for a
/// list of strings: `[`, the strings separated by commas without spaces, `]`.
pub open spec fn json_string_list(values: Seq<Seq<char>>) -> Seq<char> {
    seq!['['] + json_items(values) + seq![']']
}

/// A lowercase hexadecimal digit.
pub open spec fn is_lower_hex(c: char) -> bool {
    is_ascii_digit(c) || ('a' <= c && c <= 'f')
}

/// The hyphenated lowercase text of a version 4 UUID:
/// `xxxxxxxx-xxxx-4xxx-yxxx-xxxxxxxxxxxx`, where every `x` is a lowercase
/// hexadecimal digit and `y` is one of `8`, `9`, `a`, `b`.
pub open spec fn is_uuid_v4_text(s: Seq<char>) -> bool {
    &&& s.len() == 36
    &&& forall|i: int|
        0 <= i < 36 ==> if i == 8 || i == 13 || i == 18 || i == 23 {
            #[trigger] s[i] == '-'
        } else {
            is_lower_hex(s[i])
        }
    &&& s[14] == '4'
    &&& (s[19] == '8' || s[19] == '9' || s[19] == 'a' || s[19] == 'b')
}

/// Every character of `s` is an ASCII digit.
pub open spec fn ascii_digits(s: Seq<char>) -> bool {
    forall|i: int| 0 <= i < s.len() ==> is_ascii_digit(#[trigger] s[i])
}

/// Two ASCII digits.
pub open spec fn two_digits(s: Seq<char>) -> bool {
    s.len() == 2 && ascii_digits(s)
}

/// The year of an RFC 3339 timestamp: four digits, or (past year 9999) a `+`
/// followed by five or more digits.
pub open spec fn rfc3339_year(year: Seq<char>) -> bool {
    ||| year.len() == 4 && ascii_digits(year)
    ||| year.len() >= 6 && year[0] == '+' && ascii_digits(year.drop_first())
}

/// The fraction of a second: nothing, or a `.` followed by 3, 6 or 9 digits.
pub open spec fn rfc3339_fraction(fraction: Seq<char>) -> bool {
    ||| fraction.len() == 0
    ||| (fraction.len() == 4 || fraction.len() == 7 || fraction.len() == 10) && fraction[0] == '.'
        && ascii_digits(fraction.drop_first())
}

/// The fields of an RFC 3339 UTC timestamp each have their shape.
pub open spec fn rfc3339_fields(
    year: Seq<char>,
    month: Seq<char>,
    day: Seq<char>,
    hour: Seq<char>,
    minute: Seq<char>,
    second: Seq<char>,
    fraction: Seq<char>,
) -> bool {
    &&& rfc3339_year(year)
    &&& two_digits(month)
    &&& two_digits(day)
    &&& two_digits(hour)
    &&& two_digits(minute)
    &&& two_digits(second)
    &&& rfc3339_fraction(fraction)
}

/// `YYYY-MM-DDTHH:MM:SS[.fff]+00:00` from its fields.
pub open spec fn rfc3339_utc_text(
    year: Seq<char>,
    month: Seq<char>,
    day: Seq<char>,
    hour: Seq<char>,
    minute: Seq<char>,
    second: Seq<char>,
    fraction: Seq<char>,
) -> Seq<char> {
    year + "-"@ + month + "-"@ + day + "T"@ + hour + ":"@ + minute + ":"@ + second + fraction
        + "+00:00"@
}

/// An RFC 3339 timestamp in UTC as `chrono` writes it with `to_rfc3339`.
pub open spec fn is_rfc3339_utc(s: Seq<char>) -> bool {
    exists|
        year: Seq<char>,
        month: Seq<char>,
        day: Seq<char>,
        hour: Seq<char>,
        minute: Seq<char>,
        second: Seq<char>,
        fraction: Seq<char>,
    |
        #[trigger] rfc3339_fields(year, month, day, hour, minute, second, fraction) && s
            == rfc3339_utc_text(year, month, day, hour, minute, second, fraction)
}

} // verus!

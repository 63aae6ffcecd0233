//! Character-level view of strings: the pieces of `str` behaviour that the
//! library's rules are stated over.
use vstd::prelude::*;
use vstd::utf8::encode_scalar;
use vstd::utf8::encode_utf8;

verus! {

/// `char::is_whitespace`: the Unicode `White_Space` property.
pub open spec fn spec_is_whitespace(c: char) -> bool {
    let u = c as u32;
    ||| 0x09 <= u <= 0x0D
    ||| u == 0x20
    ||| u == 0x85
    ||| u == 0xA0
    ||| u == 0x1680
    ||| 0x2000 <= u <= 0x200A
    ||| u == 0x2028
    ||| u == 0x2029
    ||| u == 0x202F
    ||| u == 0x205F
    ||| u == 0x3000
}

/// Index of the first character at or after `i` that is not whitespace
/// (the length of `s` when there is none).
pub open spec fn first_non_whitespace_from(s: Seq<char>, i: int) -> int
    decreases s.len() - i,
{
    if i >= s.len() || i < 0 {
        s.len() as int
    } else if spec_is_whitespace(s[i]) {
        first_non_whitespace_from(s, i + 1)
    } else {
        i
    }
}

/// One past the last character before `j` that is not whitespace (0 when there is none).
pub open spec fn end_of_non_whitespace_before(s: Seq<char>, j: int) -> int
    decreases j,
{
    if j <= 0 {
        0
    } else if spec_is_whitespace(s[j - 1]) {
        end_of_non_whitespace_before(s, j - 1)
    } else {
        j
    }
}

/// `str::trim`: `s` without its leading and trailing whitespace.
pub open spec fn trim_chars(s: Seq<char>) -> Seq<char> {
    let start = first_non_whitespace_from(s, 0);
    if start < s.len() {
        s.subrange(start, end_of_non_whitespace_before(s, s.len() as int))
    } else {
        Seq::empty()
    }
}

pub open spec fn is_ascii_upper(c: char) -> bool {
    'A' <= c && c <= 'Z'
}

pub open spec fn is_ascii_lower(c: char) -> bool {
    'a' <= c && c <= 'z'
}

pub open spec fn is_ascii_digit(c: char) -> bool {
    '0' <= c && c <= '9'
}

pub open spec fn is_ascii_alphanumeric(c: char) -> bool {
    is_ascii_upper(c) || is_ascii_lower(c) || is_ascii_digit(c)
}

/// `char::to_ascii_lowercase`.
pub open spec fn ascii_lower_char(c: char) -> char {
    if is_ascii_upper(c) {
        ((c as u32) + 32) as char
    } else {
        c
    }
}

/// `str::to_ascii_lowercase`, character by character.
pub open spec fn ascii_lowercase(s: Seq<char>) -> Seq<char> {
    s.map_values(|c: char| ascii_lower_char(c))
}

/// `needle` occurs in `hay` starting at index `i`.
pub open spec fn occurs_at(hay: Seq<char>, needle: Seq<char>, i: int) -> bool {
    &&& 0 <= i
    &&& i + needle.len() <= hay.len()
    &&& forall|k: int| 0 <= k < needle.len() ==> hay[i + k] == needle[k]
}

/// `str::contains` with a string pattern.
pub open spec fn contains_seq(hay: Seq<char>, needle: Seq<char>) -> bool {
    exists|i: int| #[trigger] occurs_at(hay, needle, i)
}

/// `str::starts_with` with a string pattern.
pub open spec fn starts_with_seq(s: Seq<char>, prefix: Seq<char>) -> bool {
    occurs_at(s, prefix, 0)
}

/// `str::eq_ignore_ascii_case`.
pub open spec fn eq_ignore_ascii_case_seq(a: Seq<char>, b: Seq<char>) -> bool {
    ascii_lowercase(a) == ascii_lowercase(b)
}

/// The characters of an optional string slice.
pub open spec fn str_option_view(o: Option<&str>) -> Option<Seq<char>> {
    match o {
        Some(s) => Some(s@),
        None => None,
    }
}

/// The characters of an optional string.
pub open spec fn string_option_view(o: Option<String>) -> Option<Seq<char>> {
    match o {
        Some(s) => Some(s@),
        None => None,
    }
}

/// The characters of `s`, in order.
pub fn chars_of(s: &str) -> (chars: Vec<char>)
    ensures
        chars@ == s@,
{
    let mut chars: Vec<char> = Vec::new();
    for c in it: s.chars()
        invariant
            chars@ == it.seq().take(it.index() as int),
    {
        chars.push(c);
    }
    chars
}

/// `char::is_whitespace`.
pub fn is_whitespace(c: char) -> (r: bool)
    ensures
        r == spec_is_whitespace(c),
{
    let u = c as u32;
    (0x09 <= u && u <= 0x0D) || u == 0x20 || u == 0x85 || u == 0xA0 || u == 0x1680 || (0x2000
        <= u && u <= 0x200A) || u == 0x2028 || u == 0x2029 || u == 0x202F || u == 0x205F || u
        == 0x3000
}

/// `char::to_ascii_lowercase`.
pub fn to_ascii_lower_char(c: char) -> (r: char)
    ensures
        r == ascii_lower_char(c),
{
    if 'A' <= c && c <= 'Z' {
        let b: u8 = (c as u32) as u8;
        ((b + 32) as char)
    } else {
        c
    }
}

/// Index range of `str::trim` over the characters of `chars`.
pub fn trim_bounds(chars: &Vec<char>) -> (bounds: (usize, usize))
    ensures
        bounds.0 <= bounds.1 <= chars.len(),
        chars@.subrange(bounds.0 as int, bounds.1 as int) == trim_chars(chars@),
{
    let n = chars.len();
    let mut start: usize = 0;
    while start < n && is_whitespace(chars[start])
        invariant
            start <= n == chars.len(),
            first_non_whitespace_from(chars@, 0) == first_non_whitespace_from(chars@, start as int),
        decreases n - start,
    {
        start = start + 1;
    }
    if start == n {
        return (n, n);
    }
    let mut end: usize = n;
    while is_whitespace(chars[end - 1])
        invariant
            start < end <= n == chars.len(),
            !spec_is_whitespace(chars@[start as int]),
            end_of_non_whitespace_before(chars@, n as int) == end_of_non_whitespace_before(
                chars@,
                end as int,
            ),
        decreases end,
    {
        end = end - 1;
    }
    (start, end)
}

/// `str::trim`.
pub fn trim(s: &str) -> (t: &str)
    ensures
        t@ == trim_chars(s@),
{
    let chars = chars_of(s);
    let (start, end) = trim_bounds(&chars);
    s.substring_char(start, end)
}

/// `needle` occurs in `hay` at index `i`.
pub fn occurs_at_index(hay: &Vec<char>, needle: &Vec<char>, i: usize) -> (r: bool)
    requires
        i + needle.len() <= hay.len(),
    ensures
        r == occurs_at(hay@, needle@, i as int),
{
    let m = needle.len();
    let mut k: usize = 0;
    while k < m
        invariant
            k <= m == needle.len(),
            i + m <= hay.len(),
            forall|j: int| 0 <= j < k ==> hay@[i + j] == needle@[j],
        decreases m - k,
    {
        if hay[i + k] != needle[k] {
            return false;
        }
        k = k + 1;
    }
    true
}

/// `str::contains` with a string pattern.
pub fn contains(hay: &Vec<char>, needle: &Vec<char>) -> (r: bool)
    ensures
        r == contains_seq(hay@, needle@),
{
    let n = hay.len();
    let m = needle.len();
    if m > n {
        assert forall|i: int| !occurs_at(hay@, needle@, i) by {}
        return false;
    }
    let mut i: usize = 0;
    while i <= n - m
        invariant
            m <= n,
            n == hay.len(),
            m == needle.len(),
            forall|j: int| 0 <= j < i ==> !#[trigger] occurs_at(hay@, needle@, j),
        decreases n - m + 1 - i,
    {
        if occurs_at_index(hay, needle, i) {
            return true;
        }
        i = i + 1;
    }
    assert forall|j: int| !#[trigger] occurs_at(hay@, needle@, j) by {
        if 0 <= j < i {
        }
    }
    false
}

/// `str::starts_with` with a string pattern.
pub fn starts_with(s: &Vec<char>, prefix: &Vec<char>) -> (r: bool)
    ensures
        r == starts_with_seq(s@, prefix@),
{
    if prefix.len() > s.len() {
        false
    } else {
        occurs_at_index(s, prefix, 0)
    }
}

/// `str::to_ascii_lowercase`, character by character.
pub fn to_ascii_lowercase(chars: &Vec<char>) -> (lower: Vec<char>)
    ensures
        lower@ == ascii_lowercase(chars@),
{
    let mut lower: Vec<char> = Vec::new();
    let n = chars.len();
    for i in 0..n
        invariant
            n == chars.len(),
            lower@ == ascii_lowercase(chars@.take(i as int)),
    {
        let c = to_ascii_lower_char(chars[i]);
        lower.push(c);
        assert(ascii_lowercase(chars@.take(i + 1)) == ascii_lowercase(chars@.take(i as int)).push(c));
    }
    assert(chars@.take(n as int) == chars@);
    lower
}

/// `str::eq_ignore_ascii_case`.
pub fn eq_ignore_ascii_case(a: &str, b: &str) -> (r: bool)
    ensures
        r == eq_ignore_ascii_case_seq(a@, b@),
{
    let la = to_ascii_lowercase(&chars_of(a));
    let lb = to_ascii_lowercase(&chars_of(b));
    if la.len() != lb.len() {
        return false;
    }
    let n = la.len();
    for i in 0..n
        invariant
            n == la.len() == lb.len(),
            la@ == ascii_lowercase(a@),
            lb@ == ascii_lowercase(b@),
            forall|j: int| 0 <= j < i ==> la@[j] == lb@[j],
    {
        if la[i] != lb[i] {
            return false;
        }
    }
    assert(la@ == lb@);
    true
}

/// `str == str`.
pub fn str_eq(a: &str, b: &str) -> (r: bool)
    ensures
        r == (a@ == b@),
{
    let ca = chars_of(a);
    let cb = chars_of(b);
    if ca.len() != cb.len() {
        return false;
    }
    let n = ca.len();
    for i in 0..n
        invariant
            n == ca.len() == cb.len(),
            ca@ == a@,
            cb@ == b@,
            forall|j: int| 0 <= j < i ==> ca@[j] == cb@[j],
    {
        if ca[i] != cb[i] {
            return false;
        }
    }
    assert(ca@ == cb@);
    true
}

/// UTF-8 encoding distributes over concatenation.
pub proof fn lemma_encode_utf8_concat(a: Seq<char>, b: Seq<char>)
    ensures
        encode_utf8(a + b) == encode_utf8(a) + encode_utf8(b),
    decreases a.len(),
{
    if a.len() > 0 {
        lemma_encode_utf8_concat(a.drop_first(), b);
        assert((a + b).drop_first() == a.drop_first() + b);
        assert((a + b)[0] == a[0]);
    } else {
        assert(a + b == b);
    }
}

/// The number of bytes in the UTF-8 encoding of `c`.
fn utf8_width(c: char) -> (width: usize)
    ensures
        width == encode_scalar(c as u32).len(),
        1 <= width <= 4,
{
    let u = c as u32;
    if u <= 0x7F {
        1
    } else if u <= 0x7FF {
        2
    } else if u <= 0xFFFF {
        proof {
            vstd::utf8::char_is_scalar(c);
        }
        3
    } else {
        4
    }
}

/// Whether the UTF-8 encoding of `chars` is longer than `limit` bytes (`str::len() > limit`).
pub fn utf8_len_exceeds(chars: &Vec<char>, limit: usize) -> (exceeds: bool)
    ensures
        exceeds == (encode_utf8(chars@).len() > limit),
{
    let n = chars.len();
    let mut total: usize = 0;
    let mut i: usize = 0;
    while i < n
        invariant
            i <= n == chars.len(),
            total <= limit,
            total == encode_utf8(chars@.take(i as int)).len(),
        decreases n - i,
    {
        let w = utf8_width(chars[i]);
        proof {
            let c = chars@[i as int];
            lemma_encode_utf8_concat(chars@.take(i as int), seq![c]);
            assert(chars@.take(i + 1) == chars@.take(i as int) + seq![c]);
            assert(seq![c].drop_first() == Seq::<char>::empty());
            assert(encode_utf8(seq![c]) == encode_scalar(c as u32) + encode_utf8(Seq::<char>::empty()));
        }
        if w > limit - total {
            proof {
                lemma_encode_utf8_concat(chars@.take(i + 1), chars@.skip(i + 1));
                assert(chars@.take(i + 1) + chars@.skip(i + 1) == chars@);
            }
            return true;
        }
        total = total + w;
        i = i + 1;
    }
    assert(chars@.take(n as int) == chars@);
    false
}

/// `needle` occurs at `i` exactly when the window of `hay` at `i` equals it.
pub proof fn lemma_occurs_at_subrange(hay: Seq<char>, needle: Seq<char>, i: int)
    ensures
        occurs_at(hay, needle, i) <==> (0 <= i && i + needle.len() <= hay.len() && hay.subrange(
            i,
            i + needle.len(),
        ) == needle),
{
    if 0 <= i && i + needle.len() <= hay.len() {
        if occurs_at(hay, needle, i) {
            assert(hay.subrange(i, i + needle.len()) =~= needle);
        }
        if hay.subrange(i, i + needle.len()) == needle {
            assert forall|k: int| 0 <= k < needle.len() implies hay[i + k] == needle[k] by {
                assert(hay.subrange(i, i + needle.len())[k] == hay[i + k]);
            }
        }
    }
}

/// `hay` holds `needle` somewhere: some window of `hay` equals `needle`.
pub proof fn lemma_contains_window(hay: Seq<char>, needle: Seq<char>)
    ensures
        contains_seq(hay, needle) <==> exists|i: int|
            0 <= i && i + needle.len() <= hay.len() && #[trigger] hay.subrange(
                i,
                i + needle.len(),
            ) == needle,
{
    if contains_seq(hay, needle) {
        let i = choose|i: int| #[trigger] occurs_at(hay, needle, i);
        lemma_occurs_at_subrange(hay, needle, i);
    }
    if exists|i: int|
        0 <= i && i + needle.len() <= hay.len() && #[trigger] hay.subrange(i, i + needle.len())
            == needle {
        let i = choose|i: int|
            0 <= i && i + needle.len() <= hay.len() && #[trigger] hay.subrange(i, i + needle.len())
                == needle;
        lemma_occurs_at_subrange(hay, needle, i);
    }
}

/// `a` and `b` have the same length and, position by position, the same
/// character or an ASCII letter and its other case.
pub open spec fn same_ignoring_ascii_case(a: Seq<char>, b: Seq<char>) -> bool {
    &&& a.len() == b.len()
    &&& forall|k: int|
        0 <= k < a.len() ==> #[trigger] a[k] == b[k] || ('A' <= a[k] <= 'Z' && b[k] as u32 == a[k]
            as u32 + 32) || ('A' <= b[k] <= 'Z' && a[k] as u32 == b[k] as u32 + 32)
}

proof fn lemma_lower_char_eq(x: char, y: char)
    ensures
        ascii_lower_char(x) == ascii_lower_char(y) <==> (x == y || ('A' <= x <= 'Z' && y as u32
            == x as u32 + 32) || ('A' <= y <= 'Z' && x as u32 == y as u32 + 32)),
{
    let lx = ascii_lower_char(x);
    let ly = ascii_lower_char(y);
    if is_ascii_upper(x) {
        assert(lx as u32 == x as u32 + 32);
    } else {
        assert(lx == x);
    }
    if is_ascii_upper(y) {
        assert(ly as u32 == y as u32 + 32);
    } else {
        assert(ly == y);
    }
}

/// `str::eq_ignore_ascii_case` holds exactly when the texts agree position by
/// position up to the case of ASCII letters.
pub proof fn lemma_eq_ignore_ascii_case_by_position(a: Seq<char>, b: Seq<char>)
    ensures
        eq_ignore_ascii_case_seq(a, b) <==> same_ignoring_ascii_case(a, b),
{
    let la = ascii_lowercase(a);
    let lb = ascii_lowercase(b);
    assert(la.len() == a.len() && lb.len() == b.len());
    if la == lb {
        assert forall|k: int| 0 <= k < a.len() implies #[trigger] a[k] == b[k] || ('A' <= a[k]
            <= 'Z' && b[k] as u32 == a[k] as u32 + 32) || ('A' <= b[k] <= 'Z' && a[k] as u32
            == b[k] as u32 + 32) by {
            assert(la[k] == ascii_lower_char(a[k]));
            assert(lb[k] == ascii_lower_char(b[k]));
            assert(la[k] == lb[k]);
            lemma_lower_char_eq(a[k], b[k]);
        }
    }
    if same_ignoring_ascii_case(a, b) {
        assert forall|k: int| 0 <= k < la.len() implies la[k] == lb[k] by {
            lemma_lower_char_eq(a[k], b[k]);
        }
        assert(la =~= lb);
    }
}

} // verus!

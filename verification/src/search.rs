//! Search over the history: the full-text query built from what the user typed,
//! and the SQL statement that lists items for a query and its filters.
use vstd::prelude::*;

use crate::database::Filters;
use crate::external::char_is_alphanumeric;
use crate::external::push_char;
use crate::external::unicode_alphanumeric;
use crate::text::chars_of;
use crate::text::is_ascii_alphanumeric;
use crate::text::is_whitespace;
use crate::text::spec_is_whitespace;
use crate::text::string_option_view;

verus! {

/// `str::split_whitespace` of `s`, where `current` is the word read so far.
pub open spec fn words_from(s: Seq<char>, current: Seq<char>) -> Seq<Seq<char>>
    decreases s.len(),
{
    if s.len() == 0 {
        if current.len() > 0 {
            seq![current]
        } else {
            Seq::empty()
        }
    } else if spec_is_whitespace(s[0]) {
        let rest = words_from(s.drop_first(), Seq::empty());
        if current.len() > 0 {
            seq![current] + rest
        } else {
            rest
        }
    } else {
        words_from(s.drop_first(), current.push(s[0]))
    }
}

/// `str::split_whitespace`: the maximal runs of non-whitespace characters.
pub open spec fn split_whitespace_seq(s: Seq<char>) -> Seq<Seq<char>> {
    words_from(s, Seq::empty())
}

/// A character allowed in a search term: alphanumeric (`char::is_alphanumeric`,
/// which holds of every ASCII letter and digit), `_` or `-`.
pub open spec fn is_term_char(c: char) -> bool {
    is_ascii_alphanumeric(c) || unicode_alphanumeric(c) || c == '_' || c == '-'
}

/// A word that becomes a search term: every character is allowed.
pub open spec fn is_search_term(word: Seq<char>) -> bool {
    forall|i: int| 0 <= i < word.len() ==> is_term_char(#[trigger] word[i])
}

/// `str::replace('"', "")`.
pub open spec fn without_quotes(word: Seq<char>) -> Seq<char>
    decreases word.len(),
{
    if word.len() == 0 {
        Seq::empty()
    } else if word.last() == '"' {
        without_quotes(word.drop_last())
    } else {
        without_quotes(word.drop_last()).push(word.last())
    }
}

/// Removing the quotes leaves none: a term cannot close its quotes early, so the
/// typed text never escapes into FTS5 query syntax.
pub proof fn lemma_without_quotes_has_no_quote(word: Seq<char>)
    ensures
        forall|i: int| 0 <= i < without_quotes(word).len() ==> #[trigger] without_quotes(word)[i] != '"',
    decreases word.len(),
{
    if word.len() > 0 {
        let shorter = without_quotes(word.drop_last());
        lemma_without_quotes_has_no_quote(word.drop_last());
        assert forall|i: int| 0 <= i < without_quotes(word).len() implies #[trigger] without_quotes(
            word,
        )[i] != '"' by {
            if i < shorter.len() {
                assert(without_quotes(word)[i] == shorter[i]);
            }
        }
    }
}

/// The prefix-match term for a word: `"word"*`.
pub open spec fn prefix_term(word: Seq<char>) -> Seq<char> {
    seq!['"'] + without_quotes(word) + seq!['"', '*']
}

/// The terms for a list of words, skipping words that are not search terms.
pub open spec fn fts_terms(words: Seq<Seq<char>>) -> Seq<Seq<char>>
    decreases words.len(),
{
    if words.len() == 0 {
        Seq::empty()
    } else if is_search_term(words.last()) {
        fts_terms(words.drop_last()).push(prefix_term(words.last()))
    } else {
        fts_terms(words.drop_last())
    }
}

/// The parts joined with `separator` between them (`[T]::join`).
pub open spec fn join(parts: Seq<Seq<char>>, separator: Seq<char>) -> Seq<char>
    decreases parts.len(),
{
    if parts.len() == 0 {
        Seq::empty()
    } else if parts.len() == 1 {
        parts[0]
    } else {
        join(parts.drop_last(), separator) + separator + parts.last()
    }
}

/// The FTS5 query for what the user typed: every word made only of alphanumeric
/// characters, `_` and `-` becomes a quoted prefix term, and the terms are joined
/// with ` AND `.
pub open spec fn spec_fts_query(query: Seq<char>) -> Seq<char> {
    join(fts_terms(split_whitespace_seq(query)), " AND "@)
}

proof fn lemma_join_push(parts: Seq<Seq<char>>, separator: Seq<char>, last: Seq<char>)
    ensures
        join(parts.push(last), separator) == if parts.len() == 0 {
            last
        } else {
            join(parts, separator) + separator + last
        },
{
    assert(parts.push(last).drop_last() == parts);
}

/// Two queries combined: each alone when the other is empty, otherwise both
/// joined with ` AND `.
pub open spec fn and_joined(a: Seq<char>, b: Seq<char>) -> Seq<char> {
    if a.len() == 0 {
        b
    } else if b.len() == 0 {
        a
    } else {
        a + " AND "@ + b
    }
}

proof fn lemma_words_from_split(s: Seq<char>, c: char, t: Seq<char>, current: Seq<char>)
    requires
        spec_is_whitespace(c),
    ensures
        words_from(s + seq![c] + t, current) == words_from(s, current) + words_from(
            t,
            Seq::empty(),
        ),
    decreases s.len(),
{
    let whole = s + seq![c] + t;
    if s.len() == 0 {
        assert(whole[0] == c);
        assert(whole.drop_first() == t);
    } else {
        assert(whole[0] == s[0]);
        assert(whole.drop_first() == s.drop_first() + seq![c] + t);
        if spec_is_whitespace(s[0]) {
            lemma_words_from_split(s.drop_first(), c, t, Seq::empty());
            let head: Seq<Seq<char>> = if current.len() > 0 {
                seq![current]
            } else {
                Seq::empty()
            };
            assert(head + (words_from(s.drop_first(), Seq::empty()) + words_from(t, Seq::empty()))
                == (head + words_from(s.drop_first(), Seq::empty())) + words_from(t, Seq::empty()));
        } else {
            lemma_words_from_split(s.drop_first(), c, t, current.push(s[0]));
        }
    }
}

proof fn lemma_fts_terms_concat(x: Seq<Seq<char>>, y: Seq<Seq<char>>)
    ensures
        fts_terms(x + y) == fts_terms(x) + fts_terms(y),
    decreases y.len(),
{
    if y.len() == 0 {
        assert(x + y == x);
        assert(fts_terms(x) + fts_terms(y) == fts_terms(x));
    } else {
        assert((x + y).last() == y.last());
        assert((x + y).drop_last() == x + y.drop_last());
        lemma_fts_terms_concat(x, y.drop_last());
        if is_search_term(y.last()) {
            assert(fts_terms(x) + fts_terms(y.drop_last()).push(prefix_term(y.last())) == (
            fts_terms(x) + fts_terms(y.drop_last())).push(prefix_term(y.last())));
        }
    }
}

proof fn lemma_join_concat(x: Seq<Seq<char>>, y: Seq<Seq<char>>, separator: Seq<char>)
    requires
        x.len() > 0,
        y.len() > 0,
    ensures
        join(x + y, separator) == join(x, separator) + separator + join(y, separator),
    decreases y.len(),
{
    assert((x + y).last() == y.last());
    assert((x + y).drop_last() == x + y.drop_last());
    if y.len() == 1 {
        assert(x + y.drop_last() == x);
    } else {
        lemma_join_concat(x, y.drop_last(), separator);
    }
}

proof fn lemma_fts_terms_last_nonempty(words: Seq<Seq<char>>)
    ensures
        fts_terms(words).len() > 0 ==> fts_terms(words).last().len() > 0,
    decreases words.len(),
{
    if words.len() > 0 {
        lemma_fts_terms_last_nonempty(words.drop_last());
    }
}

proof fn lemma_join_empty_iff(parts: Seq<Seq<char>>, separator: Seq<char>)
    requires
        parts.len() > 0 ==> parts.last().len() > 0,
    ensures
        join(parts, separator).len() == 0 <==> parts.len() == 0,
{
}

/// The query for two texts separated by whitespace is the two texts' queries
/// joined with ` AND ` (either alone when the other has no term).
pub proof fn lemma_fts_query_concat(a: Seq<char>, separator: char, b: Seq<char>)
    requires
        spec_is_whitespace(separator),
    ensures
        spec_fts_query(a + seq![separator] + b) == and_joined(spec_fts_query(a), spec_fts_query(b)),
{
    let and = " AND "@;
    lemma_words_from_split(a, separator, b, Seq::empty());
    let wa = split_whitespace_seq(a);
    let wb = split_whitespace_seq(b);
    lemma_fts_terms_concat(wa, wb);
    let ta = fts_terms(wa);
    let tb = fts_terms(wb);
    lemma_fts_terms_last_nonempty(wa);
    lemma_fts_terms_last_nonempty(wb);
    lemma_join_empty_iff(ta, and);
    lemma_join_empty_iff(tb, and);
    if ta.len() == 0 {
        assert(ta + tb == tb);
    } else if tb.len() == 0 {
        assert(ta + tb == ta);
    } else {
        lemma_join_concat(ta, tb, and);
    }
}

proof fn lemma_words_from_one_word(w: Seq<char>, current: Seq<char>)
    requires
        forall|i: int| 0 <= i < w.len() ==> !spec_is_whitespace(#[trigger] w[i]),
    ensures
        words_from(w, current) == if (current + w).len() > 0 {
            seq![current + w]
        } else {
            Seq::<Seq<char>>::empty()
        },
    decreases w.len(),
{
    if w.len() == 0 {
        assert(current + w == current);
    } else {
        assert(!spec_is_whitespace(w[0]));
        assert forall|i: int| 0 <= i < w.drop_first().len() implies !spec_is_whitespace(
            #[trigger] w.drop_first()[i],
        ) by {
            assert(w.drop_first()[i] == w[i + 1]);
        }
        lemma_words_from_one_word(w.drop_first(), current.push(w[0]));
        assert(current.push(w[0]) + w.drop_first() == current + w);
    }
}

proof fn lemma_without_quotes_unchanged(w: Seq<char>)
    requires
        forall|i: int| 0 <= i < w.len() ==> #[trigger] w[i] != '"',
    ensures
        without_quotes(w) == w,
    decreases w.len(),
{
    if w.len() > 0 {
        assert(w[w.len() - 1] != '"');
        lemma_without_quotes_unchanged(w.drop_last());
        assert(w.drop_last().push(w.last()) == w);
    }
}

/// A word made of ASCII letters, ASCII digits, `_` and `-` is searched as a
/// quoted prefix term: `"word"*`. Digits count: `2024` is a term like `invoice`.
pub proof fn lemma_ascii_word_query(w: Seq<char>)
    requires
        w.len() > 0,
        forall|i: int|
            0 <= i < w.len() ==> ('a' <= #[trigger] w[i] <= 'z') || ('A' <= w[i] <= 'Z') || ('0'
                <= w[i] <= '9') || w[i] == '_' || w[i] == '-',
    ensures
        spec_fts_query(w) == seq!['"'] + w + seq!['"', '*'],
{
    assert forall|i: int| 0 <= i < w.len() implies !spec_is_whitespace(#[trigger] w[i]) by {
        assert(('a' <= w[i] <= 'z') || ('A' <= w[i] <= 'Z') || ('0' <= w[i] <= '9') || w[i]
            == '_' || w[i] == '-');
    }
    lemma_words_from_one_word(w, Seq::empty());
    assert(Seq::<char>::empty() + w == w);
    let words = split_whitespace_seq(w);
    assert(words == seq![w]);
    assert forall|i: int| 0 <= i < w.len() implies is_term_char(#[trigger] w[i]) by {
        assert(('a' <= w[i] <= 'z') || ('A' <= w[i] <= 'Z') || ('0' <= w[i] <= '9') || w[i]
            == '_' || w[i] == '-');
    }
    assert forall|i: int| 0 <= i < w.len() implies #[trigger] w[i] != '"' by {
        assert(('a' <= w[i] <= 'z') || ('A' <= w[i] <= 'Z') || ('0' <= w[i] <= '9') || w[i]
            == '_' || w[i] == '-');
    }
    lemma_without_quotes_unchanged(w);
    assert(words.last() == w);
    assert(words.drop_last() == Seq::<Seq<char>>::empty());
    assert(is_search_term(words.last()));
    assert(fts_terms(words.drop_last()) == Seq::<Seq<char>>::empty());
    assert(Seq::<Seq<char>>::empty().push(prefix_term(w)) == seq![prefix_term(w)]);
    assert(fts_terms(words) == seq![prefix_term(w)]);
}

/// A word holding a character that is not alphanumeric (neither
/// `char::is_alphanumeric` nor an ASCII letter or digit), `_` or `-` is left out
/// of the query entirely.
pub proof fn lemma_other_word_dropped(w: Seq<char>, i: int)
    requires
        forall|k: int| 0 <= k < w.len() ==> !spec_is_whitespace(#[trigger] w[k]),
        0 <= i < w.len(),
        !unicode_alphanumeric(w[i]),
        !(('a' <= w[i] <= 'z') || ('A' <= w[i] <= 'Z') || ('0' <= w[i] <= '9')),
        w[i] != '_',
        w[i] != '-',
    ensures
        spec_fts_query(w) == Seq::<char>::empty(),
{
    lemma_words_from_one_word(w, Seq::empty());
    assert(Seq::<char>::empty() + w == w);
    let words = split_whitespace_seq(w);
    assert(words == seq![w]);
    assert(!is_term_char(w[i]));
    assert(!is_search_term(w));
    assert(words.drop_last() == Seq::<Seq<char>>::empty());
    assert(!is_search_term(words.last()));
    assert(fts_terms(words.drop_last()) == Seq::<Seq<char>>::empty());
    assert(fts_terms(words) == Seq::<Seq<char>>::empty());
}

/// Whether every character of `chars[start..end]` is allowed in a search term.
fn is_term(chars: &Vec<char>, start: usize, end: usize) -> (r: bool)
    requires
        start <= end <= chars.len(),
    ensures
        r == is_search_term(chars@.subrange(start as int, end as int)),
{
    let mut k = start;
    while k < end
        invariant
            start <= k <= end <= chars.len(),
            forall|j: int| start <= j < k ==> is_term_char(#[trigger] chars@[j]),
        decreases end - k,
    {
        let c = chars[k];
        let ok = char_is_alphanumeric(c) || c == '_' || c == '-';
        if !ok {
            assert(chars@.subrange(start as int, end as int)[k - start] == c);
            return false;
        }
        k = k + 1;
    }
    assert forall|i: int| 0 <= i < end - start implies is_term_char(
        #[trigger] chars@.subrange(start as int, end as int)[i],
    ) by {
        assert(chars@.subrange(start as int, end as int)[i] == chars@[start + i]);
    }
    true
}

/// Appends the prefix term for `chars[start..end]`.
fn push_prefix_term(out: &mut String, chars: &Vec<char>, start: usize, end: usize)
    requires
        start <= end <= chars.len(),
    ensures
        final(out)@ == old(out)@ + prefix_term(chars@.subrange(start as int, end as int)),
{
    let ghost before = out@;
    push_char(out, '"');
    let mut k = start;
    while k < end
        invariant
            start <= k <= end <= chars.len(),
            out@ == before + seq!['"'] + without_quotes(chars@.subrange(start as int, k as int)),
        decreases end - k,
    {
        let c = chars[k];
        assert(chars@.subrange(start as int, k + 1).drop_last() == chars@.subrange(
            start as int,
            k as int,
        ));
        if c != '"' {
            push_char(out, c);
        }
        k = k + 1;
    }
    push_char(out, '"');
    push_char(out, '*');
    assert(out@ == before + prefix_term(chars@.subrange(start as int, end as int)));
}

/// Adds the word `chars[start..end]` to the query when it is a search term.
fn add_word(
    out: &mut String,
    chars: &Vec<char>,
    start: usize,
    end: usize,
    has_terms: bool,
    Ghost(words): Ghost<Seq<Seq<char>>>,
) -> (now_has_terms: bool)
    requires
        start <= end <= chars.len(),
        old(out)@ == join(fts_terms(words), " AND "@),
        has_terms == (fts_terms(words).len() > 0),
    ensures
        final(out)@ == join(
            fts_terms(words.push(chars@.subrange(start as int, end as int))),
            " AND "@,
        ),
        now_has_terms == (fts_terms(words.push(chars@.subrange(start as int, end as int))).len()
            > 0),
{
    let ghost word = chars@.subrange(start as int, end as int);
    assert(words.push(word).drop_last() == words);
    if is_term(chars, start, end) {
        if has_terms {
            out.append(" AND ");
        }
        push_prefix_term(out, chars, start, end);
        proof {
            lemma_join_push(fts_terms(words), " AND "@, prefix_term(word));
        }
        true
    } else {
        has_terms
    }
}

/// Builds the FTS5 query for what the user typed.
pub fn fts_query(q: &str) -> (fts: String)
    ensures
        fts@ == spec_fts_query(q@),
{
    let chars = chars_of(q);
    let n = chars.len();
    let mut out = String::new();
    let mut has_terms = false;
    let mut start: usize = 0;
    let ghost mut words: Seq<Seq<char>> = Seq::empty();
    let mut i: usize = 0;
    assert(chars@.skip(0) == chars@);
    assert(chars@.subrange(0, 0) == Seq::<char>::empty());
    assert(words + words_from(chars@, Seq::empty()) == words_from(chars@, Seq::empty()));
    while i < n
        invariant
            start <= i <= n == chars.len(),
            split_whitespace_seq(chars@) == words + words_from(
                chars@.skip(i as int),
                chars@.subrange(start as int, i as int),
            ),
            out@ == join(fts_terms(words), " AND "@),
            has_terms == (fts_terms(words).len() > 0),
        decreases n - i,
    {
        let ghost rest = chars@.skip(i as int);
        let ghost cur = chars@.subrange(start as int, i as int);
        assert(rest[0] == chars@[i as int]);
        assert(rest.drop_first() == chars@.skip(i + 1));
        if is_whitespace(chars[i]) {
            if start < i {
                has_terms = add_word(&mut out, &chars, start, i, has_terms, Ghost(words));
                proof {
                    assert(words + (seq![cur] + words_from(chars@.skip(i + 1), Seq::empty()))
                        == words.push(cur) + words_from(chars@.skip(i + 1), Seq::empty()));
                    words = words.push(cur);
                }
            }
            start = i + 1;
            assert(chars@.subrange(start as int, i + 1) == Seq::<char>::empty());
        } else {
            assert(cur.push(chars@[i as int]) == chars@.subrange(start as int, i + 1));
        }
        i = i + 1;
    }
    let ghost cur = chars@.subrange(start as int, n as int);
    assert(chars@.skip(n as int) == Seq::<char>::empty());
    if start < n {
        has_terms = add_word(&mut out, &chars, start, n, has_terms, Ghost(words));
        assert(words + seq![cur] == words.push(cur));
    } else {
        assert(words + Seq::<Seq<char>>::empty() == words);
    }
    out
}

/// The columns and joins that every listing selects.
pub const LIST_SELECT: &'static str = "SELECT i.id,i.content,i.content_type,i.source_application,i.window_title,i.created_at,i.last_copied_at,i.copy_count,i.pinned,i.pin_order,i.label,i.group_id,g.name,i.sensitive FROM clipboard_items i LEFT JOIN groups g ON g.id=i.group_id";

/// The clause that restricts a listing to full-text matches of a query.
pub const LIST_MATCH: &'static str = " JOIN clipboard_items_fts f ON f.rowid=i.rowid WHERE clipboard_items_fts MATCH ?";

/// The clause used when there is no full-text query.
pub const LIST_ALL: &'static str = " WHERE 1=1";

pub const FILTER_PINNED: &'static str = " AND i.pinned=?";

pub const FILTER_GROUP: &'static str = " AND i.group_id=?";

pub const FILTER_CONTENT_TYPE: &'static str = " AND i.content_type=?";

pub const FILTER_SOURCE_APPLICATION: &'static str = " AND i.source_application=?";

/// Items copied within the last seven days.
pub const FILTER_RECENT: &'static str = " AND i.last_copied_at >= datetime('now','-7 days')";

/// Pinned items first, in pin order, then the most recently copied, up to a limit.
pub const LIST_ORDER: &'static str = " ORDER BY i.pinned DESC, i.pin_order ASC NULLS LAST, i.last_copied_at DESC LIMIT ?";

/// A value bound to a `?` of a statement.
#[derive(Debug)]
pub enum SqlValue {
    Text(String),
    Integer(i64),
    Bool(bool),
}

/// The mathematical content of a `SqlValue`.
pub enum SqlParam {
    Text(Seq<char>),
    Integer(int),
    Bool(bool),
}

impl View for SqlValue {
    type V = SqlParam;

    open spec fn view(&self) -> SqlParam {
        match self {
            SqlValue::Text(t) => SqlParam::Text(t@),
            SqlValue::Integer(i) => SqlParam::Integer(*i as int),
            SqlValue::Bool(b) => SqlParam::Bool(*b),
        }
    }
}

pub open spec fn param_views(values: Seq<SqlValue>) -> Seq<SqlParam> {
    values.map_values(|v: SqlValue| v@)
}

/// A statement and the values for its `?` placeholders, in order.
#[derive(Debug)]
pub struct ListQuery {
    pub sql: String,
    pub params: Vec<SqlValue>,
}

/// `text` when the condition holds, nothing otherwise.
pub open spec fn when(condition: bool, text: Seq<char>) -> Seq<char> {
    if condition {
        text
    } else {
        Seq::empty()
    }
}

/// The SQL text of a listing.
pub open spec fn spec_list_sql(has_match: bool, filters: Filters) -> Seq<char> {
    LIST_SELECT@ + (if has_match {
        LIST_MATCH@
    } else {
        LIST_ALL@
    }) + when(filters.pinned is Some, FILTER_PINNED@) + when(filters.group_id is Some, FILTER_GROUP@)
        + when(filters.content_type is Some, FILTER_CONTENT_TYPE@) + when(
        filters.source_application is Some,
        FILTER_SOURCE_APPLICATION@,
    ) + when(filters.recent == Some(true), FILTER_RECENT@) + LIST_ORDER@
}

/// The optional text parameter of a filter.
pub open spec fn text_param(value: Option<Seq<char>>) -> Seq<SqlParam> {
    match value {
        Some(t) => seq![SqlParam::Text(t)],
        None => Seq::empty(),
    }
}

/// The values bound to a listing's placeholders, in order.
pub open spec fn spec_list_params(fts: Seq<char>, filters: Filters, limit: int) -> Seq<SqlParam> {
    (if fts.len() > 0 {
        seq![SqlParam::Text(fts)]
    } else {
        Seq::empty()
    }) + (match filters.pinned {
        Some(p) => seq![SqlParam::Bool(p)],
        None => Seq::empty(),
    }) + text_param(string_option_view(filters.group_id)) + text_param(
        string_option_view(filters.content_type),
    ) + text_param(string_option_view(filters.source_application)) + seq![
        SqlParam::Integer(limit),
    ]
}

proof fn lemma_push_param(values: Seq<SqlValue>, v: SqlValue)
    ensures
        param_views(values.push(v)) == param_views(values).push(v@),
{
    assert(param_views(values.push(v)) =~= param_views(values).push(v@));
}

fn push_text_filter(
    sql: &mut String,
    params: &mut Vec<SqlValue>,
    clause: &str,
    value: &Option<String>,
)
    ensures
        final(sql)@ == old(sql)@ + when(value is Some, clause@),
        param_views(final(params)@) == param_views(old(params)@) + text_param(string_option_view(*value)),
{
    match value {
        Some(v) => {
            sql.append(clause);
            let value = SqlValue::Text(v.clone());
            proof {
                lemma_push_param(params@, value);
            }
            params.push(value);
        },
        None => {
            assert(old(sql)@ + Seq::<char>::empty() == old(sql)@);
            assert(param_views(params@) + Seq::<SqlParam>::empty() == param_views(params@));
        },
    }
}

/// The statement that lists history items matching the typed query and the
/// filters: pinned items first in pin order, then the most recently copied,
/// at most `limit` of them.
pub fn build_list_query(query: &str, filters: &Filters, limit: i64) -> (list: ListQuery)
    ensures
        list.sql@ == spec_list_sql(spec_fts_query(query@).len() > 0, *filters),
        param_views(list.params@) == spec_list_params(spec_fts_query(query@), *filters, limit as int),
{
    let fts = fts_query(query);
    let mut sql = String::from_str(LIST_SELECT);
    let mut params: Vec<SqlValue> = Vec::new();
    let has_match = !fts.as_str().is_empty();
    if has_match {
        sql.append(LIST_MATCH);
        let value = SqlValue::Text(fts);
        proof {
            lemma_push_param(params@, value);
        }
        params.push(value);
    } else {
        sql.append(LIST_ALL);
    }
    assert(param_views(params@) == (if has_match { seq![SqlParam::Text(spec_fts_query(query@))] } else { Seq::<SqlParam>::empty() }));
    let ghost sql0 = sql@;
    let ghost params0 = param_views(params@);
    match filters.pinned {
        Some(p) => {
            sql.append(FILTER_PINNED);
            let value = SqlValue::Bool(p);
            proof {
                lemma_push_param(params@, value);
            }
            params.push(value);
        },
        None => {},
    }
    assert(sql@ == sql0 + when(filters.pinned is Some, FILTER_PINNED@));
    push_text_filter(&mut sql, &mut params, FILTER_GROUP, &filters.group_id);
    push_text_filter(&mut sql, &mut params, FILTER_CONTENT_TYPE, &filters.content_type);
    push_text_filter(&mut sql, &mut params, FILTER_SOURCE_APPLICATION, &filters.source_application);
    let ghost sql1 = sql@;
    match filters.recent {
        Some(true) => {
            sql.append(FILTER_RECENT);
        },
        _ => {},
    }
    assert(sql@ == sql1 + when(filters.recent == Some(true), FILTER_RECENT@));
    sql.append(LIST_ORDER);
    let value = SqlValue::Integer(limit);
    proof {
        lemma_push_param(params@, value);
    }
    params.push(value);
    ListQuery { sql, params }
}

} // verus!

use clipboard_plus::database::Filters;
use clipboard_plus::search::build_list_query;
use clipboard_plus::search::fts_query;
use clipboard_plus::search::SqlValue;

const SELECT: &str = "SELECT i.id,i.content,i.content_type,i.source_application,i.window_title,i.created_at,i.last_copied_at,i.copy_count,i.pinned,i.pin_order,i.label,i.group_id,g.name,i.sensitive FROM clipboard_items i LEFT JOIN groups g ON g.id=i.group_id";
const ORDER: &str = " ORDER BY i.pinned DESC, i.pin_order ASC NULLS LAST, i.last_copied_at DESC LIMIT ?";

#[test]
fn words_become_prefix_terms_joined_with_and() {
    assert_eq!(fts_query("hello world"), "\"hello\"* AND \"world\"*");
    assert_eq!(fts_query("  spaced\t\nout  "), "\"spaced\"* AND \"out\"*");
    assert_eq!(fts_query("snake_case kebab-case"), "\"snake_case\"* AND \"kebab-case\"*");
    assert_eq!(fts_query("héllo 東京"), "\"héllo\"* AND \"東京\"*");
}

#[test]
fn words_with_other_characters_are_dropped() {
    assert_eq!(fts_query("foo bar! baz"), "\"foo\"* AND \"baz\"*");
    assert_eq!(fts_query("he\"llo"), "");
    assert_eq!(fts_query("a.b"), "");
    assert_eq!(fts_query(""), "");
    assert_eq!(fts_query("   "), "");
}

#[test]
fn listing_everything() {
    let list = build_list_query("", &Filters::default(), 100);
    assert_eq!(list.sql, format!("{SELECT} WHERE 1=1{ORDER}"));
    assert_eq!(list.params.len(), 1);
    assert!(matches!(list.params[0], SqlValue::Integer(100)));
}

#[test]
fn listing_with_a_query_and_every_filter() {
    let filters = Filters {
        pinned: Some(true),
        group_id: Some("system-code".to_string()),
        content_type: Some("code".to_string()),
        source_application: Some("Code.exe".to_string()),
        recent: Some(true),
    };
    let list = build_list_query("rust", &filters, 7);
    assert_eq!(
        list.sql,
        format!(
            "{SELECT} JOIN clipboard_items_fts f ON f.rowid=i.rowid WHERE clipboard_items_fts MATCH ? AND i.pinned=? AND i.group_id=? AND i.content_type=? AND i.source_application=? AND i.last_copied_at >= datetime('now','-7 days'){ORDER}"
        )
    );
    assert_eq!(list.params.len(), 6);
    assert!(matches!(&list.params[0], SqlValue::Text(t) if t == "\"rust\"*"));
    assert!(matches!(list.params[1], SqlValue::Bool(true)));
    assert!(matches!(&list.params[2], SqlValue::Text(t) if t == "system-code"));
    assert!(matches!(&list.params[3], SqlValue::Text(t) if t == "code"));
    assert!(matches!(&list.params[4], SqlValue::Text(t) if t == "Code.exe"));
    assert!(matches!(list.params[5], SqlValue::Integer(7)));
}

#[test]
fn recent_false_and_unusable_query_add_nothing() {
    let filters = Filters {
        pinned: Some(false),
        group_id: None,
        content_type: None,
        source_application: None,
        recent: Some(false),
    };
    let list = build_list_query("!!!", &filters, 1);
    assert_eq!(list.sql, format!("{SELECT} WHERE 1=1 AND i.pinned=?{ORDER}"));
    assert_eq!(list.params.len(), 2);
    assert!(matches!(list.params[0], SqlValue::Bool(false)));
    assert!(matches!(list.params[1], SqlValue::Integer(1)));
}

#[test]
fn queries_of_two_texts_are_joined_with_and() {
    let cases = [
        ("hello", "world"),
        ("", "world"),
        ("hello", ""),
        ("a! b", "c d!"),
        ("one two", "three"),
        ("!!", "??"),
    ];
    for (a, b) in cases {
        for separator in [" ", "\t", "\n", "\u{3000}"] {
            let left = fts_query(a);
            let right = fts_query(b);
            let expected = [left, right]
                .into_iter()
                .filter(|s| !s.is_empty())
                .collect::<Vec<_>>()
                .join(" AND ");
            assert_eq!(fts_query(&format!("{a}{separator}{b}")), expected);
        }
    }
}

use clipboard_plus::database::retention_age_modifier;
use clipboard_plus::database::settings_from_stored;
use clipboard_plus::database::settings_to_stored;
use clipboard_plus::database::DatabaseError;
use clipboard_plus::database::RetentionSettings;
use clipboard_plus::database::StoredSettings;
use clipboard_plus::decimal::format_i64;
use clipboard_plus::decimal::parse_i64;

fn parse(s: &str) -> Option<i64> {
    parse_i64(&s.chars().collect())
}

#[test]
fn decimal_text_matches_std() {
    for n in [0i64, 7, -7, 42, 100_000, i64::MAX, i64::MIN, -1, 10, 99] {
        assert_eq!(format_i64(n), n.to_string());
        assert_eq!(parse(&n.to_string()), Some(n));
    }
}

#[test]
fn parsing_follows_std() {
    for s in ["", "-", "+", "+5", "-0", "007", "12a", " 1", "1 ", "--1", "+-1",
              "9223372036854775807", "9223372036854775808", "-9223372036854775808",
              "-9223372036854775809", "99999999999999999999999", "٣"] {
        assert_eq!(parse(s), s.parse::<i64>().ok(), "parsing {s:?}");
    }
}

#[test]
fn defaults() {
    let d = RetentionSettings::default();
    assert_eq!(d.max_history_size, 5000);
    assert_eq!(d.delete_unpinned_after_days, 90);
    assert!(d.excluded_content_types.is_empty());
    assert!(d.excluded_applications.is_empty());
}

#[test]
fn missing_or_malformed_values_fall_back_to_defaults() {
    let empty = StoredSettings {
        max_history_size: None,
        delete_unpinned_after_days: None,
        excluded_content_types: None,
        excluded_applications: None,
    };
    let s = settings_from_stored(&empty);
    assert_eq!(s.max_history_size, 5000);
    assert_eq!(s.delete_unpinned_after_days, 90);
    assert!(s.excluded_content_types.is_empty());
    let bad = StoredSettings {
        max_history_size: Some("lots".to_string()),
        delete_unpinned_after_days: Some("12".to_string()),
        excluded_content_types: Some("not json".to_string()),
        excluded_applications: Some("[\"a.exe\",\"B.EXE\"]".to_string()),
    };
    let s = settings_from_stored(&bad);
    assert_eq!(s.max_history_size, 5000);
    assert_eq!(s.delete_unpinned_after_days, 12);
    assert!(s.excluded_content_types.is_empty());
    assert_eq!(s.excluded_applications, vec!["a.exe".to_string(), "B.EXE".to_string()]);
}

#[test]
fn saved_settings_read_back_unchanged() {
    let saved = RetentionSettings {
        max_history_size: 250,
        delete_unpinned_after_days: 30,
        excluded_content_types: vec!["code".to_string(), "with \"quotes\"\n".to_string()],
        excluded_applications: vec!["KeePass.exe".to_string(), "密码".to_string()],
    };
    let stored = settings_to_stored(&saved).expect("in range");
    assert_eq!(stored.max_history_size.as_deref(), Some("250"));
    assert_eq!(stored.delete_unpinned_after_days.as_deref(), Some("30"));
    assert_eq!(
        stored.excluded_content_types.as_deref(),
        Some("[\"code\",\"with \\\"quotes\\\"\\n\"]")
    );
    let read = settings_from_stored(&stored);
    assert_eq!(read.max_history_size, saved.max_history_size);
    assert_eq!(read.delete_unpinned_after_days, saved.delete_unpinned_after_days);
    assert_eq!(read.excluded_content_types, saved.excluded_content_types);
    assert_eq!(read.excluded_applications, saved.excluded_applications);
}

#[test]
fn out_of_range_settings_are_refused() {
    let make = |max, days| RetentionSettings {
        max_history_size: max,
        delete_unpinned_after_days: days,
        excluded_content_types: vec![],
        excluded_applications: vec![],
    };
    assert!(matches!(settings_to_stored(&make(99, 30)), Err(DatabaseError::InvalidInput)));
    assert!(matches!(settings_to_stored(&make(100_001, 30)), Err(DatabaseError::InvalidInput)));
    assert!(matches!(settings_to_stored(&make(500, 0)), Err(DatabaseError::InvalidInput)));
    assert!(matches!(settings_to_stored(&make(500, 3651)), Err(DatabaseError::InvalidInput)));
    assert!(settings_to_stored(&make(100, 1)).is_ok());
    assert!(settings_to_stored(&make(100_000, 3650)).is_ok());
}

#[test]
fn retention_modifier_text() {
    assert_eq!(retention_age_modifier(90), "-90 days");
    assert_eq!(retention_age_modifier(-5), "--5 days");
}

#[test]
fn exclusions_are_stored_as_a_compact_json_list() {
    let saved = RetentionSettings {
        max_history_size: 5000,
        delete_unpinned_after_days: 90,
        excluded_content_types: vec![],
        excluded_applications: vec![
            "a\\b".to_string(),
            "tab\tnl\ncr\rff\u{c}bs\u{8}".to_string(),
            "\u{1}\u{1f}\u{7f}é".to_string(),
        ],
    };
    let stored = settings_to_stored(&saved).expect("in range");
    assert_eq!(stored.excluded_content_types.as_deref(), Some("[]"));
    assert_eq!(
        stored.excluded_applications.as_deref(),
        Some("[\"a\\\\b\",\"tab\\tnl\\ncr\\rff\\fbs\\b\",\"\\u0001\\u001f\u{7f}é\"]")
    );
    let read = settings_from_stored(&stored);
    assert_eq!(read.excluded_applications, saved.excluded_applications);
}

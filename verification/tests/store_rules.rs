use clipboard_plus::database::capture_write;
use clipboard_plus::database::create_manual_group;
use clipboard_plus::database::is_excluded;
use clipboard_plus::database::new_manual_group;
use clipboard_plus::database::pin_order_at;
use clipboard_plus::database::prepare_capture;
use clipboard_plus::database::require_known_group;
use clipboard_plus::database::require_single_row;
use clipboard_plus::database::revise_content;
use clipboard_plus::database::revise_label;
use clipboard_plus::database::CaptureContext;
use clipboard_plus::database::CaptureWrite;
use clipboard_plus::database::DatabaseError;
use clipboard_plus::database::RetentionSettings;

fn settings(types: &[&str], apps: &[&str]) -> RetentionSettings {
    RetentionSettings {
        max_history_size: 5000,
        delete_unpinned_after_days: 90,
        excluded_content_types: types.iter().map(|s| s.to_string()).collect(),
        excluded_applications: apps.iter().map(|s| s.to_string()).collect(),
    }
}

fn from(app: Option<&str>) -> CaptureContext {
    CaptureContext {
        source_application: app.map(|a| a.to_string()),
        window_title: Some("Window".to_string()),
    }
}

#[test]
fn exclusions() {
    let s = settings(&["code"], &["KeePass.exe"]);
    assert!(is_excluded(&s, "code", None));
    assert!(!is_excluded(&s, "text", None));
    assert!(is_excluded(&s, "text", Some("keepass.EXE")));
    assert!(!is_excluded(&s, "text", Some("KeePass")));
    assert!(!is_excluded(&settings(&[], &[]), "url", Some("x")));
}

#[test]
fn excluded_captures_are_not_recorded() {
    let s = settings(&["url"], &["Secret.exe"]);
    assert!(prepare_capture(&s, "https://example.com", &from(None)).is_none());
    assert!(prepare_capture(&s, "hello", &from(Some("SECRET.exe"))).is_none());
}

#[test]
fn recorded_captures_carry_type_key_and_group() {
    let s = settings(&[], &[]);
    let d = prepare_capture(&s, "https://example.com", &from(Some("firefox.exe"))).unwrap();
    assert_eq!(d.content_type, "url");
    assert_eq!(d.group_id.as_deref(), Some("system-links"));
    assert_eq!(d.content_hash.len(), 64);
    let d = prepare_capture(&s, "notes", &from(Some("Code.exe"))).unwrap();
    assert_eq!(d.content_type, "text");
    assert_eq!(d.group_id.as_deref(), Some("system-code"));
    let d = prepare_capture(&s, "notes", &CaptureContext::default()).unwrap();
    assert_eq!(d.group_id, None);
    assert_eq!(
        d.content_hash,
        prepare_capture(&s, "notes", &from(Some("other.exe"))).unwrap().content_hash
    );
}

#[test]
fn duplicates_are_coalesced() {
    let s = settings(&[], &[]);
    let d = prepare_capture(&s, "again", &from(None)).unwrap();
    match capture_write(d, Some("id-1".to_string()), "fresh".to_string()) {
        CaptureWrite::Refresh { id } => assert_eq!(id, "id-1"),
        CaptureWrite::Insert { .. } => panic!("a stored key must be refreshed"),
    }
    let d = prepare_capture(&s, "new", &from(None)).unwrap();
    match capture_write(d, None, "fresh".to_string()) {
        CaptureWrite::Insert { id, draft } => {
            assert_eq!(id, "fresh");
            assert_eq!(draft.content_type, "text");
        }
        CaptureWrite::Refresh { .. } => panic!("a new key must be inserted"),
    }
}

#[test]
fn group_names() {
    let g = new_manual_group("  Work  ", "g1".to_string(), "2024-01-01T00:00:00+00:00".to_string()).unwrap();
    assert_eq!(g.id, "g1");
    assert_eq!(g.name, "Work");
    assert_eq!(g.kind, "manual");
    assert_eq!(g.created_at, "2024-01-01T00:00:00+00:00");
    assert_eq!(g.item_count, 0);
    assert!(matches!(create_manual_group("   "), Err(DatabaseError::InvalidInput)));
    assert!(matches!(create_manual_group(&"x".repeat(61)), Err(DatabaseError::InvalidInput)));
    // 30 two-byte characters are 60 bytes: accepted; 31 are not.
    assert!(create_manual_group(&"é".repeat(30)).is_ok());
    assert!(matches!(create_manual_group(&"é".repeat(31)), Err(DatabaseError::InvalidInput)));
    let g = create_manual_group(" Links ").unwrap();
    assert_eq!(g.name, "Links");
    assert_eq!(g.kind, "manual");
    assert_eq!(g.item_count, 0);
    assert_ne!(g.id, create_manual_group("Links").unwrap().id);
    // The id is a hyphenated lowercase version 4 UUID.
    let id: Vec<char> = g.id.chars().collect();
    assert_eq!(id.len(), 36);
    for (i, c) in id.iter().enumerate() {
        if [8, 13, 18, 23].contains(&i) {
            assert_eq!(*c, '-');
        } else {
            assert!(c.is_ascii_digit() || ('a'..='f').contains(c), "{c:?} in {}", g.id);
        }
    }
    assert_eq!(id[14], '4');
    assert!(['8', '9', 'a', 'b'].contains(&id[19]));
    // The creation time is RFC 3339 in UTC: YYYY-MM-DDTHH:MM:SS[.fff]+00:00.
    let t: Vec<char> = g.created_at.chars().collect();
    assert!(g.created_at.ends_with("+00:00"), "{}", g.created_at);
    assert_eq!((t[4], t[7], t[10], t[13], t[16]), ('-', '-', 'T', ':', ':'));
    let fraction = &g.created_at[19..g.created_at.len() - 6];
    assert!(
        fraction.is_empty()
            || ([4, 7, 10].contains(&fraction.len())
                && fraction.starts_with('.')
                && fraction[1..].chars().all(|c| c.is_ascii_digit())),
        "{}",
        g.created_at
    );
}

#[test]
fn content_edits() {
    assert!(matches!(revise_content("  \n"), Err(DatabaseError::InvalidInput)));
    assert!(matches!(revise_content(""), Err(DatabaseError::InvalidInput)));
    assert!(matches!(revise_content(&"a".repeat(1_000_001)), Err(DatabaseError::InvalidInput)));
    let r = revise_content(&"a".repeat(1_000_000)).unwrap();
    assert_eq!(r.content_type, "text");
    let r = revise_content("x => x").unwrap();
    assert_eq!(r.content_type, "code");
    assert_eq!(r.content_hash, clipboard_plus::content::hash("x => x"));
}

#[test]
fn label_edits() {
    assert_eq!(revise_label("  note ").unwrap(), "note");
    assert_eq!(revise_label("").unwrap(), "");
    assert!(revise_label(&"a".repeat(120)).is_ok());
    assert!(matches!(revise_label(&"a".repeat(121)), Err(DatabaseError::InvalidInput)));
}

#[test]
fn reorder_and_group_assignment_rules() {
    assert_eq!(pin_order_at(0), 1);
    assert_eq!(pin_order_at(4), 5);
    assert!(require_single_row(1).is_ok());
    assert!(matches!(require_single_row(0), Err(DatabaseError::InvalidInput)));
    assert!(matches!(require_single_row(2), Err(DatabaseError::InvalidInput)));
    assert!(require_known_group(false, false).is_ok());
    assert!(require_known_group(true, true).is_ok());
    assert!(matches!(require_known_group(true, false), Err(DatabaseError::InvalidInput)));
}

//! The clipboard history store: its records, its retention settings and the rules
//! that decide what is written to it.
use vstd::prelude::*;

use crate::content::automatic_group_id;
use crate::content::detect_content_type;
use crate::content::hash;
use crate::content::spec_automatic_group;
use crate::content::spec_content_hash;
use crate::content::spec_content_type;
use crate::decimal::decimal;
use crate::decimal::format_i64;
use crate::decimal::lemma_decimal_round_trip;
use crate::decimal::parse_i64;
use crate::decimal::parsed_i64;
use crate::external::json_decode_strings;
use crate::external::json_decoded_strings;
use crate::external::json_encode_strings;
use crate::external::new_uuid_v4;
use crate::external::now_rfc3339;
use crate::external::push_char;
use crate::formats::is_rfc3339_utc;
use crate::formats::is_uuid_v4_text;
use crate::formats::json_string_list;
use crate::text::chars_of;
use crate::text::eq_ignore_ascii_case;
use crate::text::eq_ignore_ascii_case_seq;
use crate::text::lemma_eq_ignore_ascii_case_by_position;
use crate::text::same_ignoring_ascii_case;
use crate::text::str_option_view;
use crate::text::string_option_view;
use crate::text::trim;
use crate::text::trim_chars;
use vstd::utf8::encode_utf8;

verus! {

/// Why a store operation failed.
#[derive(Clone, Copy, Debug, PartialEq, Eq, Structural)]
pub enum DatabaseError {
    /// The SQLite engine reported an error.
    Sql,
    /// The per-user application data directory is not known.
    DataDirectoryUnavailable,
    /// The file system reported an error.
    Io,
    /// A value handed to the store breaks one of its rules.
    InvalidInput,
}

/// Where a clipboard text came from.
#[derive(Debug)]
pub struct CaptureContext {
    pub source_application: Option<String>,
    pub window_title: Option<String>,
}

impl Default for CaptureContext {
    fn default() -> (context: Self)
        ensures
            context.source_application is None,
            context.window_title is None,
    {
        CaptureContext { source_application: None, window_title: None }
    }
}

/// One entry of the clipboard history, as listed to the user interface.
#[derive(Debug)]
pub struct ClipboardItem {
    pub id: String,
    pub content: String,
    pub content_type: String,
    pub source_application: Option<String>,
    pub window_title: Option<String>,
    pub created_at: String,
    pub last_copied_at: String,
    pub copy_count: i64,
    pub pinned: bool,
    pub pin_order: Option<i64>,
    pub label: Option<String>,
    pub group_id: Option<String>,
    pub group_name: Option<String>,
    pub sensitive: bool,
}

/// A group of history items.
#[derive(Debug)]
pub struct Group {
    pub id: String,
    pub name: String,
    pub kind: String,
    pub created_at: String,
    pub item_count: i64,
}

/// The filters that narrow a listing of the history.
#[derive(Debug)]
pub struct Filters {
    pub pinned: Option<bool>,
    pub group_id: Option<String>,
    pub content_type: Option<String>,
    pub source_application: Option<String>,
    pub recent: Option<bool>,
}

impl Default for Filters {
    fn default() -> (filters: Self)
        ensures
            filters.pinned is None,
            filters.group_id is None,
            filters.content_type is None,
            filters.source_application is None,
            filters.recent is None,
    {
        Filters {
            pinned: None,
            group_id: None,
            content_type: None,
            source_application: None,
            recent: None,
        }
    }
}

/// How much history is kept, and what is never recorded.
#[derive(Debug)]
pub struct RetentionSettings {
    pub max_history_size: i64,
    pub delete_unpinned_after_days: i64,
    pub excluded_content_types: Vec<String>,
    pub excluded_applications: Vec<String>,
}

/// The mathematical content of a `RetentionSettings`.
pub struct SettingsModel {
    pub max_history_size: int,
    pub delete_unpinned_after_days: int,
    pub excluded_content_types: Seq<Seq<char>>,
    pub excluded_applications: Seq<Seq<char>>,
}

impl RetentionSettings {
    pub open spec fn model(&self) -> SettingsModel {
        SettingsModel {
            max_history_size: self.max_history_size as int,
            delete_unpinned_after_days: self.delete_unpinned_after_days as int,
            excluded_content_types: self.excluded_content_types.deep_view(),
            excluded_applications: self.excluded_applications.deep_view(),
        }
    }

    /// The ranges that `save_settings` accepts.
    pub open spec fn spec_in_range(&self) -> bool {
        &&& 100 <= self.max_history_size <= 100_000
        &&& 1 <= self.delete_unpinned_after_days <= 3650
    }
}

impl Default for RetentionSettings {
    fn default() -> (settings: Self)
        ensures
            settings.max_history_size == 5000,
            settings.delete_unpinned_after_days == 90,
            settings.excluded_content_types@.len() == 0,
            settings.excluded_applications@.len() == 0,
    {
        RetentionSettings {
            max_history_size: 5000,
            delete_unpinned_after_days: 90,
            excluded_content_types: Vec::new(),
            excluded_applications: Vec::new(),
        }
    }
}

/// What the settings table holds for each key (`None` when the key is absent).
#[derive(Debug)]
pub struct StoredSettings {
    pub max_history_size: Option<String>,
    pub delete_unpinned_after_days: Option<String>,
    pub excluded_content_types: Option<String>,
    pub excluded_applications: Option<String>,
}

/// A stored integer setting: its parsed value, or `default` when it is absent or
/// does not parse.
pub open spec fn stored_integer(text: Option<Seq<char>>, default: int) -> int {
    match text {
        Some(t) => match parsed_i64(t) {
            Some(v) => v,
            None => default,
        },
        None => default,
    }
}

/// A stored list setting: its JSON list of strings, or the empty list when it is
/// absent or does not parse.
pub open spec fn stored_list(text: Option<Seq<char>>) -> Seq<Seq<char>> {
    match text {
        Some(t) => match json_decoded_strings(t) {
            Some(v) => v,
            None => Seq::empty(),
        },
        None => Seq::empty(),
    }
}

/// The settings that the stored values stand for.
pub open spec fn decoded_settings(stored: StoredSettings) -> SettingsModel {
    SettingsModel {
        max_history_size: stored_integer(string_option_view(stored.max_history_size), 5000),
        delete_unpinned_after_days: stored_integer(
            string_option_view(stored.delete_unpinned_after_days),
            90,
        ),
        excluded_content_types: stored_list(string_option_view(stored.excluded_content_types)),
        excluded_applications: stored_list(string_option_view(stored.excluded_applications)),
    }
}

/// `stored` is what `settings_to_stored` writes for `saved`.
pub open spec fn stores(stored: StoredSettings, saved: RetentionSettings) -> bool {
    &&& string_option_view(stored.max_history_size) == Some(decimal(saved.max_history_size as int))
    &&& string_option_view(stored.delete_unpinned_after_days) == Some(
        decimal(saved.delete_unpinned_after_days as int),
    )
    &&& string_option_view(stored.excluded_content_types) == Some(
        json_string_list(saved.excluded_content_types.deep_view()),
    )
    &&& string_option_view(stored.excluded_applications) == Some(
        json_string_list(saved.excluded_applications.deep_view()),
    )
}

fn read_integer(text: &Option<String>, default: i64) -> (value: i64)
    ensures
        value as int == stored_integer(string_option_view(*text), default as int),
{
    match text {
        Some(t) => match parse_i64(&chars_of(t.as_str())) {
            Some(v) => v,
            None => default,
        },
        None => default,
    }
}

fn read_list(text: &Option<String>) -> (values: Vec<String>)
    ensures
        values.deep_view() == stored_list(string_option_view(*text)),
        forall|written: Seq<Seq<char>>|
            string_option_view(*text) == Some(json_string_list(written)) ==> values.deep_view()
                == written,
{
    match text {
        Some(t) => match json_decode_strings(t.as_str()) {
            Some(v) => v,
            None => {
                let empty: Vec<String> = Vec::new();
                assert(empty.deep_view() == Seq::<Seq<char>>::empty());
                empty
            },
        },
        None => {
            let empty: Vec<String> = Vec::new();
            assert(empty.deep_view() == Seq::<Seq<char>>::empty());
            empty
        },
    }
}

/// The retention settings that the stored values stand for; absent or malformed
/// values fall back to the defaults. What `settings_to_stored` wrote reads back
/// unchanged.
pub fn settings_from_stored(stored: &StoredSettings) -> (settings: RetentionSettings)
    ensures
        settings.model() == decoded_settings(*stored),
        forall|saved: RetentionSettings| #[trigger]
            stores(*stored, saved) ==> settings.model() == saved.model(),
{
    let settings = RetentionSettings {
        max_history_size: read_integer(&stored.max_history_size, 5000),
        delete_unpinned_after_days: read_integer(&stored.delete_unpinned_after_days, 90),
        excluded_content_types: read_list(&stored.excluded_content_types),
        excluded_applications: read_list(&stored.excluded_applications),
    };
    assert forall|saved: RetentionSettings| #[trigger]
        stores(*stored, saved) implies settings.model() == saved.model() by {
        lemma_decimal_round_trip(saved.max_history_size);
        lemma_decimal_round_trip(saved.delete_unpinned_after_days);
    }
    settings
}

/// The values to store for `value`: decimal text for the two limits and JSON
/// lists for the exclusions. Limits out of range are refused with `InvalidInput`.
pub fn settings_to_stored(value: &RetentionSettings) -> (stored: Result<StoredSettings, DatabaseError>)
    ensures
        stored is Ok <==> value.spec_in_range(),
        stored matches Err(e) ==> e == DatabaseError::InvalidInput,
        stored matches Ok(s) ==> stores(s, *value),
{
    if !(100 <= value.max_history_size && value.max_history_size <= 100_000) || !(1
        <= value.delete_unpinned_after_days && value.delete_unpinned_after_days <= 3650) {
        return Err(DatabaseError::InvalidInput);
    }
    let max_history_size = format_i64(value.max_history_size);
    let delete_unpinned_after_days = format_i64(value.delete_unpinned_after_days);
    let excluded_content_types = match json_encode_strings(&value.excluded_content_types) {
        Some(t) => t,
        None => return Err(DatabaseError::InvalidInput),
    };
    let excluded_applications = match json_encode_strings(&value.excluded_applications) {
        Some(t) => t,
        None => return Err(DatabaseError::InvalidInput),
    };
    Ok(
        StoredSettings {
            max_history_size: Some(max_history_size),
            delete_unpinned_after_days: Some(delete_unpinned_after_days),
            excluded_content_types: Some(excluded_content_types),
            excluded_applications: Some(excluded_applications),
        },
    )
}

/// The SQLite date modifier for the retention period: `-{days} days`.
pub fn retention_age_modifier(days: i64) -> (modifier: String)
    ensures
        modifier@ == seq!['-'] + decimal(days as int) + " days"@,
{
    let mut modifier = String::new();
    push_char(&mut modifier, '-');
    let digits = format_i64(days);
    modifier.append(digits.as_str());
    modifier.append(" days");
    modifier
}

/// A capture of this content type and source is not recorded: the type is one of
/// the excluded content types, or the source matches an excluded application,
/// ignoring ASCII case.
pub open spec fn spec_is_excluded(
    settings: SettingsModel,
    content_type: Seq<char>,
    source_application: Option<Seq<char>>,
) -> bool {
    ||| settings.excluded_content_types.contains(content_type)
    ||| source_application matches Some(app) && exists|i: int|
        0 <= i < settings.excluded_applications.len() && eq_ignore_ascii_case_seq(
            #[trigger] settings.excluded_applications[i],
            app,
        )
}

/// Whether a capture of this content type and source is left out of the history.
pub fn is_excluded(settings: &RetentionSettings, content_type: &str, source_application: Option<
    &str,
>) -> (excluded: bool)
    ensures
        excluded == spec_is_excluded(
            settings.model(),
            content_type@,
            str_option_view(source_application),
        ),
{
    let types = &settings.excluded_content_types;
    let ghost tv = types.deep_view();
    let mut i: usize = 0;
    while i < types.len()
        invariant
            i <= types.len(),
            tv == types.deep_view(),
            tv == settings.model().excluded_content_types,
            forall|j: int| 0 <= j < i ==> tv[j] != content_type@,
        decreases types.len() - i,
    {
        if crate::text::str_eq(types[i].as_str(), content_type) {
            assert(tv[i as int] == content_type@);
            return true;
        }
        i = i + 1;
    }
    assert(!tv.contains(content_type@));
    match source_application {
        Some(app) => {
            let apps = &settings.excluded_applications;
            let ghost av = apps.deep_view();
            let mut k: usize = 0;
            while k < apps.len()
                invariant
                    k <= apps.len(),
                    av == apps.deep_view(),
                    av == settings.model().excluded_applications,
                    str_option_view(source_application) == Some(app@),
                    forall|j: int| 0 <= j < k ==> !eq_ignore_ascii_case_seq(#[trigger] av[j], app@),
                decreases apps.len() - k,
            {
                if eq_ignore_ascii_case(apps[k].as_str(), app) {
                    assert(eq_ignore_ascii_case_seq(av[k as int], app@));
                    return true;
                }
                k = k + 1;
            }
            false
        },
        None => false,
    }
}

/// A capture whose content type is one of the excluded content types is not
/// recorded, whatever application it came from, known or not.
pub proof fn lemma_excluded_type_not_recorded(
    settings: SettingsModel,
    content_type: Seq<char>,
    source_application: Option<Seq<char>>,
    i: int,
)
    requires
        0 <= i < settings.excluded_content_types.len(),
        settings.excluded_content_types[i] == content_type,
    ensures
        spec_is_excluded(settings, content_type, source_application),
{
    assert(settings.excluded_content_types.contains(content_type));
}

/// A capture from an excluded application, named in any ASCII case, is not
/// recorded, whatever its content type.
pub proof fn lemma_excluded_application_not_recorded(
    settings: SettingsModel,
    content_type: Seq<char>,
    app: Seq<char>,
    i: int,
)
    requires
        0 <= i < settings.excluded_applications.len(),
        same_ignoring_ascii_case(settings.excluded_applications[i], app),
    ensures
        spec_is_excluded(settings, content_type, Some(app)),
{
    lemma_eq_ignore_ascii_case_by_position(settings.excluded_applications[i], app);
}

/// A capture whose content type is not excluded, from an unknown application or
/// one that no excluded application names (in any ASCII case), is recorded.
pub proof fn lemma_other_captures_recorded(
    settings: SettingsModel,
    content_type: Seq<char>,
    source_application: Option<Seq<char>>,
)
    requires
        forall|i: int|
            0 <= i < settings.excluded_content_types.len()
                ==> #[trigger] settings.excluded_content_types[i] != content_type,
        source_application matches Some(app) ==> forall|i: int|
            0 <= i < settings.excluded_applications.len() ==> !same_ignoring_ascii_case(
                #[trigger] settings.excluded_applications[i],
                app,
            ),
    ensures
        !spec_is_excluded(settings, content_type, source_application),
{
    if let Some(app) = source_application {
        assert forall|i: int| 0 <= i < settings.excluded_applications.len() implies !eq_ignore_ascii_case_seq(
            #[trigger] settings.excluded_applications[i],
            app,
        ) by {
            lemma_eq_ignore_ascii_case_by_position(settings.excluded_applications[i], app);
        }
    }
}

/// What a new history item for a captured text is written with.
#[derive(Debug)]
pub struct CaptureDraft {
    pub content_type: String,
    pub content_hash: String,
    pub group_id: Option<String>,
}

/// Decides what a captured text becomes: nothing when its content type or source
/// is excluded by the settings, otherwise an item with its detected content type,
/// its coalescing key and its built-in group.
pub fn prepare_capture(settings: &RetentionSettings, content: &str, context: &CaptureContext) -> (draft:
    Option<CaptureDraft>)
    ensures
        draft is None <==> spec_is_excluded(
            settings.model(),
            spec_content_type(content@),
            string_option_view(context.source_application),
        ),
        draft matches Some(d) ==> {
            &&& d.content_type@ == spec_content_type(content@)
            &&& d.content_hash@ == spec_content_hash(content@)
            &&& string_option_view(d.group_id) == spec_automatic_group(
                spec_content_type(content@),
                string_option_view(context.source_application),
            )
        },
{
    let content_type = detect_content_type(content);
    let source: Option<&str> = match &context.source_application {
        Some(app) => Some(app.as_str()),
        None => None,
    };
    assert(str_option_view(source) == string_option_view(context.source_application));
    if is_excluded(settings, content_type, source) {
        return None;
    }
    let group_id = match automatic_group_id(content_type, source) {
        Some(g) => Some(String::from_str(g)),
        None => None,
    };
    Some(
        CaptureDraft {
            content_type: String::from_str(content_type),
            content_hash: hash(content),
            group_id,
        },
    )
}

/// How a capture that is recorded is written.
#[derive(Debug)]
pub enum CaptureWrite {
    /// An item with the same coalescing key exists: its copy count and last-copied
    /// time are updated (and its source and window title, when known).
    Refresh { id: String },
    /// A new item is inserted under the given id.
    Insert { id: String, draft: CaptureDraft },
}

/// Chooses between coalescing a capture into the stored item with the same key
/// (`existing_id`) and inserting it as a new item under `new_id`.
pub fn capture_write(draft: CaptureDraft, existing_id: Option<String>, new_id: String) -> (write:
    CaptureWrite)
    ensures
        existing_id matches Some(id) ==> write == (CaptureWrite::Refresh { id }),
        existing_id is None ==> write == (CaptureWrite::Insert { id: new_id, draft }),
{
    match existing_id {
        Some(id) => CaptureWrite::Refresh { id },
        None => CaptureWrite::Insert { id: new_id, draft },
    }
}

/// The pin order of the item at `index` of a reordering: positions count from 1.
pub fn pin_order_at(index: usize) -> (order: i64)
    requires
        index < i64::MAX,
    ensures
        order == index + 1,
{
    index as i64 + 1
}

/// A reordering step is accepted only when it changed exactly one pinned item;
/// otherwise the whole reordering is refused.
pub fn require_single_row(changed: usize) -> (accepted: Result<(), DatabaseError>)
    ensures
        accepted is Ok <==> changed == 1,
        accepted matches Err(e) ==> e == DatabaseError::InvalidInput,
{
    if changed != 1 {
        Err(DatabaseError::InvalidInput)
    } else {
        Ok(())
    }
}

/// Assigning an item to a group is refused when a group was named and the store
/// has no group with that id.
pub fn require_known_group(group_named: bool, group_found: bool) -> (accepted: Result<(), DatabaseError>)
    ensures
        accepted is Err <==> group_named && !group_found,
        accepted matches Err(e) ==> e == DatabaseError::InvalidInput,
{
    if group_named && !group_found {
        Err(DatabaseError::InvalidInput)
    } else {
        Ok(())
    }
}

/// A group name is refused when, trimmed, it is empty or longer than 60 bytes.
pub open spec fn group_name_invalid(name: Seq<char>) -> bool {
    trim_chars(name).len() == 0 || encode_utf8(trim_chars(name)).len() > 60
}

/// A manual group named `name` (trimmed), with the given id and creation time.
pub fn new_manual_group(name: &str, id: String, created_at: String) -> (group: Result<
    Group,
    DatabaseError,
>)
    ensures
        group is Err <==> group_name_invalid(name@),
        group matches Err(e) ==> e == DatabaseError::InvalidInput,
        group matches Ok(g) ==> {
            &&& g.id == id
            &&& g.name@ == trim_chars(name@)
            &&& g.kind@ == "manual"@
            &&& g.created_at == created_at
            &&& g.item_count == 0
        },
{
    let trimmed = trim(name);
    if trimmed.is_empty() || crate::text::utf8_len_exceeds(&chars_of(trimmed), 60) {
        return Err(DatabaseError::InvalidInput);
    }
    Ok(
        Group {
            id,
            name: String::from_str(trimmed),
            kind: String::from_str("manual"),
            created_at,
            item_count: 0,
        },
    )
}

/// Creates a manual group named `name` (trimmed) with a fresh random id, created now.
pub fn create_manual_group(name: &str) -> (group: Result<Group, DatabaseError>)
    ensures
        group is Err <==> group_name_invalid(name@),
        group matches Err(e) ==> e == DatabaseError::InvalidInput,
        group matches Ok(g) ==> {
            &&& is_uuid_v4_text(g.id@)
            &&& g.name@ == trim_chars(name@)
            &&& g.kind@ == "manual"@
            &&& is_rfc3339_utc(g.created_at@)
            &&& g.item_count == 0
        },
{
    let trimmed = trim(name);
    if trimmed.is_empty() || crate::text::utf8_len_exceeds(&chars_of(trimmed), 60) {
        return Err(DatabaseError::InvalidInput);
    }
    new_manual_group(name, new_uuid_v4(), now_rfc3339())
}

/// The values an edited content is stored with.
#[derive(Debug)]
pub struct ContentRevision {
    pub content_hash: String,
    pub content_type: String,
}

/// An edited content is refused when, trimmed, it is empty, or when it is longer
/// than 1,000,000 bytes.
pub open spec fn content_edit_invalid(content: Seq<char>) -> bool {
    trim_chars(content).len() == 0 || encode_utf8(content).len() > 1_000_000
}

/// Checks an edited content and computes its new coalescing key and content type.
pub fn revise_content(content: &str) -> (revision: Result<ContentRevision, DatabaseError>)
    ensures
        revision is Err <==> content_edit_invalid(content@),
        revision matches Err(e) ==> e == DatabaseError::InvalidInput,
        revision matches Ok(r) ==> {
            &&& r.content_hash@ == spec_content_hash(content@)
            &&& r.content_type@ == spec_content_type(content@)
        },
{
    if trim(content).is_empty() || crate::text::utf8_len_exceeds(&chars_of(content), 1_000_000) {
        return Err(DatabaseError::InvalidInput);
    }
    Ok(
        ContentRevision {
            content_hash: hash(content),
            content_type: String::from_str(detect_content_type(content)),
        },
    )
}

/// Checks an edited label: longer than 120 bytes is refused; otherwise the label is
/// stored trimmed.
pub fn revise_label(label: &str) -> (revised: Result<String, DatabaseError>)
    ensures
        revised is Err <==> encode_utf8(label@).len() > 120,
        revised matches Err(e) ==> e == DatabaseError::InvalidInput,
        revised matches Ok(t) ==> t@ == trim_chars(label@),
{
    if crate::text::utf8_len_exceeds(&chars_of(label), 120) {
        return Err(DatabaseError::InvalidInput);
    }
    Ok(String::from_str(trim(label)))
}

} // verus!

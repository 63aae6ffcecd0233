//! The parts of the user-interface commands that compute: the messages they
//! answer with and the listing they ask the store for.
use vstd::prelude::*;

use crate::database::Filters;
use crate::search::build_list_query;
use crate::search::param_views;
use crate::search::spec_fts_query;
use crate::search::spec_list_params;
use crate::search::spec_list_sql;
use crate::search::ListQuery;

verus! {

/// A listing request from the user interface.
#[derive(Debug)]
pub struct ClipboardQuery {
    pub query: Option<String>,
    pub filters: Option<Filters>,
    pub limit: Option<i64>,
}

/// An edit of a history item from the user interface.
#[derive(Debug)]
pub struct ItemUpdate {
    pub content: Option<String>,
    pub label: Option<String>,
}

/// The message shown when the local database cannot be reached.
pub fn db_error() -> (message: String)
    ensures
        message@ == "Clipboard+ could not access its local database."@,
{
    String::from_str("Clipboard+ could not access its local database.")
}

/// The message shown when a value handed to a command is rejected.
pub fn input_error() -> (message: String)
    ensures
        message@ == "That value is not valid."@,
{
    String::from_str("That value is not valid.")
}

/// The number of items a listing returns: 100 unless asked, and always within 1..=500.
pub open spec fn spec_clamp_limit(limit: Option<i64>) -> int {
    let asked: int = match limit {
        Some(l) => l as int,
        None => 100,
    };
    if asked < 1 {
        1
    } else if asked > 500 {
        500
    } else {
        asked
    }
}

/// The number of items a listing returns.
pub fn clamp_limit(limit: Option<i64>) -> (count: i64)
    ensures
        count == spec_clamp_limit(limit),
        1 <= count <= 500,
{
    let asked = match limit {
        Some(l) => l,
        None => 100,
    };
    if asked < 1 {
        1
    } else if asked > 500 {
        500
    } else {
        asked
    }
}

/// The statement for a listing request: no text means no full-text match, no
/// filters means none, and the limit is clamped.
pub fn list_statement(request: &ClipboardQuery) -> (list: ListQuery)
    ensures
        ({
            let text = match request.query {
                Some(q) => q@,
                None => Seq::<char>::empty(),
            };
            let filters = match request.filters {
                Some(f) => f,
                None => Filters {
                    pinned: None,
                    group_id: None,
                    content_type: None,
                    source_application: None,
                    recent: None,
                },
            };
            &&& list.sql@ == spec_list_sql(spec_fts_query(text).len() > 0, filters)
            &&& param_views(list.params@) == spec_list_params(
                spec_fts_query(text),
                filters,
                spec_clamp_limit(request.limit),
            )
        }),
{
    let text: &str = match &request.query {
        Some(q) => q.as_str(),
        None => "",
    };
    proof {
        if request.query is None {
            reveal_strlit("");
        }
    }
    let limit = clamp_limit(request.limit);
    match &request.filters {
        Some(f) => build_list_query(text, f, limit),
        None => {
            let f = Filters::default();
            build_list_query(text, &f, limit)
        },
    }
}

} // verus!

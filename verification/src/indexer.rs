//! The sqlite zone demo's indexer: its read-only menu handle and the rules of
//! its `/query` endpoint, which answers `SELECT` queries only.

use vstd::prelude::*;

use crate::sequencer::{Dish, ErrorResponse};
use crate::text::{
    ascii_lower, chars_eq_ignore_ascii_case, content_start_index, eq_ignore_ascii_case, first_word,
    first_word_of, is_blank,
};

verus! {

/// The indexer's copy of the menu database, opened read-only.
#[derive(Debug, Clone, PartialEq, Eq)]
pub struct MenuReadOnly {
    pub path: String,
}

impl MenuReadOnly {
    /// The menu at `path`.
    pub fn with_path(path: &str) -> (m: MenuReadOnly)
        ensures
            m.path@ == path@,
    {
        MenuReadOnly { path: path.to_owned() }
    }
}

/// The body of `GET /query`.
#[derive(Debug, Clone, PartialEq, Eq)]
pub struct SqlQuery {
    pub query: String,
}

/// The rows a query returned.
#[derive(Debug, Clone, PartialEq, Eq)]
pub struct SqlResponse {
    pub dishes: Vec<Dish>,
}

/// The body of an indexer reply: rows, or `{"error": ...}`.
#[derive(Debug, Clone, PartialEq, Eq)]
pub enum IndexerBody {
    Dishes(SqlResponse),
    Error(ErrorResponse),
}

/// An indexer reply: status code and body.
#[derive(Debug, Clone, PartialEq, Eq)]
pub struct IndexerReply {
    pub status: u16,
    pub body: IndexerBody,
}

/// Why a query is refused before it reaches the database.
#[derive(Debug, Clone, Copy, PartialEq, Eq)]
pub enum QueryRejection {
    /// The query is empty or only white space.
    Empty,
    /// The first word of the query is not `SELECT` (in any ASCII case).
    NotSelect,
}

pub open spec fn select_word() -> Seq<char> {
    seq!['S', 'E', 'L', 'E', 'C', 'T']
}

/// Which queries the indexer accepts.
pub open spec fn select_check(query: Seq<char>) -> Result<(), QueryRejection> {
    if is_blank(query) {
        Err(QueryRejection::Empty)
    } else if eq_ignore_ascii_case(first_word(query), select_word()) {
        Ok(())
    } else {
        Err(QueryRejection::NotSelect)
    }
}

/// The indexer runs a query only if it has a first word and that word is
/// `select` in any mix of ASCII cases; a blank query is refused as empty and
/// any other first word (`INSERT`, `UPDATE`, `DELETE`, ...) as not a select.
pub proof fn law_only_select_queries_run(query: Seq<char>)
    ensures
        select_check(query) is Ok <==> (!is_blank(query)
            && eq_ignore_ascii_case(first_word(query), seq!['s', 'e', 'l', 'e', 'c', 't'])),
        is_blank(query) ==> select_check(query) == Err::<(), QueryRejection>(QueryRejection::Empty),
        !is_blank(query) && !eq_ignore_ascii_case(first_word(query), seq!['s', 'e', 'l', 'e', 'c', 't'])
            ==> select_check(query) == Err::<(), QueryRejection>(QueryRejection::NotSelect),
{
    let lower = seq!['s', 'e', 'l', 'e', 'c', 't'];
    let upper = select_word();
    assert forall|i: int| 0 <= i < 6 implies ascii_lower(upper[i]) == ascii_lower(lower[i]) by {
        assert(upper[i] as u32 + 32 == lower[i] as u32);
    }
    let w = first_word(query);
    if eq_ignore_ascii_case(w, upper) {
        assert forall|i: int| 0 <= i < w.len() implies ascii_lower(w[i]) == ascii_lower(lower[i]) by {
            assert(ascii_lower(upper[i]) == ascii_lower(lower[i]));
        }
    }
    if eq_ignore_ascii_case(w, lower) {
        assert forall|i: int| 0 <= i < w.len() implies ascii_lower(w[i]) == ascii_lower(upper[i]) by {
            assert(ascii_lower(upper[i]) == ascii_lower(lower[i]));
        }
    }
}

/// Refuses empty queries and queries whose first word is not `SELECT`.
pub fn check_select_query(query: &str) -> (r: Result<(), QueryRejection>)
    ensures
        r == select_check(query@),
{
    let start = content_start_index(query);
    if start == query.unicode_len() {
        return Err(QueryRejection::Empty);
    }
    let word = first_word_of(query);
    let keyword = "SELECT";
    proof {
        reveal_strlit("SELECT");
        assert(keyword@ =~= select_word());
    }
    if chars_eq_ignore_ascii_case(word, keyword) {
        Ok(())
    } else {
        Err(QueryRejection::NotSelect)
    }
}

/// The message of a refused query.
pub open spec fn rejection_message(r: QueryRejection) -> Seq<char> {
    match r {
        QueryRejection::Empty => "empty query"@,
        QueryRejection::NotSelect => "only SELECT queries are allowed"@,
    }
}

/// The reply to a refused query: 400 with its message.
pub fn rejection_reply(r: QueryRejection) -> (reply: IndexerReply)
    ensures
        reply.status == 400,
        reply.body matches IndexerBody::Error(e) && e.error@ == rejection_message(r),
{
    let msg = match r {
        QueryRejection::Empty => "empty query",
        QueryRejection::NotSelect => "only SELECT queries are allowed",
    };
    IndexerReply { status: 400, body: IndexerBody::Error(ErrorResponse { error: msg.to_owned() }) }
}

/// The reply to a query the database ran: its rows (200) or its error (400).
pub fn indexer_query_reply(result: Result<Vec<Dish>, String>) -> (reply: IndexerReply)
    ensures
        match result {
            Ok(dishes) => reply.status == 200 && reply.body == IndexerBody::Dishes(SqlResponse { dishes }),
            Err(e) => reply.status == 400 && reply.body == IndexerBody::Error(ErrorResponse { error: e }),
        },
{
    match result {
        Ok(dishes) => IndexerReply { status: 200, body: IndexerBody::Dishes(SqlResponse { dishes }) },
        Err(e) => IndexerReply { status: 400, body: IndexerBody::Error(ErrorResponse { error: e }) },
    }
}

/// The indexer's text settings: node endpoint, database path, channel id and
/// node credentials.
#[derive(Debug, Clone, PartialEq, Eq)]
pub struct IndexerSettings {
    pub node_endpoint: String,
    pub db_path: String,
    pub channel_id: String,
    pub node_auth_username: Option<String>,
    pub node_auth_password: Option<String>,
}

/// The node endpoint when none is set.
pub open spec fn default_node_endpoint() -> Seq<char> {
    "http://localhost:18081"@
}

/// The database path when none is set.
pub open spec fn default_db_path() -> Seq<char> {
    "./data/indexer.db"@
}

/// Settings from the values found (in the environment): endpoint and path
/// fall back to their defaults; the channel id is required, so without one
/// there are no settings.
pub fn indexer_settings(
    node_endpoint: Option<String>,
    db_path: Option<String>,
    channel_id: Option<String>,
    node_auth_username: Option<String>,
    node_auth_password: Option<String>,
) -> (r: Option<IndexerSettings>)
    ensures
        channel_id is None ==> r is None,
        channel_id matches Some(c) ==> (r matches Some(st)
            && st.channel_id == c
            && st.node_endpoint@ == (match node_endpoint { Some(e) => e@, None => default_node_endpoint() })
            && st.db_path@ == (match db_path { Some(d) => d@, None => default_db_path() })
            && st.node_auth_username == node_auth_username
            && st.node_auth_password == node_auth_password),
{
    let channel_id = match channel_id {
        Some(c) => c,
        None => return None,
    };
    let node_endpoint = match node_endpoint {
        Some(e) => e,
        None => "http://localhost:18081".to_owned(),
    };
    let db_path = match db_path {
        Some(d) => d,
        None => "./data/indexer.db".to_owned(),
    };
    Some(IndexerSettings { node_endpoint, db_path, channel_id, node_auth_username, node_auth_password })
}

} // verus!

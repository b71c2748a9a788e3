//! The sqlite zone demo's sequencer: the menu database handle, the HTTP
//! replies to SQL queries, which executed statements go to the queue, and
//! how queued statements are batched into inscriptions.

use vstd::prelude::*;
use vstd::string::{StrSliceExecFns, StringExecFns, StringSliceAdditionalSpecFns};

use crate::hex_codec::{decode_hex_32, hex32_spec, HexArgError};
use reqwest::Url;

use crate::node_url::{parse_url, parsed_url, url_accepts, url_error_text};
use crate::text::{content_start_index, decimal, decimal_string, trim_start_spec};

verus! {

/// A row of the `menu` table.
#[derive(Debug, Clone, PartialEq, Eq)]
pub struct Dish {
    pub id: i64,
    pub name: String,
    pub data: String,
}

/// The sequencer's menu database: its file and, once tracing is on, the
/// queue file that executed statements are appended to.
#[derive(Debug, Clone, PartialEq, Eq)]
pub struct Menu {
    pub path: String,
    pub queue_file: Option<String>,
}

impl Menu {
    /// A menu over the database at `path`, with tracing off.
    pub fn with_path(path: &str) -> (m: Menu)
        ensures
            m.path@ == path@,
            m.queue_file is None,
    {
        Menu { path: path.to_owned(), queue_file: None }
    }

    /// Turns tracing on: statements go to `queue_file` from now on.
    pub fn set_queue_file(&mut self, queue_file: &str)
        ensures
            final(self).path == old(self).path,
            final(self).queue_file matches Some(q) && q@ == queue_file@,
    {
        self.queue_file = Some(queue_file.to_owned());
    }

    /// Whether connections trace their statements (a queue file is set).
    pub fn tracing_enabled(&self) -> (b: bool)
        ensures
            b == self.queue_file is Some,
    {
        self.queue_file.is_some()
    }
}

/// The body of `POST /query`.
#[derive(Debug, Clone, PartialEq, Eq)]
pub struct SqlQuery {
    pub query: String,
}

/// The rows a query returned.
#[derive(Debug, Clone, PartialEq, Eq)]
pub struct SqlResponse {
    pub dishes: Vec<Dish>,
}

/// The body of a refused query.
#[derive(Debug, Clone, PartialEq, Eq)]
pub struct ErrorResponse {
    pub error: String,
}

/// The body of an HTTP reply.
#[derive(Debug, Clone, PartialEq, Eq)]
pub enum ReplyBody {
    Dishes(SqlResponse),
    Error(ErrorResponse),
    Empty,
}

/// An HTTP reply: status code and body.
#[derive(Debug, Clone, PartialEq, Eq)]
pub struct HttpReply {
    pub status: u16,
    pub body: ReplyBody,
}

/// The reply to a query: its rows (200), nothing for a statement that returns
/// no rows (200), or the database's error message (400).
pub fn query_reply(result: Result<Option<Vec<Dish>>, String>) -> (r: HttpReply)
    ensures
        match result {
            Ok(Some(dishes)) => r.status == 200 && r.body == ReplyBody::Dishes(SqlResponse { dishes }),
            Ok(None) => r.status == 200 && r.body == ReplyBody::Empty,
            Err(e) => r.status == 400 && r.body == ReplyBody::Error(ErrorResponse { error: e }),
        },
{
    match result {
        Ok(Some(dishes)) => HttpReply { status: 200, body: ReplyBody::Dishes(SqlResponse { dishes }) },
        Ok(None) => HttpReply { status: 200, body: ReplyBody::Empty },
        Err(e) => HttpReply { status: 400, body: ReplyBody::Error(ErrorResponse { error: e }) },
    }
}

/// The text `str::to_uppercase` gives (Unicode upper-casing).
pub uninterp spec fn unicode_uppercase(s: Seq<char>) -> Seq<char>;

/// `str::to_uppercase`: Unicode upper-casing, which takes the Unicode tables
/// to state; its result is named, as a function of the text alone.
#[verifier::external_body]
fn to_uppercase(s: &str) -> (u: String)
    ensures
        u@ == unicode_uppercase(s@),
{
    s.to_uppercase()
}

pub open spec fn select_keyword() -> Seq<char> {
    seq!['S', 'E', 'L', 'E', 'C', 'T']
}

/// Whether an executed statement goes to the queue: every statement but
/// those that, without leading white space and upper-cased, start with `SELECT`.
pub open spec fn records_statement(sql: Seq<char>) -> bool {
    let upper = unicode_uppercase(trim_start_spec(sql));
    !(upper.len() >= 6 && upper.take(6) == select_keyword())
}

/// Only a `SELECT` stays out of the queue: a statement is left out exactly
/// when its text, without leading white space and upper-cased, begins with
/// the six characters `S E L E C T`; every other statement (an `INSERT`, an
/// `UPDATE`, a `DELETE`, ...) is queued.
pub proof fn law_only_selects_stay_out_of_the_queue(sql: Seq<char>)
    ensures
        !records_statement(sql) <==> ({
            let u = unicode_uppercase(trim_start_spec(sql));
            &&& u.len() >= 6
            &&& u[0] == 'S' && u[1] == 'E' && u[2] == 'L'
            &&& u[3] == 'E' && u[4] == 'C' && u[5] == 'T'
        }),
{
    let u = unicode_uppercase(trim_start_spec(sql));
    if u.len() >= 6 && u[0] == 'S' && u[1] == 'E' && u[2] == 'L' && u[3] == 'E' && u[4] == 'C' && u[5] == 'T' {
        assert(u.take(6) =~= select_keyword());
    }
    if u.len() >= 6 && u.take(6) == select_keyword() {
        assert(u.take(6)[0] == u[0] && u.take(6)[1] == u[1] && u.take(6)[2] == u[2]);
        assert(u.take(6)[3] == u[3] && u.take(6)[4] == u[4] && u.take(6)[5] == u[5]);
    }
}

/// Decides whether a traced statement is written to the queue file.
pub fn should_record_statement(sql: &str) -> (b: bool)
    ensures
        b == records_statement(sql@),
{
    let start = content_start_index(sql);
    let rest = sql.substring_char(start, sql.unicode_len());
    let upper = to_uppercase(rest);
    let u = upper.as_str();
    proof {
        assert(rest@ == trim_start_spec(sql@));
    }
    if u.unicode_len() < 6 {
        return true;
    }
    let keyword = ['S', 'E', 'L', 'E', 'C', 'T'];
    for i in 0..6
        invariant
            u@ == unicode_uppercase(trim_start_spec(sql@)),
            u@.len() >= 6,
            keyword@ == select_keyword(),
            forall|k: int| 0 <= k < i ==> u@[k] == select_keyword()[k],
    {
        if u.get_char(i) != keyword[i] {
            return true;
        }
    }
    assert(u@.take(6) =~= select_keyword());
    false
}

/// Why the sequencer could not start.
#[derive(Debug, Clone, PartialEq, Eq)]
pub enum SequencerError {
    /// The node endpoint is not a URL.
    Url(String),
    /// The signing key file does not hold a key of the expected size.
    InvalidKeyFile { expected: usize, actual: usize },
    /// The channel id is not hex.
    InvalidChannelIdHex { input: String },
    /// The channel id is hex, but not of 32 bytes.
    InvalidChannelIdLength { bytes: usize },
}

/// The text of an error, as the sequencer reports it.
pub open spec fn error_message(e: SequencerError) -> Seq<char> {
    match e {
        SequencerError::Url(m) => "URL parse error: "@ + m@,
        SequencerError::InvalidKeyFile { expected, actual } =>
            "Invalid key file: expected "@ + decimal(expected as nat) + " bytes, got "@ + decimal(actual as nat),
        SequencerError::InvalidChannelIdHex { input } =>
            "SEQUENCER_CHANNEL_ID must be a valid hex string, got: '"@ + input@ + "'"@,
        SequencerError::InvalidChannelIdLength { bytes } =>
            "SEQUENCER_CHANNEL_ID must be exactly 64 hex characters (32 bytes), got "@ + decimal(2 * bytes as nat)
                + " characters ("@ + decimal(bytes as nat) + " bytes)"@,
    }
}

impl SequencerError {
    /// The error's text.
    pub fn message(&self) -> (m: String)
        ensures
            m@ == error_message(*self),
    {
        match self {
            SequencerError::Url(e) => {
                let mut m = String::new();
                m.append("URL parse error: ");
                m.append(e.as_str());
                assert(m@ =~= error_message(*self));
                m
            },
            SequencerError::InvalidKeyFile { expected, actual } => {
                let mut m = String::new();
                m.append("Invalid key file: expected ");
                m.append(decimal_string(*expected as u128).as_str());
                m.append(" bytes, got ");
                m.append(decimal_string(*actual as u128).as_str());
                assert(m@ =~= error_message(*self));
                m
            },
            SequencerError::InvalidChannelIdHex { input } => {
                let mut m = String::new();
                m.append("SEQUENCER_CHANNEL_ID must be a valid hex string, got: '");
                m.append(input.as_str());
                m.append("'");
                assert(m@ =~= error_message(*self));
                m
            },
            SequencerError::InvalidChannelIdLength { bytes } => {
                let mut m = String::new();
                m.append("SEQUENCER_CHANNEL_ID must be exactly 64 hex characters (32 bytes), got ");
                m.append(decimal_string(2 * (*bytes as u128)).as_str());
                m.append(" characters (");
                m.append(decimal_string(*bytes as u128).as_str());
                m.append(" bytes)");
                assert(m@ =~= error_message(*self));
                m
            },
        }
    }
}

/// Parses the node endpoint: the URL it names, or `SequencerError::Url`
/// with the parser's error text.
pub fn parse_node_url(node_endpoint: &str) -> (r: Result<Url, SequencerError>)
    ensures
        r is Ok <==> url_accepts(node_endpoint@),
        r matches Ok(u) ==> u == parsed_url(node_endpoint@),
        r is Err ==> (r matches Err(SequencerError::Url(m)) && m@ == url_error_text(node_endpoint@)),
{
    match parse_url(node_endpoint) {
        Ok(u) => Ok(u),
        Err(m) => Err(SequencerError::Url(m)),
    }
}

/// The size of an Ed25519 secret key, in bytes.
pub const ED25519_SECRET_KEY_SIZE: usize = 32;

/// The signing key held by a key file's bytes: exactly 32 of them.
pub fn signing_key_from_bytes(key_bytes: &Vec<u8>) -> (r: Result<[u8; 32], SequencerError>)
    ensures
        key_bytes@.len() == 32 ==> (r matches Ok(k) && k@ == key_bytes@),
        key_bytes@.len() != 32 ==> r == Err::<[u8; 32], SequencerError>(
            SequencerError::InvalidKeyFile { expected: 32, actual: key_bytes@.len() as usize },
        ),
{
    if key_bytes.len() != ED25519_SECRET_KEY_SIZE {
        return Err(SequencerError::InvalidKeyFile { expected: ED25519_SECRET_KEY_SIZE, actual: key_bytes.len() });
    }
    Ok(crate::hex_codec::bytes_to_array_32(key_bytes))
}

/// Parses the channel id: 64 hex digits.
pub fn parse_channel_id(channel_id_str: &str) -> (r: Result<[u8; 32], SequencerError>)
    ensures
        match hex32_spec(channel_id_str.spec_bytes()) {
            Ok(ch) => r matches Ok(c) && c@ == ch,
            Err(HexArgError::InvalidHex(_)) => r matches Err(SequencerError::InvalidChannelIdHex { input }) && input@ == channel_id_str@,
            Err(HexArgError::WrongLength { expected, actual }) => r == Err::<[u8; 32], SequencerError>(SequencerError::InvalidChannelIdLength { bytes: actual }),
        },
{
    match decode_hex_32(channel_id_str) {
        Ok(c) => Ok(c),
        Err(HexArgError::InvalidHex(_)) => Err(SequencerError::InvalidChannelIdHex { input: channel_id_str.to_owned() }),
        Err(HexArgError::WrongLength { expected: _, actual }) => Err(SequencerError::InvalidChannelIdLength { bytes: actual }),
    }
}

/// Basic authentication toward the node.
#[derive(Debug, Clone, PartialEq, Eq)]
pub struct BasicAuth {
    pub username: String,
    pub password: Option<String>,
}

/// The node credentials: present when a user name is given.
pub fn basic_auth(username: Option<String>, password: Option<String>) -> (r: Option<BasicAuth>)
    ensures
        match username {
            None => r is None,
            Some(u) => r == Some(BasicAuth { username: u, password }),
        },
{
    match username {
        None => None,
        Some(u) => Some(BasicAuth { username: u, password }),
    }
}

/// Lines joined with `\n` between them.
pub open spec fn join_lines(lines: Seq<Seq<char>>) -> Seq<char>
    decreases lines.len(),
{
    if lines.len() == 0 {
        Seq::empty()
    } else if lines.len() == 1 {
        lines[0]
    } else {
        join_lines(lines.drop_last()) + seq!['\n'] + lines.last()
    }
}

pub open spec fn lines_view(lines: Seq<String>) -> Seq<Seq<char>> {
    lines.map_values(|l: String| l@)
}

/// The payload of a batch of queued statements: nothing for an empty batch,
/// else the statements joined with `\n`, as UTF-8 bytes.
pub fn batch_payload(pending: &Vec<String>) -> (r: Option<Vec<u8>>)
    ensures
        pending@.len() == 0 ==> r is None,
        pending@.len() > 0 ==> (r matches Some(b) && b@ == vstd::utf8::encode_utf8(join_lines(lines_view(pending@)))),
{
    if pending.len() == 0 {
        return None;
    }
    let mut joined = String::new();
    let n = pending.len();
    for i in 0..n
        invariant
            n == pending@.len(),
            n > 0,
            joined@ == join_lines(lines_view(pending@.take(i as int))),
    {
        if i > 0 {
            joined.append("\n");
            proof { reveal_strlit("\n"); }
        }
        joined.append(pending[i].as_str());
        assert(lines_view(pending@.take(i + 1)).drop_last() =~= lines_view(pending@.take(i as int)));
        assert(lines_view(pending@.take(i + 1)).last() == pending@[i as int]@);
        assert(i == 0 ==> joined@ =~= join_lines(lines_view(pending@.take(i + 1))));
    }
    assert(pending@.take(n as int) =~= pending@);
    let bytes = vstd::slice::slice_to_vec(joined.as_str().as_bytes());
    Some(bytes)
}

/// What splitting a text at every `\n` gives (as `str::split('\n')` does):
/// the pieces between line breaks, in order, empty ones included.
pub open spec fn split_lines(s: Seq<char>) -> Seq<Seq<char>>
    decreases s.len(),
{
    if s.len() == 0 {
        seq![Seq::<char>::empty()]
    } else {
        let r = split_lines(s.drop_last());
        if s.last() == '\n' {
            r.push(Seq::<char>::empty())
        } else {
            r.update(r.len() - 1, r.last().push(s.last()))
        }
    }
}

pub open spec fn has_no_line_break(s: Seq<char>) -> bool {
    forall|i: int| 0 <= i < s.len() ==> s[i] != '\n'
}

proof fn lemma_split_nonempty(s: Seq<char>)
    ensures
        split_lines(s).len() >= 1,
    decreases s.len(),
{
    if s.len() > 0 {
        lemma_split_nonempty(s.drop_last());
    }
}

proof fn lemma_split_extend(x: Seq<char>, y: Seq<char>)
    requires
        has_no_line_break(y),
    ensures
        split_lines(x + y) == split_lines(x).update(
            split_lines(x).len() - 1,
            split_lines(x).last() + y,
        ),
    decreases y.len(),
{
    lemma_split_nonempty(x);
    let r = split_lines(x);
    if y.len() == 0 {
        assert(x + y =~= x);
        assert(r.last() + y =~= r.last());
        assert(r.update(r.len() - 1, r.last()) =~= r);
    } else {
        let yd = y.drop_last();
        lemma_split_extend(x, yd);
        assert((x + y).drop_last() =~= x + yd);
        assert((x + y).last() == y.last());
        assert((r.last() + yd).push(y.last()) =~= r.last() + y);
        assert(r.update(r.len() - 1, r.last() + yd).update(r.len() - 1, r.last() + y)
            =~= r.update(r.len() - 1, r.last() + y));
    }
}

/// The statements of a batch come back from its payload: decoding the bytes
/// as UTF-8 and splitting at line breaks gives the statements, in order,
/// when none of them holds a line break (as lines read from the queue don't).
pub proof fn law_batch_payload_round_trip(lines: Seq<Seq<char>>)
    requires
        lines.len() > 0,
        forall|i: int| 0 <= i < lines.len() ==> has_no_line_break(#[trigger] lines[i]),
    ensures
        split_lines(vstd::utf8::decode_utf8(vstd::utf8::encode_utf8(join_lines(lines)))) == lines,
    decreases lines.len(),
{
    vstd::utf8::encode_utf8_decode_utf8(join_lines(lines));
    lemma_split_join(lines);
}

proof fn lemma_split_join(lines: Seq<Seq<char>>)
    requires
        lines.len() > 0,
        forall|i: int| 0 <= i < lines.len() ==> has_no_line_break(#[trigger] lines[i]),
    ensures
        split_lines(join_lines(lines)) == lines,
    decreases lines.len(),
{
    if lines.len() == 1 {
        lemma_split_extend(Seq::empty(), lines[0]);
        assert(Seq::<char>::empty() + lines[0] =~= lines[0]);
        assert(seq![Seq::<char>::empty()].update(0, Seq::<char>::empty() + lines[0]) =~= lines);
    } else {
        let d = lines.drop_last();
        assert(forall|i: int| 0 <= i < d.len() ==> d[i] == lines[i]);
        lemma_split_join(d);
        let j = join_lines(d);
        let jn = j + seq!['\n'];
        assert(jn.drop_last() =~= j);
        assert(split_lines(jn) == split_lines(j).push(Seq::<char>::empty()));
        assert(has_no_line_break(lines[lines.len() - 1]));
        lemma_split_extend(jn, lines.last());
        assert(join_lines(lines) == jn + lines.last());
        assert(Seq::<char>::empty() + lines.last() =~= lines.last());
        assert(d.push(Seq::<char>::empty()).update(d.len() as int, Seq::<char>::empty() + lines.last()) =~= lines);
    }
}

/// What looking at the queue file found.
#[derive(Debug, Clone, PartialEq, Eq)]
pub enum QueueProbe<E> {
    /// The file exists and holds this many bytes.
    Present { len: u64 },
    /// There is no queue file.
    Missing,
    /// Looking failed for another reason.
    Failed(E),
}

/// Whether the queue is empty: an empty or missing file is; a failed look is an error.
pub fn queue_is_empty<E>(probe: QueueProbe<E>) -> (r: Result<bool, E>)
    ensures
        match probe {
            QueueProbe::Present { len } => r == Ok::<bool, E>(len == 0),
            QueueProbe::Missing => r == Ok::<bool, E>(true),
            QueueProbe::Failed(e) => r == Err::<bool, E>(e),
        },
{
    match probe {
        QueueProbe::Present { len } => Ok(len == 0),
        QueueProbe::Missing => Ok(true),
        QueueProbe::Failed(e) => Err(e),
    }
}

/// How long the processing loop waits before looking at the queue again.
pub const POLL_INTERVAL_MS: u64 = 100;

/// What the processing loop does next.
#[derive(Debug, Clone, Copy, PartialEq, Eq)]
pub enum LoopStep {
    /// The check failed: report it, then wait a poll interval.
    ReportAndWait,
    /// The queue is empty: wait a poll interval.
    Wait,
    /// Drain the queue and publish it as one inscription.
    ProcessBatch,
}

/// The processing loop's decision on one look at the queue.
pub fn next_loop_step<E>(check: &Result<bool, E>) -> (s: LoopStep)
    ensures
        match check {
            Err(_) => s == LoopStep::ReportAndWait,
            Ok(true) => s == LoopStep::Wait,
            Ok(false) => s == LoopStep::ProcessBatch,
        },
{
    match check {
        Err(_) => LoopStep::ReportAndWait,
        Ok(true) => LoopStep::Wait,
        Ok(false) => LoopStep::ProcessBatch,
    }
}

} // verus!

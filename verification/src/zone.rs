//! Zone channel operations: decoding the arguments of an inscription, and
//! querying a channel's inscriptions over a range of slots.

use vstd::prelude::*;
use vstd::string::StringSliceAdditionalSpecFns;

use reqwest::Url;

use crate::hex_codec::{decode_hex_32, encode_hex, hex32_spec, hex_encode_spec, HexArgError};
use crate::node_url::{parse_url, parsed_url, url_accepts, url_error_text};

verus! {

/// An inscription operation, with the id the ledger gives it.
#[derive(Debug, Clone, PartialEq, Eq)]
pub struct InscriptionOp {
    pub channel_id: [u8; 32],
    pub id: [u8; 32],
    pub inscription: Vec<u8>,
}

/// A ledger operation: a channel inscription, or anything else.
#[derive(Debug, Clone, PartialEq, Eq)]
pub enum Op {
    ChannelInscribe(InscriptionOp),
    Other,
}

/// A transaction, by its operations.
#[derive(Debug, Clone, PartialEq, Eq)]
pub struct Transaction {
    pub ops: Vec<Op>,
}

/// A block, by its slot and transactions.
#[derive(Debug, Clone, PartialEq, Eq)]
pub struct Block {
    pub slot: u64,
    pub transactions: Vec<Transaction>,
}

/// One inscription found on a channel: its id and data in hex, and the slot
/// of the block that holds it.
#[derive(Debug, Clone, PartialEq, Eq)]
pub struct InscriptionEntry {
    pub id: String,
    pub data: String,
    pub slot: u64,
}

pub struct InscriptionEntryView {
    pub id: Seq<char>,
    pub data: Seq<char>,
    pub slot: u64,
}

impl View for InscriptionEntry {
    type V = InscriptionEntryView;

    open spec fn view(&self) -> InscriptionEntryView {
        InscriptionEntryView { id: self.id@, data: self.data@, slot: self.slot }
    }
}

pub open spec fn entries_view(v: Seq<InscriptionEntry>) -> Seq<InscriptionEntryView> {
    v.map_values(|e: InscriptionEntry| e@)
}

/// The entry of an operation: one if it inscribes on `channel`, else none.
pub open spec fn op_entries(op: Op, channel: Seq<u8>, slot: u64) -> Seq<InscriptionEntryView> {
    match op {
        Op::ChannelInscribe(ins) => if ins.channel_id@ == channel {
            seq![InscriptionEntryView { id: hex_encode_spec(ins.id@), data: hex_encode_spec(ins.inscription@), slot }]
        } else {
            Seq::empty()
        },
        Op::Other => Seq::empty(),
    }
}

/// The entries of a list of operations, in order.
pub open spec fn ops_entries(ops: Seq<Op>, channel: Seq<u8>, slot: u64) -> Seq<InscriptionEntryView>
    decreases ops.len(),
{
    if ops.len() == 0 {
        Seq::empty()
    } else {
        ops_entries(ops.drop_last(), channel, slot) + op_entries(ops.last(), channel, slot)
    }
}

/// The entries of a list of transactions of one block, in order.
pub open spec fn txs_entries(txs: Seq<Transaction>, channel: Seq<u8>, slot: u64) -> Seq<InscriptionEntryView>
    decreases txs.len(),
{
    if txs.len() == 0 {
        Seq::empty()
    } else {
        txs_entries(txs.drop_last(), channel, slot) + ops_entries(txs.last().ops@, channel, slot)
    }
}

/// The entries of a list of blocks, in order.
pub open spec fn blocks_entries(blocks: Seq<Block>, channel: Seq<u8>) -> Seq<InscriptionEntryView>
    decreases blocks.len(),
{
    if blocks.len() == 0 {
        Seq::empty()
    } else {
        blocks_entries(blocks.drop_last(), channel) + txs_entries(blocks.last().transactions@, channel, blocks.last().slot)
    }
}

/// What a channel query answers: the first `limit` inscriptions on `channel`,
/// in block, transaction and operation order.
pub open spec fn channel_query_spec(blocks: Seq<Block>, channel: Seq<u8>, limit: nat) -> Seq<InscriptionEntryView> {
    let all = blocks_entries(blocks, channel);
    if all.len() <= limit {
        all
    } else {
        all.take(limit as int)
    }
}

pub open spec fn is_prefix(a: Seq<InscriptionEntryView>, b: Seq<InscriptionEntryView>) -> bool {
    a.len() <= b.len() && b.take(a.len() as int) == a
}

proof fn lemma_prefix_trans(a: Seq<InscriptionEntryView>, b: Seq<InscriptionEntryView>, c: Seq<InscriptionEntryView>)
    requires
        is_prefix(a, b),
        is_prefix(b, c),
    ensures
        is_prefix(a, c),
{
    assert(c.take(a.len() as int) =~= c.take(b.len() as int).take(a.len() as int));
}

proof fn lemma_prefix_append(a: Seq<InscriptionEntryView>, b: Seq<InscriptionEntryView>, c: Seq<InscriptionEntryView>)
    requires
        is_prefix(b, c),
    ensures
        is_prefix(a + b, a + c),
{
    assert((a + c).take((a + b).len() as int) =~= a + b);
}

proof fn lemma_prefix_extend(a: Seq<InscriptionEntryView>, b: Seq<InscriptionEntryView>)
    ensures
        is_prefix(a, a + b),
{
    assert((a + b).take(a.len() as int) =~= a);
}

proof fn lemma_ops_prefix(ops: Seq<Op>, channel: Seq<u8>, slot: u64, k: int)
    requires
        0 <= k <= ops.len(),
    ensures
        is_prefix(ops_entries(ops.take(k), channel, slot), ops_entries(ops, channel, slot)),
    decreases ops.len(),
{
    if k == ops.len() {
        assert(ops.take(k) =~= ops);
        lemma_prefix_extend(ops_entries(ops, channel, slot), Seq::empty());
        assert(ops_entries(ops, channel, slot) + Seq::empty() =~= ops_entries(ops, channel, slot));
    } else {
        let d = ops.drop_last();
        assert(ops.take(k) =~= d.take(k));
        lemma_ops_prefix(d, channel, slot, k);
        lemma_prefix_extend(ops_entries(d, channel, slot), op_entries(ops.last(), channel, slot));
        lemma_prefix_trans(ops_entries(d.take(k), channel, slot), ops_entries(d, channel, slot), ops_entries(ops, channel, slot));
    }
}

proof fn lemma_txs_prefix(txs: Seq<Transaction>, channel: Seq<u8>, slot: u64, j: int)
    requires
        0 <= j <= txs.len(),
    ensures
        is_prefix(txs_entries(txs.take(j), channel, slot), txs_entries(txs, channel, slot)),
    decreases txs.len(),
{
    if j == txs.len() {
        assert(txs.take(j) =~= txs);
        lemma_prefix_extend(txs_entries(txs, channel, slot), Seq::empty());
        assert(txs_entries(txs, channel, slot) + Seq::empty() =~= txs_entries(txs, channel, slot));
    } else {
        let d = txs.drop_last();
        assert(txs.take(j) =~= d.take(j));
        lemma_txs_prefix(d, channel, slot, j);
        lemma_prefix_extend(txs_entries(d, channel, slot), ops_entries(txs.last().ops@, channel, slot));
        lemma_prefix_trans(txs_entries(d.take(j), channel, slot), txs_entries(d, channel, slot), txs_entries(txs, channel, slot));
    }
}

proof fn lemma_blocks_prefix(blocks: Seq<Block>, channel: Seq<u8>, i: int)
    requires
        0 <= i <= blocks.len(),
    ensures
        is_prefix(blocks_entries(blocks.take(i), channel), blocks_entries(blocks, channel)),
    decreases blocks.len(),
{
    if i == blocks.len() {
        assert(blocks.take(i) =~= blocks);
        lemma_prefix_extend(blocks_entries(blocks, channel), Seq::empty());
        assert(blocks_entries(blocks, channel) + Seq::empty() =~= blocks_entries(blocks, channel));
    } else {
        let d = blocks.drop_last();
        assert(blocks.take(i) =~= d.take(i));
        lemma_blocks_prefix(d, channel, i);
        lemma_prefix_extend(blocks_entries(d, channel), txs_entries(blocks.last().transactions@, channel, blocks.last().slot));
        lemma_prefix_trans(blocks_entries(d.take(i), channel), blocks_entries(d, channel), blocks_entries(blocks, channel));
    }
}

/// What has been scanned, at block `i`, transaction `j`, operation `k`, is a
/// prefix of everything there is to scan.
proof fn lemma_scanned_prefix(blocks: Seq<Block>, channel: Seq<u8>, i: int, j: int, k: int)
    requires
        0 <= i < blocks.len(),
        0 <= j < blocks[i].transactions@.len(),
        0 <= k <= blocks[i].transactions@[j].ops@.len(),
    ensures
        is_prefix(
            blocks_entries(blocks.take(i), channel)
                + txs_entries(blocks[i].transactions@.take(j), channel, blocks[i].slot)
                + ops_entries(blocks[i].transactions@[j].ops@.take(k), channel, blocks[i].slot),
            blocks_entries(blocks, channel),
        ),
{
    let b = blocks[i];
    let txs = b.transactions@;
    let ops = txs[j].ops@;
    let pb = blocks_entries(blocks.take(i), channel);
    let pt = txs_entries(txs.take(j), channel, b.slot);
    lemma_ops_prefix(ops, channel, b.slot, k);
    lemma_prefix_append(pb + pt, ops_entries(ops.take(k), channel, b.slot), ops_entries(ops, channel, b.slot));
    assert(txs.take(j + 1).drop_last() =~= txs.take(j));
    assert(txs_entries(txs.take(j + 1), channel, b.slot) == pt + ops_entries(ops, channel, b.slot));
    lemma_txs_prefix(txs, channel, b.slot, j + 1);
    lemma_prefix_append(pb, txs_entries(txs.take(j + 1), channel, b.slot), txs_entries(txs, channel, b.slot));
    assert((pb + pt) + ops_entries(ops, channel, b.slot) =~= pb + txs_entries(txs.take(j + 1), channel, b.slot));
    lemma_prefix_trans(
        (pb + pt) + ops_entries(ops.take(k), channel, b.slot),
        (pb + pt) + ops_entries(ops, channel, b.slot),
        pb + txs_entries(txs, channel, b.slot),
    );
    assert(blocks.take(i + 1).drop_last() =~= blocks.take(i));
    assert(blocks_entries(blocks.take(i + 1), channel) == pb + txs_entries(txs, channel, b.slot));
    lemma_blocks_prefix(blocks, channel, i + 1);
    lemma_prefix_trans(
        (pb + pt) + ops_entries(ops.take(k), channel, b.slot),
        pb + txs_entries(txs, channel, b.slot),
        blocks_entries(blocks, channel),
    );
}

/// The inscription operations on `channel` among `ops`, in order.
pub open spec fn channel_inscriptions(ops: Seq<Op>, channel: Seq<u8>) -> Seq<InscriptionOp>
    decreases ops.len(),
{
    if ops.len() == 0 {
        Seq::empty()
    } else {
        let rest = channel_inscriptions(ops.drop_last(), channel);
        match ops.last() {
            Op::ChannelInscribe(ins) => if ins.channel_id@ == channel {
                rest.push(ins)
            } else {
                rest
            },
            Op::Other => rest,
        }
    }
}

/// How an inscription is reported: hex id, hex data, and its block's slot.
pub open spec fn reported(ins: InscriptionOp, slot: u64) -> InscriptionEntryView {
    InscriptionEntryView { id: hex_encode_spec(ins.id@), data: hex_encode_spec(ins.inscription@), slot }
}

/// How many inscriptions on `channel` the transactions hold.
pub open spec fn txs_inscription_count(txs: Seq<Transaction>, channel: Seq<u8>) -> nat
    decreases txs.len(),
{
    if txs.len() == 0 {
        0
    } else {
        txs_inscription_count(txs.drop_last(), channel) + channel_inscriptions(txs.last().ops@, channel).len()
    }
}

/// How many inscriptions on `channel` the blocks hold.
pub open spec fn blocks_inscription_count(blocks: Seq<Block>, channel: Seq<u8>) -> nat
    decreases blocks.len(),
{
    if blocks.len() == 0 {
        0
    } else {
        blocks_inscription_count(blocks.drop_last(), channel)
            + txs_inscription_count(blocks.last().transactions@, channel)
    }
}

/// The entries of a run of operations are exactly its inscriptions on the
/// channel, each reported in full, in order: none is left out, whatever its
/// data, and nothing else is added.
pub proof fn law_every_channel_inscription_is_reported(ops: Seq<Op>, channel: Seq<u8>, slot: u64)
    ensures
        ops_entries(ops, channel, slot) == channel_inscriptions(ops, channel).map_values(
            |ins: InscriptionOp| reported(ins, slot),
        ),
    decreases ops.len(),
{
    if ops.len() > 0 {
        law_every_channel_inscription_is_reported(ops.drop_last(), channel, slot);
        let rest = channel_inscriptions(ops.drop_last(), channel);
        match ops.last() {
            Op::ChannelInscribe(ins) => if ins.channel_id@ == channel {
                assert(rest.push(ins).map_values(|i: InscriptionOp| reported(i, slot))
                    =~= rest.map_values(|i: InscriptionOp| reported(i, slot)) + seq![reported(ins, slot)]);
            } else {
                assert(ops_entries(ops.drop_last(), channel, slot) + Seq::empty()
                    =~= ops_entries(ops.drop_last(), channel, slot));
            },
            Op::Other => {
                assert(ops_entries(ops.drop_last(), channel, slot) + Seq::empty()
                    =~= ops_entries(ops.drop_last(), channel, slot));
            },
        }
    } else {
        assert(channel_inscriptions(ops, channel).map_values(|i: InscriptionOp| reported(i, slot))
            =~= Seq::<InscriptionEntryView>::empty());
    }
}

proof fn lemma_txs_entries_len(txs: Seq<Transaction>, channel: Seq<u8>, slot: u64)
    ensures
        txs_entries(txs, channel, slot).len() == txs_inscription_count(txs, channel),
    decreases txs.len(),
{
    if txs.len() > 0 {
        lemma_txs_entries_len(txs.drop_last(), channel, slot);
        law_every_channel_inscription_is_reported(txs.last().ops@, channel, slot);
    }
}

proof fn lemma_blocks_entries_len(blocks: Seq<Block>, channel: Seq<u8>)
    ensures
        blocks_entries(blocks, channel).len() == blocks_inscription_count(blocks, channel),
    decreases blocks.len(),
{
    if blocks.len() > 0 {
        lemma_blocks_entries_len(blocks.drop_last(), channel);
        lemma_txs_entries_len(blocks.last().transactions@, channel, blocks.last().slot);
    }
}

/// A channel query misses nothing: if the blocks hold `k` inscriptions on the
/// channel, the answer has `min(k, limit)` entries.
pub proof fn law_channel_query_is_complete(blocks: Seq<Block>, channel: Seq<u8>, limit: nat)
    ensures
        channel_query_spec(blocks, channel, limit).len() == (if blocks_inscription_count(blocks, channel) <= limit {
            blocks_inscription_count(blocks, channel)
        } else {
            limit
        }),
{
    lemma_blocks_entries_len(blocks, channel);
}

/// Inscriptions come in block order: the entries of the first `i` blocks
/// are the first entries of all the blocks.
pub proof fn law_earlier_blocks_answered_first(blocks: Seq<Block>, channel: Seq<u8>, i: int)
    requires
        0 <= i <= blocks.len(),
    ensures
        is_prefix(blocks_entries(blocks.take(i), channel), blocks_entries(blocks, channel)),
{
    lemma_blocks_prefix(blocks, channel, i);
}

/// Whether two channel ids are the same.
pub fn same_channel(a: &[u8; 32], b: &[u8; 32]) -> (r: bool)
    ensures
        r == (a@ == b@),
{
    for i in 0..32
        invariant
            forall|k: int| 0 <= k < i ==> a@[k] == b@[k],
    {
        if a[i] != b[i] {
            return false;
        }
    }
    assert(a@ =~= b@);
    true
}

/// The first `limit` inscriptions on `channel_id` in `blocks`, in order.
pub fn collect_channel_inscriptions(blocks: &Vec<Block>, channel_id: &[u8; 32], limit: usize) -> (res: Vec<InscriptionEntry>)
    ensures
        entries_view(res@) == channel_query_spec(blocks@, channel_id@, limit as nat),
{
    let ghost ch = channel_id@;
    let ghost all = blocks_entries(blocks@, ch);
    let mut results: Vec<InscriptionEntry> = Vec::new();
    if limit == 0 {
        assert(entries_view(results@) =~= all.take(0));
        return results;
    }
    let nb = blocks.len();
    for i in 0..nb
        invariant
            nb == blocks@.len(),
            ch == channel_id@,
            all == blocks_entries(blocks@, ch),
            0 < limit,
            results@.len() < limit,
            entries_view(results@) == blocks_entries(blocks@.take(i as int), ch),
    {
        let block = &blocks[i];
        let ghost pb = blocks_entries(blocks@.take(i as int), ch);
        let nt = block.transactions.len();
        for j in 0..nt
            invariant
                nb == blocks@.len(),
                i < nb,
                *block == blocks@[i as int],
                nt == block.transactions@.len(),
                ch == channel_id@,
                all == blocks_entries(blocks@, ch),
                0 < limit,
                results@.len() < limit,
                pb == blocks_entries(blocks@.take(i as int), ch),
                entries_view(results@) == pb + txs_entries(block.transactions@.take(j as int), ch, block.slot),
        {
            let tx = &block.transactions[j];
            let ghost pt = txs_entries(block.transactions@.take(j as int), ch, block.slot);
            let no = tx.ops.len();
            for k in 0..no
                invariant
                    nb == blocks@.len(),
                    i < nb,
                    *block == blocks@[i as int],
                    nt == block.transactions@.len(),
                    j < nt,
                    *tx == block.transactions@[j as int],
                    no == tx.ops@.len(),
                    ch == channel_id@,
                    all == blocks_entries(blocks@, ch),
                    0 < limit,
                    results@.len() < limit,
                    pb == blocks_entries(blocks@.take(i as int), ch),
                    pt == txs_entries(block.transactions@.take(j as int), ch, block.slot),
                    entries_view(results@) == pb + pt + ops_entries(tx.ops@.take(k as int), ch, block.slot),
            {
                let ghost before = results@;
                assert(tx.ops@.take(k + 1).drop_last() =~= tx.ops@.take(k as int));
                match &tx.ops[k] {
                    Op::ChannelInscribe(ins) => {
                        if same_channel(&ins.channel_id, channel_id) {
                            let entry = InscriptionEntry {
                                id: encode_hex(&ins.id),
                                data: encode_hex(ins.inscription.as_slice()),
                                slot: block.slot,
                            };
                            results.push(entry);
                            assert(entries_view(results@) =~= entries_view(before) + op_entries(tx.ops@[k as int], ch, block.slot));
                            if results.len() >= limit {
                                proof {
                                    lemma_scanned_prefix(blocks@, ch, i as int, j as int, (k + 1) as int);
                                    assert(all.take(limit as int) =~= entries_view(results@));
                                }
                                return results;
                            }
                        } else {
                            assert(op_entries(tx.ops@[k as int], ch, block.slot) =~= Seq::empty());
                        }
                    },
                    Op::Other => {
                        assert(op_entries(tx.ops@[k as int], ch, block.slot) =~= Seq::empty());
                    },
                }
                assert(entries_view(results@) =~= pb + pt + ops_entries(tx.ops@.take(k + 1), ch, block.slot));
            }
            assert(tx.ops@.take(no as int) =~= tx.ops@);
            assert(block.transactions@.take(j + 1).drop_last() =~= block.transactions@.take(j as int));
            assert(entries_view(results@) =~= pb + txs_entries(block.transactions@.take(j + 1), ch, block.slot));
        }
        assert(block.transactions@.take(nt as int) =~= block.transactions@);
        assert(blocks@.take(i + 1).drop_last() =~= blocks@.take(i as int));
        assert(entries_view(results@) =~= blocks_entries(blocks@.take(i + 1), ch));
    }
    assert(blocks@.take(nb as int) =~= blocks@);
    results
}

/// The last slot a query of `limit` inscriptions starting at `from_slot`
/// fetches: `limit - 1` slots on, held at `u64::MAX`.
pub open spec fn query_to_slot(from_slot: u64, limit: nat) -> u64 {
    if from_slot + limit - 1 > u64::MAX {
        u64::MAX
    } else {
        (from_slot + limit - 1) as u64
    }
}

/// The first and last slot a channel query fetches; none for a limit of 0,
/// whose answer is empty without fetching.
pub fn query_slot_range(from_slot: u64, limit: usize) -> (r: Option<(u64, u64)>)
    ensures
        limit == 0 ==> r is None,
        limit > 0 ==> r == Some((from_slot, query_to_slot(from_slot, limit as nat))),
{
    if limit == 0 {
        return None;
    }
    let span = limit.saturating_sub(1) as u64;
    Some((from_slot, from_slot.saturating_add(span)))
}

/// A C string argument as read: its text, or the fact that it is not UTF-8.
#[derive(Debug, Clone, Copy, PartialEq, Eq)]
pub enum ArgText<'a> {
    Text(&'a str),
    NotUtf8,
}

/// Why one argument was refused.
#[derive(Debug, Clone, PartialEq, Eq)]
pub enum ArgError {
    /// The C string is not UTF-8.
    NotUtf8,
    /// The text is no URL; the parser's message.
    NotUrl(String),
    /// The text is not 32 bytes in hex.
    Hex(HexArgError),
}

/// Whether an argument is a URL.
pub open spec fn url_arg_ok(a: ArgText) -> bool {
    match a {
        ArgText::Text(t) => url_accepts(t@),
        ArgText::NotUtf8 => false,
    }
}

/// How a refused URL argument is reported: not UTF-8, or the parser's text.
pub open spec fn url_arg_error(a: ArgText, e: ArgError) -> bool {
    match a {
        ArgText::NotUtf8 => e == ArgError::NotUtf8,
        ArgText::Text(t) => e matches ArgError::NotUrl(m) && m@ == url_error_text(t@),
    }
}

/// The URL an accepted URL argument names.
pub open spec fn arg_url(a: ArgText) -> Url {
    match a {
        ArgText::Text(t) => parsed_url(t@),
        ArgText::NotUtf8 => arbitrary(),
    }
}

/// What a 32-byte hex argument decodes to.
pub open spec fn hex_arg_spec(a: ArgText) -> Result<Seq<u8>, ArgError> {
    match a {
        ArgText::NotUtf8 => Err(ArgError::NotUtf8),
        ArgText::Text(t) => match hex32_spec(t.spec_bytes()) {
            Ok(b) => Ok(b),
            Err(e) => Err(ArgError::Hex(e)),
        },
    }
}

/// Parses a URL argument.
pub fn parse_url_arg(a: ArgText) -> (r: Result<Url, ArgError>)
    ensures
        r is Ok <==> url_arg_ok(a),
        r matches Ok(u) ==> u == arg_url(a),
        r matches Err(e) ==> url_arg_error(a, e),
{
    match a {
        ArgText::NotUtf8 => Err(ArgError::NotUtf8),
        ArgText::Text(t) => match parse_url(t) {
            Ok(u) => Ok(u),
            Err(m) => Err(ArgError::NotUrl(m)),
        },
    }
}

/// Decodes a 32-byte hex argument.
pub fn decode_hex_arg(a: ArgText) -> (r: Result<[u8; 32], ArgError>)
    ensures
        match hex_arg_spec(a) {
            Ok(b) => r matches Ok(v) && v@ == b,
            Err(e) => r == Err::<[u8; 32], ArgError>(e),
        },
{
    match a {
        ArgText::NotUtf8 => Err(ArgError::NotUtf8),
        ArgText::Text(t) => match decode_hex_32(t) {
            Ok(v) => Ok(v),
            Err(e) => Err(ArgError::Hex(e)),
        },
    }
}

/// What a channel query does once its arguments are read.
#[derive(Debug, PartialEq, Eq)]
pub enum ChannelQueryPlan {
    /// Answer with no inscriptions, fetching nothing.
    Empty,
    /// Fetch the blocks of these slots from the node and keep the channel's inscriptions.
    Fetch { node_url: Url, channel_id: [u8; 32], from_slot: u64, to_slot: u64 },
}

/// Which argument of a channel query was refused, and why.
#[derive(Debug, Clone, PartialEq, Eq)]
pub enum QueryArgError {
    NodeUrl(ArgError),
    ChannelId(ArgError),
}

/// Reads the arguments of a channel query, in the order node URL, channel id
/// (32 bytes in hex), then the first slot and the most inscriptions wanted.
pub fn plan_channel_query(node_url: ArgText, channel_id_hex: ArgText, from_slot: u64, limit: usize) -> (r: Result<ChannelQueryPlan, QueryArgError>)
    ensures
        !url_arg_ok(node_url) ==> (r matches Err(QueryArgError::NodeUrl(e)) && url_arg_error(node_url, e)),
        url_arg_ok(node_url) ==> match hex_arg_spec(channel_id_hex) {
            Err(e) => r == Err::<ChannelQueryPlan, QueryArgError>(QueryArgError::ChannelId(e)),
            Ok(ch) => if limit == 0 {
                r == Ok::<ChannelQueryPlan, QueryArgError>(ChannelQueryPlan::Empty)
            } else {
                r matches Ok(ChannelQueryPlan::Fetch { node_url: u, channel_id, from_slot: f, to_slot: t })
                    && u == arg_url(node_url) && channel_id@ == ch && f == from_slot && t == query_to_slot(from_slot, limit as nat)
            },
        },
{
    let url = match parse_url_arg(node_url) {
        Ok(u) => u,
        Err(e) => return Err(QueryArgError::NodeUrl(e)),
    };
    let channel_id = match decode_hex_arg(channel_id_hex) {
        Ok(c) => c,
        Err(e) => return Err(QueryArgError::ChannelId(e)),
    };
    match query_slot_range(from_slot, limit) {
        None => Ok(ChannelQueryPlan::Empty),
        Some((f, t)) => Ok(ChannelQueryPlan::Fetch { node_url: url, channel_id, from_slot: f, to_slot: t }),
    }
}

/// The decoded arguments of an inscription: the node, the channel, the
/// signing key, and the message it follows (`None` for the first message on
/// the channel).
#[derive(Debug, PartialEq, Eq)]
pub struct InscribeArgs {
    pub node_url: Url,
    pub channel_id: [u8; 32],
    pub signing_key: [u8; 32],
    pub last_msg_id: Option<[u8; 32]>,
}

/// Which argument of an inscription was refused, and why.
#[derive(Debug, Clone, PartialEq, Eq)]
pub enum InscribeArgError {
    NodeUrl(ArgError),
    ChannelId(ArgError),
    SigningKey(ArgError),
    LastMsgId(ArgError),
}

/// Decodes the arguments of an inscription in the order node URL, channel
/// id, signing key, last message id; the first refusal is reported.
pub fn decode_inscribe_args(
    node_url: ArgText,
    channel_id_hex: ArgText,
    signing_key_hex: ArgText,
    last_msg_id_hex: Option<ArgText>,
) -> (r: Result<InscribeArgs, InscribeArgError>)
    ensures
        !url_arg_ok(node_url) ==> (r matches Err(InscribeArgError::NodeUrl(e)) && url_arg_error(node_url, e)),
        url_arg_ok(node_url) ==> match (hex_arg_spec(channel_id_hex), hex_arg_spec(signing_key_hex)) {
            (Err(e), _) => r == Err::<InscribeArgs, InscribeArgError>(InscribeArgError::ChannelId(e)),
            (Ok(_), Err(e)) => r == Err::<InscribeArgs, InscribeArgError>(InscribeArgError::SigningKey(e)),
            (Ok(ch), Ok(key)) => match last_msg_id_hex {
                None => r matches Ok(a) && a.node_url == arg_url(node_url) && a.channel_id@ == ch
                    && a.signing_key@ == key && a.last_msg_id is None,
                Some(m) => match hex_arg_spec(m) {
                    Err(e) => r == Err::<InscribeArgs, InscribeArgError>(InscribeArgError::LastMsgId(e)),
                    Ok(msg) => r matches Ok(a) && a.node_url == arg_url(node_url) && a.channel_id@ == ch && a.signing_key@ == key
                        && (a.last_msg_id matches Some(id) && id@ == msg),
                },
            },
        },
{
    let url = match parse_url_arg(node_url) {
        Ok(u) => u,
        Err(e) => return Err(InscribeArgError::NodeUrl(e)),
    };
    let channel_id = match decode_hex_arg(channel_id_hex) {
        Ok(c) => c,
        Err(e) => return Err(InscribeArgError::ChannelId(e)),
    };
    let signing_key = match decode_hex_arg(signing_key_hex) {
        Ok(k) => k,
        Err(e) => return Err(InscribeArgError::SigningKey(e)),
    };
    let last_msg_id = match last_msg_id_hex {
        None => None,
        Some(m) => match decode_hex_arg(m) {
            Ok(id) => Some(id),
            Err(e) => return Err(InscribeArgError::LastMsgId(e)),
        },
    };
    Ok(InscribeArgs { node_url: url, channel_id, signing_key, last_msg_id })
}

/// A channel query never answers more than `limit` inscriptions, and what it
/// answers is the start of the channel's inscriptions in the blocks.
pub proof fn law_query_bounded_prefix(blocks: Seq<Block>, channel: Seq<u8>, limit: nat)
    ensures
        channel_query_spec(blocks, channel, limit).len() <= limit,
        is_prefix(channel_query_spec(blocks, channel, limit), blocks_entries(blocks, channel)),
{
    let all = blocks_entries(blocks, channel);
    if all.len() <= limit {
        assert(all.take(all.len() as int) =~= all);
    }
}

/// Asking for more inscriptions never changes the first ones answered.
pub proof fn law_query_limit_monotone(blocks: Seq<Block>, channel: Seq<u8>, l1: nat, l2: nat)
    requires
        l1 <= l2,
    ensures
        is_prefix(channel_query_spec(blocks, channel, l1), channel_query_spec(blocks, channel, l2)),
{
    law_query_bounded_prefix(blocks, channel, l1);
    law_query_bounded_prefix(blocks, channel, l2);
    let all = blocks_entries(blocks, channel);
    let q1 = channel_query_spec(blocks, channel, l1);
    let q2 = channel_query_spec(blocks, channel, l2);
    assert(q2.take(q1.len() as int) =~= q1);
}

/// Every inscription a channel query answers was inscribed on that channel:
/// it comes from an operation on the channel in one of the blocks.
pub proof fn law_query_only_channel(blocks: Seq<Block>, channel: Seq<u8>, limit: nat, n: int)
    requires
        0 <= n < channel_query_spec(blocks, channel, limit).len(),
    ensures
        exists|i: int, j: int, k: int| #![trigger blocks[i].transactions@[j].ops@[k]]
            0 <= i < blocks.len() && 0 <= j < blocks[i].transactions@.len()
                && 0 <= k < blocks[i].transactions@[j].ops@.len()
                && (blocks[i].transactions@[j].ops@[k] matches Op::ChannelInscribe(ins)
                    && ins.channel_id@ == channel
                    && channel_query_spec(blocks, channel, limit)[n] == (InscriptionEntryView {
                        id: hex_encode_spec(ins.id@),
                        data: hex_encode_spec(ins.inscription@),
                        slot: blocks[i].slot,
                    })),
{
    law_query_bounded_prefix(blocks, channel, limit);
    let q = channel_query_spec(blocks, channel, limit);
    assert(q[n] == blocks_entries(blocks, channel)[n]);
    lemma_blocks_entry_origin(blocks, channel, n);
}

proof fn lemma_ops_entry_origin(ops: Seq<Op>, channel: Seq<u8>, slot: u64, n: int)
    requires
        0 <= n < ops_entries(ops, channel, slot).len(),
    ensures
        exists|k: int| #![trigger ops[k]] 0 <= k < ops.len()
            && (ops[k] matches Op::ChannelInscribe(ins) && ins.channel_id@ == channel
                && ops_entries(ops, channel, slot)[n] == (InscriptionEntryView {
                    id: hex_encode_spec(ins.id@), data: hex_encode_spec(ins.inscription@), slot,
                })),
    decreases ops.len(),
{
    let d = ops.drop_last();
    let pre = ops_entries(d, channel, slot);
    if n < pre.len() {
        lemma_ops_entry_origin(d, channel, slot, n);
        let k = choose|k: int| #![trigger d[k]] 0 <= k < d.len()
            && (d[k] matches Op::ChannelInscribe(ins) && ins.channel_id@ == channel
                && pre[n] == (InscriptionEntryView {
                    id: hex_encode_spec(ins.id@), data: hex_encode_spec(ins.inscription@), slot,
                }));
        assert(ops[k] == d[k]);
    } else {
        let k = ops.len() - 1;
        assert(ops[k] == ops.last());
    }
}

proof fn lemma_txs_entry_origin(txs: Seq<Transaction>, channel: Seq<u8>, slot: u64, n: int)
    requires
        0 <= n < txs_entries(txs, channel, slot).len(),
    ensures
        exists|j: int, k: int| #![trigger txs[j].ops@[k]] 0 <= j < txs.len() && 0 <= k < txs[j].ops@.len()
            && (txs[j].ops@[k] matches Op::ChannelInscribe(ins) && ins.channel_id@ == channel
                && txs_entries(txs, channel, slot)[n] == (InscriptionEntryView {
                    id: hex_encode_spec(ins.id@), data: hex_encode_spec(ins.inscription@), slot,
                })),
    decreases txs.len(),
{
    let d = txs.drop_last();
    let pre = txs_entries(d, channel, slot);
    if n < pre.len() {
        lemma_txs_entry_origin(d, channel, slot, n);
        let (j, k) = choose|j: int, k: int| #![trigger d[j].ops@[k]] 0 <= j < d.len() && 0 <= k < d[j].ops@.len()
            && (d[j].ops@[k] matches Op::ChannelInscribe(ins) && ins.channel_id@ == channel
                && pre[n] == (InscriptionEntryView {
                    id: hex_encode_spec(ins.id@), data: hex_encode_spec(ins.inscription@), slot,
                }));
        assert(txs[j] == d[j]);
    } else {
        let j = txs.len() - 1;
        lemma_ops_entry_origin(txs[j].ops@, channel, slot, n - pre.len());
        let k = choose|k: int| #![trigger txs[j].ops@[k]] 0 <= k < txs[j].ops@.len()
            && (txs[j].ops@[k] matches Op::ChannelInscribe(ins) && ins.channel_id@ == channel
                && ops_entries(txs[j].ops@, channel, slot)[n - pre.len()] == (InscriptionEntryView {
                    id: hex_encode_spec(ins.id@), data: hex_encode_spec(ins.inscription@), slot,
                }));
        assert(txs_entries(txs, channel, slot)[n] == ops_entries(txs[j].ops@, channel, slot)[n - pre.len()]);
    }
}

proof fn lemma_blocks_entry_origin(blocks: Seq<Block>, channel: Seq<u8>, n: int)
    requires
        0 <= n < blocks_entries(blocks, channel).len(),
    ensures
        exists|i: int, j: int, k: int| #![trigger blocks[i].transactions@[j].ops@[k]]
            0 <= i < blocks.len() && 0 <= j < blocks[i].transactions@.len()
                && 0 <= k < blocks[i].transactions@[j].ops@.len()
                && (blocks[i].transactions@[j].ops@[k] matches Op::ChannelInscribe(ins)
                    && ins.channel_id@ == channel
                    && blocks_entries(blocks, channel)[n] == (InscriptionEntryView {
                        id: hex_encode_spec(ins.id@),
                        data: hex_encode_spec(ins.inscription@),
                        slot: blocks[i].slot,
                    })),
    decreases blocks.len(),
{
    let d = blocks.drop_last();
    let pre = blocks_entries(d, channel);
    if n < pre.len() {
        lemma_blocks_entry_origin(d, channel, n);
        let (i, j, k) = choose|i: int, j: int, k: int| #![trigger d[i].transactions@[j].ops@[k]]
            0 <= i < d.len() && 0 <= j < d[i].transactions@.len()
                && 0 <= k < d[i].transactions@[j].ops@.len()
                && (d[i].transactions@[j].ops@[k] matches Op::ChannelInscribe(ins)
                    && ins.channel_id@ == channel
                    && pre[n] == (InscriptionEntryView {
                        id: hex_encode_spec(ins.id@),
                        data: hex_encode_spec(ins.inscription@),
                        slot: d[i].slot,
                    }));
        assert(blocks[i] == d[i]);
    } else {
        let i = blocks.len() - 1;
        let b = blocks[i];
        lemma_txs_entry_origin(b.transactions@, channel, b.slot, n - pre.len());
        let (j, k) = choose|j: int, k: int| #![trigger b.transactions@[j].ops@[k]] 0 <= j < b.transactions@.len() && 0 <= k < b.transactions@[j].ops@.len()
            && (b.transactions@[j].ops@[k] matches Op::ChannelInscribe(ins) && ins.channel_id@ == channel
                && txs_entries(b.transactions@, channel, b.slot)[n - pre.len()] == (InscriptionEntryView {
                    id: hex_encode_spec(ins.id@), data: hex_encode_spec(ins.inscription@), slot: b.slot,
                }));
        assert(blocks_entries(blocks, channel)[n] == txs_entries(b.transactions@, channel, b.slot)[n - pre.len()]);
    }
}

} // verus!

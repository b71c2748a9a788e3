//! The metrics that the node's services emit. Each function builds the record
//! of one emission; the caller hands it to a `MetricsRegistry`.

use vstd::prelude::*;

use crate::metrics::{
    plain_record, record_view, tagged_record, text_attr, MetricKind, MetricRecord, MetricRecordView,
};

verus! {

// ---------------------------------------------------------------- data availability network

/// A behaviour event of the data-availability network was received.
pub fn da_behaviour_event_received(event: &str) -> (r: MetricRecord)
    ensures
        r@ == record_view(MetricKind::Counter, "da_behaviour_events_received_total"@, 1, seq![text_attr("event"@, event@)]),
{
    tagged_record(MetricKind::Counter, "da_behaviour_events_received_total", 1u64, "event", event)
}

/// The size of a share carried by a data-availability network event.
pub fn da_behaviour_share_size_bytes(event: &str, share_size: usize) -> (r: MetricRecord)
    ensures
        r@ == record_view(MetricKind::Histogram, "da_behaviour_share_size_bytes"@, share_size as u64, seq![text_attr("event"@, event@)]),
{
    tagged_record(MetricKind::Histogram, "da_behaviour_share_size_bytes", share_size, "event", event)
}

// ---------------------------------------------------------------- blend

/// A mix packet was processed.
pub fn mix_packets_processed_total() -> (r: MetricRecord)
    ensures
        r@ == record_view(MetricKind::Counter, "blend_mix_packets_processed_total"@, 1, Seq::empty()),
{
    plain_record(MetricKind::Counter, "blend_mix_packets_processed_total", 1u64)
}

/// How many blend peers are connected.
pub fn peers_connected(count: usize) -> (r: MetricRecord)
    ensures
        r@ == record_view(MetricKind::Gauge, "blend_peers_connected"@, count as u64, Seq::empty()),
{
    plain_record(MetricKind::Gauge, "blend_peers_connected", count as u64)
}

/// A message was published.
pub fn outbound_publish_ok() -> (r: MetricRecord)
    ensures
        r@ == record_view(MetricKind::Counter, "blend_messages_sent_total"@, 1, seq![text_attr("action"@, "publish"@)]),
{
    tagged_record(MetricKind::Counter, "blend_messages_sent_total", 1u64, "action", "publish")
}

/// Publishing a message failed.
pub fn outbound_publish_err() -> (r: MetricRecord)
    ensures
        r@ == record_view(MetricKind::Counter, "blend_outbound_messages_failed_total"@, 1, seq![text_attr("action"@, "publish"@)]),
{
    tagged_record(MetricKind::Counter, "blend_outbound_messages_failed_total", 1u64, "action", "publish")
}

/// A message was forwarded.
pub fn outbound_forward_ok() -> (r: MetricRecord)
    ensures
        r@ == record_view(MetricKind::Counter, "blend_messages_sent_total"@, 1, seq![text_attr("action"@, "forward"@)]),
{
    tagged_record(MetricKind::Counter, "blend_messages_sent_total", 1u64, "action", "forward")
}

/// Forwarding a message failed.
pub fn outbound_forward_err() -> (r: MetricRecord)
    ensures
        r@ == record_view(MetricKind::Counter, "blend_outbound_messages_failed_total"@, 1, seq![text_attr("action"@, "forward"@)]),
{
    tagged_record(MetricKind::Counter, "blend_outbound_messages_failed_total", 1u64, "action", "forward")
}

/// A message was received.
pub fn inbound_message_ok() -> (r: MetricRecord)
    ensures
        r@ == record_view(MetricKind::Counter, "blend_messages_received_total"@, 1, Seq::empty()),
{
    plain_record(MetricKind::Counter, "blend_messages_received_total", 1u64)
}

/// A received message was refused.
pub fn inbound_message_err() -> (r: MetricRecord)
    ensures
        r@ == record_view(MetricKind::Counter, "blend_inbound_messages_failed_total"@, 1, Seq::empty()),
{
    plain_record(MetricKind::Counter, "blend_inbound_messages_failed_total", 1u64)
}

// ---------------------------------------------------------------- chain leader

/// A block proposal was created locally.
pub fn consensus_proposals_created_local() -> (r: MetricRecord)
    ensures
        r@ == record_view(MetricKind::Counter, "consensus_proposals_created_total"@, 1, seq![text_attr("origin"@, "local"@)]),
{
    tagged_record(MetricKind::Counter, "consensus_proposals_created_total", 1u64, "origin", "local")
}

/// Creating a block proposal failed.
pub fn consensus_proposals_create_failed() -> (r: MetricRecord)
    ensures
        r@ == record_view(MetricKind::Counter, "consensus_proposals_create_failed_total"@, 1, seq![text_attr("reason"@, "propose_block"@)]),
{
    tagged_record(MetricKind::Counter, "consensus_proposals_create_failed_total", 1u64, "reason", "propose_block")
}

// ---------------------------------------------------------------- chain service

/// What the consensus metrics read of the chain state: the heights of the tip
/// and of the last immutable block, the tip's slot and epoch, and how many
/// branches (forks) are tracked.
#[derive(Debug, Clone, Copy, PartialEq, Eq)]
pub struct ConsensusSnapshot {
    pub tip_height: u64,
    pub finalized_height: u64,
    pub current_slot: u64,
    pub current_epoch: u32,
    pub forks_count: usize,
}

/// The five consensus gauges, in the order they are emitted.
pub open spec fn consensus_records(s: ConsensusSnapshot) -> Seq<MetricRecordView> {
    seq![
        record_view(MetricKind::Gauge, "consensus_tip_height"@, ((s.tip_height as usize) as u64), Seq::empty()),
        record_view(MetricKind::Gauge, "consensus_finalized_height"@, ((s.finalized_height as usize) as u64), Seq::empty()),
        record_view(MetricKind::Gauge, "consensus_current_epoch"@, s.current_epoch as u64, Seq::empty()),
        record_view(MetricKind::Gauge, "consensus_current_slot"@, s.current_slot, Seq::empty()),
        record_view(MetricKind::Gauge, "consensus_forks_count"@, s.forks_count as u64, Seq::empty()),
    ]
}

/// The consensus gauges of a chain state. Heights pass through `usize` as in
/// the node, so they are exact wherever `usize` has 64 bits.
pub fn emit_consensus_metrics(cryptarchia: &ConsensusSnapshot) -> (rs: Vec<MetricRecord>)
    ensures
        rs@.map_values(|r: MetricRecord| r@) == consensus_records(*cryptarchia),
{
    let height = cryptarchia.tip_height;
    let finalized_height = cryptarchia.finalized_height;
    let mut rs: Vec<MetricRecord> = Vec::new();
    rs.push(plain_record(MetricKind::Gauge, "consensus_tip_height", height as usize));
    rs.push(plain_record(MetricKind::Gauge, "consensus_finalized_height", finalized_height as usize));
    rs.push(plain_record(MetricKind::Gauge, "consensus_current_epoch", cryptarchia.current_epoch));
    rs.push(plain_record(MetricKind::Gauge, "consensus_current_slot", cryptarchia.current_slot));
    rs.push(plain_record(MetricKind::Gauge, "consensus_forks_count", cryptarchia.forks_count));
    assert(rs@.map_values(|r: MetricRecord| r@) =~= consensus_records(*cryptarchia));
    rs
}

/// A block was imported.
pub fn emit_block_imported_metric() -> (r: MetricRecord)
    ensures
        r@ == record_view(MetricKind::Counter, "consensus_blocks_imported_total"@, 1, Seq::empty()),
{
    plain_record(MetricKind::Counter, "consensus_blocks_imported_total", 1u64)
}

/// `count` transactions of an imported block.
pub fn emit_block_transactions_metric(tx_count: usize) -> (r: MetricRecord)
    ensures
        r@ == record_view(MetricKind::Counter, "consensus_block_transactions_total"@, tx_count as u64, Seq::empty()),
{
    plain_record(MetricKind::Counter, "consensus_block_transactions_total", tx_count)
}

// ---------------------------------------------------------------- data availability dispersal

/// A dispersal request arrived.
pub fn da_dispersal_requests() -> (r: MetricRecord)
    ensures
        r@ == record_view(MetricKind::Counter, "da_dispersal_requests_total"@, 1, Seq::empty()),
{
    plain_record(MetricKind::Counter, "da_dispersal_requests_total", 1u64)
}

/// The size of a dispersed payload.
pub fn da_dispersal_payload_bytes(bytes: u64) -> (r: MetricRecord)
    ensures
        r@ == record_view(MetricKind::Histogram, "da_dispersal_payload_bytes"@, bytes, Seq::empty()),
{
    plain_record(MetricKind::Histogram, "da_dispersal_payload_bytes", bytes)
}

/// A dispersal request failed: no session.
pub fn da_dispersal_requests_failed_session_unavailable() -> (r: MetricRecord)
    ensures
        r@ == record_view(MetricKind::Counter, "da_dispersal_requests_failed_total"@, 1, seq![text_attr("reason"@, "session_unavailable"@)]),
{
    tagged_record(MetricKind::Counter, "da_dispersal_requests_failed_total", 1u64, "reason", "session_unavailable")
}

/// A dispersal request failed while processing.
pub fn da_dispersal_requests_failed_process() -> (r: MetricRecord)
    ensures
        r@ == record_view(MetricKind::Counter, "da_dispersal_requests_failed_total"@, 1, seq![text_attr("reason"@, "process"@)]),
{
    tagged_record(MetricKind::Counter, "da_dispersal_requests_failed_total", 1u64, "reason", "process")
}

/// A dispersal retry succeeded.
pub fn da_dispersal_retry_success() -> (r: MetricRecord)
    ensures
        r@ == record_view(MetricKind::Counter, "da_dispersal_retry_success_total"@, 1, Seq::empty()),
{
    plain_record(MetricKind::Counter, "da_dispersal_retry_success_total", 1u64)
}

/// A dispersal retry failed.
pub fn da_dispersal_retry_failed() -> (r: MetricRecord)
    ensures
        r@ == record_view(MetricKind::Counter, "da_dispersal_retry_failed_total"@, 1, Seq::empty()),
{
    plain_record(MetricKind::Counter, "da_dispersal_retry_failed_total", 1u64)
}

// ---------------------------------------------------------------- data availability sampling

/// A sample failed.
pub fn da_samples_failed() -> (r: MetricRecord)
    ensures
        r@ == record_view(MetricKind::Counter, "da_samples_failed_total"@, 1, Seq::empty()),
{
    plain_record(MetricKind::Counter, "da_samples_failed_total", 1u64)
}

/// A sample was verified.
pub fn da_samples_verified() -> (r: MetricRecord)
    ensures
        r@ == record_view(MetricKind::Counter, "da_samples_verified_total"@, 1, Seq::empty()),
{
    plain_record(MetricKind::Counter, "da_samples_verified_total", 1u64)
}

/// A blob was requested.
pub fn da_blob_requests() -> (r: MetricRecord)
    ensures
        r@ == record_view(MetricKind::Counter, "da_blob_requests_total"@, 1, Seq::empty()),
{
    plain_record(MetricKind::Counter, "da_blob_requests_total", 1u64)
}

/// A blob request was answered.
pub fn da_blob_responses() -> (r: MetricRecord)
    ensures
        r@ == record_view(MetricKind::Counter, "da_blob_responses_total"@, 1, Seq::empty()),
{
    plain_record(MetricKind::Counter, "da_blob_responses_total", 1u64)
}

// ---------------------------------------------------------------- data availability verifier

/// A share reached the verifier.
pub fn da_verifier_share_requests() -> (r: MetricRecord)
    ensures
        r@ == record_view(MetricKind::Counter, "da_verifier_share_requests_total"@, 1, Seq::empty()),
{
    plain_record(MetricKind::Counter, "da_verifier_share_requests_total", 1u64)
}

/// A share failed verification.
pub fn da_verifier_share_failed() -> (r: MetricRecord)
    ensures
        r@ == record_view(MetricKind::Counter, "da_verifier_share_failed_total"@, 1, Seq::empty()),
{
    plain_record(MetricKind::Counter, "da_verifier_share_failed_total", 1u64)
}

/// A transaction reached the verifier.
pub fn da_verifier_tx_requests() -> (r: MetricRecord)
    ensures
        r@ == record_view(MetricKind::Counter, "da_verifier_tx_requests_total"@, 1, Seq::empty()),
{
    plain_record(MetricKind::Counter, "da_verifier_tx_requests_total", 1u64)
}

/// A transaction failed verification.
pub fn da_verifier_tx_failed() -> (r: MetricRecord)
    ensures
        r@ == record_view(MetricKind::Counter, "da_verifier_tx_failed_total"@, 1, Seq::empty()),
{
    plain_record(MetricKind::Counter, "da_verifier_tx_failed_total", 1u64)
}

/// The verifier started a prune run.
pub fn da_verifier_prune_runs() -> (r: MetricRecord)
    ensures
        r@ == record_view(MetricKind::Counter, "da_verifier_prune_runs_total"@, 1, Seq::empty()),
{
    plain_record(MetricKind::Counter, "da_verifier_prune_runs_total", 1u64)
}

/// A prune run failed.
pub fn da_verifier_prune_failed() -> (r: MetricRecord)
    ensures
        r@ == record_view(MetricKind::Counter, "da_verifier_prune_failed_total"@, 1, Seq::empty()),
{
    plain_record(MetricKind::Counter, "da_verifier_prune_failed_total", 1u64)
}

// ---------------------------------------------------------------- time

/// The slot the clock is at.
pub fn time_current_slot(slot: u64) -> (r: MetricRecord)
    ensures
        r@ == record_view(MetricKind::Gauge, "time_current_slot"@, slot, Seq::empty()),
{
    plain_record(MetricKind::Gauge, "time_current_slot", slot)
}

/// The epoch the clock is at.
pub fn time_current_epoch(epoch: u32) -> (r: MetricRecord)
    ensures
        r@ == record_view(MetricKind::Gauge, "time_current_epoch"@, epoch as u64, Seq::empty()),
{
    plain_record(MetricKind::Gauge, "time_current_epoch", epoch)
}

/// Broadcasting a time tick failed.
pub fn time_broadcast_errors() -> (r: MetricRecord)
    ensures
        r@ == record_view(MetricKind::Counter, "time_broadcast_errors_total"@, 1, Seq::empty()),
{
    plain_record(MetricKind::Counter, "time_broadcast_errors_total", 1u64)
}

// ---------------------------------------------------------------- wallet

/// The requests the wallet service answers; the metrics read only which one it is.
#[derive(Debug, Clone, Copy, PartialEq, Eq)]
pub enum WalletMsg {
    GetBalance,
    FundAndSignTx,
    GetLeaderAgedNotes,
}

/// The `kind` attribute of a wallet request.
pub open spec fn wallet_kind(msg: WalletMsg) -> Seq<char> {
    match msg {
        WalletMsg::GetBalance => "get_balance"@,
        WalletMsg::FundAndSignTx => "fund_and_sign_tx"@,
        WalletMsg::GetLeaderAgedNotes => "get_leader_aged_notes"@,
    }
}

/// A wallet request arrived, counted by kind.
pub fn wallet_request(msg: &WalletMsg) -> (r: MetricRecord)
    ensures
        r@ == record_view(MetricKind::Counter, "wallet_requests_total"@, 1, seq![text_attr("kind"@, wallet_kind(*msg))]),
{
    let kind = match msg {
        WalletMsg::GetBalance => "get_balance",
        WalletMsg::FundAndSignTx => "fund_and_sign_tx",
        WalletMsg::GetLeaderAgedNotes => "get_leader_aged_notes",
    };
    tagged_record(MetricKind::Counter, "wallet_requests_total", 1u64, "kind", kind)
}

/// The reply to a balance request could not be sent.
pub fn wallet_response_send_failed_get_balance() -> (r: MetricRecord)
    ensures
        r@ == record_view(MetricKind::Counter, "wallet_response_send_failed_total"@, 1, seq![text_attr("kind"@, "get_balance"@)]),
{
    tagged_record(MetricKind::Counter, "wallet_response_send_failed_total", 1u64, "kind", "get_balance")
}

/// The reply to a fund-and-sign request could not be sent.
pub fn wallet_response_send_failed_fund_and_sign_tx() -> (r: MetricRecord)
    ensures
        r@ == record_view(MetricKind::Counter, "wallet_response_send_failed_total"@, 1, seq![text_attr("kind"@, "fund_and_sign_tx"@)]),
{
    tagged_record(MetricKind::Counter, "wallet_response_send_failed_total", 1u64, "kind", "fund_and_sign_tx")
}

/// The reply to a leader-aged-notes request could not be sent.
pub fn wallet_response_send_failed_get_leader_aged_notes() -> (r: MetricRecord)
    ensures
        r@ == record_view(MetricKind::Counter, "wallet_response_send_failed_total"@, 1, seq![text_attr("kind"@, "get_leader_aged_notes"@)]),
{
    tagged_record(MetricKind::Counter, "wallet_response_send_failed_total", 1u64, "kind", "get_leader_aged_notes")
}

} // verus!

use zone_metrics::metrics::{key_value, Attribute, AttributeValue, IntoMetricU64, IntoMetricValue, MetricKind, MetricRecord};
use zone_metrics::services::{
    consensus_proposals_create_failed, consensus_proposals_created_local, da_behaviour_event_received,
    da_behaviour_share_size_bytes, da_blob_requests, da_blob_responses, da_dispersal_payload_bytes,
    da_dispersal_requests, da_dispersal_requests_failed_process,
    da_dispersal_requests_failed_session_unavailable, da_dispersal_retry_failed, da_dispersal_retry_success,
    da_samples_failed, da_samples_verified, da_verifier_prune_failed, da_verifier_prune_runs,
    da_verifier_share_failed, da_verifier_share_requests, da_verifier_tx_failed, da_verifier_tx_requests,
    emit_block_imported_metric, emit_block_transactions_metric, emit_consensus_metrics, inbound_message_err,
    inbound_message_ok, mix_packets_processed_total, outbound_forward_err, outbound_forward_ok,
    outbound_publish_err, outbound_publish_ok, peers_connected, time_broadcast_errors, time_current_epoch,
    time_current_slot, wallet_request, wallet_response_send_failed_fund_and_sign_tx,
    wallet_response_send_failed_get_balance, wallet_response_send_failed_get_leader_aged_notes,
    ConsensusSnapshot, WalletMsg,
};

fn attr(key: &str, value: &str) -> Attribute {
    Attribute { key: key.to_string(), value: AttributeValue::Text(value.to_string()) }
}

fn check(r: MetricRecord, kind: MetricKind, name: &str, value: u64, attrs: Vec<Attribute>) {
    assert_eq!(r.kind, kind);
    assert_eq!(r.name, name);
    assert_eq!(r.value, value);
    assert_eq!(r.attributes, attrs);
}

#[test]
fn metric_u64_conversions() {
    assert_eq!(7u64.into_metric_u64(), 7);
    assert_eq!(usize::MAX.into_metric_u64(), usize::MAX as u64);
    assert_eq!(u32::MAX.into_metric_u64(), 4_294_967_295);
    assert_eq!((-5i32).into_metric_u64(), 0);
    assert_eq!(i32::MIN.into_metric_u64(), 0);
    assert_eq!(42i32.into_metric_u64(), 42);
}

#[test]
fn metric_value_conversions() {
    assert_eq!("abc".into_metric_value(), AttributeValue::Text("abc".to_string()));
    assert_eq!(String::from("x").into_metric_value(), AttributeValue::Text("x".to_string()));
    assert_eq!(65535u16.into_metric_value(), AttributeValue::Int(65535));
    let a = key_value("port", 8080u16);
    assert_eq!(a.key, "port");
    assert_eq!(a.value, AttributeValue::Int(8080));
    let v = opentelemetry::Value::from(true);
    assert_eq!(v.clone().into_metric_value(), AttributeValue::Otel(v.clone()));
    let b = key_value("ready", v.clone());
    assert_eq!(b.key, "ready");
    assert_eq!(b.value, AttributeValue::Otel(v));
}

#[test]
fn da_network_records() {
    check(da_behaviour_event_received("sampling"), MetricKind::Counter, "da_behaviour_events_received_total", 1, vec![attr("event", "sampling")]);
    check(da_behaviour_share_size_bytes("dispersal", 4096), MetricKind::Histogram, "da_behaviour_share_size_bytes", 4096, vec![attr("event", "dispersal")]);
}

#[test]
fn blend_records() {
    check(mix_packets_processed_total(), MetricKind::Counter, "blend_mix_packets_processed_total", 1, vec![]);
    check(peers_connected(12), MetricKind::Gauge, "blend_peers_connected", 12, vec![]);
    check(outbound_publish_ok(), MetricKind::Counter, "blend_messages_sent_total", 1, vec![attr("action", "publish")]);
    check(outbound_publish_err(), MetricKind::Counter, "blend_outbound_messages_failed_total", 1, vec![attr("action", "publish")]);
    check(outbound_forward_ok(), MetricKind::Counter, "blend_messages_sent_total", 1, vec![attr("action", "forward")]);
    check(outbound_forward_err(), MetricKind::Counter, "blend_outbound_messages_failed_total", 1, vec![attr("action", "forward")]);
    check(inbound_message_ok(), MetricKind::Counter, "blend_messages_received_total", 1, vec![]);
    check(inbound_message_err(), MetricKind::Counter, "blend_inbound_messages_failed_total", 1, vec![]);
}

#[test]
fn chain_records() {
    check(consensus_proposals_created_local(), MetricKind::Counter, "consensus_proposals_created_total", 1, vec![attr("origin", "local")]);
    check(consensus_proposals_create_failed(), MetricKind::Counter, "consensus_proposals_create_failed_total", 1, vec![attr("reason", "propose_block")]);
    check(emit_block_imported_metric(), MetricKind::Counter, "consensus_blocks_imported_total", 1, vec![]);
    check(emit_block_transactions_metric(17), MetricKind::Counter, "consensus_block_transactions_total", 17, vec![]);
}

#[test]
fn consensus_gauges() {
    let s = ConsensusSnapshot { tip_height: 120, finalized_height: 100, current_slot: 9000, current_epoch: 3, forks_count: 2 };
    let rs = emit_consensus_metrics(&s);
    assert_eq!(rs.len(), 5);
    let expected = [
        ("consensus_tip_height", 120),
        ("consensus_finalized_height", 100),
        ("consensus_current_epoch", 3),
        ("consensus_current_slot", 9000),
        ("consensus_forks_count", 2),
    ];
    for (r, (name, value)) in rs.into_iter().zip(expected) {
        check(r, MetricKind::Gauge, name, value, vec![]);
    }
}

#[test]
fn data_availability_records() {
    check(da_dispersal_requests(), MetricKind::Counter, "da_dispersal_requests_total", 1, vec![]);
    check(da_dispersal_payload_bytes(1 << 40), MetricKind::Histogram, "da_dispersal_payload_bytes", 1 << 40, vec![]);
    check(da_dispersal_requests_failed_session_unavailable(), MetricKind::Counter, "da_dispersal_requests_failed_total", 1, vec![attr("reason", "session_unavailable")]);
    check(da_dispersal_requests_failed_process(), MetricKind::Counter, "da_dispersal_requests_failed_total", 1, vec![attr("reason", "process")]);
    check(da_dispersal_retry_success(), MetricKind::Counter, "da_dispersal_retry_success_total", 1, vec![]);
    check(da_dispersal_retry_failed(), MetricKind::Counter, "da_dispersal_retry_failed_total", 1, vec![]);
    check(da_samples_failed(), MetricKind::Counter, "da_samples_failed_total", 1, vec![]);
    check(da_samples_verified(), MetricKind::Counter, "da_samples_verified_total", 1, vec![]);
    check(da_blob_requests(), MetricKind::Counter, "da_blob_requests_total", 1, vec![]);
    check(da_blob_responses(), MetricKind::Counter, "da_blob_responses_total", 1, vec![]);
    check(da_verifier_share_requests(), MetricKind::Counter, "da_verifier_share_requests_total", 1, vec![]);
    check(da_verifier_share_failed(), MetricKind::Counter, "da_verifier_share_failed_total", 1, vec![]);
    check(da_verifier_tx_requests(), MetricKind::Counter, "da_verifier_tx_requests_total", 1, vec![]);
    check(da_verifier_tx_failed(), MetricKind::Counter, "da_verifier_tx_failed_total", 1, vec![]);
    check(da_verifier_prune_runs(), MetricKind::Counter, "da_verifier_prune_runs_total", 1, vec![]);
    check(da_verifier_prune_failed(), MetricKind::Counter, "da_verifier_prune_failed_total", 1, vec![]);
}

#[test]
fn time_and_wallet_records() {
    check(time_current_slot(77), MetricKind::Gauge, "time_current_slot", 77, vec![]);
    check(time_current_epoch(4), MetricKind::Gauge, "time_current_epoch", 4, vec![]);
    check(time_broadcast_errors(), MetricKind::Counter, "time_broadcast_errors_total", 1, vec![]);
    check(wallet_request(&WalletMsg::GetBalance), MetricKind::Counter, "wallet_requests_total", 1, vec![attr("kind", "get_balance")]);
    check(wallet_request(&WalletMsg::FundAndSignTx), MetricKind::Counter, "wallet_requests_total", 1, vec![attr("kind", "fund_and_sign_tx")]);
    check(wallet_request(&WalletMsg::GetLeaderAgedNotes), MetricKind::Counter, "wallet_requests_total", 1, vec![attr("kind", "get_leader_aged_notes")]);
    check(wallet_response_send_failed_get_balance(), MetricKind::Counter, "wallet_response_send_failed_total", 1, vec![attr("kind", "get_balance")]);
    check(wallet_response_send_failed_fund_and_sign_tx(), MetricKind::Counter, "wallet_response_send_failed_total", 1, vec![attr("kind", "fund_and_sign_tx")]);
    check(wallet_response_send_failed_get_leader_aged_notes(), MetricKind::Counter, "wallet_response_send_failed_total", 1, vec![attr("kind", "get_leader_aged_notes")]);
}

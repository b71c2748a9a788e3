use opentelemetry::KeyValue;
use zone_metrics::registry::otel_attributes;
use zone_metrics::metrics::{key_value, MetricKind};
use zone_metrics::registry::MetricsRegistry;
use zone_metrics::services::{outbound_forward_ok, outbound_publish_ok, peers_connected, time_current_slot};

#[test]
fn one_instrument_per_name() {
    let mut reg = MetricsRegistry::new();
    assert_eq!(reg.instrument_count(MetricKind::Counter), 0);
    assert!(reg.record(&outbound_publish_ok()).is_ok());
    assert!(reg.record(&outbound_forward_ok()).is_ok());
    assert!(reg.record(&outbound_publish_ok()).is_ok());
    assert_eq!(reg.instrument_count(MetricKind::Counter), 1);
    assert!(reg.has_instrument(MetricKind::Counter, "blend_messages_sent_total"));
    assert!(!reg.has_instrument(MetricKind::Gauge, "blend_messages_sent_total"));
}

#[test]
fn kinds_are_kept_apart() {
    let mut reg = MetricsRegistry::new();
    reg.record(&peers_connected(3)).unwrap();
    reg.record(&time_current_slot(10)).unwrap();
    reg.histogram_u64("payload_bytes", 12usize, &vec![key_value("event", "x")]).unwrap();
    reg.counter_u64("time_current_slot", 1u64, &vec![]).unwrap();
    assert_eq!(reg.instrument_count(MetricKind::Gauge), 2);
    assert_eq!(reg.instrument_count(MetricKind::Histogram), 1);
    assert_eq!(reg.instrument_count(MetricKind::Counter), 1);
    reg.gauge_u64("blend_peers_connected", -1i32, &vec![]).unwrap();
    assert_eq!(reg.instrument_count(MetricKind::Gauge), 2);
}

#[test]
fn attributes_become_key_values() {
    let kvs = otel_attributes(&vec![key_value("action", "publish"), key_value("port", 8080u16)]);
    assert_eq!(kvs, vec![KeyValue::new("action", "publish"), KeyValue::new("port", 8080i64)]);
    let v = opentelemetry::Value::from(2.5);
    let kvs = otel_attributes(&vec![key_value("ratio", v.clone())]);
    assert_eq!(kvs, vec![KeyValue::new("ratio", v)]);
}

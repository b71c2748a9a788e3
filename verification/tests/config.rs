use zone_metrics::config::blend::{
    default_core_peering_degree, default_edge_config, default_edge_node_connection_timeout,
    default_max_dial_attempts_per_peer, default_max_edge_node_incoming_connections, BackendConfig, Config,
    CoreConfig, PeeringDegree,
};
use zone_metrics::config::cryptarchia::{default_network_config, default_service_bootstrap};
use zone_metrics::config::time::default_ntp_settings;

#[test]
fn blend_defaults() {
    assert_eq!(default_core_peering_degree(), PeeringDegree { min: 3, max: 5 });
    assert_eq!(default_edge_node_connection_timeout(), 5);
    assert_eq!(default_max_edge_node_incoming_connections(), 100);
    assert_eq!(default_max_dial_attempts_per_peer(), 3);
    let edge = default_edge_config();
    assert_eq!(edge.backend.max_dial_attempts_per_peer_per_message, 3);
    assert_eq!(edge.backend.replication_factor, 3);
}

#[test]
fn listening_address_is_replaced() {
    let mut c = Config {
        non_ephemeral_signing_key_id: "nsk".to_string(),
        recovery_path_prefix: "./recovery".to_string(),
        core: CoreConfig {
            backend: BackendConfig {
                listening_address: "/ip4/0.0.0.0/udp/3000/quic-v1".to_string(),
                core_peering_degree: PeeringDegree { min: 3, max: 5 },
                edge_node_connection_timeout_secs: 5,
                max_edge_node_incoming_connections: 100,
                max_dial_attempts_per_peer: 3,
            },
        },
        edge: default_edge_config(),
    };
    let before = c.clone();
    c.set_listening_address("/ip4/127.0.0.1/udp/4000/quic-v1".to_string());
    assert_eq!(c.core.backend.listening_address, "/ip4/127.0.0.1/udp/4000/quic-v1");
    c.core.backend.listening_address = before.core.backend.listening_address.clone();
    assert_eq!(c, before);
}

#[test]
fn chain_and_time_defaults() {
    let b = default_service_bootstrap();
    assert!(!b.force_bootstrap);
    assert_eq!(b.offline_grace_period.grace_period_secs, 1200);
    assert_eq!(b.offline_grace_period.state_recording_interval_secs, 60);
    assert_eq!(b.prolonged_bootstrap_period_secs, 86_400);
    let n = default_network_config();
    assert_eq!(n.ibd.delay_before_new_download_secs, 10);
    assert!(n.ibd.peers.is_empty());
    assert_eq!(n.max_orphan_cache_size, 5);
    let t = default_ntp_settings();
    assert_eq!(t.timeout_secs, 5);
    assert_eq!(t.listening_interface, [0, 0, 0, 0]);
    assert_eq!(t.ntp_server, "pool.ntp.org:123");
    assert_eq!(t.update_interval_secs, 15);
}

//! Blend network configuration and its defaults.

use vstd::prelude::*;

verus! {

/// An inclusive range of peering degrees (`min..=max`).
#[derive(Debug, Clone, Copy, PartialEq, Eq)]
pub struct PeeringDegree {
    pub min: u64,
    pub max: u64,
}

/// The blend core backend. The listening address is held in its text form.
#[derive(Debug, Clone, PartialEq, Eq)]
pub struct BackendConfig {
    pub listening_address: String,
    pub core_peering_degree: PeeringDegree,
    pub edge_node_connection_timeout_secs: u64,
    pub max_edge_node_incoming_connections: u64,
    pub max_dial_attempts_per_peer: u64,
}

impl BackendConfig {
    /// What the configuration types demand: a timeout of at least one second
    /// and a non-zero number of dial attempts.
    pub open spec fn wf(&self) -> bool {
        self.edge_node_connection_timeout_secs >= 1 && self.max_dial_attempts_per_peer >= 1
    }
}

/// The blend core configuration.
#[derive(Debug, Clone, PartialEq, Eq)]
pub struct CoreConfig {
    pub backend: BackendConfig,
}

/// The blend edge backend; both counts are non-zero.
#[derive(Debug, Clone, Copy, PartialEq, Eq)]
pub struct EdgeBackendConfig {
    pub max_dial_attempts_per_peer_per_message: u64,
    pub replication_factor: u64,
}

/// The blend edge configuration.
#[derive(Debug, Clone, Copy, PartialEq, Eq)]
pub struct EdgeConfig {
    pub backend: EdgeBackendConfig,
}

/// The blend section of the node's configuration file.
#[derive(Debug, Clone, PartialEq, Eq)]
pub struct Config {
    pub non_ephemeral_signing_key_id: String,
    pub recovery_path_prefix: String,
    pub core: CoreConfig,
    pub edge: EdgeConfig,
}

/// Peering degree when none is configured: 3 to 5.
pub fn default_core_peering_degree() -> (d: PeeringDegree)
    ensures
        d.min == 3 && d.max == 5,
{
    PeeringDegree { min: 3, max: 5 }
}

/// Edge connection timeout when none is configured: 5 seconds.
pub fn default_edge_node_connection_timeout() -> (secs: u64)
    ensures
        secs == 5,
{
    5
}

/// Incoming edge connections allowed when none is configured: 100.
pub fn default_max_edge_node_incoming_connections() -> (n: u64)
    ensures
        n == 100,
{
    100
}

/// Dial attempts per peer when none is configured: 3.
pub fn default_max_dial_attempts_per_peer() -> (n: u64)
    ensures
        n == 3,
{
    3
}

/// Edge configuration when none is configured: 3 dial attempts per peer and
/// message, replication factor 3.
pub fn default_edge_config() -> (c: EdgeConfig)
    ensures
        c.backend.max_dial_attempts_per_peer_per_message == 3,
        c.backend.replication_factor == 3,
{
    EdgeConfig {
        backend: EdgeBackendConfig { max_dial_attempts_per_peer_per_message: 3, replication_factor: 3 },
    }
}

impl Config {
    /// Replaces the core backend's listening address, and nothing else.
    pub fn set_listening_address(&mut self, addr: String)
        ensures
            final(self).core.backend.listening_address == addr,
            final(self).core.backend.core_peering_degree == old(self).core.backend.core_peering_degree,
            final(self).core.backend.edge_node_connection_timeout_secs == old(self).core.backend.edge_node_connection_timeout_secs,
            final(self).core.backend.max_edge_node_incoming_connections == old(self).core.backend.max_edge_node_incoming_connections,
            final(self).core.backend.max_dial_attempts_per_peer == old(self).core.backend.max_dial_attempts_per_peer,
            final(self).non_ephemeral_signing_key_id == old(self).non_ephemeral_signing_key_id,
            final(self).recovery_path_prefix == old(self).recovery_path_prefix,
            final(self).edge == old(self).edge,
    {
        self.core.backend.listening_address = addr;
    }
}

} // verus!

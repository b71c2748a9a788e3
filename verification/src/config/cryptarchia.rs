//! Chain (cryptarchia) configuration defaults.

use vstd::prelude::*;

verus! {

/// How long a node may stay offline before it must bootstrap again, and how
/// often it records its state meanwhile.
#[derive(Debug, Clone, Copy, PartialEq, Eq)]
pub struct OfflineGracePeriodConfig {
    pub grace_period_secs: u64,
    pub state_recording_interval_secs: u64,
}

/// The chain service's bootstrap settings.
#[derive(Debug, Clone, Copy, PartialEq, Eq)]
pub struct BootstrapConfig {
    pub force_bootstrap: bool,
    pub offline_grace_period: OfflineGracePeriodConfig,
    pub prolonged_bootstrap_period_secs: u64,
}

/// Bootstrap settings when none are configured: no forced bootstrap, a grace
/// period of 20 minutes with state recorded every minute, and a prolonged
/// bootstrap period of 24 hours.
pub fn default_service_bootstrap() -> (c: BootstrapConfig)
    ensures
        !c.force_bootstrap,
        c.offline_grace_period.grace_period_secs == 20 * 60,
        c.offline_grace_period.state_recording_interval_secs == 60,
        c.prolonged_bootstrap_period_secs == 24 * 60 * 60,
{
    BootstrapConfig {
        force_bootstrap: false,
        offline_grace_period: OfflineGracePeriodConfig {
            grace_period_secs: 20 * 60,
            state_recording_interval_secs: 60,
        },
        prolonged_bootstrap_period_secs: 24 * 60 * 60,
    }
}

/// Initial block download: how long to wait before a new download, and the
/// peers to download from (held by their ids' text form).
#[derive(Debug, Clone, PartialEq, Eq)]
pub struct IbdConfig {
    pub delay_before_new_download_secs: u64,
    pub peers: Vec<String>,
}

/// The chain network's settings: initial download and orphan handling.
#[derive(Debug, Clone, PartialEq, Eq)]
pub struct NetworkConfig {
    pub ibd: IbdConfig,
    pub max_orphan_cache_size: usize,
}

/// Network settings when none are configured: 10 seconds between downloads,
/// no initial peers, and room for 5 orphan blocks.
pub fn default_network_config() -> (c: NetworkConfig)
    ensures
        c.ibd.delay_before_new_download_secs == 10,
        c.ibd.peers@.len() == 0,
        c.max_orphan_cache_size == 5,
{
    NetworkConfig {
        ibd: IbdConfig { delay_before_new_download_secs: 10, peers: Vec::new() },
        max_orphan_cache_size: 5,
    }
}

} // verus!

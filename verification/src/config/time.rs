//! Time service (NTP) configuration defaults.

use vstd::prelude::*;

verus! {

/// The NTP backend: client timeout, the IPv4 interface to listen on, the
/// server to ask, and how often to ask it.
#[derive(Debug, Clone, PartialEq, Eq)]
pub struct NtpTimeBackendSettings {
    pub timeout_secs: u64,
    pub listening_interface: [u8; 4],
    pub ntp_server: String,
    pub update_interval_secs: u64,
}

/// NTP settings when none are configured: a 5 second timeout, listening on
/// the unspecified address 0.0.0.0, asking `pool.ntp.org:123` every 15 seconds.
pub fn default_ntp_settings() -> (s: NtpTimeBackendSettings)
    ensures
        s.timeout_secs == 5,
        s.listening_interface@ == seq![0u8, 0u8, 0u8, 0u8],
        s.ntp_server@ == "pool.ntp.org:123"@,
        s.update_interval_secs == 15,
{
    let s = NtpTimeBackendSettings {
        timeout_secs: 5,
        listening_interface: [0u8, 0u8, 0u8, 0u8],
        ntp_server: "pool.ntp.org:123".to_owned(),
        update_interval_secs: 15,
    };
    assert(s.listening_interface@ =~= seq![0u8, 0u8, 0u8, 0u8]);
    s
}

} // verus!

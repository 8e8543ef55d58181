//! The persisted application settings and their rules.

use vstd::prelude::*;

verus! {

/// UDP port the receiver listens on unless configured otherwise.
pub const DEFAULT_PORT: u16 = 26760;

/// Release-all timeout in milliseconds unless configured otherwise.
pub const DEFAULT_TIMEOUT_MS: u64 = 75;

/// Longest accepted timeout; longer ones could keep shutdown waiting.
pub const MAX_TIMEOUT_MS: u64 = 1000;

/// Timeout that older releases wrote as their default.
pub const LEGACY_DEFAULT_TIMEOUT_MS: u64 = 150;

/// The settings of the desktop application.
#[derive(Clone, Copy, Debug, PartialEq, Eq, Structural)]
pub struct AppSettings {
    pub port: u16,
    pub start_receiver_when_app_opens: bool,
    pub lock_to_first_sender: bool,
    pub packet_logging_enabled: bool,
    pub auto_download_updates: bool,
    pub auto_install_updates: bool,
    pub timeout_ms: u64,
}

/// The settings of a fresh installation.
pub open spec fn default_settings() -> AppSettings {
    AppSettings {
        port: DEFAULT_PORT,
        start_receiver_when_app_opens: true,
        lock_to_first_sender: false,
        packet_logging_enabled: false,
        auto_download_updates: true,
        auto_install_updates: true,
        timeout_ms: DEFAULT_TIMEOUT_MS,
    }
}

/// The message of a rejected port.
pub open spec fn invalid_port_message() -> Seq<char> {
    "port must be between 1 and 65535"@
}

/// The message of a rejected timeout.
pub open spec fn invalid_timeout_message() -> Seq<char> {
    "timeout must be between 1 and 1000 milliseconds"@
}

/// The settings are usable: a real port and a bounded, non-zero timeout.
pub open spec fn settings_valid(s: AppSettings) -> bool {
    s.port != 0 && 1 <= s.timeout_ms <= MAX_TIMEOUT_MS
}

impl AppSettings {
    /// Checks the settings; the port is checked before the timeout.
    pub fn validate(&self) -> (r: Result<(), String>)
        ensures
            r is Ok <==> settings_valid(*self),
            self.port == 0 ==> (r matches Err(m) && m@ == invalid_port_message()),
            self.port != 0 && !settings_valid(*self) ==> (r matches Err(m) && m@
                == invalid_timeout_message()),
    {
        if self.port == 0 {
            return Err(String::from_str("port must be between 1 and 65535"));
        }
        if !(1 <= self.timeout_ms && self.timeout_ms <= MAX_TIMEOUT_MS) {
            return Err(String::from_str("timeout must be between 1 and 1000 milliseconds"));
        }
        Ok(())
    }
}

impl Default for AppSettings {
    fn default() -> (s: AppSettings)
        ensures
            s == default_settings(),
    {
        AppSettings {
            port: DEFAULT_PORT,
            start_receiver_when_app_opens: true,
            lock_to_first_sender: false,
            packet_logging_enabled: false,
            auto_download_updates: true,
            auto_install_updates: true,
            timeout_ms: DEFAULT_TIMEOUT_MS,
        }
    }
}

/// Whether automatic update downloads are on when the settings file does
/// not say.
pub fn default_auto_download_updates() -> (r: bool)
    ensures
        r,
{
    true
}

/// Whether automatic update installation is on when the settings file does
/// not say.
pub fn default_auto_install_updates() -> (r: bool)
    ensures
        r,
{
    true
}

/// The settings after migrating values that older releases wrote: the
/// old default timeout becomes the current default.
pub open spec fn migrated(s: AppSettings) -> AppSettings {
    if s.timeout_ms == LEGACY_DEFAULT_TIMEOUT_MS {
        AppSettings { timeout_ms: DEFAULT_TIMEOUT_MS, ..s }
    } else {
        s
    }
}

/// Migrates settings read from disk.
pub fn migrate_settings(settings: &mut AppSettings)
    ensures
        *final(settings) == migrated(*old(settings)),
{
    if settings.timeout_ms == LEGACY_DEFAULT_TIMEOUT_MS {
        settings.timeout_ms = DEFAULT_TIMEOUT_MS;
    }
}

/// Migration keeps valid settings valid, turns the legacy default into a
/// valid timeout, and migrating twice is migrating once.
pub proof fn lemma_migration_is_safe(s: AppSettings)
    ensures
        settings_valid(s) ==> settings_valid(migrated(s)),
        migrated(migrated(s)) == migrated(s),
        settings_valid(default_settings()),
        migrated(default_settings()) == default_settings(),
{
}

} // verus!

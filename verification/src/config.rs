//! Timeout configuration and saved-connection options.

use vstd::prelude::*;
use std::time::Duration;

verus! {

/// What `Duration::from_secs` returns for `secs`: a duration of `secs`
/// whole seconds.
pub uninterp spec fn duration_of_secs(secs: u64) -> Duration;

/// Calls `std::time::Duration::from_secs`; the result is named by
/// `duration_of_secs`, a function of `secs` alone.
#[verifier::external_body]
fn duration_from_secs(secs: u64) -> (d: Duration)
    ensures
        d == duration_of_secs(secs),
{
    Duration::from_secs(secs)
}

/// Seconds that a connection activation may take by default.
pub const DEFAULT_CONNECTION_TIMEOUT_SECS: u64 = 30;
/// Seconds that a device disconnection may take by default.
pub const DEFAULT_DISCONNECT_TIMEOUT_SECS: u64 = 10;

/// Timeout configuration for NetworkManager operations.
#[derive(Debug, Clone, Copy)]
pub struct TimeoutConfig {
    /// Timeout for connection activation.
    pub connection_timeout: Duration,
    /// Timeout for device disconnection.
    pub disconnect_timeout: Duration,
}

/// The default configuration: 30 seconds to connect, 10 to disconnect.
pub open spec fn default_timeouts() -> TimeoutConfig {
    TimeoutConfig {
        connection_timeout: duration_of_secs(DEFAULT_CONNECTION_TIMEOUT_SECS),
        disconnect_timeout: duration_of_secs(DEFAULT_DISCONNECT_TIMEOUT_SECS),
    }
}

impl Default for TimeoutConfig {
    fn default() -> (c: TimeoutConfig)
        ensures
            c == default_timeouts(),
    {
        TimeoutConfig {
            connection_timeout: duration_from_secs(DEFAULT_CONNECTION_TIMEOUT_SECS),
            disconnect_timeout: duration_from_secs(DEFAULT_DISCONNECT_TIMEOUT_SECS),
        }
    }
}

impl TimeoutConfig {
    /// Creates a configuration with the default timeouts.
    pub fn new() -> (c: TimeoutConfig)
        ensures
            c == default_timeouts(),
    {
        TimeoutConfig::default()
    }

    /// Sets the connection activation timeout, keeping the other.
    pub fn with_connection_timeout(self, timeout: Duration) -> (c: TimeoutConfig)
        ensures
            c.connection_timeout == timeout,
            c.disconnect_timeout == self.disconnect_timeout,
    {
        TimeoutConfig { connection_timeout: timeout, disconnect_timeout: self.disconnect_timeout }
    }

    /// Sets the disconnection timeout, keeping the other.
    pub fn with_disconnect_timeout(self, timeout: Duration) -> (c: TimeoutConfig)
        ensures
            c.disconnect_timeout == timeout,
            c.connection_timeout == self.connection_timeout,
    {
        TimeoutConfig { connection_timeout: self.connection_timeout, disconnect_timeout: timeout }
    }
}

/// Options for saved NetworkManager connections.
#[derive(Debug, Clone)]
pub struct ConnectionOptions {
    /// Whether to connect automatically when available.
    pub autoconnect: bool,
    /// Priority for auto-connection (higher is preferred); `None` means
    /// NetworkManager's default of 0.
    pub autoconnect_priority: Option<i32>,
    /// Maximum auto-connect retries: `Some(0)` retries forever, `None` uses
    /// NetworkManager's global default.
    pub autoconnect_retries: Option<i32>,
}

impl Default for ConnectionOptions {
    fn default() -> (o: ConnectionOptions)
        ensures
            o.autoconnect,
            o.autoconnect_priority == None::<i32>,
            o.autoconnect_retries == None::<i32>,
    {
        ConnectionOptions { autoconnect: true, autoconnect_priority: None, autoconnect_retries: None }
    }
}

impl ConnectionOptions {
    /// Options with the given autoconnect setting and no priority or retry
    /// limit.
    pub fn new(autoconnect: bool) -> (o: ConnectionOptions)
        ensures
            o.autoconnect == autoconnect,
            o.autoconnect_priority == None::<i32>,
            o.autoconnect_retries == None::<i32>,
    {
        ConnectionOptions { autoconnect, autoconnect_priority: None, autoconnect_retries: None }
    }

    /// Sets the auto-connection priority, keeping the rest.
    pub fn with_priority(self, priority: i32) -> (o: ConnectionOptions)
        ensures
            o.autoconnect_priority == Some(priority),
            o.autoconnect == self.autoconnect,
            o.autoconnect_retries == self.autoconnect_retries,
    {
        ConnectionOptions { autoconnect_priority: Some(priority), ..self }
    }

    /// Sets the maximum number of auto-connect retries, keeping the rest.
    pub fn with_retries(self, retries: i32) -> (o: ConnectionOptions)
        ensures
            o.autoconnect_retries == Some(retries),
            o.autoconnect == self.autoconnect,
            o.autoconnect_priority == self.autoconnect_priority,
    {
        ConnectionOptions { autoconnect_retries: Some(retries), ..self }
    }
}

} // verus!

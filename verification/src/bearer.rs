//! Traffic statistics of a ModemManager bearer.

use vstd::prelude::*;
use crate::manager::{owned_to_u32, owned_to_u64, u32_in_value, u32_reading, i32_in_value, u64_in_value, u64_reading};

verus! {

/// The `Stats` of a bearer; a counter that was absent or unreadable is 0.
#[derive(Debug, Clone, Copy, Eq, PartialEq, Default)]
pub struct BearerStats {
    /// Bytes received in the current session (`rx-bytes`).
    pub rx_bytes: u64,
    /// Bytes sent in the current session (`tx-bytes`).
    pub tx_bytes: u64,
    /// Duration of the current session in seconds (`duration`).
    pub duration_seconds: u32,
    /// Connection attempts (`attempts`).
    pub attempts: u32,
    /// Failed connection attempts (`failed-attempts`).
    pub failed_attempts: u32,
    /// Total duration of all sessions in seconds (`total-duration`).
    pub total_duration_seconds: u32,
    /// Bytes received over all sessions (`total-rx-bytes`).
    pub total_rx_bytes: u64,
    /// Bytes sent over all sessions (`total-tx-bytes`).
    pub total_tx_bytes: u64,
}

/// A counter read as a `u64` (or a widened `u32`); 0 when absent or of
/// another type.
pub open spec fn u64_counter(value: Option<zvariant::OwnedValue>) -> u64 {
    match value {
        Some(v) => match u64_reading(u64_in_value(v), u32_in_value(v)) {
            Some(n) => n,
            None => 0,
        },
        None => 0,
    }
}

/// A counter read as a `u32` (or a non-negative `i32`); 0 when absent or
/// of another type.
pub open spec fn u32_counter(value: Option<zvariant::OwnedValue>) -> u32 {
    match value {
        Some(v) => match u32_reading(u32_in_value(v), i32_in_value(v)) {
            Some(n) => n,
            None => 0,
        },
        None => 0,
    }
}

/// The value found under one key of a property dictionary, if any.
pub open spec fn found(value: Option<&zvariant::OwnedValue>) -> Option<zvariant::OwnedValue> {
    match value {
        Some(v) => Some(*v),
        None => None,
    }
}

fn read_u64(value: Option<&zvariant::OwnedValue>) -> (r: u64)
    ensures
        r == u64_counter(found(value)),
{
    match value {
        Some(v) => match owned_to_u64(v) {
            Some(n) => n,
            None => 0,
        },
        None => 0,
    }
}

fn read_u32(value: Option<&zvariant::OwnedValue>) -> (r: u32)
    ensures
        r == u32_counter(found(value)),
{
    match value {
        Some(v) => match owned_to_u32(v) {
            Some(n) => n,
            None => 0,
        },
        None => 0,
    }
}

/// Decodes a bearer's `Stats` dictionary from the values found under its
/// keys `rx-bytes`, `tx-bytes`, `duration`, `attempts`, `failed-attempts`,
/// `total-duration`, `total-rx-bytes` and `total-tx-bytes`, in that order;
/// each counter that is absent or unreadable is 0.
pub fn decode_bearer_stats(
    rx_bytes: Option<&zvariant::OwnedValue>,
    tx_bytes: Option<&zvariant::OwnedValue>,
    duration: Option<&zvariant::OwnedValue>,
    attempts: Option<&zvariant::OwnedValue>,
    failed_attempts: Option<&zvariant::OwnedValue>,
    total_duration: Option<&zvariant::OwnedValue>,
    total_rx_bytes: Option<&zvariant::OwnedValue>,
    total_tx_bytes: Option<&zvariant::OwnedValue>,
) -> (s: BearerStats)
    ensures
        s.rx_bytes == u64_counter(found(rx_bytes)),
        s.tx_bytes == u64_counter(found(tx_bytes)),
        s.duration_seconds == u32_counter(found(duration)),
        s.attempts == u32_counter(found(attempts)),
        s.failed_attempts == u32_counter(found(failed_attempts)),
        s.total_duration_seconds == u32_counter(found(total_duration)),
        s.total_rx_bytes == u64_counter(found(total_rx_bytes)),
        s.total_tx_bytes == u64_counter(found(total_tx_bytes)),
{
    BearerStats {
        rx_bytes: read_u64(rx_bytes),
        tx_bytes: read_u64(tx_bytes),
        duration_seconds: read_u32(duration),
        attempts: read_u32(attempts),
        failed_attempts: read_u32(failed_attempts),
        total_duration_seconds: read_u32(total_duration),
        total_rx_bytes: read_u64(total_rx_bytes),
        total_tx_bytes: read_u64(total_tx_bytes),
    }
}

} // verus!

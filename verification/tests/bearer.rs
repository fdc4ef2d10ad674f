use nmrs::bearer::decode_bearer_stats;
use zvariant::OwnedValue;

#[test]
fn bearer_stats_read_each_counter() {
    let rx = OwnedValue::from(1_000_000_000_000u64);
    let tx = OwnedValue::from(42u32);
    let duration = OwnedValue::from(600u32);
    let attempts = OwnedValue::from(3i32);
    let failed = OwnedValue::from(-1i32);
    let wrong = OwnedValue::from(true);
    let s = decode_bearer_stats(
        Some(&rx),
        Some(&tx),
        Some(&duration),
        Some(&attempts),
        Some(&failed),
        None,
        Some(&wrong),
        None,
    );
    assert_eq!(s.rx_bytes, 1_000_000_000_000);
    assert_eq!(s.tx_bytes, 42);
    assert_eq!(s.duration_seconds, 600);
    assert_eq!(s.attempts, 3);
    assert_eq!(s.failed_attempts, 0);
    assert_eq!(s.total_duration_seconds, 0);
    assert_eq!(s.total_rx_bytes, 0);
    assert_eq!(s.total_tx_bytes, 0);
}

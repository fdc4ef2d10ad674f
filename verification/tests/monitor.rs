use nmrs::monitor::{on_network_change, watch_access_points, MonitoredAccessPoints, NetworkChange};

#[test]
fn added_access_point_is_watched_once() {
    let mut m = MonitoredAccessPoints::new();
    let r = on_network_change(&mut m, NetworkChange::Added("/ap/1".into()));
    assert_eq!(r.watch_strength, Some("/ap/1".to_string()));
    assert!(r.notify);
    let r = on_network_change(&mut m, NetworkChange::Added("/ap/1".into()));
    assert_eq!(r.watch_strength, None);
    assert!(r.notify);
    assert_eq!(m.len(), 1);
    let r = on_network_change(&mut m, NetworkChange::Removed("/ap/1".into()));
    assert!(r.notify);
    assert!(!m.contains("/ap/1"));
    let r = on_network_change(&mut m, NetworkChange::Added("/ap/1".into()));
    assert_eq!(r.watch_strength, Some("/ap/1".to_string()));
}

#[test]
fn device_added_waits_for_subscription() {
    let mut m = MonitoredAccessPoints::new();
    let r = on_network_change(&mut m, NetworkChange::DeviceAdded("/dev/3".into()));
    assert_eq!(r.subscribe_device, Some("/dev/3".to_string()));
    assert!(!r.notify);
    let r = on_network_change(&mut m, NetworkChange::SignalStrengthChanged);
    assert!(r.notify);
    assert_eq!(r.watch_strength, None);
    assert_eq!(m.len(), 0);
}

#[test]
fn listed_access_points_are_watched_once() {
    let mut m = MonitoredAccessPoints::new();
    assert!(m.insert("/ap/2"));
    let fresh = watch_access_points(
        &mut m,
        vec!["/ap/1".into(), "/ap/2".into(), "/ap/3".into(), "/ap/1".into()],
    );
    assert_eq!(fresh, vec!["/ap/1".to_string(), "/ap/3".to_string()]);
    assert_eq!(m.len(), 3);
    m.remove("/ap/2");
    assert_eq!(m.len(), 2);
    assert!(m.contains("/ap/3"));
}

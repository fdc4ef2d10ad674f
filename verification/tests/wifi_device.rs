use nmrs::wifi_device::{is_wifi_device, wifi_device_paths, wifi_device_snapshot};

fn s(t: &str) -> Option<String> {
    Some(t.to_string())
}

#[test]
fn snapshot_of_an_active_device() {
    let d = wifi_device_snapshot(
        "/org/freedesktop/NetworkManager/Devices/3".to_string(),
        s("wlan0"),
        s("aa:bb:cc:dd:ee:ff"),
        s("11:22:33:44:55:66"),
        s("iwlwifi"),
        100,
        Some(true),
        Some(false),
        s("/org/freedesktop/NetworkManager/AccessPoint/7"),
        s("Home"),
        Some(2412),
    );
    assert_eq!(d.path, "/org/freedesktop/NetworkManager/Devices/3");
    assert_eq!(d.interface, "wlan0");
    assert_eq!(d.hw_address, "aa:bb:cc:dd:ee:ff");
    assert_eq!(d.permanent_hw_address, s("11:22:33:44:55:66"));
    assert_eq!(d.driver, s("iwlwifi"));
    assert_eq!(d.state, 100);
    assert!(d.managed);
    assert!(!d.autoconnect);
    assert!(d.is_active);
    assert_eq!(d.active_ssid, s("Home"));
    assert_eq!(d.active_frequency_mhz, Some(2412));
}

#[test]
fn snapshot_falls_back_where_reads_failed() {
    let d = wifi_device_snapshot(
        "/dev/1".to_string(),
        None,
        None,
        None,
        None,
        30,
        None,
        None,
        None,
        s("Stale"),
        Some(5180),
    );
    assert_eq!(d.interface, "");
    assert_eq!(d.hw_address, "00:00:00:00:00:00");
    assert_eq!(d.permanent_hw_address, None);
    assert_eq!(d.driver, None);
    assert!(!d.managed);
    assert!(d.autoconnect);
    assert!(!d.is_active);
    assert_eq!(d.active_ssid, None);
    assert_eq!(d.active_frequency_mhz, None);
}

#[test]
fn null_access_point_means_inactive() {
    let d = wifi_device_snapshot(
        "/dev/1".to_string(),
        s("wlan1"),
        s("aa:aa:aa:aa:aa:aa"),
        None,
        None,
        30,
        Some(true),
        Some(true),
        s("/"),
        s("Home"),
        Some(2412),
    );
    assert!(!d.is_active);
    assert_eq!(d.active_ssid, None);
    assert_eq!(d.active_frequency_mhz, None);
}

#[test]
fn active_device_whose_access_point_was_unreadable() {
    let d = wifi_device_snapshot(
        "/dev/1".to_string(),
        s("wlan0"),
        s("aa:aa:aa:aa:aa:aa"),
        None,
        None,
        100,
        Some(true),
        Some(true),
        s("/ap/1"),
        None,
        None,
    );
    assert!(d.is_active);
    assert_eq!(d.active_ssid, None);
    assert_eq!(d.active_frequency_mhz, None);
}

#[test]
fn only_wifi_devices_are_listed_in_order() {
    let devices = vec![
        ("/dev/1".to_string(), 1),
        ("/dev/2".to_string(), 2),
        ("/dev/3".to_string(), 14),
        ("/dev/4".to_string(), 2),
    ];
    assert_eq!(wifi_device_paths(devices), vec!["/dev/2".to_string(), "/dev/4".to_string()]);
    assert!(wifi_device_paths(Vec::new()).is_empty());
    assert!(is_wifi_device(2));
    assert!(!is_wifi_device(1));
}

use nmrs::access_point::ApMode;
use nmrs::network_info::{
    captive_portal_url, is_active_network, is_captive, network_details, non_empty_text,
    portal_url, rate_mbps, security_label, status_label, ApReading,
};

#[test]
fn security_labels() {
    assert_eq!(security_label(0, 0, 0), "Open");
    assert_eq!(security_label(0x1, 0, 0), "WEP");
    assert_eq!(security_label(0x1, 0x104, 0), "WPA + PSK");
    assert_eq!(security_label(0x1, 0, 0x108), "WPA2/WPA3 + PSK");
    assert_eq!(security_label(0x1, 0x104, 0x108), "WPA + WPA2/WPA3 + PSK");
    assert_eq!(security_label(0x1, 0, 0x208), "WPA2/WPA3 + 802.1X");
}

#[test]
fn status_and_rate() {
    assert_eq!(status_label(true), "Connected");
    assert_eq!(status_label(false), "Disconnected");
    assert_eq!(rate_mbps(Some(54000)), Some(54));
    assert_eq!(rate_mbps(Some(999)), Some(0));
    assert_eq!(rate_mbps(None), None);
}

#[test]
fn portal_addresses() {
    assert_eq!(non_empty_text(Some(String::new())), None);
    assert_eq!(non_empty_text(Some("http://x".into())), Some("http://x".to_string()));
    assert_eq!(portal_url(vec![None, Some(String::new()), Some("http://p".into())]), Some("http://p".to_string()));
    assert_eq!(portal_url(vec![Some("a".into()), Some("b".into())]), Some("a".to_string()));
    assert_eq!(portal_url(vec![]), None);
}

fn reading(ssid: &str, bssid: &str, rsn: u32) -> ApReading {
    ApReading {
        ssid: ssid.to_string(),
        bssid: bssid.to_string(),
        flags: 0x1,
        wpa_flags: 0,
        rsn_flags: rsn,
        frequency: Some(5180),
        max_bitrate: Some(866700),
        mode: Some(2),
    }
}

#[test]
fn details_come_from_the_first_matching_access_point() {
    let readings = vec![
        reading("Other", "00:00:00:00:00:01", 0),
        reading("Home", "00:00:00:00:00:02", 0x108),
        reading("Home", "00:00:00:00:00:03", 0),
    ];
    let active = Some("Home".to_string());
    let d = network_details(
        "Home",
        Some(70),
        &active,
        Some("192.168.1.5".to_string()),
        Some("fe80::1".to_string()),
        &readings,
    )
    .unwrap();
    assert_eq!(d.ssid, "Home");
    assert_eq!(d.bssid, "00:00:00:00:00:02");
    assert_eq!(d.strength, 70);
    assert_eq!(d.freq, Some(5180));
    assert_eq!(d.mode, Some(ApMode::Infrastructure));
    assert_eq!(d.rate_mbps, Some(866));
    assert_eq!(d.security, "WPA2/WPA3 + PSK");
    assert_eq!(d.status, "Connected");
    assert_eq!(d.ip4_address.as_deref(), Some("192.168.1.5"));
    assert_eq!(d.ip6_address.as_deref(), Some("fe80::1"));
}

#[test]
fn details_of_a_network_not_connected_hold_no_addresses() {
    let mut ap = reading("Cafe", "aa:bb:cc:dd:ee:ff", 0);
    ap.flags = 0;
    ap.frequency = None;
    ap.max_bitrate = None;
    ap.mode = None;
    let d = network_details("Cafe", None, &Some("Home".to_string()), Some("10.0.0.2".to_string()), None, &vec![ap])
        .unwrap();
    assert_eq!(d.strength, 0);
    assert_eq!(d.freq, None);
    assert_eq!(d.mode, None);
    assert_eq!(d.rate_mbps, None);
    assert_eq!(d.security, "Open");
    assert_eq!(d.status, "Disconnected");
    assert_eq!(d.ip4_address, None);
    assert_eq!(d.ip6_address, None);
}

#[test]
fn details_of_an_unseen_network_are_none() {
    let readings = vec![reading("Other", "00:00:00:00:00:01", 0)];
    assert!(network_details("Home", Some(50), &None, None, None, &readings).is_none());
    assert!(network_details("Home", Some(50), &None, None, None, &Vec::new()).is_none());
}

#[test]
fn active_network_is_the_one_whose_ssid_was_read() {
    assert!(is_active_network(&Some("Home".to_string()), "Home"));
    assert!(!is_active_network(&Some("Home".to_string()), "home"));
    assert!(!is_active_network(&None, "Home"));
}

#[test]
fn only_the_portal_state_is_captive() {
    assert!(is_captive(2));
    for state in [0, 1, 3, 4] {
        assert!(!is_captive(state));
    }
}

fn s(t: &str) -> Option<String> {
    Some(t.to_string())
}

#[test]
fn captive_portal_prefers_the_ip4_address() {
    let primary = s("/org/freedesktop/NetworkManager/ActiveConnection/1");
    let ip4 = Some(s("/org/freedesktop/NetworkManager/IP4Config/3"));
    assert_eq!(
        captive_portal_url(primary.clone(), ip4.clone(), s("http://portal.example/"), s("http://check.example/")),
        s("http://portal.example/")
    );
    assert_eq!(
        captive_portal_url(primary.clone(), ip4, None, s("http://check.example/")),
        s("http://check.example/")
    );
    assert_eq!(
        captive_portal_url(primary.clone(), Some(s("/")), s("http://portal.example/"), s("http://check.example/")),
        s("http://check.example/")
    );
    assert_eq!(
        captive_portal_url(primary.clone(), Some(None), s("http://portal.example/"), s("")),
        None
    );
}

#[test]
fn captive_portal_without_primary_connection() {
    assert_eq!(captive_portal_url(s("/"), None, None, s("http://check.example/")), s("http://check.example/"));
    assert_eq!(captive_portal_url(s("/"), None, None, s("")), None);
    assert_eq!(captive_portal_url(None, None, None, s("http://check.example/")), None);
    assert_eq!(
        captive_portal_url(s("/org/freedesktop/NetworkManager/ActiveConnection/1"), None, None, s("http://check.example/")),
        None
    );
}

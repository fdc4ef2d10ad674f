use nmrs::config::{ConnectionOptions, TimeoutConfig};
use nmrs::vpn::{OpenVpnConnectionType, VpnKind};
use std::time::Duration;

#[test]
fn timeout_defaults_and_overrides() {
    let c = TimeoutConfig::new();
    assert_eq!(c.connection_timeout, Duration::from_secs(30));
    assert_eq!(c.disconnect_timeout, Duration::from_secs(10));
    let c = c.with_connection_timeout(Duration::from_secs(60));
    assert_eq!(c.connection_timeout, Duration::from_secs(60));
    assert_eq!(c.disconnect_timeout, Duration::from_secs(10));
    let c = c.with_disconnect_timeout(Duration::from_secs(20));
    assert_eq!(c.disconnect_timeout, Duration::from_secs(20));
    assert_eq!(c.connection_timeout, Duration::from_secs(60));
    assert_eq!(TimeoutConfig::default().connection_timeout, Duration::from_secs(30));
}

#[test]
fn connection_options_builders() {
    let d = ConnectionOptions::default();
    assert!(d.autoconnect);
    assert_eq!(d.autoconnect_priority, None);
    assert_eq!(d.autoconnect_retries, None);
    let o = ConnectionOptions::new(false).with_priority(10).with_retries(3);
    assert!(!o.autoconnect);
    assert_eq!(o.autoconnect_priority, Some(10));
    assert_eq!(o.autoconnect_retries, Some(3));
    let o = ConnectionOptions::new(true).with_retries(0).with_priority(-50);
    assert_eq!(o.autoconnect_retries, Some(0));
    assert_eq!(o.autoconnect_priority, Some(-50));
}

#[test]
fn openvpn_connection_types() {
    assert_eq!(OpenVpnConnectionType::from_nm_str("tls"), Some(OpenVpnConnectionType::Tls));
    assert_eq!(OpenVpnConnectionType::from_nm_str("static-key"), Some(OpenVpnConnectionType::StaticKey));
    assert_eq!(OpenVpnConnectionType::from_nm_str("password"), Some(OpenVpnConnectionType::Password));
    assert_eq!(OpenVpnConnectionType::from_nm_str("password-tls"), Some(OpenVpnConnectionType::PasswordTls));
    assert_eq!(OpenVpnConnectionType::from_nm_str("TLS"), None);
    assert_eq!(OpenVpnConnectionType::from_nm_str(""), None);
    assert_ne!(VpnKind::Plugin, VpnKind::WireGuard);
}

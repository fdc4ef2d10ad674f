use nmrs::access_point::{
    decode_security, ApMode, ConnectType, SecurityFeatures, AP_FLAGS_PRIVACY, AP_FLAGS_WPS,
    SEC_KEY_MGMT_802_1X, SEC_KEY_MGMT_EAP_SUITE_B_192, SEC_KEY_MGMT_OWE, SEC_KEY_MGMT_OWE_TM,
    SEC_KEY_MGMT_PSK, SEC_KEY_MGMT_SAE, SEC_PAIR_CCMP, SEC_PAIR_TKIP, SEC_PAIR_WEP104,
    SEC_PAIR_WEP40,
};

#[test]
fn decode_open_network() {
    let sec = decode_security(0, 0, 0);
    assert!(sec.is_open());
    assert!(!sec.is_enterprise());
    assert!(!sec.is_wpa3());
    assert_eq!(sec.preferred_connect_type(), ConnectType::Open);
}

#[test]
fn decode_wep40() {
    let sec = decode_security(AP_FLAGS_PRIVACY, SEC_PAIR_WEP40, 0);
    assert!(!sec.is_open());
    assert!(sec.privacy);
    assert!(sec.wep40);
    assert_eq!(sec.preferred_connect_type(), ConnectType::Open);
}

#[test]
fn decode_wep104() {
    let sec = decode_security(AP_FLAGS_PRIVACY, SEC_PAIR_WEP104, 0);
    assert!(sec.wep104);
    assert!(sec.privacy);
}

#[test]
fn decode_wpa_tkip_psk() {
    let sec = decode_security(AP_FLAGS_PRIVACY, SEC_PAIR_TKIP | SEC_KEY_MGMT_PSK, 0);
    assert!(sec.psk);
    assert!(sec.tkip);
    assert!(!sec.ccmp);
    assert_eq!(sec.preferred_connect_type(), ConnectType::Psk);
}

#[test]
fn decode_wpa2_ccmp_psk() {
    let sec = decode_security(AP_FLAGS_PRIVACY, 0, SEC_PAIR_CCMP | SEC_KEY_MGMT_PSK);
    assert!(sec.psk);
    assert!(sec.ccmp);
    assert!(!sec.tkip);
    assert_eq!(sec.preferred_connect_type(), ConnectType::Psk);
}

#[test]
fn decode_wpa2_enterprise() {
    let sec = decode_security(AP_FLAGS_PRIVACY, 0, SEC_PAIR_CCMP | SEC_KEY_MGMT_802_1X);
    assert!(sec.eap);
    assert!(sec.ccmp);
    assert!(sec.is_enterprise());
    assert_eq!(sec.preferred_connect_type(), ConnectType::Eap);
}

#[test]
fn decode_wpa3_sae() {
    let sec = decode_security(AP_FLAGS_PRIVACY, 0, SEC_PAIR_CCMP | SEC_KEY_MGMT_SAE);
    assert!(sec.sae);
    assert!(sec.ccmp);
    assert!(sec.is_wpa3());
    assert_eq!(sec.preferred_connect_type(), ConnectType::Sae);
}

#[test]
fn decode_owe() {
    let sec = decode_security(0, 0, SEC_PAIR_CCMP | SEC_KEY_MGMT_OWE);
    assert!(sec.owe);
    assert!(sec.is_wpa3());
    assert_eq!(sec.preferred_connect_type(), ConnectType::Owe);
}

#[test]
fn decode_owe_transition() {
    let sec = decode_security(0, 0, SEC_KEY_MGMT_OWE_TM);
    assert!(sec.owe_transition_mode);
    assert_eq!(sec.preferred_connect_type(), ConnectType::Owe);
}

#[test]
fn decode_eap_suite_b_192() {
    let sec = decode_security(
        AP_FLAGS_PRIVACY,
        0,
        SEC_PAIR_CCMP | SEC_KEY_MGMT_EAP_SUITE_B_192,
    );
    assert!(sec.eap_suite_b_192);
    assert!(sec.is_enterprise());
    assert_eq!(sec.preferred_connect_type(), ConnectType::Eap);
}

#[test]
fn decode_wps_flag() {
    let sec = decode_security(AP_FLAGS_WPS, 0, 0);
    assert!(sec.wps);
}

#[test]
fn decode_mixed_wpa_wpa2() {
    let sec = decode_security(
        AP_FLAGS_PRIVACY,
        SEC_PAIR_TKIP | SEC_KEY_MGMT_PSK,
        SEC_PAIR_CCMP | SEC_KEY_MGMT_PSK,
    );
    assert!(sec.psk);
    assert!(sec.tkip);
    assert!(sec.ccmp);
}

#[test]
fn ap_mode_from_u32() {
    assert_eq!(ApMode::from(1), ApMode::Adhoc);
    assert_eq!(ApMode::from(2), ApMode::Infrastructure);
    assert_eq!(ApMode::from(3), ApMode::Ap);
    assert_eq!(ApMode::from(4), ApMode::Mesh);
    assert_eq!(ApMode::from(99), ApMode::Unknown(99));
}

#[test]
fn ap_mode_display() {
    assert_eq!(ApMode::Adhoc.to_string(), "Ad-Hoc");
    assert_eq!(ApMode::Infrastructure.to_string(), "Infrastructure");
    assert_eq!(ApMode::Ap.to_string(), "AP");
    assert_eq!(ApMode::Mesh.to_string(), "Mesh");
    assert_eq!(ApMode::Unknown(42).to_string(), "Unknown(42)");
}

#[test]
fn connect_type_display() {
    assert_eq!(ConnectType::Open.to_string(), "Open");
    assert_eq!(ConnectType::Psk.to_string(), "PSK");
    assert_eq!(ConnectType::Sae.to_string(), "SAE");
    assert_eq!(ConnectType::Eap.to_string(), "EAP");
    assert_eq!(ConnectType::Owe.to_string(), "OWE");
}

#[test]
fn security_features_default_is_open() {
    let sec = SecurityFeatures::default();
    assert!(sec.is_open());
}

#[test]
fn eap_prioritized_over_psk() {
    let sec = SecurityFeatures {
        psk: true,
        eap: true,
        ccmp: true,
        privacy: true,
        ..Default::default()
    };
    assert_eq!(sec.preferred_connect_type(), ConnectType::Eap);
}

#[test]
fn sae_prioritized_over_psk() {
    let sec = SecurityFeatures {
        psk: true,
        sae: true,
        ccmp: true,
        privacy: true,
        ..Default::default()
    };
    assert_eq!(sec.preferred_connect_type(), ConnectType::Sae);
}

#[test]
fn decode_combines_wpa_and_rsn_in_any_order() {
    let a = decode_security(AP_FLAGS_PRIVACY, SEC_KEY_MGMT_PSK, SEC_PAIR_CCMP);
    let b = decode_security(AP_FLAGS_PRIVACY, SEC_PAIR_CCMP, SEC_KEY_MGMT_PSK);
    let c = decode_security(AP_FLAGS_PRIVACY, SEC_PAIR_CCMP | SEC_KEY_MGMT_PSK, 0);
    assert_eq!(a, b);
    assert_eq!(a, c);
}

#[test]
fn ap_mode_unknown_renders_decimal() {
    assert_eq!(ApMode::Unknown(0).to_string(), "Unknown(0)");
    assert_eq!(ApMode::from(4294967295).to_string(), "Unknown(4294967295)");
    assert_eq!(ApMode::from(0), ApMode::Unknown(0));
}

#[test]
fn owe_transition_only_is_not_wpa3_but_prefers_owe() {
    let sec = decode_security(0, 0, SEC_KEY_MGMT_OWE_TM);
    assert!(!sec.is_wpa3());
    assert!(!sec.is_open());
    let tkip_only = decode_security(0, SEC_PAIR_TKIP, 0);
    assert!(tkip_only.is_open());
}

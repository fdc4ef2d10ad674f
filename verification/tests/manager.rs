use nmrs::manager::{
    all_bearers_path, bearer_creation_error, bearer_disconnect_error, combine_i32_reading,
    combine_u32_reading, combine_u64_reading, connection_status, first_modem_path,
    mentions_wrong_pin, mentions_wrong_puk, modem_by_imei, modem_object_path, modem_paths,
    object_path_option, owned_to_i32, owned_to_u32, owned_to_u64, pin_error, primary_modem,
    puk_error, sort_texts, validate_apn, MODEM_INTERFACE,
};
use nmrs::modem::{AccessTechnology, Modem, ModemState};
use nmrs::modem_error::ModemError;

fn modem(path: &str, imei: &str) -> Modem {
    Modem {
        path: path.to_string(),
        state: ModemState::Registered,
        manufacturer: "Acme".to_string(),
        model: "M1".to_string(),
        equipment_identifier: imei.to_string(),
        access_technologies: AccessTechnology::LTE(),
        signal_quality: 55,
        primary_sim_path: Some("/sim/0".to_string()),
        bearer_paths: vec!["/bearer/1".to_string()],
    }
}

#[test]
fn modem_paths_keep_modems_in_order() {
    let objects = vec![
        ("/org/freedesktop/ModemManager1/Modem/2".to_string(), vec![MODEM_INTERFACE.to_string()]),
        ("/org/freedesktop/ModemManager1/SIM/0".to_string(), vec!["org.freedesktop.ModemManager1.Sim".to_string()]),
        (
            "/org/freedesktop/ModemManager1/Modem/0".to_string(),
            vec!["org.freedesktop.DBus.Properties".to_string(), MODEM_INTERFACE.to_string()],
        ),
        ("/org/freedesktop/ModemManager1/Modem/1".to_string(), vec![MODEM_INTERFACE.to_string()]),
    ];
    let paths = modem_paths(objects);
    assert_eq!(
        paths,
        vec![
            "/org/freedesktop/ModemManager1/Modem/0".to_string(),
            "/org/freedesktop/ModemManager1/Modem/1".to_string(),
            "/org/freedesktop/ModemManager1/Modem/2".to_string(),
        ]
    );
}

#[test]
fn sort_matches_string_order() {
    let input: Vec<String> = ["b", "a", "ab", "", "B", "é", "aa", "a"].iter().map(|s| s.to_string()).collect();
    let mut expected = input.clone();
    expected.sort();
    assert_eq!(sort_texts(input), expected);
}

#[test]
fn primary_modem_is_the_first() {
    assert!(matches!(first_modem_path(vec![]), Err(ModemError::NoModems)));
    assert_eq!(first_modem_path(vec!["/a".into(), "/b".into()]).unwrap(), "/a");
    assert!(matches!(primary_modem(vec![]), Err(ModemError::NoModems)));
    let m = primary_modem(vec![modem("/m/0", "1"), modem("/m/1", "2")]).unwrap();
    assert_eq!(m.path, "/m/0");
}

#[test]
fn modem_by_imei_finds_first_match() {
    let modems = vec![modem("/m/0", "111"), modem("/m/1", "222"), modem("/m/2", "222")];
    assert_eq!(modem_by_imei(modems.clone(), "222").unwrap().path, "/m/1");
    match modem_by_imei(modems, "333") {
        Err(ModemError::ModemNotFound(text)) => assert_eq!(text, "IMEI 333"),
        other => panic!("unexpected {other:?}"),
    }
}

#[test]
fn status_prefers_reported_values() {
    let s = connection_status(modem("/m/0", "1"), Some(11), None, Some(0x20), None);
    assert_eq!(s.modem_path, "/m/0");
    assert_eq!(s.state, ModemState::Connected);
    assert!(s.connected);
    assert_eq!(s.access_technology, AccessTechnology::UMTS());
    assert_eq!(s.signal_quality, Some(55));
    assert_eq!(s.bearer_paths, vec!["/bearer/1".to_string()]);

    let s = connection_status(modem("/m/0", "1"), None, Some(0x8000), Some(0x20), Some(7));
    assert_eq!(s.state, ModemState::Registered);
    assert!(!s.connected);
    assert_eq!(s.access_technology, AccessTechnology::FIVE_G_NR());
    assert_eq!(s.signal_quality, Some(7));

    let s = connection_status(modem("/m/0", "1"), Some(99), None, None, None);
    assert_eq!(s.state, ModemState::Unknown);
    assert_eq!(s.access_technology, AccessTechnology::LTE());
}

#[test]
fn object_path_option_drops_root() {
    assert_eq!(object_path_option("/"), None);
    assert_eq!(object_path_option("/sim/1"), Some("/sim/1".to_string()));
}

#[test]
fn apn_must_not_be_blank() {
    assert!(validate_apn("internet").is_ok());
    match validate_apn("  ") {
        Err(ModemError::InvalidApn(a)) => assert_eq!(a, "  "),
        other => panic!("unexpected {other:?}"),
    }
    assert!(matches!(validate_apn(""), Err(ModemError::InvalidApn(_))));
}

#[test]
fn wrong_pin_and_puk_are_recognised() {
    assert!(mentions_wrong_pin("org.freedesktop.ModemManager1.Error.MobileEquipment.IncorrectPassword: Wrong PIN"));
    assert!(!mentions_wrong_pin("SIM busy"));
    assert!(mentions_wrong_puk("WRONG PUK code"));
    assert!(!mentions_wrong_puk("wrong pin"));
    assert!(matches!(pin_error(zbus::Error::Failure("Wrong PIN given".into())), ModemError::WrongPin));
    assert!(matches!(pin_error(zbus::Error::InvalidReply), ModemError::Dbus(_)));
    assert!(matches!(puk_error(zbus::Error::Failure("wrong PUK".into())), ModemError::WrongPuk));
    assert!(matches!(puk_error(zbus::Error::Failure("wrong PIN".into())), ModemError::Dbus(_)));
}

#[test]
fn bearer_errors_carry_the_cause() {
    match bearer_creation_error(zbus::Error::Failure("no signal".into())) {
        ModemError::BearerCreationFailed(m) => assert_eq!(m, "Simple.Connect failed: no signal"),
        other => panic!("unexpected {other:?}"),
    }
    match bearer_disconnect_error(zbus::Error::Failure("busy".into())) {
        ModemError::BearerDisconnectFailed(m) => assert_eq!(m, "Simple.Disconnect failed: busy"),
        other => panic!("unexpected {other:?}"),
    }
}

#[test]
fn object_paths_are_checked() {
    let p = modem_object_path("/org/freedesktop/ModemManager1/Modem/0").unwrap();
    assert_eq!(p.as_str(), "/org/freedesktop/ModemManager1/Modem/0");
    assert!(modem_object_path("/").is_ok());
    for bad in ["", "modem", "/a/", "//a", "/a b", "/a-b"] {
        match modem_object_path(bad) {
            Err(ModemError::ModemNotFound(m)) => {
                assert_eq!(m, format!("{bad} (invalid D-Bus object path: Invalid object path)"));
            }
            other => panic!("unexpected {other:?}"),
        }
    }
    assert_eq!(all_bearers_path().unwrap().as_str(), "/");
}

#[test]
fn number_readings_fall_back() {
    assert_eq!(combine_u32_reading(Some(3), Some(-1)), Some(3));
    assert_eq!(combine_u32_reading(None, Some(5)), Some(5));
    assert_eq!(combine_u32_reading(None, Some(-5)), None);
    assert_eq!(combine_i32_reading(None, Some(7)), Some(7));
    assert_eq!(combine_i32_reading(None, Some(u32::MAX)), None);
    assert_eq!(combine_u64_reading(None, Some(9)), Some(9));
    assert_eq!(combine_u64_reading(Some(1 << 40), None), Some(1 << 40));
    let v = zvariant::OwnedValue::from(12i32);
    assert_eq!(owned_to_u32(&v), Some(12));
    assert_eq!(owned_to_i32(&v), Some(12));
    let v = zvariant::OwnedValue::from(40u32);
    assert_eq!(owned_to_u64(&v), Some(40));
    assert_eq!(owned_to_i32(&v), Some(40));
    let v = zvariant::OwnedValue::from(-4i32);
    assert_eq!(owned_to_u32(&v), None);
}

#[test]
fn modem_snapshot_decodes_properties() {
    let m = nmrs::manager::modem_snapshot(
        "/m/4".into(),
        11,
        "Acme".into(),
        "M2".into(),
        "999".into(),
        0x4020,
        80,
        "/",
        vec![],
    );
    assert_eq!(m.state, ModemState::Connected);
    assert_eq!(m.primary_sim_path, None);
    assert!(m.access_technologies.is_4g() && m.access_technologies.is_3g());
    assert_eq!(m.signal_quality, 80);
    let m = nmrs::manager::modem_snapshot(
        "/m/5".into(), -1, String::new(), String::new(), String::new(), 0, 0, "/sim/2", vec!["/b".into()],
    );
    assert_eq!(m.state, ModemState::Failed);
    assert_eq!(m.primary_sim_path, Some("/sim/2".to_string()));
    assert_eq!(m.bearer_paths, vec!["/b".to_string()]);
}

use nmrs::modem::{AccessTechnology, ModemState};

#[test]
fn modem_state_round_trips_through_raw() {
    for raw in [-1, 0, 1, 2, 3, 4, 5, 6, 7, 8, 9, 10, 11] {
        let state = ModemState::from_raw(raw);
        assert_eq!(state.as_raw(), raw, "round-trip broken for raw {raw}");
    }
}

#[test]
fn modem_state_unknown_for_garbage_raw() {
    assert_eq!(ModemState::from_raw(99), ModemState::Unknown);
    assert_eq!(ModemState::from_raw(-42), ModemState::Unknown);
}

#[test]
fn modem_state_predicates() {
    assert!(ModemState::Connected.is_connected());
    assert!(!ModemState::Registered.is_connected());

    assert!(ModemState::Registered.is_registered());
    assert!(ModemState::Connected.is_registered());
    assert!(!ModemState::Searching.is_registered());

    assert!(ModemState::Searching.is_searching());
    assert!(!ModemState::Connected.is_searching());

    assert!(ModemState::Failed.is_failed());
    assert!(!ModemState::Unknown.is_failed());
}

#[test]
fn modem_state_display_is_lowercase() {
    assert_eq!(ModemState::Connected.to_string(), "connected");
    assert_eq!(ModemState::Disabling.to_string(), "disabling");
}

#[test]
fn access_technology_lte_and_5g() {
    let lte = AccessTechnology::LTE();
    assert!(lte.has_lte());
    assert!(lte.is_4g());
    assert!(lte.is_3gpp());
    assert!(!lte.has_5g());
    assert!(!lte.is_cdma());

    let nr = AccessTechnology::FIVE_G_NR();
    assert!(nr.has_5g());
    assert!(nr.is_5g());
    assert!(nr.is_3gpp());
    assert!(!nr.has_lte());
}

#[test]
fn access_technology_cdma_is_not_3gpp() {
    let cdma = AccessTechnology::EVDOA();
    assert!(cdma.is_cdma());
    assert!(!cdma.is_3gpp());
}

#[test]
fn access_technology_bit_operations() {
    let lte_plus_nr = AccessTechnology::LTE() | AccessTechnology::FIVE_G_NR();
    assert!(lte_plus_nr.contains(AccessTechnology::LTE()));
    assert!(lte_plus_nr.contains(AccessTechnology::FIVE_G_NR()));
    assert!(lte_plus_nr.intersects(AccessTechnology::LTE()));

    let just_lte = lte_plus_nr & AccessTechnology::LTE();
    assert_eq!(just_lte, AccessTechnology::LTE());
}

#[test]
fn access_technology_bits_round_trip() {
    let raw = AccessTechnology::LTE().bits() | AccessTechnology::HSPA().bits();
    let tech = AccessTechnology::from(raw);
    assert!(tech.is_4g());
    assert!(tech.is_3g());
    assert_eq!(u32::from(tech), raw);
}

#[test]
fn access_technology_default_and_empty() {
    let empty = AccessTechnology::default();
    assert!(empty.is_empty());
    assert_eq!(empty.to_string(), "none");
}

#[test]
fn access_technology_display_joins_bits() {
    let mixed = AccessTechnology::LTE() | AccessTechnology::HSPA();
    let rendered = mixed.to_string();
    assert!(rendered.contains("HSPA"));
    assert!(rendered.contains("LTE"));
    assert!(rendered.contains('|'));
}

#[test]
fn access_technology_display_orders_labels() {
    let mixed = AccessTechnology::LTE() | AccessTechnology::HSPA();
    assert_eq!(mixed.to_string(), "HSPA|LTE");
    assert_eq!(AccessTechnology::from_bits(0x1 | 0x8000 | 0x20000).to_string(), "POTS|5G-NR|NB-IoT");
    assert_eq!(AccessTechnology::HSPA_PLUS().to_string(), "HSPA+");
}

#[test]
fn modem_state_from_i32_and_all_names() {
    assert_eq!(ModemState::from(8), ModemState::Registered);
    assert_eq!(ModemState::from_raw(-1).to_string(), "failed");
    assert_eq!(ModemState::from_raw(0).to_string(), "unknown");
    assert_eq!(ModemState::from_raw(10).to_string(), "connecting");
    assert!(ModemState::Disconnecting.is_registered());
    assert!(ModemState::Connecting.is_registered());
    assert!(!ModemState::Enabled.is_registered());
}

#[test]
fn access_technology_groups() {
    let gsm = AccessTechnology::GSM() | AccessTechnology::EDGE();
    assert!(gsm.is_2g());
    assert!(gsm.is_3gpp());
    assert!(!gsm.is_3g());
    let pots = AccessTechnology::POTS();
    assert!(!pots.is_3gpp());
    assert!(!pots.is_cdma());
    assert!(!AccessTechnology::NONE().intersects(AccessTechnology::LTE()));
    assert!(AccessTechnology::NONE().contains(AccessTechnology::NONE()));
    assert_eq!(AccessTechnology::LTE().union(AccessTechnology::UMTS()).bits(), 0x4020);
    assert!(AccessTechnology::LTE_CAT_M().is_4g());
    assert!(AccessTechnology::LTE_NB_IOT().has_lte());
    assert!(AccessTechnology::ONE_X_RTT().is_cdma());
}

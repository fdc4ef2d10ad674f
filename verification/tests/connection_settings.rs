use nmrs::connection_settings::{find_saved_by_id, should_skip_lookup, SavedProfile};

#[test]
fn saved_connection_lookup_allows_vpn_names_longer_than_ssids() {
    let name = "gw-UDP4-1199-namme.lastname-config";

    assert!(name.len() > 32);
    assert!(!should_skip_lookup(name));
}

#[test]
fn saved_connection_lookup_skips_blank_names() {
    assert!(should_skip_lookup(""));
    assert!(should_skip_lookup("   "));
}

#[test]
fn saved_connection_lookup_treats_unicode_white_space_as_blank() {
    assert!(should_skip_lookup("\t\n\u{3000}\u{a0}"));
    assert!(!should_skip_lookup(" x "));
}

fn profile(path: &str, id: Option<&str>, uuid: Option<&str>) -> SavedProfile {
    SavedProfile {
        path: path.to_string(),
        id: id.map(str::to_string),
        uuid: uuid.map(str::to_string),
    }
}

#[test]
fn saved_profile_found_by_exact_id_with_uuid() {
    let profiles = vec![
        profile("/Settings/1", Some("home"), Some("u1")),
        profile("/Settings/2", Some("Home"), None),
        profile("/Settings/3", None, Some("u3")),
        profile("/Settings/4", Some("Home"), Some("u4")),
        profile("/Settings/5", Some("Home"), Some("u5")),
    ];
    assert_eq!(
        find_saved_by_id(&profiles, "Home"),
        Some(("/Settings/4".to_string(), "u4".to_string()))
    );
    assert_eq!(
        find_saved_by_id(&profiles, "home"),
        Some(("/Settings/1".to_string(), "u1".to_string()))
    );
    assert_eq!(find_saved_by_id(&profiles, "Office"), None);
    assert_eq!(find_saved_by_id(&Vec::new(), "Home"), None);
}

//! Labels for profiles.

use openvpn3_dbus::profile::display_name;

const PATH: &str = "/net/openvpn/v3/configuration/a1b2c3";

#[test]
fn a_plain_name_is_used_as_is() {
    assert_eq!(display_name("myvpn", PATH), "myvpn");
    assert_eq!(display_name("dale-stg", PATH), "dale-stg");
}

#[test]
fn surrounding_whitespace_is_trimmed() {
    assert_eq!(display_name("  myvpn \n", PATH), "myvpn");
}
#[test]
fn a_path_shaped_name_shows_its_stem() {
    assert_eq!(
        display_name("/home/alonso/Downloads/work.ovpn", PATH),
        "work"
    );
    assert_eq!(display_name("./configs/dale-stg.ovpn", PATH), "dale-stg");
}

#[test]
fn a_path_without_an_extension_still_resolves() {
    assert_eq!(display_name("/opt/vpn/corporate", PATH), "corporate");
}
#[test]
fn a_trailing_slash_falls_back_rather_than_producing_nothing() {
    let label = display_name("/home/alonso/", PATH);
    assert!(!label.is_empty());
    assert_eq!(label, "alonso");
}

#[test]
fn an_empty_name_falls_back_to_the_object_path_id_not_the_whole_path() {
    let label = display_name("", PATH);
    assert_eq!(label, "Profile a1b2c3");
    assert!(
        !label.contains("/net/openvpn"),
        "the D-Bus path is noise in a menu, not information"
    );
}

#[test]
fn whitespace_only_names_are_treated_as_empty() {
    assert_eq!(display_name("   ", PATH), "Profile a1b2c3");
}
#[test]
fn fallback_labels_stay_distinct_between_profiles() {
    let a = display_name("", "/net/openvpn/v3/configuration/aaa");
    let b = display_name("", "/net/openvpn/v3/configuration/bbb");
    assert_ne!(a, b);
}

use openvpn3_dbus::roster::{arrange, ListedProfile};

fn listed(config_path: &str, raw_name: &str) -> ListedProfile {
    ListedProfile { config_path: config_path.to_owned(), raw_name: raw_name.to_owned() }
}

fn rows(profiles: &[(&str, &str)]) -> Vec<(String, String)> {
    let (rows, _) = arrange(profiles.iter().map(|(path, name)| listed(path, name)).collect());
    rows.into_iter().map(|row| (row.name, row.config_path)).collect()
}

#[test]
fn profiles_are_sorted_by_their_label() {
    let names: Vec<String> = rows(&[("/c", "beta"), ("/a", " alpha "), ("/b", "Alpha"), ("/d", "é")])
        .into_iter()
        .map(|row| row.0)
        .collect();
    assert_eq!(names, ["Alpha", "alpha", "beta", "é"]);
}

#[test]
fn sorting_agrees_with_the_order_of_strings() {
    let names = ["b", "a", "ab", "", "B", "aa", "z", "ä", "a\u{0}", "\u{1F600}", "\u{FFFD}", "10", "9"];
    let mut wanted: Vec<String> = Vec::new();
    let mut given: Vec<(&str, &str)> = Vec::new();
    for name in names {
        given.push(("/net/config/x", name));
        wanted.push(openvpn3_dbus::profile::display_name(name, "/net/config/x"));
    }
    wanted.sort();
    let sorted: Vec<String> = rows(&given).into_iter().map(|row| row.0).collect();
    assert_eq!(sorted, wanted);
}

#[test]
fn namesakes_stay_apart_and_in_order() {
    let rows = rows(&[("/2", "vpn"), ("/1", "vpn"), ("/3", "a"), ("/0", "vpn")]);
    let paths: Vec<&str> = rows.iter().map(|row| row.1.as_str()).collect();
    assert_eq!(paths, ["/3", "/2", "/1", "/0"]);
}

#[test]
fn labels_are_found_by_path() {
    let (_, names) = arrange(vec![
        listed("/1", "one"),
        listed("/2", "/etc/openvpn/two.ovpn"),
        listed("/1", "uno"),
    ]);
    assert_eq!(names.get("/1").map(|name| name.as_str()), Some("uno"));
    assert_eq!(names.get("/2").map(|name| name.as_str()), Some("two"));
    assert_eq!(names.get("/3"), None);
}

use openvpn3_dbus::text::{
    after_last_slash, decimal_padded_text, decimal_text, file_stem, has_slash, is_whitespace,
    sorts_no_later, trim,
};
use std::path::Path;

const SAMPLES: [&str; 34] = [
    "",
    " ",
    "a",
    " a ",
    "\t\r\n a b \u{A0}\u{3000}",
    "\u{200B}a",
    "/",
    "//",
    "/a",
    "a/",
    "/a/",
    "a/b",
    "/a/b.ovpn",
    "/a/b.tar.ovpn",
    "/a/.ovpn",
    "/a/.",
    "/a/./",
    "/a/..",
    "..",
    ".",
    "a/.",
    "a/./.",
    "a/..",
    "a.",
    "a..",
    ".a.b",
    "...",
    "/home/me/work.ovpn",
    "work.ovpn",
    "a.ovpn/",
    "a.ovpn/.",
    "ä/ö.ü",
    "./a.b",
    "../a.b",
];

#[test]
fn white_space_is_what_it_is_elsewhere() {
    for c in '\0'..='\u{FFFF}' {
        assert_eq!(is_whitespace(c), c.is_whitespace(), "{c:?}");
    }
    assert!(!is_whitespace('\u{10FFFF}'));
}

#[test]
fn trimming_agrees() {
    for sample in SAMPLES {
        assert_eq!(trim(sample), sample.trim(), "{sample:?}");
    }
}

#[test]
fn stems_agree() {
    for sample in SAMPLES {
        let wanted = Path::new(sample).file_stem().and_then(|stem| stem.to_str());
        assert_eq!(file_stem(sample), wanted, "{sample:?}");
    }
}

#[test]
fn last_segments_agree() {
    for sample in SAMPLES {
        assert_eq!(after_last_slash(sample), sample.rsplit('/').next().unwrap(), "{sample:?}");
        assert_eq!(has_slash(sample), sample.contains('/'), "{sample:?}");
    }
}

#[test]
fn the_order_of_texts_agrees() {
    for a in SAMPLES {
        for b in SAMPLES {
            assert_eq!(sorts_no_later(a, b), a <= b, "{a:?} {b:?}");
        }
    }
}

#[test]
fn numerals_agree() {
    for n in [0, 1, 9, 10, 11, 59, 99, 100, 1_000, 65_535, u64::MAX] {
        assert_eq!(decimal_text(n), n.to_string());
        assert_eq!(decimal_padded_text(n), format!("{n:02}"));
    }
}

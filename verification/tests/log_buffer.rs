//! What the log store keeps, for how long, and what it shows.

use openvpn3_dbus::logbuf::{LogEntry, LogStore, SessionLog};

fn entry(message: &str) -> LogEntry {
    LogEntry {
        group: 2,
        level: 3,
        message: message.to_owned(),
    }
}

fn captured_messages(store: &LogStore) -> Vec<String> {
    match store.most_recent() {
        SessionLog::Captured { entries, .. } => {
            entries.iter().map(|e| e.message.clone()).collect()
        }
        other => panic!("expected captured log, got {other:?}"),
    }
}

#[test]
fn entries_are_returned_in_arrival_order() {
    let mut store = LogStore::new(64);
    store.begin_session("/net/openvpn/v3/sessions/1");
    store.push("/net/openvpn/v3/sessions/1", entry("first"));
    store.push("/net/openvpn/v3/sessions/1", entry("second"));
    store.push("/net/openvpn/v3/sessions/1", entry("third"));

    assert_eq!(captured_messages(&store), ["first", "second", "third"]);
}

#[test]
fn at_capacity_the_oldest_lines_are_dropped() {
    let mut store = LogStore::new(3);
    store.begin_session("/s/1");
    for n in 1..=5 {
        store.push("/s/1", entry(&format!("line {n}")));
    }

    assert_eq!(captured_messages(&store), ["line 3", "line 4", "line 5"]);
}
#[test]
fn the_most_recent_buffer_survives_its_session_being_removed() {
    let mut store = LogStore::new(64);
    store.begin_session("/s/1");
    store.push("/s/1", entry("auth failed"));
    store.remove_session("/s/1");

    assert_eq!(captured_messages(&store), ["auth failed"]);
}
#[test]
fn older_session_buffers_are_dropped_on_removal() {
    let mut store = LogStore::new(64);
    store.begin_session("/s/1");
    store.push("/s/1", entry("old session line"));

    store.begin_session("/s/2");
    store.push("/s/2", entry("new session line"));

    store.remove_session("/s/1");

    assert_eq!(captured_messages(&store), ["new session line"]);
    assert!(
        !store.has_buffer("/s/1"),
        "a removed non-current session should not retain its buffer"
    );
}
#[test]
fn a_new_attempt_starts_a_fresh_buffer() {
    let mut store = LogStore::new(64);
    store.begin_session("/s/1");
    store.push("/s/1", entry("first attempt failed"));
    store.remove_session("/s/1");

    store.begin_session("/s/2");
    store.push("/s/2", entry("second attempt"));

    assert_eq!(captured_messages(&store), ["second attempt"]);
}
#[test]
fn a_session_never_begun_reports_not_captured() {
    let mut store = LogStore::new(64);
    store.adopt_external_session("/s/external");

    match store.most_recent() {
        SessionLog::NotCaptured { path } => assert_eq!(path, "/s/external"),
        other => panic!("expected NotCaptured for an adopted session, got {other:?}"),
    }
}
#[test]
fn an_empty_buffer_reports_not_captured_rather_than_an_empty_list() {
    let mut store = LogStore::new(64);
    store.begin_session("/s/1");

    assert!(
        matches!(store.most_recent(), SessionLog::NotCaptured { .. }),
        "an empty buffer must not present as a captured-but-blank log"
    );
}

#[test]
fn with_no_sessions_at_all_there_is_nothing_to_show() {
    let store = LogStore::new(64);
    assert!(matches!(store.most_recent(), SessionLog::NoSession));
}
#[test]
fn applet_notes_land_in_the_buffer_alongside_openvpn3_lines() {
    let mut store = LogStore::new(64);
    store.begin_session("/s/1");
    store.push("/s/1", entry("from openvpn3"));
    store.note("/s/1", "This profile uses browser-based authentication.");

    let messages = captured_messages(&store);
    assert_eq!(messages.len(), 2);
    assert!(messages[1].contains("browser-based"));
}
#[test]
fn a_note_creates_a_buffer_when_none_exists() {
    let mut store = LogStore::new(64);
    store.note("/s/1", "Unsupported request.");

    assert_eq!(captured_messages(&store), ["Unsupported request."]);
}
#[test]
fn pushing_to_an_untracked_session_does_not_disturb_the_current_one() {
    let mut store = LogStore::new(64);
    store.begin_session("/s/current");
    store.push("/s/current", entry("mine"));

    store.push("/s/stranger", entry("not mine"));

    assert_eq!(captured_messages(&store), ["mine"]);
}

#[test]
fn removing_an_unknown_session_is_a_no_op() {
    let mut store = LogStore::new(64);
    store.begin_session("/s/1");
    store.push("/s/1", entry("kept"));

    store.remove_session("/s/does-not-exist");

    assert_eq!(captured_messages(&store), ["kept"]);
}

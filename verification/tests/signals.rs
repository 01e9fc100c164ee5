use openvpn3_dbus::dbus::{
    bus_unreachable, decode_status, session_signal, status_signal, Snapshot, Wire, LOG_CAPACITY,
};
use openvpn3_dbus::instance::{owns_lock, should_run, NameReply, APP_ID, INSTANCE_LOCK_NAME};
use openvpn3_dbus::status::{ConnectionState, StatusMajor, StatusMinor};
use openvpn3_dbus::worker::{decode_pair, decode_requests};
use openvpn3_dbus::attention::{ClientAttentionGroup, ClientAttentionType};

#[test]
fn numbers_too_large_for_their_enum_are_reported_whole() {
    for major in [0x100, 0x102, 0x202, u32::MAX] {
        let unknown = decode_status(major, 7, String::new()).unwrap_err();
        assert_eq!(unknown.kind, "StatusMajor");
        assert_eq!(unknown.value, major);
    }
    for minor in [0x1_0000, 0x1_0007, u32::MAX] {
        let unknown = decode_status(2, minor, String::new()).unwrap_err();
        assert_eq!(unknown.kind, "StatusMinor");
        assert_eq!(unknown.value, minor);
    }
    // The major number is looked at first.
    let unknown = decode_status(99, 0x1_0007, String::new()).unwrap_err();
    assert_eq!(unknown.kind, "StatusMajor");
    assert_eq!(unknown.value, 99);
    assert_eq!(unknown.to_string(), "unknown StatusMajor value from openvpn3: 99");
}

#[test]
fn a_status_signal_is_decoded() {
    match status_signal("/s".to_owned(), 2, 7, "up".to_owned()) {
        Ok(Wire::Status { session, status }) => {
            assert_eq!(session, "/s");
            assert_eq!(status.major, StatusMajor::Connection);
            assert_eq!(status.minor, StatusMinor::ConnConnected);
            assert_eq!(status.message, "up");
        }
        other => panic!("{other:?}"),
    }
}

#[test]
fn a_status_signal_that_does_not_decode_tells_nothing() {
    let unknown = status_signal("/s".to_owned(), 99, 7, String::new()).unwrap_err();
    assert_eq!(unknown.kind, "StatusMajor");
    assert_eq!(unknown.value, 99);
    let unknown = decode_status(2, 999, String::new()).unwrap_err();
    assert_eq!(unknown.kind, "StatusMinor");
    assert_eq!(unknown.value, 999);
}

#[test]
fn only_a_destroyed_session_is_removed() {
    for event_type in 0..5 {
        assert_eq!(
            session_signal("/s".to_owned(), event_type),
            Wire::SessionManager { path: "/s".to_owned(), removed: event_type == 2 }
        );
    }
    assert_eq!(
        session_signal("/s".to_owned(), u16::MAX),
        Wire::SessionManager { path: "/s".to_owned(), removed: false }
    );
}

#[test]
fn input_requests_that_decode_are_kept_in_order() {
    assert_eq!(
        decode_pair(1, 4),
        Some((ClientAttentionType::Credentials, ClientAttentionGroup::ChallengeStatic))
    );
    assert_eq!(decode_pair(1, 200), None);
    assert_eq!(decode_pair(200, 1), None);
    assert_eq!(decode_pair(257, 1), None);
    assert_eq!(decode_pair(1, 0x104), None);
    assert_eq!(
        decode_requests(&vec![(1, 1), (1, 4)]),
        vec![
            (ClientAttentionType::Credentials, ClientAttentionGroup::UserPassword),
            (ClientAttentionType::Credentials, ClientAttentionGroup::ChallengeStatic),
        ]
    );
    assert_eq!(
        decode_requests(&vec![(1, 77), (1, 4), (0x101, 1), (1, 1)]),
        vec![
            (ClientAttentionType::Credentials, ClientAttentionGroup::ChallengeStatic),
            (ClientAttentionType::Credentials, ClientAttentionGroup::UserPassword),
        ]
    );
    assert_eq!(decode_requests(&vec![]), vec![]);
}

#[test]
fn a_snapshot_of_nothing_is_disconnected() {
    let snapshot = Snapshot::default();
    assert_eq!(snapshot.state, ConnectionState::Disconnected);
    assert!(snapshot.profiles.is_empty());
    assert_eq!(snapshot.active_config, None);
    assert_eq!(snapshot.unavailable, None);
    assert_eq!(LOG_CAPACITY, 1000);
}

#[test]
fn an_unreachable_bus_is_reported() {
    let snapshot = bus_unreachable("refused");
    assert_eq!(
        snapshot.unavailable.as_deref(),
        Some("Cannot reach the D-Bus system bus: refused")
    );
    assert_eq!(snapshot.clone().unavailable, snapshot.unavailable);
}

#[test]
fn only_another_owner_keeps_an_instance_from_running() {
    for (reply, owned) in [
        (NameReply::PrimaryOwner, true),
        (NameReply::AlreadyOwner, true),
        (NameReply::InQueue, false),
        (NameReply::Exists, false),
    ] {
        assert_eq!(owns_lock(reply), owned);
        assert_eq!(should_run(Some(reply)), owned);
    }
    assert!(should_run(None));
    assert_eq!(INSTANCE_LOCK_NAME, format!("{APP_ID}.Instance"));
}

//! Which state each openvpn3 status shows as.

use openvpn3_dbus::machine::{Command, Event, Machine};
use openvpn3_dbus::status::{
    map_status, ConnectionState, StateTransition, Status, StatusMajor, StatusMinor,
};

fn assert_state(major: StatusMajor, minor: StatusMinor, expected: ConnectionState) {
    match map_status(major, minor) {
        StateTransition::SetTo(actual) => assert_eq!(
            actual, expected,
            "{major:?}/{minor:?} should map to {expected:?}, got {actual:?}"
        ),
        StateTransition::NoChange { reason } => {
            panic!("{major:?}/{minor:?} should map to {expected:?}, got NoChange({reason})")
        }
    }
}

#[test]
fn disconnected_states() {
    assert_state(
        StatusMajor::Connection,
        StatusMinor::ConnDisconnected,
        ConnectionState::Disconnected,
    );
    assert_state(
        StatusMajor::Connection,
        StatusMinor::ConnDone,
        ConnectionState::Disconnected,
    );
    assert_state(
        StatusMajor::Session,
        StatusMinor::SessRemoved,
        ConnectionState::Disconnected,
    );
}

#[test]
fn connecting_states() {
    assert_state(
        StatusMajor::Config,
        StatusMinor::CfgOk,
        ConnectionState::Connecting,
    );
    assert_state(
        StatusMajor::Connection,
        StatusMinor::ConnInit,
        ConnectionState::Connecting,
    );
    assert_state(
        StatusMajor::Connection,
        StatusMinor::ConnConnecting,
        ConnectionState::Connecting,
    );
    assert_state(
        StatusMajor::Connection,
        StatusMinor::ConnReconnecting,
        ConnectionState::Connecting,
    );
}
#[test]
fn disconnecting_reads_as_connecting_not_disconnected() {
    assert_state(
        StatusMajor::Connection,
        StatusMinor::ConnDisconnecting,
        ConnectionState::Connecting,
    );
}

#[test]
fn connected_state() {
    assert_state(
        StatusMajor::Connection,
        StatusMinor::ConnConnected,
        ConnectionState::Connected,
    );
}

#[test]
fn auth_pending_states() {
    assert_state(
        StatusMajor::Config,
        StatusMinor::CfgRequireUser,
        ConnectionState::AuthPending,
    );
    assert_state(
        StatusMajor::Session,
        StatusMinor::SessAuthUserpass,
        ConnectionState::AuthPending,
    );
    assert_state(
        StatusMajor::Session,
        StatusMinor::SessAuthChallenge,
        ConnectionState::AuthPending,
    );
    assert_state(
        StatusMajor::Session,
        StatusMinor::SessAuthUrl,
        ConnectionState::AuthPending,
    );
}

#[test]
fn failed_states() {
    assert_state(
        StatusMajor::Config,
        StatusMinor::CfgError,
        ConnectionState::Failed,
    );
    assert_state(
        StatusMajor::Config,
        StatusMinor::CfgInlineMissing,
        ConnectionState::Failed,
    );
    assert_state(
        StatusMajor::Connection,
        StatusMinor::ConnFailed,
        ConnectionState::Failed,
    );
    assert_state(
        StatusMajor::Connection,
        StatusMinor::ConnAuthFailed,
        ConnectionState::Failed,
    );
    assert_state(
        StatusMajor::Process,
        StatusMinor::ProcKilled,
        ConnectionState::Failed,
    );
}
#[test]
fn unmapped_pair_yields_no_change_with_a_reason() {
    match map_status(StatusMajor::Pkcs11, StatusMinor::Pkcs11Sign) {
        StateTransition::NoChange { reason } => {
            assert!(
                reason.contains("PKCS11") || reason.contains("Pkcs11"),
                "reason should name the unmapped status, got: {reason}"
            );
        }
        StateTransition::SetTo(s) => panic!("expected NoChange for an unmapped pair, got {s:?}"),
    }
}

/// The applet never pauses a session, so these only come from an external actor: the
/// tunnel is in flux, and that it happened is recorded.
#[test]
fn paused_states_read_as_connecting_and_are_recorded() {
    for minor in [
        StatusMinor::ConnPausing,
        StatusMinor::ConnPaused,
        StatusMinor::ConnResuming,
    ] {
        assert_state(
            StatusMajor::Connection,
            minor,
            ConnectionState::Connecting,
        );
        let status = Status { major: StatusMajor::Connection, minor, message: String::new() };
        let record = status.record().expect("a pause is recorded");
        assert!(record.contains(minor.name()), "the record should name the status: {record}");

        let mut machine = Machine::new();
        machine.handle(Event::SessionCreated {
            session_path: "/s/1".to_owned(),
            config_path: "/cfg/a".to_owned(),
        });
        let commands = machine.handle(Event::StatusChanged {
            session_path: "/s/1".to_owned(),
            status,
        });
        assert_eq!(machine.state(), ConnectionState::Connecting);
        assert_eq!(
            commands,
            [Command::Note { session_path: "/s/1".to_owned(), message: record }]
        );
    }
}

#[test]
fn status_mapping_wire_discriminants_match_openvpn3_constants() {
    assert_eq!(StatusMajor::try_from(2u8).unwrap(), StatusMajor::Connection);
    assert_eq!(StatusMajor::try_from(3u8).unwrap(), StatusMajor::Session);
    assert_eq!(
        StatusMinor::try_from(7u16).unwrap(),
        StatusMinor::ConnConnected
    );
    assert_eq!(
        StatusMinor::try_from(11u16).unwrap(),
        StatusMinor::ConnAuthFailed
    );
    assert_eq!(
        StatusMinor::try_from(20u16).unwrap(),
        StatusMinor::SessAuthUserpass
    );
}
#[test]
fn unknown_wire_values_are_rejected_not_coerced() {
    assert!(StatusMajor::try_from(99u8).is_err());
    assert!(StatusMinor::try_from(999u16).is_err());
}

use openvpn3_dbus::attention::{ClientAttentionGroup, ClientAttentionType};
use openvpn3_dbus::event::SessionEventType;
use openvpn3_dbus::status::{ConnectionState, Status, StatusMajor, StatusMinor};

#[test]
fn every_state_has_an_icon_of_its_own() {
    let states = ConnectionState::ALL;
    for (i, a) in states.iter().enumerate() {
        for b in &states[i + 1..] {
            assert_ne!(a.icon_name(), b.icon_name());
        }
    }
}

#[test]
fn numbers_survive_a_round_trip() {
    for value in 0..=u8::MAX {
        if let Ok(major) = StatusMajor::try_from(value) {
            assert_eq!(u8::from(major), value);
        }
        if let Ok(type_) = ClientAttentionType::try_from(value) {
            assert_eq!(u8::from(type_), value);
        }
        if let Ok(group) = ClientAttentionGroup::try_from(value) {
            assert_eq!(u8::from(group), value);
        }
    }
    for value in 0..=u16::MAX {
        if let Ok(minor) = StatusMinor::try_from(value) {
            assert_eq!(u16::from(minor), value);
        }
        if let Ok(event) = SessionEventType::try_from(value) {
            assert_eq!(u16::from(event), value);
        }
    }
}

#[test]
fn a_status_without_a_state_leaves_the_current_one() {
    let unmapped = Status {
        major: StatusMajor::Unset,
        minor: StatusMinor::ConnConnected,
        message: String::new(),
    };
    let connected = Status {
        major: StatusMajor::Connection,
        minor: StatusMinor::ConnConnected,
        message: String::new(),
    };
    for current in ConnectionState::ALL {
        assert_eq!(unmapped.transition_state(current), current);
        assert_eq!(connected.transition_state(current), ConnectionState::Connected);
    }
}

#[test]
fn an_unknown_number_is_named() {
    let unknown = StatusMajor::try_from(200).unwrap_err();
    assert_eq!(unknown.kind, "StatusMajor");
    assert_eq!(unknown.value, 200);
    assert!(unknown.to_string().contains("200"));
}

//! Decoding the session manager's events.

use openvpn3_dbus::event::SessionEventType;

#[test]
fn discriminants_match_openvpn3_constants() {
    assert_eq!(SessionEventType::try_from(0u16).unwrap(), SessionEventType::Unset);
    assert_eq!(
        SessionEventType::try_from(1u16).unwrap(),
        SessionEventType::SessionCreated
    );
    assert_eq!(
        SessionEventType::try_from(2u16).unwrap(),
        SessionEventType::SessionDestroyed
    );
}
#[test]
fn only_two_means_destroyed() {
    assert!(SessionEventType::SessionDestroyed.is_destroyed());
    assert!(!SessionEventType::SessionCreated.is_destroyed());
    assert!(!SessionEventType::Unset.is_destroyed());
    assert!(
        SessionEventType::try_from(3u16).is_err(),
        "3 is not a valid event type; treating it as destruction is what \
         wedged the transition machine"
    );
}

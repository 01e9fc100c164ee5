//! The session manager's lifecycle signal.

use crate::wire::UnknownWireValue;
use vstd::prelude::*;

verus! {

/// `SessionManager::EventType`, as openvpn3-linux numbers it in
/// `src/sessionmgr/sessionmgr-events.hpp`.
///
/// This value is how the applet learns a session is gone, and getting it wrong
/// deadlocks the transition machine: it waits forever for a teardown it never
/// sees.
#[derive(Debug, Clone, Copy, PartialEq, Eq, Structural, Hash)]
pub enum SessionEventType {
    Unset,
    SessionCreated,
    SessionDestroyed,
}

impl SessionEventType {
    /// The number this event type has on the bus.
    pub open spec fn wire(self) -> u16 {
        match self {
            SessionEventType::Unset => 0,
            SessionEventType::SessionCreated => 1,
            SessionEventType::SessionDestroyed => 2,
        }
    }

    /// The event type that the bus writes as `value`.
    pub open spec fn decoded(value: u16) -> Result<SessionEventType, UnknownWireValue> {
        if value == 0 {
            Ok(SessionEventType::Unset)
        } else if value == 1 {
            Ok(SessionEventType::SessionCreated)
        } else if value == 2 {
            Ok(SessionEventType::SessionDestroyed)
        } else {
            Err(UnknownWireValue { kind: "SessionEventType", value: value as u32 })
        }
    }

    /// Does this event say that a session is gone?
    pub fn is_destroyed(self) -> (destroyed: bool)
        ensures
            destroyed == (self == SessionEventType::SessionDestroyed),
    {
        matches!(self, SessionEventType::SessionDestroyed)
    }
}

impl TryFrom<u16> for SessionEventType {
    type Error = UnknownWireValue;

    fn try_from(value: u16) -> (decoded: Result<SessionEventType, UnknownWireValue>) {
        match value {
            0 => Ok(SessionEventType::Unset),
            1 => Ok(SessionEventType::SessionCreated),
            2 => Ok(SessionEventType::SessionDestroyed),
            other => Err(UnknownWireValue { kind: "SessionEventType", value: other as u32 }),
        }
    }
}

impl vstd::std_specs::convert::TryFromSpecImpl<u16> for SessionEventType {
    open spec fn obeys_try_from_spec() -> bool {
        true
    }

    open spec fn try_from_spec(value: u16) -> Result<SessionEventType, UnknownWireValue> {
        SessionEventType::decoded(value)
    }
}

impl From<SessionEventType> for u16 {
    fn from(value: SessionEventType) -> (wire: u16) {
        match value {
            SessionEventType::Unset => 0,
            SessionEventType::SessionCreated => 1,
            SessionEventType::SessionDestroyed => 2,
        }
    }
}

impl vstd::std_specs::convert::FromSpecImpl<SessionEventType> for u16 {
    open spec fn obeys_from_spec() -> bool {
        true
    }

    open spec fn from_spec(value: SessionEventType) -> u16 {
        value.wire()
    }
}

/// Decoding undoes encoding, and a number decodes to the one event type that
/// encodes to it.
pub proof fn law_session_event_round_trip(event: SessionEventType, value: u16)
    ensures
        SessionEventType::decoded(event.wire()) == Ok::<_, UnknownWireValue>(event),
        SessionEventType::decoded(value) == Ok::<_, UnknownWireValue>(event) <==> event.wire()
            == value,
{
}

/// The numbers that openvpn3 gives its session events.
pub proof fn law_session_event_numbers(item: SessionEventType)
    ensures
        item == SessionEventType::Unset <==> item.wire() == 0,
        item == SessionEventType::SessionCreated <==> item.wire() == 1,
        item == SessionEventType::SessionDestroyed <==> item.wire() == 2,
        item.wire() <= 2,
{
}

/// A number that stands for no session event is reported as it came.
pub proof fn law_unknown_session_events_are_reported(value: u16)
    ensures
        SessionEventType::decoded(value) matches Err(unknown) ==> unknown.kind == "SessionEventType" && unknown.value
            == value && forall|item: SessionEventType| #[trigger] item.wire() != value,
{
}

} // verus!

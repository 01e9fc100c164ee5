//! Connection state, and the mapping from openvpn3's status codes onto it.
//!
//! The numbers are those of openvpn3-linux `src/dbus/constants.hpp`. They travel
//! the bus as raw integers, so they are the contract and the variant names are
//! not.

use crate::text::optional;
use crate::wire::UnknownWireValue;
use vstd::prelude::*;
use vstd::string::*;

verus! {

/// `StatusMajor`: the broad category of a status event.
#[derive(Debug, Clone, Copy, PartialEq, Eq, Structural, Hash)]
pub enum StatusMajor {
    Unset,
    Config,
    Connection,
    Session,
    Pkcs11,
    Process,
}

impl StatusMajor {
    /// The number this value has on the bus.
    pub open spec fn wire(self) -> u8 {
        match self {
            StatusMajor::Unset => 0,
            StatusMajor::Config => 1,
            StatusMajor::Connection => 2,
            StatusMajor::Session => 3,
            StatusMajor::Pkcs11 => 4,
            StatusMajor::Process => 5,
        }
    }

    /// The value that the bus writes as `value`.
    pub open spec fn decoded(value: u8) -> Result<StatusMajor, UnknownWireValue> {
        if value == 0 {
            Ok(StatusMajor::Unset)
        } else if value == 1 {
            Ok(StatusMajor::Config)
        } else if value == 2 {
            Ok(StatusMajor::Connection)
        } else if value == 3 {
            Ok(StatusMajor::Session)
        } else if value == 4 {
            Ok(StatusMajor::Pkcs11)
        } else if value == 5 {
            Ok(StatusMajor::Process)
        } else {
            Err(UnknownWireValue { kind: "StatusMajor", value: value as u32 })
        }
    }

    /// The variant's name, as it is written in log lines.
    pub open spec fn label(self) -> Seq<char> {
        match self {
            StatusMajor::Unset => "Unset"@,
            StatusMajor::Config => "Config"@,
            StatusMajor::Connection => "Connection"@,
            StatusMajor::Session => "Session"@,
            StatusMajor::Pkcs11 => "Pkcs11"@,
            StatusMajor::Process => "Process"@,
        }
    }

    /// The variant's name.
    pub fn name(self) -> (name: &'static str)
        ensures
            name@ == self.label(),
    {
        match self {
            StatusMajor::Unset => "Unset",
            StatusMajor::Config => "Config",
            StatusMajor::Connection => "Connection",
            StatusMajor::Session => "Session",
            StatusMajor::Pkcs11 => "Pkcs11",
            StatusMajor::Process => "Process",
        }
    }
}

impl TryFrom<u8> for StatusMajor {
    type Error = UnknownWireValue;

    fn try_from(value: u8) -> (decoded: Result<StatusMajor, UnknownWireValue>) {
        match value {
            0 => Ok(StatusMajor::Unset),
            1 => Ok(StatusMajor::Config),
            2 => Ok(StatusMajor::Connection),
            3 => Ok(StatusMajor::Session),
            4 => Ok(StatusMajor::Pkcs11),
            5 => Ok(StatusMajor::Process),
            other => Err(UnknownWireValue { kind: "StatusMajor", value: other as u32 }),
        }
    }
}

impl vstd::std_specs::convert::TryFromSpecImpl<u8> for StatusMajor {
    open spec fn obeys_try_from_spec() -> bool {
        true
    }

    open spec fn try_from_spec(value: u8) -> Result<StatusMajor, UnknownWireValue> {
        StatusMajor::decoded(value)
    }
}

impl From<StatusMajor> for u8 {
    fn from(value: StatusMajor) -> (wire: u8) {
        match value {
            StatusMajor::Unset => 0,
            StatusMajor::Config => 1,
            StatusMajor::Connection => 2,
            StatusMajor::Session => 3,
            StatusMajor::Pkcs11 => 4,
            StatusMajor::Process => 5,
        }
    }
}

impl vstd::std_specs::convert::FromSpecImpl<StatusMajor> for u8 {
    open spec fn obeys_from_spec() -> bool {
        true
    }

    open spec fn from_spec(value: StatusMajor) -> u8 {
        value.wire()
    }
}

/// Decoding undoes encoding, and a number decodes to the one value that encodes
/// to it.
pub proof fn law_status_major_round_trip(item: StatusMajor, value: u8)
    ensures
        StatusMajor::decoded(item.wire()) == Ok::<_, UnknownWireValue>(item),
        StatusMajor::decoded(value) == Ok::<_, UnknownWireValue>(item) <==> item.wire() == value,
{
}

/// `StatusMinor`: the specific status within a category.
#[derive(Debug, Clone, Copy, PartialEq, Eq, Structural, Hash)]
pub enum StatusMinor {
    Unset,
    CfgError,
    CfgOk,
    CfgInlineMissing,
    CfgRequireUser,
    ConnInit,
    ConnConnecting,
    ConnConnected,
    ConnDisconnecting,
    ConnDisconnected,
    ConnFailed,
    ConnAuthFailed,
    ConnReconnecting,
    ConnPausing,
    ConnPaused,
    ConnResuming,
    ConnDone,
    SessNew,
    SessBackendCompleted,
    SessRemoved,
    SessAuthUserpass,
    SessAuthChallenge,
    SessAuthUrl,
    Pkcs11Sign,
    Pkcs11Encrypt,
    Pkcs11Decrypt,
    Pkcs11Verify,
    ProcStarted,
    ProcStopped,
    ProcKilled,
}

impl StatusMinor {
    /// The number this value has on the bus.
    pub open spec fn wire(self) -> u16 {
        match self {
            StatusMinor::Unset => 0,
            StatusMinor::CfgError => 1,
            StatusMinor::CfgOk => 2,
            StatusMinor::CfgInlineMissing => 3,
            StatusMinor::CfgRequireUser => 4,
            StatusMinor::ConnInit => 5,
            StatusMinor::ConnConnecting => 6,
            StatusMinor::ConnConnected => 7,
            StatusMinor::ConnDisconnecting => 8,
            StatusMinor::ConnDisconnected => 9,
            StatusMinor::ConnFailed => 10,
            StatusMinor::ConnAuthFailed => 11,
            StatusMinor::ConnReconnecting => 12,
            StatusMinor::ConnPausing => 13,
            StatusMinor::ConnPaused => 14,
            StatusMinor::ConnResuming => 15,
            StatusMinor::ConnDone => 16,
            StatusMinor::SessNew => 17,
            StatusMinor::SessBackendCompleted => 18,
            StatusMinor::SessRemoved => 19,
            StatusMinor::SessAuthUserpass => 20,
            StatusMinor::SessAuthChallenge => 21,
            StatusMinor::SessAuthUrl => 22,
            StatusMinor::Pkcs11Sign => 23,
            StatusMinor::Pkcs11Encrypt => 24,
            StatusMinor::Pkcs11Decrypt => 25,
            StatusMinor::Pkcs11Verify => 26,
            StatusMinor::ProcStarted => 27,
            StatusMinor::ProcStopped => 28,
            StatusMinor::ProcKilled => 29,
        }
    }

    /// The value that the bus writes as `value`.
    pub open spec fn decoded(value: u16) -> Result<StatusMinor, UnknownWireValue> {
        if value == 0 {
            Ok(StatusMinor::Unset)
        } else if value == 1 {
            Ok(StatusMinor::CfgError)
        } else if value == 2 {
            Ok(StatusMinor::CfgOk)
        } else if value == 3 {
            Ok(StatusMinor::CfgInlineMissing)
        } else if value == 4 {
            Ok(StatusMinor::CfgRequireUser)
        } else if value == 5 {
            Ok(StatusMinor::ConnInit)
        } else if value == 6 {
            Ok(StatusMinor::ConnConnecting)
        } else if value == 7 {
            Ok(StatusMinor::ConnConnected)
        } else if value == 8 {
            Ok(StatusMinor::ConnDisconnecting)
        } else if value == 9 {
            Ok(StatusMinor::ConnDisconnected)
        } else if value == 10 {
            Ok(StatusMinor::ConnFailed)
        } else if value == 11 {
            Ok(StatusMinor::ConnAuthFailed)
        } else if value == 12 {
            Ok(StatusMinor::ConnReconnecting)
        } else if value == 13 {
            Ok(StatusMinor::ConnPausing)
        } else if value == 14 {
            Ok(StatusMinor::ConnPaused)
        } else if value == 15 {
            Ok(StatusMinor::ConnResuming)
        } else if value == 16 {
            Ok(StatusMinor::ConnDone)
        } else if value == 17 {
            Ok(StatusMinor::SessNew)
        } else if value == 18 {
            Ok(StatusMinor::SessBackendCompleted)
        } else if value == 19 {
            Ok(StatusMinor::SessRemoved)
        } else if value == 20 {
            Ok(StatusMinor::SessAuthUserpass)
        } else if value == 21 {
            Ok(StatusMinor::SessAuthChallenge)
        } else if value == 22 {
            Ok(StatusMinor::SessAuthUrl)
        } else if value == 23 {
            Ok(StatusMinor::Pkcs11Sign)
        } else if value == 24 {
            Ok(StatusMinor::Pkcs11Encrypt)
        } else if value == 25 {
            Ok(StatusMinor::Pkcs11Decrypt)
        } else if value == 26 {
            Ok(StatusMinor::Pkcs11Verify)
        } else if value == 27 {
            Ok(StatusMinor::ProcStarted)
        } else if value == 28 {
            Ok(StatusMinor::ProcStopped)
        } else if value == 29 {
            Ok(StatusMinor::ProcKilled)
        } else {
            Err(UnknownWireValue { kind: "StatusMinor", value: value as u32 })
        }
    }

    /// The variant's name, as it is written in log lines.
    pub open spec fn label(self) -> Seq<char> {
        match self {
            StatusMinor::Unset => "Unset"@,
            StatusMinor::CfgError => "CfgError"@,
            StatusMinor::CfgOk => "CfgOk"@,
            StatusMinor::CfgInlineMissing => "CfgInlineMissing"@,
            StatusMinor::CfgRequireUser => "CfgRequireUser"@,
            StatusMinor::ConnInit => "ConnInit"@,
            StatusMinor::ConnConnecting => "ConnConnecting"@,
            StatusMinor::ConnConnected => "ConnConnected"@,
            StatusMinor::ConnDisconnecting => "ConnDisconnecting"@,
            StatusMinor::ConnDisconnected => "ConnDisconnected"@,
            StatusMinor::ConnFailed => "ConnFailed"@,
            StatusMinor::ConnAuthFailed => "ConnAuthFailed"@,
            StatusMinor::ConnReconnecting => "ConnReconnecting"@,
            StatusMinor::ConnPausing => "ConnPausing"@,
            StatusMinor::ConnPaused => "ConnPaused"@,
            StatusMinor::ConnResuming => "ConnResuming"@,
            StatusMinor::ConnDone => "ConnDone"@,
            StatusMinor::SessNew => "SessNew"@,
            StatusMinor::SessBackendCompleted => "SessBackendCompleted"@,
            StatusMinor::SessRemoved => "SessRemoved"@,
            StatusMinor::SessAuthUserpass => "SessAuthUserpass"@,
            StatusMinor::SessAuthChallenge => "SessAuthChallenge"@,
            StatusMinor::SessAuthUrl => "SessAuthUrl"@,
            StatusMinor::Pkcs11Sign => "Pkcs11Sign"@,
            StatusMinor::Pkcs11Encrypt => "Pkcs11Encrypt"@,
            StatusMinor::Pkcs11Decrypt => "Pkcs11Decrypt"@,
            StatusMinor::Pkcs11Verify => "Pkcs11Verify"@,
            StatusMinor::ProcStarted => "ProcStarted"@,
            StatusMinor::ProcStopped => "ProcStopped"@,
            StatusMinor::ProcKilled => "ProcKilled"@,
        }
    }

    /// The variant's name.
    pub fn name(self) -> (name: &'static str)
        ensures
            name@ == self.label(),
    {
        match self {
            StatusMinor::Unset => "Unset",
            StatusMinor::CfgError => "CfgError",
            StatusMinor::CfgOk => "CfgOk",
            StatusMinor::CfgInlineMissing => "CfgInlineMissing",
            StatusMinor::CfgRequireUser => "CfgRequireUser",
            StatusMinor::ConnInit => "ConnInit",
            StatusMinor::ConnConnecting => "ConnConnecting",
            StatusMinor::ConnConnected => "ConnConnected",
            StatusMinor::ConnDisconnecting => "ConnDisconnecting",
            StatusMinor::ConnDisconnected => "ConnDisconnected",
            StatusMinor::ConnFailed => "ConnFailed",
            StatusMinor::ConnAuthFailed => "ConnAuthFailed",
            StatusMinor::ConnReconnecting => "ConnReconnecting",
            StatusMinor::ConnPausing => "ConnPausing",
            StatusMinor::ConnPaused => "ConnPaused",
            StatusMinor::ConnResuming => "ConnResuming",
            StatusMinor::ConnDone => "ConnDone",
            StatusMinor::SessNew => "SessNew",
            StatusMinor::SessBackendCompleted => "SessBackendCompleted",
            StatusMinor::SessRemoved => "SessRemoved",
            StatusMinor::SessAuthUserpass => "SessAuthUserpass",
            StatusMinor::SessAuthChallenge => "SessAuthChallenge",
            StatusMinor::SessAuthUrl => "SessAuthUrl",
            StatusMinor::Pkcs11Sign => "Pkcs11Sign",
            StatusMinor::Pkcs11Encrypt => "Pkcs11Encrypt",
            StatusMinor::Pkcs11Decrypt => "Pkcs11Decrypt",
            StatusMinor::Pkcs11Verify => "Pkcs11Verify",
            StatusMinor::ProcStarted => "ProcStarted",
            StatusMinor::ProcStopped => "ProcStopped",
            StatusMinor::ProcKilled => "ProcKilled",
        }
    }
}

impl TryFrom<u16> for StatusMinor {
    type Error = UnknownWireValue;

    fn try_from(value: u16) -> (decoded: Result<StatusMinor, UnknownWireValue>) {
        match value {
            0 => Ok(StatusMinor::Unset),
            1 => Ok(StatusMinor::CfgError),
            2 => Ok(StatusMinor::CfgOk),
            3 => Ok(StatusMinor::CfgInlineMissing),
            4 => Ok(StatusMinor::CfgRequireUser),
            5 => Ok(StatusMinor::ConnInit),
            6 => Ok(StatusMinor::ConnConnecting),
            7 => Ok(StatusMinor::ConnConnected),
            8 => Ok(StatusMinor::ConnDisconnecting),
            9 => Ok(StatusMinor::ConnDisconnected),
            10 => Ok(StatusMinor::ConnFailed),
            11 => Ok(StatusMinor::ConnAuthFailed),
            12 => Ok(StatusMinor::ConnReconnecting),
            13 => Ok(StatusMinor::ConnPausing),
            14 => Ok(StatusMinor::ConnPaused),
            15 => Ok(StatusMinor::ConnResuming),
            16 => Ok(StatusMinor::ConnDone),
            17 => Ok(StatusMinor::SessNew),
            18 => Ok(StatusMinor::SessBackendCompleted),
            19 => Ok(StatusMinor::SessRemoved),
            20 => Ok(StatusMinor::SessAuthUserpass),
            21 => Ok(StatusMinor::SessAuthChallenge),
            22 => Ok(StatusMinor::SessAuthUrl),
            23 => Ok(StatusMinor::Pkcs11Sign),
            24 => Ok(StatusMinor::Pkcs11Encrypt),
            25 => Ok(StatusMinor::Pkcs11Decrypt),
            26 => Ok(StatusMinor::Pkcs11Verify),
            27 => Ok(StatusMinor::ProcStarted),
            28 => Ok(StatusMinor::ProcStopped),
            29 => Ok(StatusMinor::ProcKilled),
            other => Err(UnknownWireValue { kind: "StatusMinor", value: other as u32 }),
        }
    }
}

impl vstd::std_specs::convert::TryFromSpecImpl<u16> for StatusMinor {
    open spec fn obeys_try_from_spec() -> bool {
        true
    }

    open spec fn try_from_spec(value: u16) -> Result<StatusMinor, UnknownWireValue> {
        StatusMinor::decoded(value)
    }
}

impl From<StatusMinor> for u16 {
    fn from(value: StatusMinor) -> (wire: u16) {
        match value {
            StatusMinor::Unset => 0,
            StatusMinor::CfgError => 1,
            StatusMinor::CfgOk => 2,
            StatusMinor::CfgInlineMissing => 3,
            StatusMinor::CfgRequireUser => 4,
            StatusMinor::ConnInit => 5,
            StatusMinor::ConnConnecting => 6,
            StatusMinor::ConnConnected => 7,
            StatusMinor::ConnDisconnecting => 8,
            StatusMinor::ConnDisconnected => 9,
            StatusMinor::ConnFailed => 10,
            StatusMinor::ConnAuthFailed => 11,
            StatusMinor::ConnReconnecting => 12,
            StatusMinor::ConnPausing => 13,
            StatusMinor::ConnPaused => 14,
            StatusMinor::ConnResuming => 15,
            StatusMinor::ConnDone => 16,
            StatusMinor::SessNew => 17,
            StatusMinor::SessBackendCompleted => 18,
            StatusMinor::SessRemoved => 19,
            StatusMinor::SessAuthUserpass => 20,
            StatusMinor::SessAuthChallenge => 21,
            StatusMinor::SessAuthUrl => 22,
            StatusMinor::Pkcs11Sign => 23,
            StatusMinor::Pkcs11Encrypt => 24,
            StatusMinor::Pkcs11Decrypt => 25,
            StatusMinor::Pkcs11Verify => 26,
            StatusMinor::ProcStarted => 27,
            StatusMinor::ProcStopped => 28,
            StatusMinor::ProcKilled => 29,
        }
    }
}

impl vstd::std_specs::convert::FromSpecImpl<StatusMinor> for u16 {
    open spec fn obeys_from_spec() -> bool {
        true
    }

    open spec fn from_spec(value: StatusMinor) -> u16 {
        value.wire()
    }
}

/// Decoding undoes encoding, and a number decodes to the one value that encodes
/// to it.
pub proof fn law_status_minor_round_trip(item: StatusMinor, value: u16)
    ensures
        StatusMinor::decoded(item.wire()) == Ok::<_, UnknownWireValue>(item),
        StatusMinor::decoded(value) == Ok::<_, UnknownWireValue>(item) <==> item.wire() == value,
{
}

/// What the panel icon claims. Five states, not four: a connect stalled waiting
/// on a one-time code is not the same thing as a slow one, and if the prompt is
/// behind another window the panel is the only surface that can say so.
#[derive(Debug, Clone, Copy, PartialEq, Eq, Structural, Hash)]
pub enum ConnectionState {
    Disconnected,
    Connecting,
    Connected,
    AuthPending,
    Failed,
}

impl Default for ConnectionState {
    fn default() -> (state: ConnectionState)
        ensures
            state == ConnectionState::Disconnected,
    {
        ConnectionState::Disconnected
    }
}

impl ConnectionState {
    /// Every state, for exhaustive iteration in tests and menu rendering.
    pub const ALL: [ConnectionState; 5] = [
        ConnectionState::Disconnected,
        ConnectionState::Connecting,
        ConnectionState::Connected,
        ConnectionState::AuthPending,
        ConnectionState::Failed,
    ];

    /// The icon that stands for a state.
    pub open spec fn icon(self) -> Seq<char> {
        match self {
            ConnectionState::Disconnected => "network-vpn-disconnected-symbolic"@,
            ConnectionState::Connecting => "network-vpn-acquiring-symbolic"@,
            ConnectionState::Connected => "network-vpn-symbolic"@,
            ConnectionState::AuthPending => "network-vpn-need-auth-symbolic"@,
            ConnectionState::Failed => "network-vpn-error-symbolic"@,
        }
    }

    /// Icon name for this state. No two states share one.
    pub fn icon_name(self) -> (name: &'static str)
        ensures
            name@ == self.icon(),
    {
        match self {
            ConnectionState::Disconnected => "network-vpn-disconnected-symbolic",
            ConnectionState::Connecting => "network-vpn-acquiring-symbolic",
            ConnectionState::Connected => "network-vpn-symbolic",
            ConnectionState::AuthPending => "network-vpn-need-auth-symbolic",
            ConnectionState::Failed => "network-vpn-error-symbolic",
        }
    }
}

/// The panel shows a different icon for every state.
pub proof fn law_icons_are_distinct(a: ConnectionState, b: ConnectionState)
    ensures
        a.icon() == b.icon() <==> a == b,
{
    reveal_strlit("network-vpn-disconnected-symbolic");
    reveal_strlit("network-vpn-acquiring-symbolic");
    reveal_strlit("network-vpn-symbolic");
    reveal_strlit("network-vpn-need-auth-symbolic");
    reveal_strlit("network-vpn-error-symbolic");
    assert(ConnectionState::Disconnected.icon().len() == 33);
    assert(ConnectionState::Connecting.icon().len() == 30);
    assert(ConnectionState::Connected.icon().len() == 20);
    assert(ConnectionState::AuthPending.icon().len() == 30);
    assert(ConnectionState::Connecting.icon()[12] == 'a');
    assert(ConnectionState::AuthPending.icon()[12] == 'n');
    assert(ConnectionState::Failed.icon().len() == 26);
}

/// The result of interpreting a status event.
///
/// `NoChange` exists so an unrecognised status leaves the display alone instead
/// of collapsing to a default. A status display that lags is bad; one that
/// confidently reports the wrong thing is worse.
#[derive(Debug, Clone, PartialEq, Eq)]
pub enum StateTransition {
    SetTo(ConnectionState),
    NoChange { reason: String },
}

/// A `StateTransition` with its text as a sequence of characters.
pub enum StateTransitionView {
    SetTo(ConnectionState),
    NoChange { reason: Seq<char> },
}

impl View for StateTransition {
    type V = StateTransitionView;

    open spec fn view(&self) -> StateTransitionView {
        match *self {
            StateTransition::SetTo(state) => StateTransitionView::SetTo(state),
            StateTransition::NoChange { reason } => StateTransitionView::NoChange {
                reason: reason@,
            },
        }
    }
}

/// The state that a status stands for, where it stands for one.
///
/// A tunnel that is going down still carries traffic, so it reads as connecting
/// and not as disconnected. Pausing and resuming only ever come from outside and
/// leave the tunnel in flux.
pub open spec fn mapped_state(major: StatusMajor, minor: StatusMinor) -> Option<ConnectionState> {
    match major {
        StatusMajor::Config => match minor {
            StatusMinor::CfgOk => Some(ConnectionState::Connecting),
            StatusMinor::CfgRequireUser => Some(ConnectionState::AuthPending),
            StatusMinor::CfgError | StatusMinor::CfgInlineMissing => Some(ConnectionState::Failed),
            _ => None,
        },
        StatusMajor::Connection => match minor {
            StatusMinor::ConnInit
            | StatusMinor::ConnConnecting
            | StatusMinor::ConnReconnecting
            | StatusMinor::ConnDisconnecting
            | StatusMinor::ConnPausing
            | StatusMinor::ConnPaused
            | StatusMinor::ConnResuming => Some(ConnectionState::Connecting),
            StatusMinor::ConnConnected => Some(ConnectionState::Connected),
            StatusMinor::ConnDisconnected | StatusMinor::ConnDone => Some(
                ConnectionState::Disconnected,
            ),
            StatusMinor::ConnFailed | StatusMinor::ConnAuthFailed => Some(ConnectionState::Failed),
            _ => None,
        },
        StatusMajor::Session => match minor {
            StatusMinor::SessAuthUserpass
            | StatusMinor::SessAuthChallenge
            | StatusMinor::SessAuthUrl => Some(ConnectionState::AuthPending),
            StatusMinor::SessRemoved => Some(ConnectionState::Disconnected),
            _ => None,
        },
        StatusMajor::Process => match minor {
            StatusMinor::ProcKilled => Some(ConnectionState::Failed),
            _ => None,
        },
        StatusMajor::Unset | StatusMajor::Pkcs11 => None,
    }
}

/// What a status that stands for no state leaves in the log.
pub open spec fn unmapped_reason(major: StatusMajor, minor: StatusMinor) -> Seq<char> {
    "unmapped openvpn3 status: "@ + major.label() + "/"@ + minor.label()
}

/// What a status does to the display.
pub open spec fn status_transition(major: StatusMajor, minor: StatusMinor) -> StateTransitionView {
    match mapped_state(major, minor) {
        Some(state) => StateTransitionView::SetTo(state),
        None => StateTransitionView::NoChange { reason: unmapped_reason(major, minor) },
    }
}

/// The status mapping table.
pub fn map_status(major: StatusMajor, minor: StatusMinor) -> (transition: StateTransition)
    ensures
        transition@ == status_transition(major, minor),
{
    let state = match (major, minor) {
        (StatusMajor::Connection, StatusMinor::ConnDisconnected | StatusMinor::ConnDone) => {
            ConnectionState::Disconnected
        },
        (StatusMajor::Session, StatusMinor::SessRemoved) => ConnectionState::Disconnected,
        (StatusMajor::Config, StatusMinor::CfgOk) => ConnectionState::Connecting,
        (
            StatusMajor::Connection,
            StatusMinor::ConnInit
            | StatusMinor::ConnConnecting
            | StatusMinor::ConnReconnecting
            | StatusMinor::ConnDisconnecting,
        ) => ConnectionState::Connecting,
        // Unreachable in normal operation: the applet never calls Pause. If an
        // external actor pauses a session the tunnel is in flux, which reads as
        // connecting rather than as any settled state.
        (
            StatusMajor::Connection,
            StatusMinor::ConnPausing | StatusMinor::ConnPaused | StatusMinor::ConnResuming,
        ) => ConnectionState::Connecting,
        (StatusMajor::Connection, StatusMinor::ConnConnected) => ConnectionState::Connected,
        (StatusMajor::Config, StatusMinor::CfgRequireUser) => ConnectionState::AuthPending,
        // SessAuthUrl reads as auth-pending for the icon even though the prompt
        // cannot service browser auth; the attention routing decides what
        // happens next.
        (
            StatusMajor::Session,
            StatusMinor::SessAuthUserpass
            | StatusMinor::SessAuthChallenge
            | StatusMinor::SessAuthUrl,
        ) => ConnectionState::AuthPending,
        (StatusMajor::Config, StatusMinor::CfgError | StatusMinor::CfgInlineMissing) => {
            ConnectionState::Failed
        },
        (StatusMajor::Connection, StatusMinor::ConnFailed | StatusMinor::ConnAuthFailed) => {
            ConnectionState::Failed
        },
        (StatusMajor::Process, StatusMinor::ProcKilled) => ConnectionState::Failed,
        _ => {
            let mut reason = "unmapped openvpn3 status: ".to_owned();
            reason.append(major.name());
            reason.append("/");
            reason.append(minor.name());
            return StateTransition::NoChange { reason };
        },
    };
    StateTransition::SetTo(state)
}

/// A `StatusChange` signal payload, or the `status` property read back.
#[derive(Debug, Clone, PartialEq, Eq)]
pub struct Status {
    pub major: StatusMajor,
    pub minor: StatusMinor,
    pub message: String,
}

/// A `Status` with its text as a sequence of characters.
pub struct StatusView {
    pub major: StatusMajor,
    pub minor: StatusMinor,
    pub message: Seq<char>,
}

impl View for Status {
    type V = StatusView;

    open spec fn view(&self) -> StatusView {
        StatusView { major: self.major, minor: self.minor, message: self.message@ }
    }
}

/// The tunnel is pausing, paused or resuming.
pub open spec fn in_pause(major: StatusMajor, minor: StatusMinor) -> bool {
    major == StatusMajor::Connection && (minor == StatusMinor::ConnPausing || minor
        == StatusMinor::ConnPaused || minor == StatusMinor::ConnResuming)
}

/// What a pause leaves in the log.
pub open spec fn pause_record(major: StatusMajor, minor: StatusMinor) -> Seq<char> {
    "openvpn3 status from outside the applet: "@ + major.label() + "/"@ + minor.label()
}

impl StatusView {
    /// The state this status stands for, where it stands for one.
    pub open spec fn state(self) -> Option<ConnectionState> {
        mapped_state(self.major, self.minor)
    }

    /// What this status leaves in the log though it stands for a state. The applet
    /// never pauses a session, so a pause is somebody else's doing and is recorded.
    pub open spec fn record(self) -> Option<Seq<char>> {
        if in_pause(self.major, self.minor) {
            Some(pause_record(self.major, self.minor))
        } else {
            None
        }
    }
}

/// The status that a decoded pair of numbers makes, or the first number that
/// does not decode.
pub open spec fn decoded_status(major: u8, minor: u16, message: Seq<char>) -> Result<
    StatusView,
    UnknownWireValue,
> {
    match StatusMajor::decoded(major) {
        Err(unknown) => Err(unknown),
        Ok(major) => match StatusMinor::decoded(minor) {
            Err(unknown) => Err(unknown),
            Ok(minor) => Ok(StatusView { major, minor, message }),
        },
    }
}

impl Status {
    /// What this status leaves in the log though it stands for a state.
    pub fn record(&self) -> (text: Option<String>)
        ensures
            optional(text) == self@.record(),
    {
        match (self.major, self.minor) {
            (
                StatusMajor::Connection,
                StatusMinor::ConnPausing | StatusMinor::ConnPaused | StatusMinor::ConnResuming,
            ) => {
                let mut text = "openvpn3 status from outside the applet: ".to_owned();
                text.append(self.major.name());
                text.append("/");
                text.append(self.minor.name());
                Some(text)
            },
            _ => None,
        }
    }

    /// Decode the `(uint, uint, string)` tuple openvpn3 puts on the bus.
    pub fn from_wire(major: u8, minor: u16, message: String) -> (status: Result<
        Status,
        UnknownWireValue,
    >)
        ensures
            match status {
                Ok(status) => decoded_status(major, minor, message@) == Ok::<_, UnknownWireValue>(
                    status@,
                ),
                Err(unknown) => decoded_status(major, minor, message@) == Err::<StatusView, _>(
                    unknown,
                ),
            },
    {
        match StatusMajor::try_from(major) {
            Err(unknown) => Err(unknown),
            Ok(major) => match StatusMinor::try_from(minor) {
                Err(unknown) => Err(unknown),
                Ok(minor) => Ok(Status { major, minor, message }),
            },
        }
    }

    /// What this status does to the display.
    pub fn transition(&self) -> (transition: StateTransition)
        ensures
            transition@ == status_transition(self.major, self.minor),
    {
        map_status(self.major, self.minor)
    }

    /// The state this status would produce, or the caller's current one when it
    /// maps to no change. Convenience for comparing "what we show" against
    /// "what openvpn3 says".
    pub fn transition_state(&self, current: ConnectionState) -> (state: ConnectionState)
        ensures
            state == (match self@.state() {
                Some(state) => state,
                None => current,
            }),
    {
        match self.transition() {
            StateTransition::SetTo(state) => state,
            StateTransition::NoChange { .. } => current,
        }
    }
}

/// A status is never guessed at: it sets a state exactly when the table holds
/// one for it, and otherwise the log line names both of its parts.
pub proof fn law_unmapped_status_changes_nothing(major: StatusMajor, minor: StatusMinor)
    ensures
        status_transition(major, minor) is NoChange <==> mapped_state(major, minor) is None,
        status_transition(major, minor) is NoChange ==> status_transition(major, minor)->reason
            == "unmapped openvpn3 status: "@ + major.label() + "/"@ + minor.label(),
{
}

/// The numbers that openvpn3 gives its status categories.
pub proof fn law_status_major_numbers(item: StatusMajor)
    ensures
        item == StatusMajor::Unset <==> item.wire() == 0,
        item == StatusMajor::Config <==> item.wire() == 1,
        item == StatusMajor::Connection <==> item.wire() == 2,
        item == StatusMajor::Session <==> item.wire() == 3,
        item == StatusMajor::Pkcs11 <==> item.wire() == 4,
        item == StatusMajor::Process <==> item.wire() == 5,
        item.wire() <= 5,
{
}

/// Every status category is named as openvpn3 names it.
pub proof fn law_status_majors_are_named()
    ensures
        StatusMajor::Unset.label() == "Unset"@,
        StatusMajor::Config.label() == "Config"@,
        StatusMajor::Connection.label() == "Connection"@,
        StatusMajor::Session.label() == "Session"@,
        StatusMajor::Pkcs11.label() == "Pkcs11"@,
        StatusMajor::Process.label() == "Process"@,
{
}

/// The numbers that openvpn3 gives its statuses.
pub proof fn law_status_minor_numbers(item: StatusMinor)
    ensures
        item == StatusMinor::Unset <==> item.wire() == 0,
        item == StatusMinor::CfgError <==> item.wire() == 1,
        item == StatusMinor::CfgOk <==> item.wire() == 2,
        item == StatusMinor::CfgInlineMissing <==> item.wire() == 3,
        item == StatusMinor::CfgRequireUser <==> item.wire() == 4,
        item == StatusMinor::ConnInit <==> item.wire() == 5,
        item == StatusMinor::ConnConnecting <==> item.wire() == 6,
        item == StatusMinor::ConnConnected <==> item.wire() == 7,
        item == StatusMinor::ConnDisconnecting <==> item.wire() == 8,
        item == StatusMinor::ConnDisconnected <==> item.wire() == 9,
        item == StatusMinor::ConnFailed <==> item.wire() == 10,
        item == StatusMinor::ConnAuthFailed <==> item.wire() == 11,
        item == StatusMinor::ConnReconnecting <==> item.wire() == 12,
        item == StatusMinor::ConnPausing <==> item.wire() == 13,
        item == StatusMinor::ConnPaused <==> item.wire() == 14,
        item == StatusMinor::ConnResuming <==> item.wire() == 15,
        item == StatusMinor::ConnDone <==> item.wire() == 16,
        item == StatusMinor::SessNew <==> item.wire() == 17,
        item == StatusMinor::SessBackendCompleted <==> item.wire() == 18,
        item == StatusMinor::SessRemoved <==> item.wire() == 19,
        item == StatusMinor::SessAuthUserpass <==> item.wire() == 20,
        item == StatusMinor::SessAuthChallenge <==> item.wire() == 21,
        item == StatusMinor::SessAuthUrl <==> item.wire() == 22,
        item == StatusMinor::Pkcs11Sign <==> item.wire() == 23,
        item == StatusMinor::Pkcs11Encrypt <==> item.wire() == 24,
        item == StatusMinor::Pkcs11Decrypt <==> item.wire() == 25,
        item == StatusMinor::Pkcs11Verify <==> item.wire() == 26,
        item == StatusMinor::ProcStarted <==> item.wire() == 27,
        item == StatusMinor::ProcStopped <==> item.wire() == 28,
        item == StatusMinor::ProcKilled <==> item.wire() == 29,
        item.wire() <= 29,
{
}

/// Every status is named as openvpn3 names it.
pub proof fn law_status_minors_are_named()
    ensures
        StatusMinor::Unset.label() == "Unset"@,
        StatusMinor::CfgError.label() == "CfgError"@,
        StatusMinor::CfgOk.label() == "CfgOk"@,
        StatusMinor::CfgInlineMissing.label() == "CfgInlineMissing"@,
        StatusMinor::CfgRequireUser.label() == "CfgRequireUser"@,
        StatusMinor::ConnInit.label() == "ConnInit"@,
        StatusMinor::ConnConnecting.label() == "ConnConnecting"@,
        StatusMinor::ConnConnected.label() == "ConnConnected"@,
        StatusMinor::ConnDisconnecting.label() == "ConnDisconnecting"@,
        StatusMinor::ConnDisconnected.label() == "ConnDisconnected"@,
        StatusMinor::ConnFailed.label() == "ConnFailed"@,
        StatusMinor::ConnAuthFailed.label() == "ConnAuthFailed"@,
        StatusMinor::ConnReconnecting.label() == "ConnReconnecting"@,
        StatusMinor::ConnPausing.label() == "ConnPausing"@,
        StatusMinor::ConnPaused.label() == "ConnPaused"@,
        StatusMinor::ConnResuming.label() == "ConnResuming"@,
        StatusMinor::ConnDone.label() == "ConnDone"@,
        StatusMinor::SessNew.label() == "SessNew"@,
        StatusMinor::SessBackendCompleted.label() == "SessBackendCompleted"@,
        StatusMinor::SessRemoved.label() == "SessRemoved"@,
        StatusMinor::SessAuthUserpass.label() == "SessAuthUserpass"@,
        StatusMinor::SessAuthChallenge.label() == "SessAuthChallenge"@,
        StatusMinor::SessAuthUrl.label() == "SessAuthUrl"@,
        StatusMinor::Pkcs11Sign.label() == "Pkcs11Sign"@,
        StatusMinor::Pkcs11Encrypt.label() == "Pkcs11Encrypt"@,
        StatusMinor::Pkcs11Decrypt.label() == "Pkcs11Decrypt"@,
        StatusMinor::Pkcs11Verify.label() == "Pkcs11Verify"@,
        StatusMinor::ProcStarted.label() == "ProcStarted"@,
        StatusMinor::ProcStopped.label() == "ProcStopped"@,
        StatusMinor::ProcKilled.label() == "ProcKilled"@,
{
}

/// Which statuses show as which state, and that no other shows as any.
pub proof fn law_each_state_has_its_statuses(major: StatusMajor, minor: StatusMinor)
    ensures
        status_transition(major, minor) == StateTransitionView::SetTo(ConnectionState::Connected) <==> ((major == StatusMajor::Connection && (minor == StatusMinor::ConnConnected))),
        status_transition(major, minor) == StateTransitionView::SetTo(ConnectionState::Disconnected) <==> ((major == StatusMajor::Connection && (minor == StatusMinor::ConnDisconnected || minor == StatusMinor::ConnDone))
            || (major == StatusMajor::Session && (minor == StatusMinor::SessRemoved))),
        status_transition(major, minor) == StateTransitionView::SetTo(ConnectionState::Connecting) <==> ((major == StatusMajor::Config && (minor == StatusMinor::CfgOk))
            || (major == StatusMajor::Connection && (minor == StatusMinor::ConnInit || minor == StatusMinor::ConnConnecting || minor == StatusMinor::ConnReconnecting || minor == StatusMinor::ConnDisconnecting || minor == StatusMinor::ConnPausing || minor == StatusMinor::ConnPaused || minor == StatusMinor::ConnResuming))),
        status_transition(major, minor) == StateTransitionView::SetTo(ConnectionState::AuthPending) <==> ((major == StatusMajor::Config && (minor == StatusMinor::CfgRequireUser))
            || (major == StatusMajor::Session && (minor == StatusMinor::SessAuthUserpass || minor == StatusMinor::SessAuthChallenge || minor == StatusMinor::SessAuthUrl))),
        status_transition(major, minor) == StateTransitionView::SetTo(ConnectionState::Failed) <==> ((major == StatusMajor::Config && (minor == StatusMinor::CfgError || minor == StatusMinor::CfgInlineMissing))
            || (major == StatusMajor::Connection && (minor == StatusMinor::ConnFailed || minor == StatusMinor::ConnAuthFailed))
            || (major == StatusMajor::Process && (minor == StatusMinor::ProcKilled))),
        status_transition(major, minor) matches StateTransitionView::NoChange { reason } ==> reason
            == "unmapped openvpn3 status: "@ + major.label() + "/"@ + minor.label(),
{
}

/// The icon of each state.
pub proof fn law_icons_tell_the_state()
    ensures
        ConnectionState::Disconnected.icon() == "network-vpn-disconnected-symbolic"@,
        ConnectionState::Connecting.icon() == "network-vpn-acquiring-symbolic"@,
        ConnectionState::Connected.icon() == "network-vpn-symbolic"@,
        ConnectionState::AuthPending.icon() == "network-vpn-need-auth-symbolic"@,
        ConnectionState::Failed.icon() == "network-vpn-error-symbolic"@,
{
}

/// A status decodes to what its two numbers stand for and keeps its message, and to
/// nothing where one of them stands for nothing.
pub proof fn law_statuses_round_trip(
    status: StatusView,
    major: u8,
    minor: u16,
    message: Seq<char>,
)
    ensures
        decoded_status(status.major.wire(), status.minor.wire(), status.message) == Ok::<
            _,
            UnknownWireValue,
        >(status),
        decoded_status(major, minor, message) matches Ok(decoded) ==> decoded.major.wire() == major
            && decoded.minor.wire() == minor && decoded.message == message,
        decoded_status(major, minor, message) matches Err(unknown) ==> unknown.value == major
            || unknown.value == minor,
        StatusMajor::decoded(major) is Err ==> decoded_status(major, minor, message) == Err::<
            StatusView,
            _,
        >(UnknownWireValue { kind: "StatusMajor", value: major as u32 }),
        StatusMajor::decoded(major) is Ok && StatusMinor::decoded(minor) is Err
            ==> decoded_status(major, minor, message) == Err::<StatusView, _>(
            UnknownWireValue { kind: "StatusMinor", value: minor as u32 },
        ),
{
}

/// Pausing, paused and resuming connections leave a line that names the status, and
/// no other status does though it stands for a state.
pub proof fn law_only_pauses_leave_a_record(status: StatusView)
    ensures
        status.record() is Some <==> status.major == StatusMajor::Connection && (status.minor
            == StatusMinor::ConnPausing || status.minor == StatusMinor::ConnPaused || status.minor
            == StatusMinor::ConnResuming),
        status.record() is Some ==> status.record()->0
            == "openvpn3 status from outside the applet: "@ + status.major.label() + "/"@
            + status.minor.label(),
{
}

/// A status stands for the state that it moves the display to, and for none where it
/// leaves the display alone.
pub proof fn law_a_status_stands_for_its_state(status: StatusView)
    ensures
        status.state() is None <==> status_transition(status.major, status.minor) is NoChange,
        status.state() matches Some(state) ==> status_transition(status.major, status.minor)
            == StateTransitionView::SetTo(state),
{
}

/// A number that stands for no status category is reported as it came.
pub proof fn law_unknown_status_majors_are_reported(value: u8)
    ensures
        StatusMajor::decoded(value) matches Err(unknown) ==> unknown.kind == "StatusMajor" && unknown.value
            == value && forall|item: StatusMajor| #[trigger] item.wire() != value,
{
}

/// A number that stands for no status is reported as it came.
pub proof fn law_unknown_status_minors_are_reported(value: u16)
    ensures
        StatusMinor::decoded(value) matches Err(unknown) ==> unknown.kind == "StatusMinor" && unknown.value
            == value && forall|item: StatusMinor| #[trigger] item.wire() != value,
{
}

} // verus!

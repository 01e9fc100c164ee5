//! What the worker and the panel tell each other.

use crate::attention::{
    ClientAttentionGroup, ClientAttentionType, PromptField, PromptFieldView, PromptKind,
};
use crate::event::SessionEventType;
use crate::logbuf::{LogEntry, LogEntryView};
use crate::machine::{responses_view, InputResponse, InputResponseView};
use crate::status::{
    decoded_status, ConnectionState, Status, StatusMajor, StatusMinor, StatusView,
};
use crate::text::{optional, texts};
use crate::wire::UnknownWireValue;
use vstd::prelude::*;
use vstd::string::*;

verus! {

/// How many log lines to keep per session. A failed connect produces on the
/// order of a hundred; this leaves generous headroom without unbounded growth.
pub const LOG_CAPACITY: usize = 1000;

/// A profile as the menu needs it.
#[derive(Debug, PartialEq, Eq)]
pub struct Profile {
    pub config_path: String,
    pub name: String,
}

/// A `Profile` with its texts as sequences of characters.
pub struct ProfileView {
    pub config_path: Seq<char>,
    pub name: Seq<char>,
}

impl View for Profile {
    type V = ProfileView;

    open spec fn view(&self) -> ProfileView {
        ProfileView {
            config_path: self.config_path@,
            name: self.name@,
        }
    }
}

impl Clone for Profile {
    fn clone(&self) -> (copy: Profile)
        ensures
            copy@ == self@,
    {
        Profile {
            config_path: self.config_path.clone(),
            name: self.name.clone(),
        }
    }
}

/// Profiles as their views.
pub open spec fn profiles_view(items: Seq<Profile>) -> Seq<ProfileView> {
    items.map_values(|item: Profile| item@)
}

/// One field of a prompt, and the queue that its answer goes to.
///
/// Ids are only unique within a queue, and one prompt can span several.
#[derive(Debug, PartialEq, Eq)]
pub struct PromptInput {
    pub type_: ClientAttentionType,
    pub group: ClientAttentionGroup,
    pub field: PromptField,
}

/// A `PromptInput` with its texts as sequences of characters.
pub struct PromptInputView {
    pub type_: ClientAttentionType,
    pub group: ClientAttentionGroup,
    pub field: PromptFieldView,
}

impl View for PromptInput {
    type V = PromptInputView;

    open spec fn view(&self) -> PromptInputView {
        PromptInputView {
            type_: self.type_,
            group: self.group,
            field: self.field@,
        }
    }
}

impl Clone for PromptInput {
    fn clone(&self) -> (copy: PromptInput)
        ensures
            copy@ == self@,
    {
        PromptInput {
            type_: self.type_,
            group: self.group,
            field: self.field.clone(),
        }
    }
}

/// Prompt fields as their views.
pub open spec fn prompt_inputs_view(items: Seq<PromptInput>) -> Seq<PromptInputView> {
    items.map_values(|item: PromptInput| item@)
}

/// What the credential prompt should render.
#[derive(Debug, PartialEq, Eq)]
pub struct PromptSpec {
    pub session_path: String,
    pub kind: PromptKind,
    pub message: String,
    pub fields: Vec<PromptInput>,
}

/// A `PromptSpec` with its texts as sequences of characters.
pub struct PromptSpecView {
    pub session_path: Seq<char>,
    pub kind: PromptKind,
    pub message: Seq<char>,
    pub fields: Seq<PromptInputView>,
}

impl View for PromptSpec {
    type V = PromptSpecView;

    open spec fn view(&self) -> PromptSpecView {
        PromptSpecView {
            session_path: self.session_path@,
            kind: self.kind,
            message: self.message@,
            fields: prompt_inputs_view(self.fields@),
        }
    }
}

impl Clone for PromptSpec {
    fn clone(&self) -> (copy: PromptSpec)
        ensures
            copy@ == self@,
    {
        let fields = self.fields.clone();
        assert(prompt_inputs_view(fields@) =~= prompt_inputs_view(self.fields@));
        PromptSpec {
            session_path: self.session_path.clone(),
            kind: self.kind,
            message: self.message.clone(),
            fields,
        }
    }
}

/// Do the two prompts ask for the same?
pub fn same_prompt(a: &PromptSpec, b: &PromptSpec) -> (same: bool)
    ensures
        same == (a@ == b@),
{
    if a.session_path != b.session_path || a.kind != b.kind || a.message != b.message
        || a.fields.len() != b.fields.len() {
        assert(a@.fields.len() == a.fields@.len() && b@.fields.len() == b.fields@.len());
        return false;
    }
    let mut i: usize = 0;
    while i < a.fields.len()
        invariant
            i <= a.fields.len(),
            a.fields.len() == b.fields.len(),
            forall|k: int| 0 <= k < i ==> a@.fields[k] == b@.fields[k],
        decreases a.fields.len() - i,
    {
        let (ours, theirs) = (&a.fields[i], &b.fields[i]);
        if ours.type_ != theirs.type_ || ours.group != theirs.group || ours.field.id
            != theirs.field.id || ours.field.name != theirs.field.name || ours.field.label
            != theirs.field.label || ours.field.masked != theirs.field.masked {
            assert(a@.fields[i as int] != b@.fields[i as int]);
            return false;
        }
        i = i + 1;
    }
    assert(a@.fields =~= b@.fields);
    true
}

/// Everything the panel renders. Replaced wholesale on every change.
#[derive(Debug)]
pub struct Snapshot {
    pub state: ConnectionState,
    pub profiles: Vec<Profile>,
    pub active_config: Option<String>,
    pub active_name: Option<String>,
    /// Unix epoch seconds, so uptime stays correct for adopted sessions.
    pub session_created: Option<u64>,
    pub status_message: String,
    pub prompt: Option<PromptSpec>,
    pub log: Option<Vec<String>>,
    /// Set when openvpn3 itself is unreachable, so the menu can say so instead
    /// of rendering an empty and unexplained profile list.
    pub unavailable: Option<String>,
}

/// A `Snapshot` with its texts as sequences of characters.
pub struct SnapshotView {
    pub state: ConnectionState,
    pub profiles: Seq<ProfileView>,
    pub active_config: Option<Seq<char>>,
    pub active_name: Option<Seq<char>>,
    pub session_created: Option<u64>,
    pub status_message: Seq<char>,
    pub prompt: Option<PromptSpecView>,
    pub log: Option<Seq<Seq<char>>>,
    pub unavailable: Option<Seq<char>>,
}

impl View for Snapshot {
    type V = SnapshotView;

    open spec fn view(&self) -> SnapshotView {
        SnapshotView {
            state: self.state,
            profiles: profiles_view(self.profiles@),
            active_config: optional(self.active_config),
            active_name: optional(self.active_name),
            session_created: self.session_created,
            status_message: self.status_message@,
            prompt: match self.prompt {
                Some(prompt) => Some(prompt@),
                None => None,
            },
            log: match self.log {
                Some(lines) => Some(texts(lines@)),
                None => None,
            },
            unavailable: optional(self.unavailable),
        }
    }
}

impl SnapshotView {
    /// A snapshot of nothing.
    pub open spec fn blank() -> SnapshotView {
        SnapshotView {
            state: ConnectionState::Disconnected,
            profiles: seq![],
            active_config: None,
            active_name: None,
            session_created: None,
            status_message: seq![],
            prompt: None,
            log: None,
            unavailable: None,
        }
    }
}

impl Clone for Snapshot {
    fn clone(&self) -> (copy: Snapshot)
        ensures
            copy@ == self@,
    {
        let profiles = self.profiles.clone();
        assert(profiles_view(profiles@) =~= profiles_view(self.profiles@));
        let log = match &self.log {
            Some(lines) => {
                let copied = lines.clone();
                assert(texts(copied@) =~= texts(lines@));
                Some(copied)
            },
            None => None,
        };
        Snapshot {
            state: self.state,
            profiles,
            active_config: self.active_config.clone(),
            active_name: self.active_name.clone(),
            session_created: self.session_created,
            status_message: self.status_message.clone(),
            prompt: self.prompt.clone(),
            log,
            unavailable: self.unavailable.clone(),
        }
    }
}

impl Default for Snapshot {
    fn default() -> (snapshot: Snapshot)
        ensures
            snapshot@ == SnapshotView::blank(),
    {
        let snapshot = Snapshot {
            state: ConnectionState::Disconnected,
            profiles: Vec::new(),
            active_config: None,
            active_name: None,
            session_created: None,
            status_message: String::new(),
            prompt: None,
            log: None,
            unavailable: None,
        };
        assert(snapshot@.profiles =~= seq![]);
        snapshot
    }
}

/// What the panel shows when the system bus itself cannot be reached.
pub fn bus_unreachable(error: &str) -> (snapshot: Snapshot)
    ensures
        snapshot@ == (SnapshotView {
            unavailable: Some("Cannot reach the D-Bus system bus: "@ + error@),
            ..SnapshotView::blank()
        }),
{
    let mut snapshot = Snapshot::default();
    let mut reason = "Cannot reach the D-Bus system bus: ".to_owned();
    reason.append(error);
    snapshot.unavailable = Some(reason);
    snapshot
}

/// Requests from the panel.
#[derive(Debug, Clone, PartialEq, Eq)]
pub enum UiCommand {
    SelectProfile(String),
    Disconnect,
    SubmitPrompt(Vec<InputResponse>),
    CancelPrompt,
    /// Import the file at this path, which is given as text.
    Import(String),
    RenameProfile { config_path: String, new_name: String },
    DeleteProfile(String),
    DismissFailure,
    RefreshProfiles,
}

/// A `UiCommand` with its texts as sequences of characters.
pub enum UiCommandView {
    SelectProfile(Seq<char>),
    Disconnect,
    SubmitPrompt(Seq<InputResponseView>),
    CancelPrompt,
    Import(Seq<char>),
    RenameProfile { config_path: Seq<char>, new_name: Seq<char> },
    DeleteProfile(Seq<char>),
    DismissFailure,
    RefreshProfiles,
}

impl View for UiCommand {
    type V = UiCommandView;

    open spec fn view(&self) -> UiCommandView {
        match *self {
            UiCommand::SelectProfile(inner) => UiCommandView::SelectProfile(inner@),
            UiCommand::Disconnect => UiCommandView::Disconnect,
            UiCommand::SubmitPrompt(inner) => UiCommandView::SubmitPrompt(responses_view(inner@)),
            UiCommand::CancelPrompt => UiCommandView::CancelPrompt,
            UiCommand::Import(inner) => UiCommandView::Import(inner@),
            UiCommand::RenameProfile { config_path, new_name } => UiCommandView::RenameProfile {
                config_path: config_path@,
                new_name: new_name@,
            },
            UiCommand::DeleteProfile(inner) => UiCommandView::DeleteProfile(inner@),
            UiCommand::DismissFailure => UiCommandView::DismissFailure,
            UiCommand::RefreshProfiles => UiCommandView::RefreshProfiles,
        }
    }
}

/// Signals folded into one stream so the worker loop stays flat.
#[derive(Debug, Clone, PartialEq, Eq)]
pub enum Wire {
    Status { session: String, status: Status },
    Attention { session: String, type_: u32, group: u32, message: String },
    Log { session: String, entry: LogEntry },
    SessionManager { path: String, removed: bool },
}

/// A `Wire` with its texts as sequences of characters.
pub enum WireView {
    Status { session: Seq<char>, status: StatusView },
    Attention { session: Seq<char>, type_: u32, group: u32, message: Seq<char> },
    Log { session: Seq<char>, entry: LogEntryView },
    SessionManager { path: Seq<char>, removed: bool },
}

impl View for Wire {
    type V = WireView;

    open spec fn view(&self) -> WireView {
        match *self {
            Wire::Status { session, status } => WireView::Status {
                session: session@,
                status: status@,
            },
            Wire::Attention { session, type_, group, message } => WireView::Attention {
                session: session@,
                type_,
                group,
                message: message@,
            },
            Wire::Log { session, entry } => WireView::Log {
                session: session@,
                entry: entry@,
            },
            Wire::SessionManager { path, removed } => WireView::SessionManager {
                path: path@,
                removed,
            },
        }
    }
}

/// The status that a pair of numbers from the bus stands for.
///
/// openvpn3 marshals its narrow enums as 32-bit numbers. One that is too large for
/// its enum is unknown like any other, and reported whole.
pub open spec fn wire_status(major: u32, minor: u32, message: Seq<char>) -> Result<
    StatusView,
    UnknownWireValue,
> {
    if major > 0xff {
        Err(UnknownWireValue { kind: "StatusMajor", value: major })
    } else if StatusMajor::decoded(major as u8) is Ok && minor > 0xffff {
        Err(UnknownWireValue { kind: "StatusMinor", value: minor })
    } else {
        decoded_status(major as u8, minor as u16, message)
    }
}

/// Decode a status as the bus carries it.
pub fn decode_status(major: u32, minor: u32, message: String) -> (status: Result<
    Status,
    UnknownWireValue,
>)
    ensures
        match status {
            Ok(status) => wire_status(major, minor, message@) == Ok::<_, UnknownWireValue>(status@),
            Err(unknown) => wire_status(major, minor, message@) == Err::<StatusView, _>(unknown),
        },
{
    if major > 0xff {
        return Err(UnknownWireValue { kind: "StatusMajor", value: major });
    }
    if minor > 0xffff {
        return match StatusMajor::try_from(major as u8) {
            Ok(_) => Err(UnknownWireValue { kind: "StatusMinor", value: minor }),
            Err(unknown) => Err(unknown),
        };
    }
    Status::from_wire(major as u8, minor as u16, message)
}

/// What a `StatusChange` signal tells the worker. One that does not decode tells
/// it nothing.
pub fn status_signal(session: String, major: u32, minor: u32, message: String) -> (wire: Result<
    Wire,
    UnknownWireValue,
>)
    ensures
        match wire {
            Ok(wire) => {
                let status = wire_status(major, minor, message@);
                status is Ok && wire@ == (WireView::Status {
                    session: session@,
                    status: status->Ok_0,
                })
            },
            Err(unknown) => wire_status(major, minor, message@) == Err::<StatusView, _>(unknown),
        },
{
    match decode_status(major, minor, message) {
        Ok(status) => Ok(Wire::Status { session, status }),
        Err(unknown) => Err(unknown),
    }
}

/// What a session manager's signal tells the worker. A session is gone only when
/// the event type is the one that says so; any unknown type says nothing.
pub fn session_signal(path: String, event_type: u16) -> (wire: Wire)
    ensures
        wire@ == (WireView::SessionManager {
            path: path@,
            removed: SessionEventType::decoded(event_type) == Ok::<_, UnknownWireValue>(
                SessionEventType::SessionDestroyed,
            ),
        }),
{
    let removed = match SessionEventType::try_from(event_type) {
        Ok(event) => event.is_destroyed(),
        Err(_) => false,
    };
    Wire::SessionManager { path, removed }
}

/// A status from the bus is what its two numbers stand for, with its message; and a
/// number that stands for nothing is reported whole.
pub proof fn law_bus_statuses_round_trip(
    status: StatusView,
    major: u32,
    minor: u32,
    message: Seq<char>,
)
    ensures
        wire_status(
            status.major.wire() as u32,
            status.minor.wire() as u32,
            status.message,
        ) == Ok::<_, UnknownWireValue>(status),
        wire_status(major, minor, message) matches Ok(decoded) ==> decoded.major.wire() == major
            && decoded.minor.wire() == minor && decoded.message == message,
        wire_status(major, minor, message) matches Err(unknown) ==> (unknown
            == UnknownWireValue { kind: "StatusMajor", value: major } && !(exists|
            item: StatusMajor,
        |
            #[trigger] item.wire() == major)) || (unknown == UnknownWireValue {
            kind: "StatusMinor",
            value: minor,
        } && !(exists|item: StatusMinor| #[trigger] item.wire() == minor)),
{
}

} // verus!

//! What the worker asks of D-Bus and the disk, and what comes back.

use crate::roster::{listed_profiles_view, ListedProfile, ListedProfileView};
use crate::text::{optional, texts};
use vstd::prelude::*;
use vstd::string::*;

verus! {

/// One item of a session's input queue, as the bus carries it.
#[derive(Debug, Clone, PartialEq, Eq)]
pub struct QueueItem {
    pub id: u32,
    pub name: String,
    pub description: String,
    pub hidden_input: bool,
}

/// A `QueueItem` with its texts as sequences of characters.
pub struct QueueItemView {
    pub id: u32,
    pub name: Seq<char>,
    pub description: Seq<char>,
    pub hidden_input: bool,
}

impl View for QueueItem {
    type V = QueueItemView;

    open spec fn view(&self) -> QueueItemView {
        QueueItemView {
            id: self.id,
            name: self.name@,
            description: self.description@,
            hidden_input: self.hidden_input,
        }
    }
}

/// Queue items as their views. An item that could not be fetched is missing.
pub open spec fn items_view(items: Seq<Option<QueueItem>>) -> Seq<Option<QueueItemView>> {
    items.map_values(
        |item: Option<QueueItem>|
            match item {
                Some(item) => Some(item@),
                None => None,
            },
    )
}

/// One answer, as the bus carries it.
#[derive(Debug, Clone, PartialEq, Eq)]
pub struct WireInput {
    pub type_: u32,
    pub group: u32,
    pub id: u32,
    pub value: String,
}

/// A `WireInput` with its texts as sequences of characters.
pub struct WireInputView {
    pub type_: u32,
    pub group: u32,
    pub id: u32,
    pub value: Seq<char>,
}

impl View for WireInput {
    type V = WireInputView;

    open spec fn view(&self) -> WireInputView {
        WireInputView {
            type_: self.type_,
            group: self.group,
            id: self.id,
            value: self.value@,
        }
    }
}

/// Answers as their views.
pub open spec fn wire_inputs_view(items: Seq<WireInput>) -> Seq<WireInputView> {
    items.map_values(|item: WireInput| item@)
}

/// Something that only D-Bus or the disk can do or tell.
#[derive(Debug, Clone, PartialEq, Eq)]
pub enum Call {
    /// The configuration manager's profiles, each with its name.
    ListProfiles,
    /// The session manager's sessions.
    ListSessions,
    /// A session's status.
    ReadStatus { session_path: String },
    /// The profile that a session runs, and when the session was created.
    ReadOrigin { session_path: String },
    /// When a session was created.
    ReadCreated { session_path: String },
    /// Forward a session's signals. Answered once every subscription stands.
    Subscribe { session_path: String },
    /// Forward the session manager's signals.
    WatchSessions,
    /// Start a session for a profile.
    NewTunnel { config_path: String },
    /// Have a session's log forwarded.
    EnableLogForward { session_path: String },
    Connect { session_path: String },
    Disconnect { session_path: String },
    /// Ask the backend whether it can connect.
    CheckReady { session_path: String },
    /// What the session has queued input requests for.
    ReadQueue { session_path: String },
    /// The items of one of a session's input queues.
    DrainQueue { session_path: String, type_: u32, group: u32 },
    /// Hand over answers, one after the other.
    ProvideInput { session_path: String, inputs: Vec<WireInput> },
    Rename { config_path: String, new_name: String },
    Remove { config_path: String },
    ReadFile { path: String },
    /// Register a profile.
    Import { name: String, config: String, single_use: bool, persistent: bool },
}

/// A `Call` with its texts as sequences of characters.
pub enum CallView {
    ListProfiles,
    ListSessions,
    ReadStatus { session_path: Seq<char> },
    ReadOrigin { session_path: Seq<char> },
    ReadCreated { session_path: Seq<char> },
    Subscribe { session_path: Seq<char> },
    WatchSessions,
    NewTunnel { config_path: Seq<char> },
    EnableLogForward { session_path: Seq<char> },
    Connect { session_path: Seq<char> },
    Disconnect { session_path: Seq<char> },
    CheckReady { session_path: Seq<char> },
    ReadQueue { session_path: Seq<char> },
    DrainQueue { session_path: Seq<char>, type_: u32, group: u32 },
    ProvideInput { session_path: Seq<char>, inputs: Seq<WireInputView> },
    Rename { config_path: Seq<char>, new_name: Seq<char> },
    Remove { config_path: Seq<char> },
    ReadFile { path: Seq<char> },
    Import { name: Seq<char>, config: Seq<char>, single_use: bool, persistent: bool },
}

impl View for Call {
    type V = CallView;

    open spec fn view(&self) -> CallView {
        match *self {
            Call::ListProfiles => CallView::ListProfiles,
            Call::ListSessions => CallView::ListSessions,
            Call::ReadStatus { session_path } => CallView::ReadStatus {
                session_path: session_path@,
            },
            Call::ReadOrigin { session_path } => CallView::ReadOrigin {
                session_path: session_path@,
            },
            Call::ReadCreated { session_path } => CallView::ReadCreated {
                session_path: session_path@,
            },
            Call::Subscribe { session_path } => CallView::Subscribe {
                session_path: session_path@,
            },
            Call::WatchSessions => CallView::WatchSessions,
            Call::NewTunnel { config_path } => CallView::NewTunnel {
                config_path: config_path@,
            },
            Call::EnableLogForward { session_path } => CallView::EnableLogForward {
                session_path: session_path@,
            },
            Call::Connect { session_path } => CallView::Connect {
                session_path: session_path@,
            },
            Call::Disconnect { session_path } => CallView::Disconnect {
                session_path: session_path@,
            },
            Call::CheckReady { session_path } => CallView::CheckReady {
                session_path: session_path@,
            },
            Call::ReadQueue { session_path } => CallView::ReadQueue {
                session_path: session_path@,
            },
            Call::DrainQueue { session_path, type_, group } => CallView::DrainQueue {
                session_path: session_path@,
                type_,
                group,
            },
            Call::ProvideInput { session_path, inputs } => CallView::ProvideInput {
                session_path: session_path@,
                inputs: wire_inputs_view(inputs@),
            },
            Call::Rename { config_path, new_name } => CallView::Rename {
                config_path: config_path@,
                new_name: new_name@,
            },
            Call::Remove { config_path } => CallView::Remove {
                config_path: config_path@,
            },
            Call::ReadFile { path } => CallView::ReadFile {
                path: path@,
            },
            Call::Import { name, config, single_use, persistent } => CallView::Import {
                name: name@,
                config: config@,
                single_use,
                persistent,
            },
        }
    }
}

/// What came of a call.
#[derive(Debug, Clone, PartialEq, Eq)]
pub enum Reply {
    /// There was nobody to ask, or no answer.
    Unreachable,
    Done,
    /// It was refused, with this error.
    Failed(String),
    Profiles(Vec<ListedProfile>),
    /// The profiles could not be listed. `installed` says whether the `openvpn3`
    /// command is there.
    ProfilesFailed { error: String, installed: bool },
    Sessions(Vec<String>),
    Status { major: u32, minor: u32, message: String },
    Origin { config_path: Option<String>, created: Option<u64> },
    Created(Option<u64>),
    /// The session that was started, and the time.
    Tunnel { session_path: String, now: u64 },
    Queue(Vec<(u32, u32)>),
    /// The items of a queue. One that could not be fetched is missing.
    Items(Vec<Option<QueueItem>>),
    /// The errors of those answers that were refused.
    Failures(Vec<String>),
    File(String),
}

/// A `Reply` with its texts as sequences of characters.
pub enum ReplyView {
    Unreachable,
    Done,
    Failed(Seq<char>),
    Profiles(Seq<ListedProfileView>),
    ProfilesFailed { error: Seq<char>, installed: bool },
    Sessions(Seq<Seq<char>>),
    Status { major: u32, minor: u32, message: Seq<char> },
    Origin { config_path: Option<Seq<char>>, created: Option<u64> },
    Created(Option<u64>),
    Tunnel { session_path: Seq<char>, now: u64 },
    Queue(Seq<(u32, u32)>),
    Items(Seq<Option<QueueItemView>>),
    Failures(Seq<Seq<char>>),
    File(Seq<char>),
}

impl View for Reply {
    type V = ReplyView;

    open spec fn view(&self) -> ReplyView {
        match *self {
            Reply::Unreachable => ReplyView::Unreachable,
            Reply::Done => ReplyView::Done,
            Reply::Failed(inner) => ReplyView::Failed(inner@),
            Reply::Profiles(inner) => ReplyView::Profiles(listed_profiles_view(inner@)),
            Reply::ProfilesFailed { error, installed } => ReplyView::ProfilesFailed {
                error: error@,
                installed,
            },
            Reply::Sessions(inner) => ReplyView::Sessions(texts(inner@)),
            Reply::Status { major, minor, message } => ReplyView::Status {
                major,
                minor,
                message: message@,
            },
            Reply::Origin { config_path, created } => ReplyView::Origin {
                config_path: optional(config_path),
                created,
            },
            Reply::Created(inner) => ReplyView::Created(inner),
            Reply::Tunnel { session_path, now } => ReplyView::Tunnel {
                session_path: session_path@,
                now,
            },
            Reply::Queue(inner) => ReplyView::Queue(inner@),
            Reply::Items(inner) => ReplyView::Items(items_view(inner@)),
            Reply::Failures(inner) => ReplyView::Failures(texts(inner@)),
            Reply::File(inner) => ReplyView::File(inner@),
        }
    }
}

} // verus!

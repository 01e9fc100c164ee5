//! What the worker has yet to do, and what it is waiting for.

use crate::attention::{ClientAttentionGroup, ClientAttentionType, PromptKind};
use crate::dbus::{
    prompt_inputs_view, PromptInput, PromptInputView, UiCommand, UiCommandView, Wire, WireView,
};
use crate::machine::{Command, CommandView};
use crate::status::{Status, StatusView};
use crate::text::texts;
use vstd::prelude::*;
use vstd::string::*;

verus! {

/// A piece of work that the worker has yet to do.
#[derive(Debug, Clone)]
pub enum Task {
    /// List the profiles again.
    Refresh,
    /// Look for a session that already exists.
    Adopt,
    /// Follow the session manager.
    Watch,
    /// See whether the first of these sessions can be adopted.
    Probe { rest: Vec<String> },
    /// Adopt this session.
    ReadOrigin { session_path: String, status: Status },
    /// Follow a session.
    Subscribe { session_path: String },
    /// See whether the session that is being torn down is still there.
    ReconcileTeardown,
    /// See whether the session in use is what the panel says it is.
    ReconcileActive,
    /// Take in a status that was read rather than signalled.
    ReadCreated { session_path: String, status: Status },
    /// Serve the panel.
    Ui(UiCommand),
    /// Take in a signal.
    Wire(Wire),
    /// Tell the machine that the session it asked for exists.
    Created { session_path: String, config_path: String },
    /// Execute a command of the machine.
    Run(Command),
    /// Collect the fields of a prompt from the queues that are left.
    Drain {
        session_path: String,
        kind: PromptKind,
        message: String,
        rest: Vec<(ClientAttentionType, ClientAttentionGroup)>,
        fields: Vec<PromptInput>,
    },
    /// Find out what a session that is not ready wants.
    ReadQueue { session_path: String, error: String },
    /// Register a profile that was read from disk.
    Import { name: String, config: String },
}

/// A `Task` with its texts as sequences of characters.
pub enum TaskView {
    Refresh,
    Adopt,
    Watch,
    Probe { rest: Seq<Seq<char>> },
    ReadOrigin { session_path: Seq<char>, status: StatusView },
    Subscribe { session_path: Seq<char> },
    ReconcileTeardown,
    ReconcileActive,
    ReadCreated { session_path: Seq<char>, status: StatusView },
    Ui(UiCommandView),
    Wire(WireView),
    Created { session_path: Seq<char>, config_path: Seq<char> },
    Run(CommandView),
    Drain {
        session_path: Seq<char>,
        kind: PromptKind,
        message: Seq<char>,
        rest: Seq<(ClientAttentionType, ClientAttentionGroup)>,
        fields: Seq<PromptInputView>,
    },
    ReadQueue { session_path: Seq<char>, error: Seq<char> },
    Import { name: Seq<char>, config: Seq<char> },
}

impl View for Task {
    type V = TaskView;

    open spec fn view(&self) -> TaskView {
        match *self {
            Task::Refresh => TaskView::Refresh,
            Task::Adopt => TaskView::Adopt,
            Task::Watch => TaskView::Watch,
            Task::Probe { rest } => TaskView::Probe {
                rest: texts(rest@),
            },
            Task::ReadOrigin { session_path, status } => TaskView::ReadOrigin {
                session_path: session_path@,
                status: status@,
            },
            Task::Subscribe { session_path } => TaskView::Subscribe {
                session_path: session_path@,
            },
            Task::ReconcileTeardown => TaskView::ReconcileTeardown,
            Task::ReconcileActive => TaskView::ReconcileActive,
            Task::ReadCreated { session_path, status } => TaskView::ReadCreated {
                session_path: session_path@,
                status: status@,
            },
            Task::Ui(inner) => TaskView::Ui(inner@),
            Task::Wire(inner) => TaskView::Wire(inner@),
            Task::Created { session_path, config_path } => TaskView::Created {
                session_path: session_path@,
                config_path: config_path@,
            },
            Task::Run(inner) => TaskView::Run(inner@),
            Task::Drain { session_path, kind, message, rest, fields } => TaskView::Drain {
                session_path: session_path@,
                kind,
                message: message@,
                rest: rest@,
                fields: prompt_inputs_view(fields@),
            },
            Task::ReadQueue { session_path, error } => TaskView::ReadQueue {
                session_path: session_path@,
                error: error@,
            },
            Task::Import { name, config } => TaskView::Import {
                name: name@,
                config: config@,
            },
        }
    }
}

/// What the answer to the call that is out will be taken for.
#[derive(Debug, Clone)]
pub enum Wait {
    Profiles,
    AdoptList,
    ProbeStatus { session_path: String, rest: Vec<String> },
    Origin { session_path: String, status: Status },
    Acknowledged,
    TeardownList { session_path: String },
    ActiveStatus { session_path: String },
    ActiveCreated { session_path: String, status: Status },
    Tunnel { config_path: String },
    LogForward { session_path: String },
    Connect { session_path: String },
    Disconnect,
    Drain {
        session_path: String,
        kind: PromptKind,
        message: String,
        type_: ClientAttentionType,
        group: ClientAttentionGroup,
        rest: Vec<(ClientAttentionType, ClientAttentionGroup)>,
        fields: Vec<PromptInput>,
    },
    Provide { session_path: String },
    Ready { session_path: String },
    Queue { session_path: String, error: String },
    Rename,
    Remove,
    File { name: String, path: String },
    Import { name: String },
}

/// A `Wait` with its texts as sequences of characters.
pub enum WaitView {
    Profiles,
    AdoptList,
    ProbeStatus { session_path: Seq<char>, rest: Seq<Seq<char>> },
    Origin { session_path: Seq<char>, status: StatusView },
    Acknowledged,
    TeardownList { session_path: Seq<char> },
    ActiveStatus { session_path: Seq<char> },
    ActiveCreated { session_path: Seq<char>, status: StatusView },
    Tunnel { config_path: Seq<char> },
    LogForward { session_path: Seq<char> },
    Connect { session_path: Seq<char> },
    Disconnect,
    Drain {
        session_path: Seq<char>,
        kind: PromptKind,
        message: Seq<char>,
        type_: ClientAttentionType,
        group: ClientAttentionGroup,
        rest: Seq<(ClientAttentionType, ClientAttentionGroup)>,
        fields: Seq<PromptInputView>,
    },
    Provide { session_path: Seq<char> },
    Ready { session_path: Seq<char> },
    Queue { session_path: Seq<char>, error: Seq<char> },
    Rename,
    Remove,
    File { name: Seq<char>, path: Seq<char> },
    Import { name: Seq<char> },
}

impl View for Wait {
    type V = WaitView;

    open spec fn view(&self) -> WaitView {
        match *self {
            Wait::Profiles => WaitView::Profiles,
            Wait::AdoptList => WaitView::AdoptList,
            Wait::ProbeStatus { session_path, rest } => WaitView::ProbeStatus {
                session_path: session_path@,
                rest: texts(rest@),
            },
            Wait::Origin { session_path, status } => WaitView::Origin {
                session_path: session_path@,
                status: status@,
            },
            Wait::Acknowledged => WaitView::Acknowledged,
            Wait::TeardownList { session_path } => WaitView::TeardownList {
                session_path: session_path@,
            },
            Wait::ActiveStatus { session_path } => WaitView::ActiveStatus {
                session_path: session_path@,
            },
            Wait::ActiveCreated { session_path, status } => WaitView::ActiveCreated {
                session_path: session_path@,
                status: status@,
            },
            Wait::Tunnel { config_path } => WaitView::Tunnel {
                config_path: config_path@,
            },
            Wait::LogForward { session_path } => WaitView::LogForward {
                session_path: session_path@,
            },
            Wait::Connect { session_path } => WaitView::Connect {
                session_path: session_path@,
            },
            Wait::Disconnect => WaitView::Disconnect,
            Wait::Drain { session_path, kind, message, type_, group, rest, fields } =>
                WaitView::Drain {
                session_path: session_path@,
                kind,
                message: message@,
                type_,
                group,
                rest: rest@,
                fields: prompt_inputs_view(fields@),
            },
            Wait::Provide { session_path } => WaitView::Provide {
                session_path: session_path@,
            },
            Wait::Ready { session_path } => WaitView::Ready {
                session_path: session_path@,
            },
            Wait::Queue { session_path, error } => WaitView::Queue {
                session_path: session_path@,
                error: error@,
            },
            Wait::Rename => WaitView::Rename,
            Wait::Remove => WaitView::Remove,
            Wait::File { name, path } => WaitView::File {
                name: name@,
                path: path@,
            },
            Wait::Import { name } => WaitView::Import {
                name: name@,
            },
        }
    }
}

/// Tasks as their views.
pub open spec fn tasks_view(tasks: Seq<Task>) -> Seq<TaskView> {
    tasks.map_values(|task: Task| task@)
}

/// Commands as tasks.
pub open spec fn runs(commands: Seq<CommandView>) -> Seq<TaskView> {
    commands.map_values(|command: CommandView| TaskView::Run(command))
}

} // verus!

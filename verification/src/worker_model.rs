//! What the worker does, as a function of its state.
//!
//! The model of [`crate::worker::Worker`]: what a step and an answer make of it,
//! and what the panel is shown.

use crate::agenda::{runs, TaskView, WaitView};
use crate::attention::{field_for, ClientAttentionGroup, ClientAttentionType, PromptKind};
use crate::calls::{Call, CallView, QueueItemView, ReplyView, WireInputView};
use crate::dbus::{
    wire_status, ProfileView, PromptInputView, PromptSpecView, SnapshotView, UiCommandView,
    WireView, LOG_CAPACITY,
};
use crate::logbuf::{LogEntryView, LogStoreView, SessionLogView};
use crate::machine::{CommandView, EventView, InputResponseView, MachineView};
use crate::object_path::is_object_path;
use crate::roster::{labelled_all, names_by_path, sorted_by_name, ListedProfileView};
use crate::status::{ConnectionState, StatusView};
use crate::text::{decimal, stem_of, trimmed};
use vstd::prelude::*;

verus! {

/// How far a step got.
#[derive(Debug, Clone, PartialEq, Eq)]
pub enum Progress {
    /// There is nothing left to do.
    Idle,
    /// A call is out, and its answer has not come back.
    Waiting,
    /// A piece of work is done.
    Worked,
    /// The outside has to go on.
    Ask(Call),
}

/// A `Progress` with its texts as sequences of characters.
pub enum ProgressView {
    Idle,
    Waiting,
    Worked,
    Ask(CallView),
}

impl View for Progress {
    type V = ProgressView;

    open spec fn view(&self) -> ProgressView {
        match *self {
            Progress::Idle => ProgressView::Idle,
            Progress::Waiting => ProgressView::Waiting,
            Progress::Worked => ProgressView::Worked,
            Progress::Ask(call) => ProgressView::Ask(call@),
        }
    }
}

/// The worker's state, with its texts as sequences of characters.
#[verifier::ext_equal]
pub struct WorkerView {
    pub machine: MachineView,
    pub logs: LogStoreView,
    /// The menu's rows.
    pub profiles: Seq<ProfileView>,
    /// The label of each profile, by object path.
    pub profile_names: Map<Seq<char>, Seq<char>>,
    /// The prompt to show.
    pub prompt: Option<PromptSpecView>,
    /// What openvpn3 said last.
    pub status_message: Seq<char>,
    /// What the menu says in place of the profiles.
    pub unavailable: Option<Seq<char>>,
    /// When the session in use was created.
    pub session_created: Option<u64>,
    /// What is left to do, first things first.
    pub agenda: Seq<TaskView>,
    /// What the call that is out is for.
    pub waiting: Option<WaitView>,
}

/// What a step does: the worker after it, and how far it got.
pub struct WorkerStepView {
    pub after: WorkerView,
    pub progress: ProgressView,
}

/// What the menu says when the profiles cannot be listed.
///
/// "Not installed" and "installed but not answering" need different fixes, and
/// the applet is the only thing in a position to tell them apart.
pub open spec fn unavailable_text(error: Seq<char>, installed: bool) -> Seq<char> {
    if installed {
        "openvpn3 is installed but its services are not answering on the D-Bus system bus ("@
            + error
            + "). Try `openvpn3 configs-list` in a terminal — if that fails too, the openvpn3 services are not running."@
    } else {
        "openvpn3-linux is not installed.\n\nAdd OpenVPN's apt repository, then:\nsudo apt install openvpn3"@
    }
}

/// A pair of numbers from an input queue, decoded. A number that is too large for
/// its enum is unknown like any other.
pub open spec fn decoded_pair(type_: u32, group: u32) -> Option<
    (ClientAttentionType, ClientAttentionGroup),
> {
    if type_ > 0xff || group > 0xff {
        None
    } else {
        match ClientAttentionType::decoded(type_ as u8) {
            Ok(type_) => match ClientAttentionGroup::decoded(group as u8) {
                Ok(group) => Some((type_, group)),
                Err(_) => None,
            },
            Err(_) => None,
        }
    }
}

/// The pairs of numbers from an input queue that decode, decoded, in their order.
pub open spec fn decoded_requests(pairs: Seq<(u32, u32)>) -> Seq<
    (ClientAttentionType, ClientAttentionGroup),
>
    decreases pairs.len(),
{
    if pairs.len() == 0 {
        Seq::empty()
    } else {
        let known = decoded_requests(pairs.drop_last());
        match decoded_pair(pairs.last().0, pairs.last().1) {
            Some(request) => known.push(request),
            None => known,
        }
    }
}

/// `prefix`, with the numbers of a request behind it.
pub open spec fn request_text(prefix: Seq<char>, type_: u32, group: u32) -> Seq<char> {
    prefix + "type="@ + decimal(type_ as nat) + " group="@ + decimal(group as nat)
}

/// The fields that the items of one queue become. An item that could not be
/// fetched has none.
pub open spec fn queue_fields(
    type_: ClientAttentionType,
    group: ClientAttentionGroup,
    items: Seq<Option<QueueItemView>>,
) -> Seq<PromptInputView>
    decreases items.len(),
{
    if items.len() == 0 {
        Seq::empty()
    } else {
        let front = queue_fields(type_, group, items.drop_last());
        match items.last() {
            Some(item) => front.push(
                PromptInputView {
                    type_,
                    group,
                    field: field_for(item.id, item.name, item.description, item.hidden_input),
                },
            ),
            None => front,
        }
    }
}

/// The answers as the bus carries them.
pub open spec fn wire_inputs(responses: Seq<InputResponseView>) -> Seq<WireInputView> {
    responses.map_values(
        |response: InputResponseView|
            WireInputView {
                type_: response.type_.wire() as u32,
                group: response.group.wire() as u32,
                id: response.id,
                value: response.value,
            },
    )
}

/// The log with a line for every answer that was refused.
pub open spec fn with_failures(
    logs: LogStoreView,
    session_path: Seq<char>,
    errors: Seq<Seq<char>>,
) -> LogStoreView
    decreases errors.len(),
{
    if errors.len() == 0 {
        logs
    } else {
        with_failures(logs, session_path, errors.drop_last()).noted(
            session_path,
            "Submitting credentials failed: "@ + errors.last(),
        )
    }
}

/// The lines of a log.
pub open spec fn messages(entries: Seq<LogEntryView>) -> Seq<Seq<char>> {
    entries.map_values(|entry: LogEntryView| entry.message)
}

/// The name under which a file is imported.
pub open spec fn import_name(path: Seq<char>) -> Seq<char> {
    match stem_of(path) {
        Some(stem) => stem,
        None => "imported"@,
    }
}

/// The tasks that serve the panel. Before a choice is acted on, what the panel
/// showed when it was made is held against what openvpn3 says.
pub open spec fn ui_tasks(command: UiCommandView) -> Seq<TaskView> {
    if command is SelectProfile || command is Disconnect || command is RefreshProfiles {
        seq![TaskView::ReconcileTeardown, TaskView::ReconcileActive, TaskView::Ui(command)]
    } else {
        seq![TaskView::Ui(command)]
    }
}

impl WorkerView {
    /// The worker before anything happened: it lists the profiles, adopts a
    /// session that is already there, and follows the session manager.
    pub open spec fn initial() -> WorkerView {
        WorkerView {
            machine: MachineView::initial(),
            logs: LogStoreView::empty(LOG_CAPACITY as nat),
            profiles: seq![],
            profile_names: Map::empty(),
            prompt: None,
            status_message: seq![],
            unavailable: None,
            session_created: None,
            agenda: seq![TaskView::Refresh, TaskView::Adopt, TaskView::Watch],
            waiting: None,
        }
    }

    /// With one more thing to do, before everything else.
    pub open spec fn first(self, task: TaskView) -> WorkerView {
        WorkerView { agenda: seq![task] + self.agenda, ..self }
    }

    /// With more to do, after everything else.
    pub open spec fn later(self, tasks: Seq<TaskView>) -> WorkerView {
        WorkerView { agenda: self.agenda + tasks, ..self }
    }

    /// With another line in a session's log.
    pub open spec fn noted(self, path: Seq<char>, message: Seq<char>) -> WorkerView {
        WorkerView { logs: self.logs.noted(path, message), ..self }
    }

    /// With this in the menu in place of the profiles.
    pub open spec fn says(self, text: Seq<char>) -> WorkerView {
        WorkerView { unavailable: Some(text), ..self }
    }

    /// The machine takes in an event. What it asks for is done before everything
    /// else, in its order.
    ///
    /// Opaque, to keep the machine's cases out of proofs that need none of them;
    /// `law_the_machine_is_served_first` says what this is.
    #[verifier::opaque]
    pub open spec fn dispatched(self, event: EventView) -> WorkerView {
        WorkerView {
            machine: self.machine.step(event).after,
            agenda: runs(self.machine.step(event).commands) + self.agenda,
            ..self
        }
    }

    /// The step that ends here.
    pub open spec fn worked(self) -> WorkerStepView {
        WorkerStepView { after: self, progress: ProgressView::Worked }
    }

    /// The step that ends in a call.
    pub open spec fn asks(self, call: CallView, wait: WaitView) -> WorkerStepView {
        WorkerStepView {
            after: WorkerView { waiting: Some(wait), ..self },
            progress: ProgressView::Ask(call),
        }
    }

    /// The step that ends in a call to a session, if one can be addressed.
    pub open spec fn asks_session(
        self,
        session_path: Seq<char>,
        call: CallView,
        wait: WaitView,
    ) -> WorkerStepView {
        if is_object_path(session_path) {
            self.asks(call, wait)
        } else {
            self.worked()
        }
    }

    /// Is the display expected to change on its own shortly?
    pub open spec fn in_flight(self) -> bool {
        self.machine.awaiting_teardown is Some || self.machine.state
            == ConnectionState::Connecting
    }

    /// With a transition that is in flight held against what openvpn3 says.
    pub open spec fn settling(self) -> WorkerView {
        if self.in_flight() {
            self.later(seq![TaskView::ReconcileTeardown, TaskView::ReconcileActive])
        } else {
            self
        }
    }

    /// What the panel renders.
    pub open spec fn snapshot(self) -> SnapshotView {
        SnapshotView {
            state: self.machine.state,
            profiles: self.profiles,
            active_config: self.machine.active_config(),
            active_name: match self.machine.active_config() {
                Some(path) => if self.profile_names.dom().contains(path) {
                    Some(self.profile_names[path])
                } else {
                    None
                },
                None => None,
            },
            session_created: self.session_created,
            status_message: self.status_message,
            prompt: self.prompt,
            log: match self.logs.shown() {
                SessionLogView::Captured { entries, .. } => Some(messages(entries)),
                _ => None,
            },
            unavailable: self.unavailable,
        }
    }

    /// See whether the first of these sessions can be adopted.
    pub open spec fn begin_probe(self, rest: Seq<Seq<char>>) -> WorkerStepView {
        if rest.len() == 0 {
            self.worked()
        } else {
            self.asks(
                CallView::ReadStatus { session_path: rest.first() },
                WaitView::ProbeStatus { session_path: rest.first(), rest: rest.drop_first() },
            )
        }
    }

    /// See whether the session that is being torn down is still there.
    pub open spec fn begin_reconcile_teardown(self) -> WorkerStepView {
        match self.machine.awaiting_teardown {
            Some(session_path) => self.asks(
                CallView::ListSessions,
                WaitView::TeardownList { session_path },
            ),
            None => self.worked(),
        }
    }

    /// See whether the session in use is what the panel says it is.
    pub open spec fn begin_reconcile_active(self) -> WorkerStepView {
        match self.machine.active_session() {
            Some(session_path) => self.asks_session(
                session_path,
                CallView::ReadStatus { session_path },
                WaitView::ActiveStatus { session_path },
            ),
            None => self.worked(),
        }
    }

    /// Rename a profile. A blank name is refused.
    pub open spec fn begin_rename(
        self,
        config_path: Seq<char>,
        new_name: Seq<char>,
    ) -> WorkerStepView {
        if trimmed(new_name).len() == 0 {
            self.says("A profile name cannot be empty."@).worked()
        } else if !is_object_path(config_path) {
            self.says("That profile is no longer available."@).worked()
        } else {
            self.asks(
                CallView::Rename { config_path, new_name: trimmed(new_name) },
                WaitView::Rename,
            )
        }
    }

    /// Delete a profile. Not the one in use: silently tearing a tunnel down is
    /// worse than refusing.
    pub open spec fn begin_delete(self, config_path: Seq<char>) -> WorkerStepView {
        if self.machine.active_config() == Some(config_path) {
            self.says("Disconnect this profile before deleting it."@).worked()
        } else if !is_object_path(config_path) {
            self.says("That profile is no longer available."@).worked()
        } else {
            self.asks(CallView::Remove { config_path }, WaitView::Remove)
        }
    }

    /// Import a file under its own name.
    pub open spec fn begin_import(self, path: Seq<char>) -> WorkerStepView {
        self.asks(
            CallView::ReadFile { path },
            WaitView::File { name: import_name(path), path },
        )
    }

    /// Serve the panel.
    pub open spec fn begin_ui(self, command: UiCommandView) -> WorkerStepView {
        match command {
            UiCommandView::SelectProfile(config_path) => self.dispatched(
                EventView::ProfileSelected { config_path },
            ).worked(),
            UiCommandView::Disconnect => self.dispatched(EventView::DisconnectRequested).worked(),
            UiCommandView::DismissFailure => self.dispatched(EventView::FailureDismissed).worked(),
            UiCommandView::CancelPrompt => match self.prompt {
                Some(prompt) => self.dispatched(
                    EventView::PromptCancelled { session_path: prompt.session_path },
                ).worked(),
                None => self.worked(),
            },
            UiCommandView::SubmitPrompt(responses) => match self.prompt {
                Some(prompt) => self.dispatched(
                    EventView::PromptSubmitted { session_path: prompt.session_path, responses },
                ).worked(),
                None => self.worked(),
            },
            UiCommandView::RefreshProfiles => self.first(TaskView::Refresh).worked(),
            UiCommandView::Import(path) => self.begin_import(path),
            UiCommandView::RenameProfile { config_path, new_name } => self.begin_rename(
                config_path,
                new_name,
            ),
            UiCommandView::DeleteProfile(config_path) => self.begin_delete(config_path),
        }
    }

    /// Take in a signal.
    pub open spec fn begin_wire(self, wire: WireView) -> WorkerView {
        match wire {
            WireView::Status { session, status } => WorkerView {
                status_message: status.message,
                ..self
            }.dispatched(EventView::StatusChanged { session_path: session, status }),
            WireView::Attention { session, type_, group, message } => match decoded_pair(
                type_,
                group,
            ) {
                Some((type_, group)) => self.dispatched(
                    EventView::AttentionRequired { session_path: session, type_, group, message },
                ),
                None => self.noted(
                    session,
                    request_text("Unrecognised input request from openvpn3: "@, type_, group),
                ),
            },
            WireView::Log { session, entry } => WorkerView {
                logs: self.logs.pushed(session, entry),
                ..self
            },
            WireView::SessionManager { path, removed } => if removed {
                WorkerView { logs: self.logs.removed(path), ..self }.dispatched(
                    EventView::SessionRemoved { session_path: path },
                )
            } else {
                self
            },
        }
    }

    /// Collect the fields of a prompt from the queues that are left, and open it
    /// once none is.
    pub open spec fn begin_drain(
        self,
        session_path: Seq<char>,
        kind: PromptKind,
        message: Seq<char>,
        rest: Seq<(ClientAttentionType, ClientAttentionGroup)>,
        fields: Seq<PromptInputView>,
    ) -> WorkerStepView {
        if rest.len() == 0 || !is_object_path(session_path) {
            WorkerView {
                prompt: Some(PromptSpecView { session_path, kind, message, fields }),
                ..self
            }.worked()
        } else {
            self.asks(
                CallView::DrainQueue {
                    session_path,
                    type_: rest.first().0.wire() as u32,
                    group: rest.first().1.wire() as u32,
                },
                WaitView::Drain {
                    session_path,
                    kind,
                    message,
                    type_: rest.first().0,
                    group: rest.first().1,
                    rest: rest.drop_first(),
                    fields,
                },
            )
        }
    }

    /// Execute a command of the machine.
    pub open spec fn begin_run(self, command: CommandView) -> WorkerStepView {
        match command {
            CommandView::NewTunnel { config_path } => self.asks_session(
                config_path,
                CallView::NewTunnel { config_path },
                WaitView::Tunnel { config_path },
            ),
            CommandView::EnableLogForward { session_path } => self.asks_session(
                session_path,
                CallView::EnableLogForward { session_path },
                WaitView::LogForward { session_path },
            ),
            CommandView::Connect { session_path } => self.asks_session(
                session_path,
                CallView::Connect { session_path },
                WaitView::Connect { session_path },
            ),
            CommandView::Disconnect { session_path } => self.asks_session(
                session_path,
                CallView::Disconnect { session_path },
                WaitView::Disconnect,
            ),
            CommandView::OpenPrompt { session_path, kind, requests, message } => self.first(
                TaskView::Drain { session_path, kind, message, rest: requests, fields: seq![] },
            ).worked(),
            CommandView::ClosePrompt => WorkerView { prompt: None, ..self }.worked(),
            CommandView::ProvideInput { session_path, responses } => self.asks_session(
                session_path,
                CallView::ProvideInput { session_path, inputs: wire_inputs(responses) },
                WaitView::Provide { session_path },
            ),
            CommandView::CheckReady { session_path } => self.asks_session(
                session_path,
                CallView::CheckReady { session_path },
                WaitView::Ready { session_path },
            ),
            CommandView::Note { session_path, message } => self.noted(
                session_path,
                message,
            ).worked(),
        }
    }

    /// Begin a piece of work that does little but ask.
    pub open spec fn begin_asking(self, task: TaskView) -> WorkerStepView {
        match task {
            TaskView::Refresh => self.asks(CallView::ListProfiles, WaitView::Profiles),
            TaskView::Adopt => self.asks(CallView::ListSessions, WaitView::AdoptList),
            TaskView::Watch => self.asks(CallView::WatchSessions, WaitView::Acknowledged),
            TaskView::Probe { rest } => self.begin_probe(rest),
            TaskView::ReadOrigin { session_path, status } => self.asks(
                CallView::ReadOrigin { session_path },
                WaitView::Origin { session_path, status },
            ),
            TaskView::Subscribe { session_path } => self.asks(
                CallView::Subscribe { session_path },
                WaitView::Acknowledged,
            ),
            TaskView::ReconcileTeardown => self.begin_reconcile_teardown(),
            TaskView::ReconcileActive => self.begin_reconcile_active(),
            TaskView::ReadCreated { session_path, status } => self.asks(
                CallView::ReadCreated { session_path },
                WaitView::ActiveCreated { session_path, status },
            ),
            TaskView::ReadQueue { session_path, error } => self.asks(
                CallView::ReadQueue { session_path },
                WaitView::Queue { session_path, error },
            ),
            // To last, so that the profile survives a restart; not for single use,
            // since the point of importing it is to connect it repeatedly.
            TaskView::Import { name, config } => self.asks(
                CallView::Import { name, config, single_use: false, persistent: true },
                WaitView::Import { name },
            ),
            _ => self.worked(),
        }
    }

    /// Begin a piece of work that was taken off the agenda.
    pub open spec fn begin(self, task: TaskView) -> WorkerStepView {
        match task {
            TaskView::Ui(command) => self.begin_ui(command),
            TaskView::Wire(wire) => self.begin_wire(wire).worked(),
            TaskView::Created { session_path, config_path } => self.dispatched(
                EventView::SessionCreated { session_path, config_path },
            ).worked(),
            TaskView::Run(command) => self.begin_run(command),
            TaskView::Drain { session_path, kind, message, rest, fields } => self.begin_drain(
                session_path,
                kind,
                message,
                rest,
                fields,
            ),
            _ => self.begin_asking(task),
        }
    }

    /// Do one piece of work, unless a call is out.
    pub open spec fn step(self) -> WorkerStepView {
        if self.waiting is Some {
            WorkerStepView { after: self, progress: ProgressView::Waiting }
        } else if self.agenda.len() == 0 {
            WorkerStepView { after: self, progress: ProgressView::Idle }
        } else {
            WorkerView { agenda: self.agenda.drop_first(), ..self }.begin(self.agenda.first())
        }
    }

    /// The profiles are listed.
    pub open spec fn with_profiles(self, listed: Seq<ListedProfileView>) -> WorkerView {
        WorkerView {
            unavailable: None,
            profiles: sorted_by_name(labelled_all(listed)),
            profile_names: names_by_path(listed),
            ..self
        }
    }

    /// The profiles cannot be listed.
    pub open spec fn without_profiles(self, error: Seq<char>, installed: bool) -> WorkerView {
        WorkerView { profiles: seq![], ..self }.says(unavailable_text(error, installed))
    }

    /// A session is adopted: its log was never forwarded, so none is captured.
    pub open spec fn adopting(
        self,
        session_path: Seq<char>,
        status: StatusView,
        config_path: Option<Seq<char>>,
        created: Option<u64>,
    ) -> WorkerView {
        WorkerView {
            session_created: created,
            logs: self.logs.adopted(session_path),
            ..self
        }.first(TaskView::Subscribe { session_path }).dispatched(
            EventView::ExternalSessionSeen {
                session_path,
                config_path: match config_path {
                    Some(path) => path,
                    None => seq![],
                },
                status,
            },
        )
    }

    /// A session's status was read, to see whether it can be adopted. One that
    /// does not decode is passed over for the next.
    pub open spec fn probed(
        self,
        session_path: Seq<char>,
        rest: Seq<Seq<char>>,
        major: u32,
        minor: u32,
        message: Seq<char>,
    ) -> WorkerView {
        match wire_status(major, minor, message) {
            Ok(status) => self.first(TaskView::ReadOrigin { session_path, status }),
            Err(_) => self.first(TaskView::Probe { rest }),
        }
    }

    /// The sessions are listed while one is being torn down. If it is no longer
    /// among them, the teardown completed and the signal was missed.
    pub open spec fn teardown_listed(
        self,
        session_path: Seq<char>,
        paths: Seq<Seq<char>>,
    ) -> WorkerView {
        if paths.contains(session_path) {
            self
        } else {
            WorkerView { logs: self.logs.removed(session_path), ..self }.dispatched(
                EventView::SessionRemoved { session_path },
            )
        }
    }

    /// The status of the session in use was read. One that does not decode says
    /// nothing.
    pub open spec fn active_read(
        self,
        session_path: Seq<char>,
        major: u32,
        minor: u32,
        message: Seq<char>,
    ) -> WorkerView {
        match wire_status(major, minor, message) {
            Ok(status) => self.first(TaskView::ReadCreated { session_path, status }),
            Err(_) => self,
        }
    }

    /// The session in use has this status. When it was created is kept where it
    /// could not be read again.
    pub open spec fn active_dated(
        self,
        session_path: Seq<char>,
        status: StatusView,
        created: Option<u64>,
    ) -> WorkerView {
        WorkerView {
            session_created: if created is Some {
                created
            } else {
                self.session_created
            },
            ..self
        }.dispatched(EventView::StatusChanged { session_path, status })
    }

    /// openvpn3 changed its profiles as asked.
    pub open spec fn changed_profiles(self) -> WorkerView {
        WorkerView { unavailable: None, ..self }.first(TaskView::Refresh)
    }

    /// A session was started. Its signals are followed before the machine hears
    /// of it, so that none is missed.
    pub open spec fn started(
        self,
        session_path: Seq<char>,
        config_path: Seq<char>,
        now: u64,
    ) -> WorkerView {
        WorkerView {
            logs: self.logs.begun(session_path),
            session_created: Some(now),
            ..self
        }.first(TaskView::Created { session_path, config_path }).first(
            TaskView::Subscribe { session_path },
        )
    }

    /// A session that is not ready says what it wants. All of it that decodes is asked
    /// for; what does not decode is asked about once it is first in the queue, and is
    /// noted then.
    pub open spec fn asked_for(
        self,
        session_path: Seq<char>,
        error: Seq<char>,
        pairs: Seq<(u32, u32)>,
    ) -> WorkerView {
        if pairs.len() == 0 {
            self.noted(session_path, "Backend not ready: "@ + error)
        } else if decoded_pair(pairs.first().0, pairs.first().1) is None {
            self.noted(
                session_path,
                request_text(
                    "Unrecognised credential request: "@,
                    pairs.first().0,
                    pairs.first().1,
                ),
            )
        } else {
            self.dispatched(
                EventView::CredentialsRequired {
                    session_path,
                    requests: decoded_requests(pairs),
                    message: seq![],
                },
            )
        }
    }

    /// What an answer does to a call that lists, reads or follows. `None` says that it is
    /// no answer to such a call.
    pub open spec fn answered_lookup(self, wait: WaitView, reply: ReplyView) -> Option<
        WorkerView,
    > {
        match wait {
            WaitView::Profiles => match reply {
                ReplyView::Profiles(listed) => Some(self.with_profiles(listed)),
                ReplyView::ProfilesFailed { error, installed } => Some(
                    self.without_profiles(error, installed),
                ),
                _ => None,
            },
            WaitView::AdoptList => match reply {
                ReplyView::Sessions(paths) => Some(self.first(TaskView::Probe { rest: paths })),
                ReplyView::Unreachable => Some(self),
                _ => None,
            },
            WaitView::ProbeStatus { session_path, rest } => match reply {
                ReplyView::Status { major, minor, message } => Some(
                    self.probed(session_path, rest, major, minor, message),
                ),
                ReplyView::Unreachable => Some(self.first(TaskView::Probe { rest })),
                _ => None,
            },
            WaitView::Origin { session_path, status } => match reply {
                ReplyView::Origin { config_path, created } => Some(
                    self.adopting(session_path, status, config_path, created),
                ),
                _ => None,
            },
            WaitView::Acknowledged => match reply {
                ReplyView::Done => Some(self),
                _ => None,
            },
            WaitView::TeardownList { session_path } => match reply {
                ReplyView::Sessions(paths) => Some(self.teardown_listed(session_path, paths)),
                ReplyView::Unreachable => Some(self),
                _ => None,
            },
            WaitView::ActiveStatus { session_path } => match reply {
                ReplyView::Status { major, minor, message } => Some(
                    self.active_read(session_path, major, minor, message),
                ),
                ReplyView::Unreachable => Some(self),
                _ => None,
            },
            WaitView::ActiveCreated { session_path, status } => match reply {
                ReplyView::Created(created) => Some(
                    self.active_dated(session_path, status, created),
                ),
                _ => None,
            },
            _ => None,
        }
    }

    /// What an answer does to a call that moves a session along. `None` says that it is
    /// no answer to such a call.
    pub open spec fn answered_session(self, wait: WaitView, reply: ReplyView) -> Option<
        WorkerView,
    > {
        match wait {
            WaitView::Tunnel { config_path } => match reply {
                ReplyView::Tunnel { session_path, now } => Some(
                    self.started(session_path, config_path, now),
                ),
                ReplyView::Failed(error) => Some(
                    self.noted(config_path, "Could not start session: "@ + error),
                ),
                ReplyView::Unreachable => Some(self),
                _ => None,
            },
            WaitView::LogForward { session_path } => match reply {
                ReplyView::Done | ReplyView::Unreachable => Some(self),
                ReplyView::Failed(error) => Some(
                    self.noted(session_path, "Log forwarding unavailable: "@ + error),
                ),
                _ => None,
            },
            WaitView::Connect { session_path } => match reply {
                ReplyView::Done | ReplyView::Unreachable => Some(self),
                ReplyView::Failed(error) => Some(
                    self.noted(session_path, "Connect failed: "@ + error),
                ),
                _ => None,
            },
            WaitView::Disconnect => match reply {
                ReplyView::Done | ReplyView::Unreachable | ReplyView::Failed(_) => Some(self),
                _ => None,
            },
            WaitView::Drain { session_path, kind, message, type_, group, rest, fields } =>
                match reply {
                ReplyView::Items(items) => Some(
                    self.first(
                        TaskView::Drain {
                            session_path,
                            kind,
                            message,
                            rest,
                            fields: fields + queue_fields(type_, group, items),
                        },
                    ),
                ),
                ReplyView::Unreachable => Some(
                    self.first(TaskView::Drain { session_path, kind, message, rest, fields }),
                ),
                _ => None,
            },
            WaitView::Provide { session_path } => match reply {
                ReplyView::Failures(errors) => Some(
                    WorkerView { logs: with_failures(self.logs, session_path, errors), ..self },
                ),
                ReplyView::Unreachable => Some(self),
                _ => None,
            },
            WaitView::Ready { session_path } => match reply {
                ReplyView::Done => Some(
                    self.dispatched(EventView::SessionReady { session_path }),
                ),
                ReplyView::Failed(error) => Some(
                    self.first(TaskView::ReadQueue { session_path, error }),
                ),
                ReplyView::Unreachable => Some(self),
                _ => None,
            },
            WaitView::Queue { session_path, error } => match reply {
                ReplyView::Queue(pairs) => Some(self.asked_for(session_path, error, pairs)),
                ReplyView::Unreachable => Some(
                    self.noted(session_path, "Backend not ready: "@ + error),
                ),
                _ => None,
            },
            _ => None,
        }
    }

    /// What an answer does to a call that changes a profile. `None` says that it is no
    /// answer to such a call.
    pub open spec fn answered_profile(self, wait: WaitView, reply: ReplyView) -> Option<
        WorkerView,
    > {
        match wait {
            WaitView::Rename => match reply {
                ReplyView::Done => Some(self.changed_profiles()),
                ReplyView::Failed(error) => Some(self.says("Could not rename: "@ + error)),
                ReplyView::Unreachable => Some(
                    self.says("That profile is no longer available."@),
                ),
                _ => None,
            },
            WaitView::Remove => match reply {
                ReplyView::Done => Some(self.changed_profiles()),
                ReplyView::Failed(error) => Some(self.says("Could not delete: "@ + error)),
                ReplyView::Unreachable => Some(
                    self.says("That profile is no longer available."@),
                ),
                _ => None,
            },
            WaitView::File { name, path } => match reply {
                ReplyView::File(config) => Some(self.first(TaskView::Import { name, config })),
                ReplyView::Failed(error) => Some(
                    self.says("Could not read "@ + path + ": "@ + error),
                ),
                _ => None,
            },
            WaitView::Import { name } => match reply {
                ReplyView::Done => Some(self.changed_profiles()),
                ReplyView::Failed(error) => Some(
                    self.says("openvpn3 rejected "@ + name + ": "@ + error),
                ),
                ReplyView::Unreachable => Some(self),
                _ => None,
            },
            _ => None,
        }
    }

    /// What an answer does, given what the call was for. `None` says that it is no
    /// answer to such a call.
    pub open spec fn answered(self, wait: WaitView, reply: ReplyView) -> Option<WorkerView> {
        match wait {
            WaitView::Rename
            | WaitView::Remove
            | WaitView::File { .. }
            | WaitView::Import { .. } => self.answered_profile(wait, reply),
            WaitView::Tunnel { .. }
            | WaitView::LogForward { .. }
            | WaitView::Connect { .. }
            | WaitView::Disconnect
            | WaitView::Drain { .. }
            | WaitView::Provide { .. }
            | WaitView::Ready { .. }
            | WaitView::Queue { .. } => self.answered_session(wait, reply),
            _ => self.answered_lookup(wait, reply),
        }
    }

    /// What an answer does. `None` says that no call is out that it answers.
    pub open spec fn resume(self, reply: ReplyView) -> Option<WorkerView> {
        match self.waiting {
            Some(wait) => WorkerView { waiting: None, ..self }.answered(wait, reply),
            None => None,
        }
    }
}

} // verus!

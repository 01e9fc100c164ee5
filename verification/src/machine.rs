//! The connection transition machine.
//!
//! Pure: events in, commands out, no I/O. The applet drives it from D-Bus
//! signals and executes the commands it returns. At most one session is ever
//! started at a time: a switch tears the old session down, waits to see it gone,
//! and only then starts the new one.

use crate::attention::{
    prompt_for, refusal, route_attention, AttentionRouting, ClientAttentionGroup,
    ClientAttentionType, PromptKind,
};
use crate::status::{
    in_pause, unmapped_reason, ConnectionState, StateTransition, Status, StatusMinor, StatusView,
};
use crate::text::{optional, optional_str, reads};
use vstd::prelude::*;
use vstd::string::*;

verus! {

/// Something that happened. Mostly D-Bus signals; a few are user actions.
#[derive(Debug, Clone, PartialEq, Eq)]
pub enum Event {
    /// User picked a profile from the menu.
    ProfileSelected { config_path: String },
    /// User picked disconnect.
    DisconnectRequested,
    /// `NewTunnel` returned a session object.
    SessionCreated { session_path: String, config_path: String },
    /// `Ready` succeeded: the backend has everything it needs to connect.
    SessionReady { session_path: String },
    /// `Ready` reported missing credentials, and the input queue says what for.
    /// This is how a username/password profile asks: up front, not as an
    /// `AttentionRequired` signal mid-handshake.
    ///
    /// `requests` is every queued `(type, group)`, not just the first. A profile
    /// with a static challenge queues two, credentials and the code, and
    /// answering only one leaves the connect stalled on the other.
    CredentialsRequired {
        session_path: String,
        requests: Vec<(ClientAttentionType, ClientAttentionGroup)>,
        message: String,
    },
    /// A session the applet did not start, seen at startup or via
    /// `SessionManagerEvent`.
    ExternalSessionSeen { session_path: String, config_path: String, status: Status },
    /// openvpn3 reported a session's status.
    StatusChanged { session_path: String, status: Status },
    /// A session object went away.
    SessionRemoved { session_path: String },
    /// openvpn3 asks for input in the middle of a handshake.
    AttentionRequired {
        session_path: String,
        type_: ClientAttentionType,
        group: ClientAttentionGroup,
        message: String,
    },
    /// User submitted the credential prompt.
    PromptSubmitted { session_path: String, responses: Vec<InputResponse> },
    /// User cancelled the prompt, or closed it.
    PromptCancelled { session_path: String },
    /// User dismissed a failure.
    FailureDismissed,
}

/// One answered input-queue item.
#[derive(Debug, Clone, PartialEq, Eq)]
pub struct InputResponse {
    pub type_: ClientAttentionType,
    pub group: ClientAttentionGroup,
    pub id: u32,
    pub value: String,
}

/// Something the applet should do. The order within a returned batch is
/// significant.
#[derive(Debug, Clone, PartialEq, Eq)]
pub enum Command {
    NewTunnel { config_path: String },
    /// Must be issued before `Connect` on the same session.
    EnableLogForward { session_path: String },
    Connect { session_path: String },
    Disconnect { session_path: String },
    /// Drain the listed queue groups and open one prompt covering all of them.
    OpenPrompt {
        session_path: String,
        kind: PromptKind,
        requests: Vec<(ClientAttentionType, ClientAttentionGroup)>,
        message: String,
    },
    ClosePrompt,
    ProvideInput { session_path: String, responses: Vec<InputResponse> },
    /// Call `Ready` and report back: either `SessionReady` or, when it says
    /// credentials are missing, `CredentialsRequired`. Connect must never be
    /// issued before this succeeds, or a profile needing a password silently
    /// stalls with nothing asked of the user.
    CheckReady { session_path: String },
    /// Write a line into this session's log buffer.
    Note { session_path: String, message: String },
}

/// An `Event` with its texts as sequences of characters.
pub enum EventView {
    ProfileSelected { config_path: Seq<char> },
    DisconnectRequested,
    SessionCreated { session_path: Seq<char>, config_path: Seq<char> },
    SessionReady { session_path: Seq<char> },
    CredentialsRequired {
        session_path: Seq<char>,
        requests: Seq<(ClientAttentionType, ClientAttentionGroup)>,
        message: Seq<char>,
    },
    ExternalSessionSeen { session_path: Seq<char>, config_path: Seq<char>, status: StatusView },
    StatusChanged { session_path: Seq<char>, status: StatusView },
    SessionRemoved { session_path: Seq<char> },
    AttentionRequired {
        session_path: Seq<char>,
        type_: ClientAttentionType,
        group: ClientAttentionGroup,
        message: Seq<char>,
    },
    PromptSubmitted { session_path: Seq<char>, responses: Seq<InputResponseView> },
    PromptCancelled { session_path: Seq<char> },
    FailureDismissed,
}

/// An `InputResponse` with its text as a sequence of characters.
pub struct InputResponseView {
    pub type_: ClientAttentionType,
    pub group: ClientAttentionGroup,
    pub id: u32,
    pub value: Seq<char>,
}

/// A `Command` with its texts as sequences of characters.
pub enum CommandView {
    NewTunnel { config_path: Seq<char> },
    EnableLogForward { session_path: Seq<char> },
    Connect { session_path: Seq<char> },
    Disconnect { session_path: Seq<char> },
    OpenPrompt {
        session_path: Seq<char>,
        kind: PromptKind,
        requests: Seq<(ClientAttentionType, ClientAttentionGroup)>,
        message: Seq<char>,
    },
    ClosePrompt,
    ProvideInput { session_path: Seq<char>, responses: Seq<InputResponseView> },
    CheckReady { session_path: Seq<char> },
    Note { session_path: Seq<char>, message: Seq<char> },
}

impl View for InputResponse {
    type V = InputResponseView;

    open spec fn view(&self) -> InputResponseView {
        InputResponseView {
            type_: self.type_,
            group: self.group,
            id: self.id,
            value: self.value@,
        }
    }
}

/// Responses as their views.
pub open spec fn responses_view(responses: Seq<InputResponse>) -> Seq<InputResponseView> {
    responses.map_values(|response: InputResponse| response@)
}

impl View for Event {
    type V = EventView;

    open spec fn view(&self) -> EventView {
        match *self {
            Event::ProfileSelected { config_path } => EventView::ProfileSelected {
                config_path: config_path@,
            },
            Event::DisconnectRequested => EventView::DisconnectRequested,
            Event::SessionCreated { session_path, config_path } => EventView::SessionCreated {
                session_path: session_path@,
                config_path: config_path@,
            },
            Event::SessionReady { session_path } => EventView::SessionReady {
                session_path: session_path@,
            },
            Event::CredentialsRequired { session_path, requests, message } =>
                EventView::CredentialsRequired {
                session_path: session_path@,
                requests: requests@,
                message: message@,
            },
            Event::ExternalSessionSeen { session_path, config_path, status } =>
                EventView::ExternalSessionSeen {
                session_path: session_path@,
                config_path: config_path@,
                status: status@,
            },
            Event::StatusChanged { session_path, status } => EventView::StatusChanged {
                session_path: session_path@,
                status: status@,
            },
            Event::SessionRemoved { session_path } => EventView::SessionRemoved {
                session_path: session_path@,
            },
            Event::AttentionRequired { session_path, type_, group, message } =>
                EventView::AttentionRequired {
                session_path: session_path@,
                type_,
                group,
                message: message@,
            },
            Event::PromptSubmitted { session_path, responses } => EventView::PromptSubmitted {
                session_path: session_path@,
                responses: responses_view(responses@),
            },
            Event::PromptCancelled { session_path } => EventView::PromptCancelled {
                session_path: session_path@,
            },
            Event::FailureDismissed => EventView::FailureDismissed,
        }
    }
}

impl View for Command {
    type V = CommandView;

    open spec fn view(&self) -> CommandView {
        match *self {
            Command::NewTunnel { config_path } => CommandView::NewTunnel {
                config_path: config_path@,
            },
            Command::EnableLogForward { session_path } => CommandView::EnableLogForward {
                session_path: session_path@,
            },
            Command::Connect { session_path } => CommandView::Connect {
                session_path: session_path@,
            },
            Command::Disconnect { session_path } => CommandView::Disconnect {
                session_path: session_path@,
            },
            Command::OpenPrompt { session_path, kind, requests, message } =>
                CommandView::OpenPrompt {
                session_path: session_path@,
                kind,
                requests: requests@,
                message: message@,
            },
            Command::ClosePrompt => CommandView::ClosePrompt,
            Command::ProvideInput { session_path, responses } => CommandView::ProvideInput {
                session_path: session_path@,
                responses: responses_view(responses@),
            },
            Command::CheckReady { session_path } => CommandView::CheckReady {
                session_path: session_path@,
            },
            Command::Note { session_path, message } => CommandView::Note {
                session_path: session_path@,
                message: message@,
            },
        }
    }
}

/// Commands as their views.
pub open spec fn commands_view(commands: Seq<Command>) -> Seq<CommandView> {
    commands.map_values(|command: Command| command@)
}

#[derive(Debug, Clone, PartialEq, Eq)]
struct ActiveSession {
    session_path: String,
    config_path: String,
}

/// A session and the profile it runs.
pub struct ActiveSessionView {
    pub session_path: Seq<char>,
    pub config_path: Seq<char>,
}

/// Tracks one session at a time and serialises every transition between them.
#[derive(Debug)]
pub struct Machine {
    state: ConnectionState,
    active: Option<ActiveSession>,
    /// A profile selected while another session still needs tearing down.
    /// Replaced rather than queued: the user's latest choice is the real one.
    pending_target: Option<String>,
    /// Session we issued `Disconnect` to and are waiting to see go away.
    awaiting_teardown: Option<String>,
    /// True once a prompt is open, so a late duplicate `AttentionRequired`
    /// does not reopen a prompt the user already dealt with.
    prompt_open: bool,
    /// The pause that was recorded last, while the session in use is paused.
    /// A status is read again and again until it settles, and a pause that lasts
    /// must not fill the log.
    recorded_pause: Option<StatusMinor>,
}

/// The machine's state, with its texts as sequences of characters.
pub struct MachineView {
    /// What the panel shows.
    pub state: ConnectionState,
    /// The session in use.
    pub active: Option<ActiveSessionView>,
    /// The profile to start once the old session is gone.
    pub pending_target: Option<Seq<char>>,
    /// The session that is being torn down.
    pub awaiting_teardown: Option<Seq<char>>,
    /// Is a prompt open?
    pub prompt_open: bool,
    /// The pause that was recorded last, while the session in use is paused.
    pub recorded_pause: Option<StatusMinor>,
}

/// What an event does: the machine after it, and what the applet is to do.
pub struct StepView {
    pub after: MachineView,
    pub commands: Seq<CommandView>,
}

impl View for Machine {
    type V = MachineView;

    closed spec fn view(&self) -> MachineView {
        MachineView {
            state: self.state,
            active: match self.active {
                Some(active) => Some(
                    ActiveSessionView {
                        session_path: active.session_path@,
                        config_path: active.config_path@,
                    },
                ),
                None => None,
            },
            pending_target: optional(self.pending_target),
            awaiting_teardown: optional(self.awaiting_teardown),
            prompt_open: self.prompt_open,
            recorded_pause: self.recorded_pause,
        }
    }
}

/// Why the first of the requests that no prompt answers cannot be serviced.
pub open spec fn first_refusal(
    requests: Seq<(ClientAttentionType, ClientAttentionGroup)>,
) -> Option<Seq<char>>
    decreases requests.len(),
{
    if requests.len() == 0 {
        None
    } else if prompt_for(requests.first().0, requests.first().1) is None {
        Some(refusal(requests.first().0, requests.first().1))
    } else {
        first_refusal(requests.drop_first())
    }
}

impl MachineView {
    /// The machine before anything happened.
    pub open spec fn initial() -> MachineView {
        MachineView {
            state: ConnectionState::Disconnected,
            active: None,
            pending_target: None,
            awaiting_teardown: None,
            prompt_open: false,
            recorded_pause: None,
        }
    }

    /// The path of the session in use.
    pub open spec fn active_session(self) -> Option<Seq<char>> {
        match self.active {
            Some(active) => Some(active.session_path),
            None => None,
        }
    }

    /// The path of the profile in use.
    pub open spec fn active_config(self) -> Option<Seq<char>> {
        match self.active {
            Some(active) => Some(active.config_path),
            None => None,
        }
    }

    /// Nothing happens.
    pub open spec fn unmoved(self) -> StepView {
        StepView { after: self, commands: seq![] }
    }

    /// The user picks a profile. With nothing in the way it is started. A running
    /// session is torn down first, and while one is being torn down the choice
    /// only replaces the one that waits.
    pub open spec fn on_profile_selected(self, config_path: Seq<char>) -> StepView {
        if self.awaiting_teardown is Some {
            StepView {
                after: MachineView { pending_target: Some(config_path), ..self },
                commands: seq![],
            }
        } else {
            match self.active {
                Some(active) => StepView {
                    after: MachineView {
                        state: ConnectionState::Connecting,
                        active: None,
                        pending_target: Some(config_path),
                        awaiting_teardown: Some(active.session_path),
                        ..self
                    },
                    commands: seq![CommandView::Disconnect { session_path: active.session_path }],
                },
                None => StepView {
                    after: MachineView { state: ConnectionState::Connecting, ..self },
                    commands: seq![CommandView::NewTunnel { config_path }],
                },
            }
        }
    }

    /// The user disconnects. No choice waits any longer, and the session in use
    /// is torn down.
    pub open spec fn on_disconnect_requested(self) -> StepView {
        match self.active {
            Some(active) => StepView {
                after: MachineView {
                    active: None,
                    pending_target: None,
                    awaiting_teardown: Some(active.session_path),
                    ..self
                },
                commands: seq![CommandView::Disconnect { session_path: active.session_path }],
            },
            None => StepView {
                after: MachineView { pending_target: None, ..self },
                commands: seq![],
            },
        }
    }

    /// A session exists. It becomes the one in use; its log is forwarded, and
    /// only then is it asked whether it is ready.
    pub open spec fn on_session_created(
        self,
        session_path: Seq<char>,
        config_path: Seq<char>,
    ) -> StepView {
        StepView {
            after: MachineView {
                state: ConnectionState::Connecting,
                active: Some(ActiveSessionView { session_path, config_path }),
                pending_target: None,
                recorded_pause: None,
                ..self
            },
            commands: seq![
                CommandView::EnableLogForward { session_path },
                CommandView::CheckReady { session_path },
            ],
        }
    }

    /// The session in use is ready, so it connects.
    pub open spec fn on_session_ready(self, session_path: Seq<char>) -> StepView {
        if self.active_session() == Some(session_path) {
            StepView {
                after: MachineView { state: ConnectionState::Connecting, ..self },
                commands: seq![CommandView::Connect { session_path }],
            }
        } else {
            self.unmoved()
        }
    }

    /// What a status leaves in the log though it stands for a state: a pause that is
    /// not the last one recorded.
    pub open spec fn unrecorded(self, status: StatusView) -> Option<Seq<char>> {
        if self.recorded_pause == Some(status.minor) {
            None
        } else {
            status.record()
        }
    }

    /// A status of the session in use moves the display. Leaving auth-pending
    /// closes the prompt, and a pause is noted unless it was the last one noted. A
    /// status that stands for no state is only noted.
    pub open spec fn apply_status(self, session_path: Seq<char>, status: StatusView) -> StepView {
        match status.state() {
            Some(state) => {
                let closes = self.prompt_open && state != ConnectionState::AuthPending;
                StepView {
                    after: MachineView {
                        state,
                        prompt_open: self.prompt_open && !closes,
                        recorded_pause: if in_pause(status.major, status.minor) {
                            Some(status.minor)
                        } else {
                            None
                        },
                        ..self
                    },
                    commands: match self.unrecorded(status) {
                        Some(message) => if closes {
                            seq![
                                CommandView::ClosePrompt,
                                CommandView::Note { session_path, message },
                            ]
                        } else {
                            seq![CommandView::Note { session_path, message }]
                        },
                        None => if closes {
                            seq![CommandView::ClosePrompt]
                        } else {
                            seq![]
                        },
                    },
                }
            },
            None => StepView {
                after: self,
                commands: seq![
                    CommandView::Note {
                        session_path,
                        message: unmapped_reason(status.major, status.minor),
                    },
                ],
            },
        }
    }

    /// A session from elsewhere is adopted where none is in use or going away.
    pub open spec fn on_external_session(
        self,
        session_path: Seq<char>,
        config_path: Seq<char>,
        status: StatusView,
    ) -> StepView {
        if self.awaiting_teardown is Some || self.active is Some {
            self.unmoved()
        } else {
            MachineView {
                active: Some(ActiveSessionView { session_path, config_path }),
                recorded_pause: None,
                ..self
            }.apply_status(session_path, status)
        }
    }

    /// The session being torn down is gone, so the choice that waits is started.
    /// With none waiting the display settles, but a failure stays in view.
    pub open spec fn finish_teardown(self) -> StepView {
        match self.pending_target {
            Some(config_path) => StepView {
                after: MachineView {
                    state: ConnectionState::Connecting,
                    pending_target: None,
                    awaiting_teardown: None,
                    prompt_open: false,
                    ..self
                },
                commands: seq![CommandView::NewTunnel { config_path }],
            },
            None => StepView {
                after: MachineView {
                    state: self.settled(),
                    awaiting_teardown: None,
                    prompt_open: false,
                    ..self
                },
                commands: seq![],
            },
        }
    }

    /// What the display shows once a session is gone.
    pub open spec fn settled(self) -> ConnectionState {
        if self.state == ConnectionState::Failed {
            ConnectionState::Failed
        } else {
            ConnectionState::Disconnected
        }
    }

    /// A status arrives. One of the session being torn down matters only when it
    /// says disconnected; one of any session but that and the one in use does not
    /// matter at all.
    pub open spec fn on_status(self, session_path: Seq<char>, status: StatusView) -> StepView {
        if self.awaiting_teardown == Some(session_path) {
            if status.state() == Some(ConnectionState::Disconnected) {
                self.finish_teardown()
            } else {
                self.unmoved()
            }
        } else if self.active_session() == Some(session_path) {
            self.apply_status(session_path, status)
        } else {
            self.unmoved()
        }
    }

    /// A session object goes away: the teardown is complete, or the session in
    /// use vanished.
    pub open spec fn on_session_removed(self, session_path: Seq<char>) -> StepView {
        if self.awaiting_teardown == Some(session_path) {
            self.finish_teardown()
        } else if self.active_session() == Some(session_path) {
            StepView {
                after: MachineView {
                    state: self.settled(),
                    active: None,
                    prompt_open: false,
                    ..self
                },
                commands: seq![],
            }
        } else {
            self.unmoved()
        }
    }

    /// The session in use wants input. One request that no prompt answers fails
    /// the whole attempt, and closes a prompt that is open; otherwise one prompt is
    /// opened for all of them, unless one is open.
    pub open spec fn on_credentials_required(
        self,
        session_path: Seq<char>,
        requests: Seq<(ClientAttentionType, ClientAttentionGroup)>,
        message: Seq<char>,
    ) -> StepView {
        if self.active_session() != Some(session_path) || requests.len() == 0 {
            self.unmoved()
        } else {
            match first_refusal(requests) {
                Some(reason) => StepView {
                    after: MachineView {
                        state: ConnectionState::Failed,
                        active: None,
                        awaiting_teardown: Some(session_path),
                        prompt_open: false,
                        ..self
                    },
                    commands: if self.prompt_open {
                        seq![
                            CommandView::ClosePrompt,
                            CommandView::Note { session_path, message: reason },
                            CommandView::Disconnect { session_path },
                        ]
                    } else {
                        seq![
                            CommandView::Note { session_path, message: reason },
                            CommandView::Disconnect { session_path },
                        ]
                    },
                },
                None => if self.prompt_open {
                    self.unmoved()
                } else {
                    StepView {
                        after: MachineView {
                            state: ConnectionState::AuthPending,
                            prompt_open: true,
                            ..self
                        },
                        commands: seq![
                            CommandView::OpenPrompt {
                                session_path,
                                kind: prompt_for(requests.first().0, requests.first().1)->0,
                                requests,
                                message,
                            },
                        ],
                    }
                },
            }
        }
    }

    /// The user answers. The input is handed over, the prompt closes, and the
    /// session is asked again whether it is ready.
    pub open spec fn on_prompt_submitted(
        self,
        session_path: Seq<char>,
        responses: Seq<InputResponseView>,
    ) -> StepView {
        if self.active_session() == Some(session_path) {
            StepView {
                after: MachineView {
                    state: ConnectionState::Connecting,
                    prompt_open: false,
                    ..self
                },
                commands: seq![
                    CommandView::ProvideInput { session_path, responses },
                    CommandView::ClosePrompt,
                    CommandView::CheckReady { session_path },
                ],
            }
        } else {
            self.unmoved()
        }
    }

    /// The user cancels, which ends the attempt outright.
    pub open spec fn on_prompt_cancelled(self, session_path: Seq<char>) -> StepView {
        if self.active_session() == Some(session_path) {
            StepView {
                after: MachineView {
                    state: ConnectionState::Failed,
                    active: None,
                    pending_target: None,
                    awaiting_teardown: Some(session_path),
                    prompt_open: false,
                    ..self
                },
                commands: seq![
                    CommandView::ClosePrompt,
                    CommandView::Disconnect { session_path },
                ],
            }
        } else {
            self.unmoved()
        }
    }

    /// The user has seen the failure.
    pub open spec fn on_failure_dismissed(self) -> StepView {
        StepView {
            after: MachineView {
                state: if self.state == ConnectionState::Failed {
                    ConnectionState::Disconnected
                } else {
                    self.state
                },
                ..self
            },
            commands: seq![],
        }
    }

    /// What an event does.
    pub open spec fn step(self, event: EventView) -> StepView {
        match event {
            EventView::ProfileSelected { config_path } => self.on_profile_selected(config_path),
            EventView::DisconnectRequested => self.on_disconnect_requested(),
            EventView::SessionCreated { session_path, config_path } => self.on_session_created(
                session_path,
                config_path,
            ),
            EventView::SessionReady { session_path } => self.on_session_ready(session_path),
            EventView::CredentialsRequired { session_path, requests, message } =>
                self.on_credentials_required(session_path, requests, message),
            EventView::ExternalSessionSeen { session_path, config_path, status } =>
                self.on_external_session(session_path, config_path, status),
            EventView::StatusChanged { session_path, status } => self.on_status(
                session_path,
                status,
            ),
            EventView::SessionRemoved { session_path } => self.on_session_removed(session_path),
            EventView::AttentionRequired { session_path, type_, group, message } =>
                self.on_credentials_required(session_path, seq![(type_, group)], message),
            EventView::PromptSubmitted { session_path, responses } => self.on_prompt_submitted(
                session_path,
                responses,
            ),
            EventView::PromptCancelled { session_path } => self.on_prompt_cancelled(session_path),
            EventView::FailureDismissed => self.on_failure_dismissed(),
        }
    }
}

impl Default for Machine {
    fn default() -> (machine: Machine)
        ensures
            machine@ == MachineView::initial(),
    {
        Machine {
            state: ConnectionState::Disconnected,
            active: None,
            pending_target: None,
            awaiting_teardown: None,
            prompt_open: false,
            recorded_pause: None,
        }
    }
}

impl Machine {
    /// A machine that has seen nothing yet.
    pub fn new() -> (machine: Machine)
        ensures
            machine@ == MachineView::initial(),
    {
        Machine::default()
    }

    /// What the panel shows.
    pub fn state(&self) -> (state: ConnectionState)
        ensures
            state == self@.state,
    {
        self.state
    }

    /// The session in use.
    pub fn active_session(&self) -> (path: Option<&str>)
        ensures
            optional_str(path) == self@.active_session(),
    {
        match &self.active {
            Some(active) => Some(active.session_path.as_str()),
            None => None,
        }
    }

    /// The session we issued `Disconnect` to and have not yet seen go away.
    ///
    /// Exposed so the caller can reconcile against reality: if openvpn3 no
    /// longer lists this session, the teardown completed and we simply missed
    /// the signal. Without that check a single dropped event leaves the machine
    /// waiting forever, and every later profile selection silently does nothing.
    pub fn awaiting_teardown(&self) -> (path: Option<&str>)
        ensures
            optional_str(path) == self@.awaiting_teardown,
    {
        match &self.awaiting_teardown {
            Some(path) => Some(path.as_str()),
            None => None,
        }
    }

    /// The profile in use.
    pub fn active_config(&self) -> (path: Option<&str>)
        ensures
            optional_str(path) == self@.active_config(),
    {
        match &self.active {
            Some(active) => Some(active.config_path.as_str()),
            None => None,
        }
    }

    /// Is this config the one currently connected (or connecting)?
    pub fn is_active_config(&self, config_path: &str) -> (active: bool)
        ensures
            active == (self@.active_config() == Some(config_path@)),
    {
        match &self.active {
            Some(active) => active.config_path == config_path.to_owned(),
            None => false,
        }
    }

    /// Is this session the one in use?
    fn is_active_session(&self, session_path: &String) -> (active: bool)
        ensures
            active == (self@.active_session() == Some(session_path@)),
    {
        match &self.active {
            Some(active) => active.session_path == *session_path,
            None => false,
        }
    }

    /// Take in what happened, and say what to do about it.
    pub fn handle(&mut self, event: Event) -> (commands: Vec<Command>)
        ensures
            final(self)@ == old(self)@.step(event@).after,
            commands_view(commands@) == old(self)@.step(event@).commands,
    {
        match event {
            Event::ProfileSelected { config_path } => self.on_profile_selected(config_path),
            Event::DisconnectRequested => self.on_disconnect_requested(),
            Event::SessionCreated { session_path, config_path } => self.on_session_created(
                session_path,
                config_path,
            ),
            Event::SessionReady { session_path } => self.on_session_ready(session_path),
            Event::CredentialsRequired { session_path, requests, message } =>
                self.on_credentials_required(session_path, requests, message),
            Event::ExternalSessionSeen { session_path, config_path, status } =>
                self.on_external_session(session_path, config_path, status),
            Event::StatusChanged { session_path, status } => self.on_status(session_path, status),
            Event::SessionRemoved { session_path } => self.on_session_removed(session_path),
            Event::AttentionRequired { session_path, type_, group, message } => {
                let requests: Vec<(ClientAttentionType, ClientAttentionGroup)> = vec![
                    (type_, group),
                ];
                assert(requests@ =~= seq![(type_, group)]);
                self.on_credentials_required(session_path, requests, message)
            },
            Event::PromptSubmitted { session_path, responses } => self.on_prompt_submitted(
                session_path,
                responses,
            ),
            Event::PromptCancelled { session_path } => self.on_prompt_cancelled(session_path),
            Event::FailureDismissed => self.on_failure_dismissed(),
        }
    }

    fn on_profile_selected(&mut self, config_path: String) -> (commands: Vec<Command>)
        ensures
            final(self)@ == old(self)@.on_profile_selected(config_path@).after,
            commands_view(commands@) == old(self)@.on_profile_selected(config_path@).commands,
    {
        // Already tearing something down: just retarget. Starting a second
        // chain here is what would let two sessions exist at once.
        if self.awaiting_teardown.is_some() {
            self.pending_target = Some(config_path);
            return vec![];
        }
        match self.active.take() {
            Some(active) => {
                // The running session goes away *before* the new one starts.
                // NewTunnel is deferred until we see it gone.
                self.pending_target = Some(config_path);
                self.awaiting_teardown = Some(active.session_path.clone());
                self.state = ConnectionState::Connecting;
                vec![Command::Disconnect { session_path: active.session_path }]
            },
            None => {
                self.state = ConnectionState::Connecting;
                vec![Command::NewTunnel { config_path }]
            },
        }
    }

    fn on_disconnect_requested(&mut self) -> (commands: Vec<Command>)
        ensures
            final(self)@ == old(self)@.on_disconnect_requested().after,
            commands_view(commands@) == old(self)@.on_disconnect_requested().commands,
    {
        self.pending_target = None;
        match self.active.take() {
            Some(active) => {
                self.awaiting_teardown = Some(active.session_path.clone());
                vec![Command::Disconnect { session_path: active.session_path }]
            },
            None => vec![],
        }
    }

    fn on_session_created(&mut self, session_path: String, config_path: String) -> (commands: Vec<
        Command,
    >)
        ensures
            final(self)@ == old(self)@.on_session_created(session_path@, config_path@).after,
            commands_view(commands@) == old(self)@.on_session_created(
                session_path@,
                config_path@,
            ).commands,
    {
        self.pending_target = None;
        self.recorded_pause = None;
        self.active = Some(ActiveSession { session_path: session_path.clone(), config_path });
        self.state = ConnectionState::Connecting;
        // Ordering is load-bearing twice over. Log forwarding has to be on
        // before the handshake starts or a failed connect has no log to show;
        // and readiness has to be confirmed before Connect, because that is how
        // openvpn3 reports that a profile needs a password.
        vec![
            Command::EnableLogForward { session_path: session_path.clone() },
            Command::CheckReady { session_path },
        ]
    }

    fn on_session_ready(&mut self, session_path: String) -> (commands: Vec<Command>)
        ensures
            final(self)@ == old(self)@.on_session_ready(session_path@).after,
            commands_view(commands@) == old(self)@.on_session_ready(session_path@).commands,
    {
        if !self.is_active_session(&session_path) {
            return vec![];
        }
        self.state = ConnectionState::Connecting;
        vec![Command::Connect { session_path }]
    }

    fn on_external_session(
        &mut self,
        session_path: String,
        config_path: String,
        status: Status,
    ) -> (commands: Vec<Command>)
        ensures
            final(self)@ == old(self)@.on_external_session(
                session_path@,
                config_path@,
                status@,
            ).after,
            commands_view(commands@) == old(self)@.on_external_session(
                session_path@,
                config_path@,
                status@,
            ).commands,
    {
        // Only adopt when we are not mid-transition; otherwise our own chain is
        // the authority and an external report would fight it.
        if self.awaiting_teardown.is_some() || self.active.is_some() {
            return vec![];
        }
        self.recorded_pause = None;
        self.active = Some(ActiveSession { session_path: session_path.clone(), config_path });
        self.apply_status(session_path, status)
    }

    fn on_status(&mut self, session_path: String, status: Status) -> (commands: Vec<Command>)
        ensures
            final(self)@ == old(self)@.on_status(session_path@, status@).after,
            commands_view(commands@) == old(self)@.on_status(session_path@, status@).commands,
    {
        // A status for a session we are tearing down tells us how far along it
        // is; anything else about an untracked session is not ours to render.
        let is_active = self.is_active_session(&session_path);
        let is_tearing_down = reads(&self.awaiting_teardown, &session_path);
        if !is_active && !is_tearing_down {
            return vec![];
        }
        if is_tearing_down {
            return match status.transition() {
                StateTransition::SetTo(ConnectionState::Disconnected) => self.finish_teardown(),
                _ => vec![],
            };
        }
        self.apply_status(session_path, status)
    }

    fn apply_status(&mut self, session_path: String, status: Status) -> (commands: Vec<Command>)
        ensures
            final(self)@ == old(self)@.apply_status(session_path@, status@).after,
            commands_view(commands@) == old(self)@.apply_status(session_path@, status@).commands,
    {
        match status.transition() {
            StateTransition::SetTo(new_state) => {
                self.state = new_state;
                let mut commands: Vec<Command> = vec![];
                // Leaving auth-pending means the prompt is no longer wanted.
                if self.prompt_open && new_state != ConnectionState::AuthPending {
                    self.prompt_open = false;
                    commands.push(Command::ClosePrompt);
                }
                match status.record() {
                    Some(message) => {
                        let known = match self.recorded_pause {
                            Some(minor) => minor == status.minor,
                            None => false,
                        };
                        if !known {
                            commands.push(Command::Note { session_path, message });
                        }
                        self.recorded_pause = Some(status.minor);
                    },
                    None => {
                        self.recorded_pause = None;
                    },
                }
                assert(commands_view(commands@) =~= old(self)@.apply_status(
                    session_path@,
                    status@,
                ).commands);
                commands
            },
            // Leave the display alone, but make the gap visible.
            StateTransition::NoChange { reason } => vec![
                Command::Note { session_path, message: reason },
            ],
        }
    }

    fn on_session_removed(&mut self, session_path: String) -> (commands: Vec<Command>)
        ensures
            final(self)@ == old(self)@.on_session_removed(session_path@).after,
            commands_view(commands@) == old(self)@.on_session_removed(session_path@).commands,
    {
        if reads(&self.awaiting_teardown, &session_path) {
            return self.finish_teardown();
        }
        if self.is_active_session(&session_path) {
            self.active = None;
            self.prompt_open = false;
            // A session vanishing under a connected/connecting display means it
            // is gone, however it went.
            if self.state != ConnectionState::Failed {
                self.state = ConnectionState::Disconnected;
            }
        }
        vec![]
    }

    fn finish_teardown(&mut self) -> (commands: Vec<Command>)
        ensures
            final(self)@ == old(self)@.finish_teardown().after,
            commands_view(commands@) == old(self)@.finish_teardown().commands,
    {
        self.awaiting_teardown = None;
        self.prompt_open = false;
        match self.pending_target.take() {
            Some(config_path) => {
                self.state = ConnectionState::Connecting;
                vec![Command::NewTunnel { config_path }]
            },
            None => {
                if self.state != ConnectionState::Failed {
                    self.state = ConnectionState::Disconnected;
                }
                vec![]
            },
        }
    }

    fn on_credentials_required(
        &mut self,
        session_path: String,
        requests: Vec<(ClientAttentionType, ClientAttentionGroup)>,
        message: String,
    ) -> (commands: Vec<Command>)
        ensures
            final(self)@ == old(self)@.on_credentials_required(
                session_path@,
                requests@,
                message@,
            ).after,
            commands_view(commands@) == old(self)@.on_credentials_required(
                session_path@,
                requests@,
                message@,
            ).commands,
    {
        if !self.is_active_session(&session_path) || requests.is_empty() {
            return vec![];
        }
        // One unanswerable group fails the whole attempt. Prompting for the rest
        // would collect input the connect can never use, and so would a prompt that
        // is open already.
        if let Some(reason) = refused(&requests) {
            let mut commands: Vec<Command> = vec![];
            if self.prompt_open {
                commands.push(Command::ClosePrompt);
            }
            commands.push(Command::Note { session_path: session_path.clone(), message: reason });
            commands.push(Command::Disconnect { session_path: session_path.clone() });
            self.state = ConnectionState::Failed;
            self.active = None;
            self.awaiting_teardown = Some(session_path);
            self.prompt_open = false;
            assert(commands_view(commands@) =~= old(self)@.on_credentials_required(
                session_path@,
                requests@,
                message@,
            ).commands);
            return commands;
        }
        // A late or duplicate request must not reopen the prompt.
        if self.prompt_open {
            return vec![];
        }
        // The heading comes from the first group; the form spans them all.
        let kind = match route_attention(requests[0].0, requests[0].1) {
            AttentionRouting::Prompt(kind) => kind,
            AttentionRouting::Unsupported { .. } => {
                return vec![];
            },
        };
        self.state = ConnectionState::AuthPending;
        self.prompt_open = true;
        vec![Command::OpenPrompt { session_path, kind, requests, message }]
    }

    fn on_prompt_submitted(&mut self, session_path: String, responses: Vec<InputResponse>) -> (
    commands: Vec<Command>)
        ensures
            final(self)@ == old(self)@.on_prompt_submitted(
                session_path@,
                responses_view(responses@),
            ).after,
            commands_view(commands@) == old(self)@.on_prompt_submitted(
                session_path@,
                responses_view(responses@),
            ).commands,
    {
        if !self.is_active_session(&session_path) {
            return vec![];
        }
        self.prompt_open = false;
        self.state = ConnectionState::Connecting;
        // Re-check rather than connecting blind: openvpn3 may have more than one
        // thing to ask for, and the reference client loops on Ready for exactly
        // that reason.
        // ClosePrompt precedes the re-check deliberately. CheckReady can open a
        // second prompt, since openvpn3 often asks for a username and a password
        // in separate rounds, and a trailing close would wipe out the prompt
        // that had just been opened.
        vec![
            Command::ProvideInput { session_path: session_path.clone(), responses },
            Command::ClosePrompt,
            Command::CheckReady { session_path },
        ]
    }

    /// Cancelling ends the attempt outright. Leaving the session running would
    /// strand it in auth-pending with no prompt to return to.
    fn on_prompt_cancelled(&mut self, session_path: String) -> (commands: Vec<Command>)
        ensures
            final(self)@ == old(self)@.on_prompt_cancelled(session_path@).after,
            commands_view(commands@) == old(self)@.on_prompt_cancelled(session_path@).commands,
    {
        if !self.is_active_session(&session_path) {
            return vec![];
        }
        self.prompt_open = false;
        self.state = ConnectionState::Failed;
        self.active = None;
        self.pending_target = None;
        self.awaiting_teardown = Some(session_path.clone());
        vec![Command::ClosePrompt, Command::Disconnect { session_path }]
    }

    fn on_failure_dismissed(&mut self) -> (commands: Vec<Command>)
        ensures
            final(self)@ == old(self)@.on_failure_dismissed().after,
            commands_view(commands@) == old(self)@.on_failure_dismissed().commands,
    {
        if self.state == ConnectionState::Failed {
            self.state = ConnectionState::Disconnected;
        }
        vec![]
    }
}

/// Why the first of the requests that no prompt answers cannot be serviced.
fn refused(requests: &Vec<(ClientAttentionType, ClientAttentionGroup)>) -> (reason: Option<String>)
    ensures
        optional(reason) == first_refusal(requests@),
        reason is None && requests.len() > 0 ==> prompt_for(requests[0].0, requests[0].1) is Some,
{
    let mut i: usize = 0;
    assert(requests@.skip(0) == requests@);
    while i < requests.len()
        invariant
            i <= requests.len(),
            first_refusal(requests@.skip(i as int)) == first_refusal(requests@),
            i > 0 ==> prompt_for(requests[0].0, requests[0].1) is Some,
        decreases requests.len() - i,
    {
        let (type_, group) = requests[i];
        assert(requests@.skip(i as int).first() == requests@[i as int]);
        if let AttentionRouting::Unsupported { reason } = route_attention(type_, group) {
            return Some(reason);
        }
        assert(requests@.skip(i as int).drop_first() == requests@.skip(i + 1));
        i = i + 1;
    }
    None
}

} // verus!

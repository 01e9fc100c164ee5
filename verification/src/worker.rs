//! The worker: it drives the machine and the log store, and says what to ask of
//! D-Bus and the disk.
//!
//! It performs no I/O itself. [`Worker::step`] does one piece of work at a time
//! and hands out a [`Call`] whenever only the outside can go on; the answer comes
//! back through [`Worker::resume`]. The panel renders what [`Worker::publish`]
//! makes of the state, whole, so it cannot drift out of sync with the worker.

use crate::agenda::{runs, tasks_view, Task, TaskView, Wait};
use crate::attention::{ClientAttentionGroup, ClientAttentionType, InputRequest, PromptKind};
use crate::calls::{items_view, wire_inputs_view, Call, QueueItem, Reply, WireInput};
use crate::dbus::{
    decode_status, profiles_view, prompt_inputs_view, Profile, PromptInput, PromptSpec,
    Snapshot, UiCommand, Wire, LOG_CAPACITY,
};
use crate::logbuf::{LogEntry, LogStore, SessionLog};
use crate::machine::{commands_view, responses_view, Command, Event, InputResponse, Machine};
use crate::object_path::addressable;
use crate::roster::{arrange, listed_profiles_view, names_view, ListedProfile};
use crate::status::{ConnectionState, Status};
use crate::text::{decimal_text, file_stem, optional, texts, trim};
use crate::worker_model::{
    decoded_pair, decoded_requests, messages, queue_fields, request_text, ui_tasks,
    unavailable_text, wire_inputs, with_failures, Progress, WorkerView,
};
use std::collections::VecDeque;
use vstd::hash_map::StringHashMap;
use vstd::prelude::*;
use vstd::string::*;

verus! {

/// The worker's state.
pub struct Worker {
    machine: Machine,
    logs: LogStore,
    profiles: Vec<Profile>,
    profile_names: StringHashMap<String>,
    prompt: Option<PromptSpec>,
    status_message: String,
    unavailable: Option<String>,
    session_created: Option<u64>,
    /// What is left to do, first things first.
    agenda: VecDeque<Task>,
    /// What the call that is out is for.
    waiting: Option<Wait>,
}

impl View for Worker {
    type V = WorkerView;

    closed spec fn view(&self) -> WorkerView {
        WorkerView {
            machine: self.machine@,
            logs: self.logs@,
            profiles: profiles_view(self.profiles@),
            profile_names: names_view(self.profile_names@),
            prompt: match self.prompt {
                Some(prompt) => Some(prompt@),
                None => None,
            },
            status_message: self.status_message@,
            unavailable: optional(self.unavailable),
            session_created: self.session_created,
            agenda: tasks_view(self.agenda@),
            waiting: match self.waiting {
                Some(wait) => Some(wait@),
                None => None,
            },
        }
    }
}

/// `prefix` with `text` behind it.
fn prefixed(prefix: &str, text: &str) -> (whole: String)
    ensures
        whole@ == prefix@ + text@,
{
    let mut whole = prefix.to_owned();
    whole.append(text);
    whole
}

/// `prefix` and what it is about, with the error behind them.
fn about(prefix: &str, subject: &str, error: &str) -> (text: String)
    ensures
        text@ == prefix@ + subject@ + ": "@ + error@,
{
    let mut text = prefixed(prefix, subject);
    text.append(": ");
    text.append(error);
    text
}

/// Say which request could not be decoded.
fn describe_request(prefix: &str, type_: u32, group: u32) -> (text: String)
    ensures
        text@ == request_text(prefix@, type_, group),
{
    let mut text = prefixed(prefix, "type=");
    text.append(decimal_text(type_ as u64).as_str());
    text.append(" group=");
    text.append(decimal_text(group as u64).as_str());
    text
}

/// Say why the profiles cannot be listed.
fn describe_unavailable(error: &str, installed: bool) -> (text: String)
    ensures
        text@ == unavailable_text(error@, installed),
{
    if installed {
        let mut text = prefixed(
            "openvpn3 is installed but its services are not answering on the D-Bus system bus (",
            error,
        );
        text.append(
            "). Try `openvpn3 configs-list` in a terminal — if that fails too, the openvpn3 services are not running.",
        );
        text
    } else {
        "openvpn3-linux is not installed.\n\nAdd OpenVPN's apt repository, then:\nsudo apt install openvpn3".to_owned()
    }
}

/// Decode a pair of numbers from an input queue.
pub fn decode_pair(type_: u32, group: u32) -> (request: Option<
    (ClientAttentionType, ClientAttentionGroup),
>)
    ensures
        request == decoded_pair(type_, group),
{
    if type_ > 0xff || group > 0xff {
        return None;
    }
    let type_ = match ClientAttentionType::try_from(type_ as u8) {
        Ok(type_) => type_,
        Err(_) => {
            return None;
        },
    };
    match ClientAttentionGroup::try_from(group as u8) {
        Ok(group) => Some((type_, group)),
        Err(_) => None,
    }
}

/// Decode the pairs of an input queue that decode.
pub fn decode_requests(pairs: &Vec<(u32, u32)>) -> (requests: Vec<
    (ClientAttentionType, ClientAttentionGroup),
>)
    ensures
        requests@ == decoded_requests(pairs@),
{
    let mut requests: Vec<(ClientAttentionType, ClientAttentionGroup)> = Vec::new();
    let mut i: usize = 0;
    while i < pairs.len()
        invariant
            i <= pairs.len(),
            requests@ == decoded_requests(pairs@.take(i as int)),
        decreases pairs.len() - i,
    {
        let (type_, group) = pairs[i];
        assert(pairs@.take(i + 1).drop_last() == pairs@.take(i as int));
        if let Some(request) = decode_pair(type_, group) {
            requests.push(request);
        }
        i = i + 1;
    }
    assert(pairs@.take(i as int) == pairs@);
    requests
}

/// Make the items of one queue into fields, behind those that are there.
fn add_fields(
    fields: &mut Vec<PromptInput>,
    type_: ClientAttentionType,
    group: ClientAttentionGroup,
    items: Vec<Option<QueueItem>>,
)
    ensures
        prompt_inputs_view(final(fields)@) == prompt_inputs_view(old(fields)@) + queue_fields(
            type_,
            group,
            items_view(items@),
        ),
{
    let ghost before = prompt_inputs_view(fields@);
    let ghost views = items_view(items@);
    let mut i: usize = 0;
    assert(before + queue_fields(type_, group, views.take(0)) =~= before);
    while i < items.len()
        invariant
            i <= items.len(),
            views == items_view(items@),
            prompt_inputs_view(fields@) == before + queue_fields(
                type_,
                group,
                views.take(i as int),
            ),
        decreases items.len() - i,
    {
        proof {
            assert(views.take(i + 1).drop_last() == views.take(i as int));
            assert(views.take(i + 1).last() == views[i as int]);
        }
        match &items[i] {
            Some(item) => {
                let request = InputRequest {
                    type_,
                    group,
                    id: item.id,
                    name: item.name.clone(),
                    description: item.description.clone(),
                    hidden_input: item.hidden_input,
                };
                let field = PromptInput { type_, group, field: request.to_field() };
                let ghost known = fields@;
                fields.push(field);
                assert(prompt_inputs_view(fields@) =~= prompt_inputs_view(known).push(field@));
            },
            None => {},
        }
        i = i + 1;
    }
    assert(views.take(i as int) == views);
}

/// Put the answers as the bus carries them.
fn to_wire_inputs(responses: Vec<InputResponse>) -> (inputs: Vec<WireInput>)
    ensures
        wire_inputs_view(inputs@) == wire_inputs(responses_view(responses@)),
{
    let mut inputs: Vec<WireInput> = Vec::new();
    let mut i: usize = 0;
    while i < responses.len()
        invariant
            i <= responses.len(),
            inputs@.len() == i,
            forall|k: int|
                0 <= k < i ==> (#[trigger] inputs@[k])@ == wire_inputs(
                    responses_view(responses@),
                )[k],
        decreases responses.len() - i,
    {
        let response = &responses[i];
        inputs.push(
            WireInput {
                type_: u8::from(response.type_) as u32,
                group: u8::from(response.group) as u32,
                id: response.id,
                value: response.value.clone(),
            },
        );
        i = i + 1;
    }
    assert(wire_inputs_view(inputs@) =~= wire_inputs(responses_view(responses@)));
    inputs
}

/// Note every answer that was refused.
fn note_failures(logs: &mut LogStore, session_path: &str, errors: Vec<String>)
    requires
        old(logs).wf(),
    ensures
        final(logs).wf(),
        final(logs)@ == with_failures(old(logs)@, session_path@, texts(errors@)),
{
    let ghost before = logs@;
    let ghost views = texts(errors@);
    let mut i: usize = 0;
    while i < errors.len()
        invariant
            i <= errors.len(),
            views == texts(errors@),
            logs.wf(),
            logs@ == with_failures(before, session_path@, views.take(i as int)),
        decreases errors.len() - i,
    {
        proof {
            assert(views.take(i + 1).drop_last() == views.take(i as int));
            assert(views.take(i + 1).last() == views[i as int]);
        }
        logs.note(
            session_path,
            prefixed("Submitting credentials failed: ", errors[i].as_str()).as_str(),
        );
        i = i + 1;
    }
    assert(views.take(i as int) == views);
}

/// Is this path among those?
fn lists(paths: &Vec<String>, path: &String) -> (listed: bool)
    ensures
        listed == texts(paths@).contains(path@),
{
    let mut i: usize = 0;
    while i < paths.len()
        invariant
            i <= paths.len(),
            forall|k: int| 0 <= k < i ==> (#[trigger] paths@[k])@ != path@,
        decreases paths.len() - i,
    {
        if paths[i] == *path {
            assert(texts(paths@)[i as int] == path@);
            return true;
        }
        i = i + 1;
    }
    assert forall|k: int| 0 <= k < paths@.len() implies texts(paths@)[k] != path@ by {
        assert(paths@[k]@ != path@);
    }
    false
}

/// The lines of a log, copied.
fn copied_messages(entries: &Vec<&LogEntry>) -> (lines: Vec<String>)
    ensures
        texts(lines@) == messages(entries@.map_values(|entry: &LogEntry| entry@)),
{
    let mut lines: Vec<String> = Vec::new();
    let mut i: usize = 0;
    while i < entries.len()
        invariant
            i <= entries.len(),
            lines@.len() == i,
            forall|k: int| 0 <= k < i ==> (#[trigger] lines@[k])@ == entries@[k]@.message,
        decreases entries.len() - i,
    {
        lines.push(entries[i].message.clone());
        i = i + 1;
    }
    assert(texts(lines@) =~= messages(entries@.map_values(|entry: &LogEntry| entry@)));
    lines
}

/// Put commands before everything else, in their order.
fn prepend(agenda: &mut VecDeque<Task>, commands: Vec<Command>)
    ensures
        tasks_view(final(agenda)@) == runs(commands_view(commands@)) + tasks_view(old(agenda)@),
{
    let ghost all = runs(commands_view(commands@)) + tasks_view(agenda@);
    let mut commands = commands;
    while commands.len() > 0
        invariant
            all == runs(commands_view(commands@)) + tasks_view(agenda@),
        decreases commands.len(),
    {
        let ghost known = commands@;
        let ghost old_agenda = agenda@;
        match commands.pop() {
            Some(command) => {
                agenda.push_front(Task::Run(command));
                assert(runs(commands_view(known)) + tasks_view(old_agenda) =~= runs(
                    commands_view(commands@),
                ) + tasks_view(agenda@));
            },
            None => {},
        }
    }
    assert(runs(commands_view(commands@)) + tasks_view(agenda@) =~= tasks_view(agenda@));
}

impl Worker {
    /// What every method keeps.
    pub closed spec fn wf(&self) -> bool {
        self.logs.wf()
    }

    /// A worker before anything happened. It lists the profiles, adopts a session
    /// that is already there, and follows the session manager.
    pub fn new() -> (worker: Worker)
        ensures
            worker.wf(),
            worker@ == WorkerView::initial(),
    {
        let mut agenda: VecDeque<Task> = VecDeque::new();
        agenda.push_back(Task::Refresh);
        agenda.push_back(Task::Adopt);
        agenda.push_back(Task::Watch);
        let worker = Worker {
            machine: Machine::new(),
            logs: LogStore::new(LOG_CAPACITY),
            profiles: Vec::new(),
            profile_names: StringHashMap::new(),
            prompt: None,
            status_message: String::new(),
            unavailable: None,
            session_created: None,
            agenda,
            waiting: None,
        };
        assert(worker@ =~= WorkerView::initial());
        worker
    }

    /// What the panel shows.
    pub fn state(&self) -> (state: ConnectionState)
        ensures
            state == self@.machine.state,
    {
        self.machine.state()
    }

    /// Is the applet mid-transition, that is, is the display expected to change
    /// on its own shortly? Settled states need no watching.
    pub fn transition_in_flight(&self) -> (in_flight: bool)
        ensures
            in_flight == self@.in_flight(),
    {
        self.machine.awaiting_teardown().is_some() || self.machine.state()
            == ConnectionState::Connecting
    }

    /// Everything the panel renders.
    pub fn publish(&self) -> (snapshot: Snapshot)
        requires
            self.wf(),
        ensures
            snapshot@ == self@.snapshot(),
    {
        let log = match self.logs.most_recent() {
            SessionLog::Captured { entries, .. } => Some(copied_messages(&entries)),
            SessionLog::NotCaptured { .. } => None,
            SessionLog::NoSession => None,
        };
        let (active_config, active_name) = match self.machine.active_config() {
            Some(path) => {
                let name = match self.profile_names.get(path) {
                    Some(name) => Some(name.clone()),
                    None => None,
                };
                (Some(path.to_owned()), name)
            },
            None => (None, None),
        };
        let profiles = self.profiles.clone();
        assert(profiles_view(profiles@) =~= profiles_view(self.profiles@));
        Snapshot {
            state: self.machine.state(),
            profiles,
            active_config,
            active_name,
            session_created: self.session_created,
            status_message: self.status_message.clone(),
            prompt: match &self.prompt {
                Some(prompt) => Some(prompt.clone()),
                None => None,
            },
            log,
            unavailable: match &self.unavailable {
                Some(text) => Some(text.clone()),
                None => None,
            },
        }
    }

    /// Do this before everything else.
    fn put_first(&mut self, task: Task)
        requires
            old(self).wf(),
        ensures
            final(self).wf(),
            final(self)@ == old(self)@.first(task@),
    {
        self.agenda.push_front(task);
        assert(self@ =~= old(self)@.first(task@));
    }

    /// Do this after everything else.
    fn put_later(&mut self, task: Task)
        requires
            old(self).wf(),
        ensures
            final(self).wf(),
            final(self)@ == old(self)@.later(seq![task@]),
    {
        self.agenda.push_back(task);
        assert(self@ =~= old(self)@.later(seq![task@]));
    }

    /// Write a line into a session's log.
    fn note(&mut self, path: &str, message: &str)
        requires
            old(self).wf(),
        ensures
            final(self).wf(),
            final(self)@ == old(self)@.noted(path@, message@),
    {
        self.logs.note(path, message);
    }

    /// Put this in the menu in place of the profiles.
    fn say(&mut self, text: String)
        requires
            old(self).wf(),
        ensures
            final(self).wf(),
            final(self)@ == old(self)@.says(text@),
    {
        self.unavailable = Some(text);
    }

    /// Hand an event to the machine, and do what it asks for before everything
    /// else.
    fn dispatch(&mut self, event: Event)
        requires
            old(self).wf(),
        ensures
            final(self).wf(),
            final(self)@ == old(self)@.dispatched(event@),
    {
        reveal(WorkerView::dispatched);
        let commands = self.machine.handle(event);
        prepend(&mut self.agenda, commands);
    }

    /// Hand out a call.
    fn ask(&mut self, call: Call, wait: Wait) -> (progress: Progress)
        requires
            old(self).wf(),
        ensures
            final(self).wf(),
            final(self)@ == old(self)@.asks(call@, wait@).after,
            progress@ == old(self)@.asks(call@, wait@).progress,
    {
        self.waiting = Some(wait);
        Progress::Ask(call)
    }

    /// Hand out a call to an object, if it can be addressed.
    fn ask_object(&mut self, path: &String, call: Call, wait: Wait) -> (progress: Progress)
        requires
            old(self).wf(),
        ensures
            final(self).wf(),
            final(self)@ == old(self)@.asks_session(path@, call@, wait@).after,
            progress@ == old(self)@.asks_session(path@, call@, wait@).progress,
    {
        if addressable(path.as_str()) {
            self.ask(call, wait)
        } else {
            Progress::Worked
        }
    }

    /// Take in a request from the panel. It is served when what came before it is
    /// done.
    pub fn on_ui_command(&mut self, command: UiCommand)
        requires
            old(self).wf(),
        ensures
            final(self).wf(),
            final(self)@ == old(self)@.later(ui_tasks(command@)),
    {
        let reconcile = match &command {
            UiCommand::SelectProfile(_) => true,
            UiCommand::Disconnect => true,
            UiCommand::RefreshProfiles => true,
            _ => false,
        };
        if reconcile {
            self.agenda.push_back(Task::ReconcileTeardown);
            self.agenda.push_back(Task::ReconcileActive);
        }
        self.agenda.push_back(Task::Ui(command));
        assert(self@ =~= old(self)@.later(ui_tasks(command@)));
    }

    /// Take in a signal.
    pub fn on_wire(&mut self, wire: Wire)
        requires
            old(self).wf(),
        ensures
            final(self).wf(),
            final(self)@ == old(self)@.later(seq![TaskView::Wire(wire@)]),
    {
        self.put_later(Task::Wire(wire));
    }

    /// Hold a transition that is in flight against what openvpn3 says. A signal
    /// that never arrives would otherwise leave the panel asserting something
    /// false; a settled state is left alone.
    pub fn settle(&mut self)
        requires
            old(self).wf(),
        ensures
            final(self).wf(),
            final(self)@ == old(self)@.settling(),
    {
        if self.transition_in_flight() {
            self.agenda.push_back(Task::ReconcileTeardown);
            self.agenda.push_back(Task::ReconcileActive);
        }
        assert(self@ =~= old(self)@.settling());
    }

    fn begin_probe(&mut self, rest: Vec<String>) -> (progress: Progress)
        requires
            old(self).wf(),
        ensures
            final(self).wf(),
            final(self)@ == old(self)@.begin_probe(texts(rest@)).after,
            progress@ == old(self)@.begin_probe(texts(rest@)).progress,
    {
        let mut rest = rest;
        if rest.len() == 0 {
            return Progress::Worked;
        }
        let ghost paths = texts(rest@);
        let session_path = rest.remove(0);
        assert(texts(rest@) =~= paths.drop_first());
        self.ask(
            Call::ReadStatus { session_path: session_path.clone() },
            Wait::ProbeStatus { session_path, rest },
        )
    }

    fn begin_reconcile_teardown(&mut self) -> (progress: Progress)
        requires
            old(self).wf(),
        ensures
            final(self).wf(),
            final(self)@ == old(self)@.begin_reconcile_teardown().after,
            progress@ == old(self)@.begin_reconcile_teardown().progress,
    {
        let session_path = match self.machine.awaiting_teardown() {
            Some(path) => path.to_owned(),
            None => {
                return Progress::Worked;
            },
        };
        self.ask(Call::ListSessions, Wait::TeardownList { session_path })
    }

    fn begin_reconcile_active(&mut self) -> (progress: Progress)
        requires
            old(self).wf(),
        ensures
            final(self).wf(),
            final(self)@ == old(self)@.begin_reconcile_active().after,
            progress@ == old(self)@.begin_reconcile_active().progress,
    {
        let session_path = match self.machine.active_session() {
            Some(path) => path.to_owned(),
            None => {
                return Progress::Worked;
            },
        };
        self.ask_object(
            &session_path,
            Call::ReadStatus { session_path: session_path.clone() },
            Wait::ActiveStatus { session_path: session_path.clone() },
        )
    }

    fn begin_rename(&mut self, config_path: String, new_name: String) -> (progress: Progress)
        requires
            old(self).wf(),
        ensures
            final(self).wf(),
            final(self)@ == old(self)@.begin_rename(config_path@, new_name@).after,
            progress@ == old(self)@.begin_rename(config_path@, new_name@).progress,
    {
        let new_name = trim(new_name.as_str());
        if new_name.is_empty() {
            self.say("A profile name cannot be empty.".to_owned());
            Progress::Worked
        } else if !addressable(config_path.as_str()) {
            self.say("That profile is no longer available.".to_owned());
            Progress::Worked
        } else {
            self.ask(Call::Rename { config_path, new_name: new_name.to_owned() }, Wait::Rename)
        }
    }

    fn begin_delete(&mut self, config_path: String) -> (progress: Progress)
        requires
            old(self).wf(),
        ensures
            final(self).wf(),
            final(self)@ == old(self)@.begin_delete(config_path@).after,
            progress@ == old(self)@.begin_delete(config_path@).progress,
    {
        if self.machine.is_active_config(config_path.as_str()) {
            self.say("Disconnect this profile before deleting it.".to_owned());
            Progress::Worked
        } else if !addressable(config_path.as_str()) {
            self.say("That profile is no longer available.".to_owned());
            Progress::Worked
        } else {
            self.ask(Call::Remove { config_path }, Wait::Remove)
        }
    }

    fn begin_import(&mut self, path: String) -> (progress: Progress)
        requires
            old(self).wf(),
        ensures
            final(self).wf(),
            final(self)@ == old(self)@.begin_import(path@).after,
            progress@ == old(self)@.begin_import(path@).progress,
    {
        let name = match file_stem(path.as_str()) {
            Some(stem) => stem.to_owned(),
            None => "imported".to_owned(),
        };
        self.ask(Call::ReadFile { path: path.clone() }, Wait::File { name, path })
    }

    fn begin_ui(&mut self, command: UiCommand) -> (progress: Progress)
        requires
            old(self).wf(),
        ensures
            final(self).wf(),
            final(self)@ == old(self)@.begin_ui(command@).after,
            progress@ == old(self)@.begin_ui(command@).progress,
    {
        match command {
            UiCommand::SelectProfile(config_path) => {
                self.dispatch(Event::ProfileSelected { config_path });
            },
            UiCommand::Disconnect => {
                self.dispatch(Event::DisconnectRequested);
            },
            UiCommand::DismissFailure => {
                self.dispatch(Event::FailureDismissed);
            },
            UiCommand::CancelPrompt => {
                let session_path = match &self.prompt {
                    Some(prompt) => prompt.session_path.clone(),
                    None => {
                        return Progress::Worked;
                    },
                };
                self.dispatch(Event::PromptCancelled { session_path });
            },
            UiCommand::SubmitPrompt(responses) => {
                let session_path = match &self.prompt {
                    Some(prompt) => prompt.session_path.clone(),
                    None => {
                        return Progress::Worked;
                    },
                };
                self.dispatch(Event::PromptSubmitted { session_path, responses });
            },
            UiCommand::RefreshProfiles => {
                self.put_first(Task::Refresh);
            },
            UiCommand::Import(path) => {
                return self.begin_import(path);
            },
            UiCommand::RenameProfile { config_path, new_name } => {
                return self.begin_rename(config_path, new_name);
            },
            UiCommand::DeleteProfile(config_path) => {
                return self.begin_delete(config_path);
            },
        }
        Progress::Worked
    }

    fn begin_wire(&mut self, wire: Wire)
        requires
            old(self).wf(),
        ensures
            final(self).wf(),
            final(self)@ == old(self)@.begin_wire(wire@),
    {
        match wire {
            Wire::Status { session, status } => {
                self.status_message = status.message.clone();
                self.dispatch(Event::StatusChanged { session_path: session, status });
            },
            Wire::Attention { session, type_, group, message } => {
                match decode_pair(type_, group) {
                    Some((type_, group)) => {
                        self.dispatch(
                            Event::AttentionRequired {
                                session_path: session,
                                type_,
                                group,
                                message,
                            },
                        );
                    },
                    None => {
                        // Unknown codes must not be swallowed: an unanswered
                        // request otherwise parks the session silently.
                        let text = describe_request(
                            "Unrecognised input request from openvpn3: ",
                            type_,
                            group,
                        );
                        self.note(session.as_str(), text.as_str());
                    },
                }
            },
            Wire::Log { session, entry } => {
                self.logs.push(session.as_str(), entry);
            },
            Wire::SessionManager { path, removed } => {
                if removed {
                    self.logs.remove_session(path.as_str());
                    self.dispatch(Event::SessionRemoved { session_path: path });
                }
            },
        }
    }

    fn begin_drain(
        &mut self,
        session_path: String,
        kind: PromptKind,
        message: String,
        rest: Vec<(ClientAttentionType, ClientAttentionGroup)>,
        fields: Vec<PromptInput>,
    ) -> (progress: Progress)
        requires
            old(self).wf(),
        ensures
            final(self).wf(),
            final(self)@ == old(self)@.begin_drain(
                session_path@,
                kind,
                message@,
                rest@,
                prompt_inputs_view(fields@),
            ).after,
            progress@ == old(self)@.begin_drain(
                session_path@,
                kind,
                message@,
                rest@,
                prompt_inputs_view(fields@),
            ).progress,
    {
        let mut rest = rest;
        if rest.len() == 0 || !addressable(session_path.as_str()) {
            self.prompt = Some(PromptSpec { session_path, kind, message, fields });
            return Progress::Worked;
        }
        let ghost requests = rest@;
        let (type_, group) = rest.remove(0);
        assert(rest@ =~= requests.drop_first());
        self.ask(
            Call::DrainQueue {
                session_path: session_path.clone(),
                type_: u8::from(type_) as u32,
                group: u8::from(group) as u32,
            },
            Wait::Drain { session_path, kind, message, type_, group, rest, fields },
        )
    }

    fn begin_run(&mut self, command: Command) -> (progress: Progress)
        requires
            old(self).wf(),
        ensures
            final(self).wf(),
            final(self)@ == old(self)@.begin_run(command@).after,
            progress@ == old(self)@.begin_run(command@).progress,
    {
        match command {
            Command::NewTunnel { config_path } => self.ask_object(
                &config_path,
                Call::NewTunnel { config_path: config_path.clone() },
                Wait::Tunnel { config_path: config_path.clone() },
            ),
            Command::EnableLogForward { session_path } => self.ask_object(
                &session_path,
                Call::EnableLogForward { session_path: session_path.clone() },
                Wait::LogForward { session_path: session_path.clone() },
            ),
            Command::Connect { session_path } => self.ask_object(
                &session_path,
                Call::Connect { session_path: session_path.clone() },
                Wait::Connect { session_path: session_path.clone() },
            ),
            Command::Disconnect { session_path } => self.ask_object(
                &session_path,
                Call::Disconnect { session_path: session_path.clone() },
                Wait::Disconnect,
            ),
            Command::OpenPrompt { session_path, kind, requests, message } => {
                let fields: Vec<PromptInput> = Vec::new();
                assert(prompt_inputs_view(fields@) =~= seq![]);
                self.put_first(
                    Task::Drain { session_path, kind, message, rest: requests, fields },
                );
                Progress::Worked
            },
            Command::ClosePrompt => {
                self.prompt = None;
                Progress::Worked
            },
            Command::ProvideInput { session_path, responses } => {
                let inputs = to_wire_inputs(responses);
                self.ask_object(
                    &session_path,
                    Call::ProvideInput { session_path: session_path.clone(), inputs },
                    Wait::Provide { session_path: session_path.clone() },
                )
            },
            Command::CheckReady { session_path } => self.ask_object(
                &session_path,
                Call::CheckReady { session_path: session_path.clone() },
                Wait::Ready { session_path: session_path.clone() },
            ),
            Command::Note { session_path, message } => {
                self.note(session_path.as_str(), message.as_str());
                Progress::Worked
            },
        }
    }

    fn begin_asking(&mut self, task: Task) -> (progress: Progress)
        requires
            old(self).wf(),
        ensures
            final(self).wf(),
            final(self)@ == old(self)@.begin_asking(task@).after,
            progress@ == old(self)@.begin_asking(task@).progress,
    {
        match task {
            Task::Refresh => self.ask(Call::ListProfiles, Wait::Profiles),
            Task::Adopt => self.ask(Call::ListSessions, Wait::AdoptList),
            Task::Watch => self.ask(Call::WatchSessions, Wait::Acknowledged),
            Task::Probe { rest } => self.begin_probe(rest),
            Task::ReadOrigin { session_path, status } => self.ask(
                Call::ReadOrigin { session_path: session_path.clone() },
                Wait::Origin { session_path, status },
            ),
            Task::Subscribe { session_path } => self.ask(
                Call::Subscribe { session_path },
                Wait::Acknowledged,
            ),
            Task::ReconcileTeardown => self.begin_reconcile_teardown(),
            Task::ReconcileActive => self.begin_reconcile_active(),
            Task::ReadCreated { session_path, status } => self.ask(
                Call::ReadCreated { session_path: session_path.clone() },
                Wait::ActiveCreated { session_path, status },
            ),
            Task::ReadQueue { session_path, error } => self.ask(
                Call::ReadQueue { session_path: session_path.clone() },
                Wait::Queue { session_path, error },
            ),
            Task::Import { name, config } => self.ask(
                Call::Import { name: name.clone(), config, single_use: false, persistent: true },
                Wait::Import { name },
            ),
            _ => Progress::Worked,
        }
    }

    #[verifier::spinoff_prover]
    fn begin(&mut self, task: Task) -> (progress: Progress)
        requires
            old(self).wf(),
        ensures
            final(self).wf(),
            final(self)@ == old(self)@.begin(task@).after,
            progress@ == old(self)@.begin(task@).progress,
    {
        match task {
            Task::Ui(command) => self.begin_ui(command),
            Task::Wire(wire) => {
                self.begin_wire(wire);
                Progress::Worked
            },
            Task::Created { session_path, config_path } => {
                self.dispatch(Event::SessionCreated { session_path, config_path });
                Progress::Worked
            },
            Task::Run(command) => self.begin_run(command),
            Task::Drain { session_path, kind, message, rest, fields } => self.begin_drain(
                session_path,
                kind,
                message,
                rest,
                fields,
            ),
            task => self.begin_asking(task),
        }
    }

    /// Do one piece of work, unless a call is out.
    pub fn step(&mut self) -> (progress: Progress)
        requires
            old(self).wf(),
        ensures
            final(self).wf(),
            final(self)@ == old(self)@.step().after,
            progress@ == old(self)@.step().progress,
    {
        if self.waiting.is_some() {
            return Progress::Waiting;
        }
        match self.agenda.pop_front() {
            Some(task) => {
                proof {
                    assert(tasks_view(self.agenda@) =~= old(self)@.agenda.drop_first());
                    assert(old(self)@.agenda.first() == task@);
                }
                self.begin(task)
            },
            None => Progress::Idle,
        }
    }

    fn with_profiles(&mut self, listed: Vec<ListedProfile>)
        requires
            old(self).wf(),
        ensures
            final(self).wf(),
            final(self)@ == old(self)@.with_profiles(listed_profiles_view(listed@)),
    {
        let (profiles, profile_names) = arrange(listed);
        self.unavailable = None;
        self.profiles = profiles;
        self.profile_names = profile_names;
    }

    fn without_profiles(&mut self, error: String, installed: bool)
        requires
            old(self).wf(),
        ensures
            final(self).wf(),
            final(self)@ == old(self)@.without_profiles(error@, installed),
    {
        self.profiles = Vec::new();
        self.say(describe_unavailable(error.as_str(), installed));
        assert(self@ =~= old(self)@.without_profiles(error@, installed));
    }

    fn probed(
        &mut self,
        session_path: String,
        rest: Vec<String>,
        major: u32,
        minor: u32,
        message: String,
    )
        requires
            old(self).wf(),
        ensures
            final(self).wf(),
            final(self)@ == old(self)@.probed(session_path@, texts(rest@), major, minor, message@),
    {
        match decode_status(major, minor, message) {
            Ok(status) => {
                self.put_first(Task::ReadOrigin { session_path, status });
            },
            Err(_) => {
                self.put_first(Task::Probe { rest });
            },
        }
    }

    fn adopt(
        &mut self,
        session_path: String,
        status: Status,
        config_path: Option<String>,
        created: Option<u64>,
    )
        requires
            old(self).wf(),
        ensures
            final(self).wf(),
            final(self)@ == old(self)@.adopting(
                session_path@,
                status@,
                optional(config_path),
                created,
            ),
    {
        self.session_created = created;
        self.logs.adopt_external_session(session_path.as_str());
        self.put_first(Task::Subscribe { session_path: session_path.clone() });
        let config_path = match config_path {
            Some(path) => path,
            None => String::new(),
        };
        self.dispatch(Event::ExternalSessionSeen { session_path, config_path, status });
    }

    fn torn_down(&mut self, session_path: String, paths: Vec<String>)
        requires
            old(self).wf(),
        ensures
            final(self).wf(),
            final(self)@ == old(self)@.teardown_listed(session_path@, texts(paths@)),
    {
        if !lists(&paths, &session_path) {
            self.logs.remove_session(session_path.as_str());
            self.dispatch(Event::SessionRemoved { session_path });
        }
    }

    fn active_read(&mut self, session_path: String, major: u32, minor: u32, message: String)
        requires
            old(self).wf(),
        ensures
            final(self).wf(),
            final(self)@ == old(self)@.active_read(session_path@, major, minor, message@),
    {
        match decode_status(major, minor, message) {
            Ok(status) => {
                self.put_first(Task::ReadCreated { session_path, status });
            },
            Err(_) => {},
        }
    }

    fn active_dated(&mut self, session_path: String, status: Status, created: Option<u64>)
        requires
            old(self).wf(),
        ensures
            final(self).wf(),
            final(self)@ == old(self)@.active_dated(session_path@, status@, created),
    {
        if created.is_some() {
            self.session_created = created;
        }
        self.dispatch(Event::StatusChanged { session_path, status });
    }

    fn started(&mut self, session_path: String, config_path: String, now: u64)
        requires
            old(self).wf(),
        ensures
            final(self).wf(),
            final(self)@ == old(self)@.started(session_path@, config_path@, now),
    {
        self.logs.begin_session(session_path.as_str());
        self.session_created = Some(now);
        self.put_first(Task::Created { session_path: session_path.clone(), config_path });
        self.put_first(Task::Subscribe { session_path });
    }

    fn asked_for(&mut self, session_path: String, error: String, pairs: Vec<(u32, u32)>)
        requires
            old(self).wf(),
        ensures
            final(self).wf(),
            final(self)@ == old(self)@.asked_for(session_path@, error@, pairs@),
    {
        if pairs.len() == 0 {
            // Not ready, and nothing queued to fix it. Report it rather than
            // waiting on a request that is never coming.
            let text = prefixed("Backend not ready: ", error.as_str());
            self.note(session_path.as_str(), text.as_str());
            return;
        }
        let (type_, group) = pairs[0];
        if decode_pair(type_, group).is_none() {
            let text = describe_request("Unrecognised credential request: ", type_, group);
            self.note(session_path.as_str(), text.as_str());
        } else {
            let requests = decode_requests(&pairs);
            self.dispatch(
                Event::CredentialsRequired { session_path, requests, message: String::new() },
            );
        }
    }

    fn drained(
        &mut self,
        session_path: String,
        kind: PromptKind,
        message: String,
        rest: Vec<(ClientAttentionType, ClientAttentionGroup)>,
        fields: Vec<PromptInput>,
    )
        requires
            old(self).wf(),
        ensures
            final(self).wf(),
            final(self)@ == old(self)@.first(
                TaskView::Drain {
                    session_path: session_path@,
                    kind,
                    message: message@,
                    rest: rest@,
                    fields: prompt_inputs_view(fields@),
                },
            ),
    {
        self.put_first(Task::Drain { session_path, kind, message, rest, fields });
    }

    fn changed_profiles(&mut self)
        requires
            old(self).wf(),
        ensures
            final(self).wf(),
            final(self)@ == old(self)@.changed_profiles(),
    {
        // Refresh from the manager rather than changing the list here: openvpn3
        // is the source of truth and assigns the real name.
        self.unavailable = None;
        self.put_first(Task::Refresh);
    }

    #[verifier::spinoff_prover]
    fn resume_lookup(&mut self, wait: Wait, reply: Reply) -> (answered: bool)
        requires
            old(self).wf(),
            old(self)@.waiting is None,
        ensures
            final(self).wf(),
            match old(self)@.answered_lookup(wait@, reply@) {
                Some(after) => answered && final(self)@ == after,
                None => !answered && final(self)@ == (WorkerView {
                    waiting: Some(wait@),
                    ..old(self)@
                }),
            },
    {
        match (wait, reply) {
            (Wait::Profiles, Reply::Profiles(listed)) => self.with_profiles(listed),
            (Wait::Profiles, Reply::ProfilesFailed { error, installed }) => self.without_profiles(
                error,
                installed,
            ),
            (Wait::AdoptList, Reply::Sessions(paths)) => self.put_first(
                Task::Probe { rest: paths },
            ),
            (Wait::AdoptList, Reply::Unreachable) => {},
            (
                Wait::ProbeStatus { session_path, rest },
                Reply::Status { major, minor, message },
            ) => self.probed(session_path, rest, major, minor, message),
            (Wait::ProbeStatus { session_path: _, rest }, Reply::Unreachable) => self.put_first(
                Task::Probe { rest },
            ),
            (Wait::Origin { session_path, status }, Reply::Origin { config_path, created }) =>
                self.adopt(session_path, status, config_path, created),
            (Wait::Acknowledged, Reply::Done) => {},
            (Wait::TeardownList { session_path }, Reply::Sessions(paths)) => self.torn_down(
                session_path,
                paths,
            ),
            (Wait::TeardownList { session_path: _ }, Reply::Unreachable) => {},
            (Wait::ActiveStatus { session_path }, Reply::Status { major, minor, message }) =>
                self.active_read(session_path, major, minor, message),
            (Wait::ActiveStatus { session_path: _ }, Reply::Unreachable) => {},
            (Wait::ActiveCreated { session_path, status }, Reply::Created(created)) =>
                self.active_dated(session_path, status, created),
            (wait, _) => {
                self.waiting = Some(wait);
                return false;
            },
        }
        true
    }

    #[verifier::spinoff_prover]
    fn resume_session(&mut self, wait: Wait, reply: Reply) -> (answered: bool)
        requires
            old(self).wf(),
            old(self)@.waiting is None,
        ensures
            final(self).wf(),
            match old(self)@.answered_session(wait@, reply@) {
                Some(after) => answered && final(self)@ == after,
                None => !answered && final(self)@ == (WorkerView {
                    waiting: Some(wait@),
                    ..old(self)@
                }),
            },
    {
        match (wait, reply) {
            (Wait::Tunnel { config_path }, Reply::Tunnel { session_path, now }) => self.started(
                session_path,
                config_path,
                now,
            ),
            (Wait::Tunnel { config_path }, Reply::Failed(error)) => self.note(
                config_path.as_str(),
                prefixed("Could not start session: ", error.as_str()).as_str(),
            ),
            (Wait::Tunnel { config_path: _ }, Reply::Unreachable) => {},
            (Wait::LogForward { session_path }, Reply::Failed(error)) => self.note(
                session_path.as_str(),
                prefixed("Log forwarding unavailable: ", error.as_str()).as_str(),
            ),
            (Wait::LogForward { session_path: _ }, Reply::Done) => {},
            (Wait::LogForward { session_path: _ }, Reply::Unreachable) => {},
            (Wait::Connect { session_path }, Reply::Failed(error)) => self.note(
                session_path.as_str(),
                prefixed("Connect failed: ", error.as_str()).as_str(),
            ),
            (Wait::Connect { session_path: _ }, Reply::Done) => {},
            (Wait::Connect { session_path: _ }, Reply::Unreachable) => {},
            (Wait::Disconnect, Reply::Done) => {},
            (Wait::Disconnect, Reply::Failed(_)) => {},
            (Wait::Disconnect, Reply::Unreachable) => {},
            (
                Wait::Drain { session_path, kind, message, type_, group, rest, fields },
                Reply::Items(items),
            ) => {
                let mut fields = fields;
                add_fields(&mut fields, type_, group, items);
                self.drained(session_path, kind, message, rest, fields)
            },
            (
                Wait::Drain { session_path, kind, message, type_: _, group: _, rest, fields },
                Reply::Unreachable,
            ) => self.drained(session_path, kind, message, rest, fields),
            (Wait::Provide { session_path }, Reply::Failures(errors)) => note_failures(
                &mut self.logs,
                session_path.as_str(),
                errors,
            ),
            (Wait::Provide { session_path: _ }, Reply::Unreachable) => {},
            (Wait::Ready { session_path }, Reply::Done) => self.dispatch(
                Event::SessionReady { session_path },
            ),
            (Wait::Ready { session_path }, Reply::Failed(error)) => self.put_first(
                Task::ReadQueue { session_path, error },
            ),
            (Wait::Ready { session_path: _ }, Reply::Unreachable) => {},
            (Wait::Queue { session_path, error }, Reply::Queue(pairs)) => self.asked_for(
                session_path,
                error,
                pairs,
            ),
            (Wait::Queue { session_path, error }, Reply::Unreachable) => self.note(
                session_path.as_str(),
                prefixed("Backend not ready: ", error.as_str()).as_str(),
            ),
            (wait, _) => {
                self.waiting = Some(wait);
                return false;
            },
        }
        true
    }

    #[verifier::spinoff_prover]
    fn resume_profile(&mut self, wait: Wait, reply: Reply) -> (answered: bool)
        requires
            old(self).wf(),
            old(self)@.waiting is None,
        ensures
            final(self).wf(),
            match old(self)@.answered_profile(wait@, reply@) {
                Some(after) => answered && final(self)@ == after,
                None => !answered && final(self)@ == (WorkerView {
                    waiting: Some(wait@),
                    ..old(self)@
                }),
            },
    {
        match (wait, reply) {
            (Wait::Rename, Reply::Done) => self.changed_profiles(),
            (Wait::Rename, Reply::Failed(error)) => self.say(
                prefixed("Could not rename: ", error.as_str()),
            ),
            (Wait::Rename, Reply::Unreachable) => self.say(
                "That profile is no longer available.".to_owned(),
            ),
            (Wait::Remove, Reply::Done) => self.changed_profiles(),
            (Wait::Remove, Reply::Failed(error)) => self.say(
                prefixed("Could not delete: ", error.as_str()),
            ),
            (Wait::Remove, Reply::Unreachable) => self.say(
                "That profile is no longer available.".to_owned(),
            ),
            (Wait::File { name, path: _ }, Reply::File(config)) => self.put_first(
                Task::Import { name, config },
            ),
            (Wait::File { name: _, path }, Reply::Failed(error)) => self.say(
                about("Could not read ", path.as_str(), error.as_str()),
            ),
            (Wait::Import { name: _ }, Reply::Done) => self.changed_profiles(),
            (Wait::Import { name }, Reply::Failed(error)) => self.say(
                about("openvpn3 rejected ", name.as_str(), error.as_str()),
            ),
            (Wait::Import { name: _ }, Reply::Unreachable) => {},
            (wait, _) => {
                self.waiting = Some(wait);
                return false;
            },
        }
        true
    }

    /// Take in the answer to the call that is out. `false` says that no call is
    /// out that this answers; the worker is then as it was.
    #[verifier::spinoff_prover]
    pub fn resume(&mut self, reply: Reply) -> (answered: bool)
        requires
            old(self).wf(),
        ensures
            final(self).wf(),
            match old(self)@.resume(reply@) {
                Some(after) => answered && final(self)@ == after,
                None => !answered && final(self)@ == old(self)@,
            },
    {
        let wait = match self.waiting.take() {
            Some(wait) => wait,
            None => {
                return false;
            },
        };
        match &wait {
            Wait::Rename | Wait::Remove | Wait::File { .. } | Wait::Import { .. } => {
                self.resume_profile(wait, reply)
            },
            Wait::Tunnel { .. }
            | Wait::LogForward { .. }
            | Wait::Connect { .. }
            | Wait::Disconnect
            | Wait::Drain { .. }
            | Wait::Provide { .. }
            | Wait::Ready { .. }
            | Wait::Queue { .. } => self.resume_session(wait, reply),
            _ => self.resume_lookup(wait, reply),
        }
    }
}

} // verus!

//! The panel's own state: which views are open, what was typed into the prompt,
//! and what each message does about it.
//!
//! It opens and closes nothing itself. [`App::update`] says what is to be done as
//! [`Effect`]s, in order; the number of a view that opens is handed in. What the
//! views show is in [`crate::pages`].

use crate::attention::{ClientAttentionGroup, ClientAttentionType};
use crate::dbus::{
    same_prompt, PromptInput, PromptInputView, PromptSpec, PromptSpecView, Snapshot, SnapshotView,
    UiCommand, UiCommandView,
};
use crate::machine::{responses_view, InputResponse, InputResponseView};
use crate::text::optional;
use std::collections::HashMap;
use vstd::prelude::*;
use vstd::string::*;

verus! {

broadcast use vstd::std_specs::hash::group_hash_axioms;

/// What the panel hears.
#[derive(Debug, Clone)]
pub enum Message {
    /// The worker takes requests from now on.
    WorkerReady,
    Snapshot(Snapshot),
    TogglePopup,
    /// A view was closed from outside.
    Closed(u64),
    SelectProfile(String),
    Disconnect,
    ImportRequested,
    /// The file that was picked, if one was.
    ImportChosen(Option<String>),
    DismissFailure,
    OpenLog,
    CloseLog,
    /// The field with this key reads differently.
    FieldChanged(u64, String),
    SubmitPrompt,
    CancelPrompt,
    /// Renders the uptime again. Display only: state itself is pushed.
    Tick,
}

/// A `Message` with its texts as sequences of characters.
pub enum MessageView {
    WorkerReady,
    Snapshot(SnapshotView),
    TogglePopup,
    Closed(u64),
    SelectProfile(Seq<char>),
    Disconnect,
    ImportRequested,
    ImportChosen(Option<Seq<char>>),
    DismissFailure,
    OpenLog,
    CloseLog,
    FieldChanged(u64, Seq<char>),
    SubmitPrompt,
    CancelPrompt,
    Tick,
}

impl View for Message {
    type V = MessageView;

    open spec fn view(&self) -> MessageView {
        match *self {
            Message::WorkerReady => MessageView::WorkerReady,
            Message::Snapshot(snapshot) => MessageView::Snapshot(snapshot@),
            Message::TogglePopup => MessageView::TogglePopup,
            Message::Closed(id) => MessageView::Closed(id),
            Message::SelectProfile(config_path) => MessageView::SelectProfile(config_path@),
            Message::Disconnect => MessageView::Disconnect,
            Message::ImportRequested => MessageView::ImportRequested,
            Message::ImportChosen(path) => MessageView::ImportChosen(optional(path)),
            Message::DismissFailure => MessageView::DismissFailure,
            Message::OpenLog => MessageView::OpenLog,
            Message::CloseLog => MessageView::CloseLog,
            Message::FieldChanged(key, value) => MessageView::FieldChanged(key, value@),
            Message::SubmitPrompt => MessageView::SubmitPrompt,
            Message::CancelPrompt => MessageView::CancelPrompt,
            Message::Tick => MessageView::Tick,
        }
    }
}

/// What is to be done about a message.
#[derive(Debug, Clone, PartialEq, Eq)]
pub enum Effect {
    /// Hand a request to the worker.
    Send(UiCommand),
    OpenPopup(u64),
    OpenAuth(u64),
    OpenLog(u64),
    /// Close the view with this number, whichever it is.
    Close(u64),
    /// Let the user pick a file; [`Message::ImportChosen`] says which.
    PickFile,
}

/// An `Effect` with its texts as sequences of characters.
pub enum EffectView {
    Send(UiCommandView),
    OpenPopup(u64),
    OpenAuth(u64),
    OpenLog(u64),
    Close(u64),
    PickFile,
}

impl View for Effect {
    type V = EffectView;

    open spec fn view(&self) -> EffectView {
        match *self {
            Effect::Send(command) => EffectView::Send(command@),
            Effect::OpenPopup(id) => EffectView::OpenPopup(id),
            Effect::OpenAuth(id) => EffectView::OpenAuth(id),
            Effect::OpenLog(id) => EffectView::OpenLog(id),
            Effect::Close(id) => EffectView::Close(id),
            Effect::PickFile => EffectView::PickFile,
        }
    }
}

/// Effects as their views.
pub open spec fn effects_view(effects: Seq<Effect>) -> Seq<EffectView> {
    effects.map_values(|effect: Effect| effect@)
}

/// The number under which a field's value is kept: the queue it is from, and its
/// number in that queue.
pub open spec fn key_of(
    type_: ClientAttentionType,
    group: ClientAttentionGroup,
    id: u32,
) -> u64 {
    ((type_.wire() * 0x100 + group.wire()) * 0x1_0000_0000 + id) as u64
}

/// The number under which a field's value is kept.
pub fn field_key(input: &PromptInput) -> (key: u64)
    ensures
        key == key_of(input@.type_, input@.group, input@.field.id),
{
    let type_ = u8::from(input.type_) as u64;
    let group = u8::from(input.group) as u64;
    (type_ * 0x100 + group) * 0x1_0000_0000 + input.field.id as u64
}

/// No two fields share a key, of whatever queues they are.
pub proof fn law_fields_do_not_share_values(
    type_: ClientAttentionType,
    group: ClientAttentionGroup,
    id: u32,
    other_type: ClientAttentionType,
    other_group: ClientAttentionGroup,
    other_id: u32,
)
    requires
        key_of(type_, group, id) == key_of(other_type, other_group, other_id),
    ensures
        type_ == other_type,
        group == other_group,
        id == other_id,
{
}

/// The panel's state.
#[derive(Debug)]
pub struct App {
    /// Does the worker take requests yet?
    ready: bool,
    snapshot: Snapshot,
    popup: Option<u64>,
    auth_window: Option<u64>,
    log_window: Option<u64>,
    /// What was typed into the prompt, by field. Cleared on close.
    field_values: HashMap<u64, String>,
}

/// Values as their characters.
pub open spec fn values_view(values: Map<u64, String>) -> Map<u64, Seq<char>> {
    values.map_values(|value: String| value@)
}

/// The panel's state, with its texts as sequences of characters.
#[verifier::ext_equal]
pub struct AppView {
    /// Does the worker take requests yet?
    pub ready: bool,
    /// What the worker published last.
    pub snapshot: SnapshotView,
    /// The menu, if it is open.
    pub popup: Option<u64>,
    /// The prompt, if it is open.
    pub auth_window: Option<u64>,
    /// The log, if it is open.
    pub log_window: Option<u64>,
    /// What was typed into the prompt, by field.
    pub field_values: Map<u64, Seq<char>>,
}

/// What a message does: the panel after it, and what is to be done.
#[verifier::ext_equal]
pub struct AppStepView {
    pub after: AppView,
    pub effects: Seq<EffectView>,
}

impl View for App {
    type V = AppView;

    closed spec fn view(&self) -> AppView {
        AppView {
            ready: self.ready,
            snapshot: self.snapshot@,
            popup: self.popup,
            auth_window: self.auth_window,
            log_window: self.log_window,
            field_values: values_view(self.field_values@),
        }
    }
}

/// What was typed into a field; nothing, where nothing was.
pub open spec fn typed(values: Map<u64, Seq<char>>, input: PromptInputView) -> Seq<char> {
    let key = key_of(input.type_, input.group, input.field.id);
    if values.dom().contains(key) {
        values[key]
    } else {
        seq![]
    }
}

/// An answer for every field of the prompt, in their order.
pub open spec fn answers(
    prompt: PromptSpecView,
    values: Map<u64, Seq<char>>,
) -> Seq<InputResponseView> {
    prompt.fields.map_values(
        |input: PromptInputView|
            InputResponseView {
                type_: input.type_,
                group: input.group,
                id: input.field.id,
                value: typed(values, input),
            },
    )
}

impl AppView {
    /// The panel before anything happened.
    pub open spec fn initial() -> AppView {
        AppView {
            ready: false,
            snapshot: SnapshotView::blank(),
            popup: None,
            auth_window: None,
            log_window: None,
            field_values: Map::empty(),
        }
    }

    /// Nothing is to be done.
    pub open spec fn at_rest(self) -> AppStepView {
        AppStepView { after: self, effects: seq![] }
    }

    /// A request goes to the worker, unless there is none to take it.
    pub open spec fn send(self, command: UiCommandView) -> AppStepView {
        AppStepView {
            after: self,
            effects: if self.ready {
                seq![EffectView::Send(command)]
            } else {
                seq![]
            },
        }
    }

    /// What was typed is forgotten.
    pub open spec fn clear_fields(self) -> AppView {
        AppView { field_values: Map::empty(), ..self }
    }

    /// The menu closes, if it is open.
    pub open spec fn close_popup(self) -> AppStepView {
        AppStepView {
            after: AppView { popup: None, ..self },
            effects: match self.popup {
                Some(id) => seq![EffectView::Close(id)],
                None => seq![],
            },
        }
    }

    /// The prompt opens, unless it is open.
    pub open spec fn open_auth_window(self, fresh: u64) -> AppStepView {
        if self.auth_window is Some {
            self.at_rest()
        } else {
            AppStepView {
                after: AppView { auth_window: Some(fresh), ..self },
                effects: seq![EffectView::OpenAuth(fresh)],
            }
        }
    }

    /// The prompt closes, if it is open, and what was typed is forgotten.
    pub open spec fn close_auth_window(self) -> AppStepView {
        AppStepView {
            after: AppView { auth_window: None, ..self }.clear_fields(),
            effects: match self.auth_window {
                Some(id) => seq![EffectView::Close(id)],
                None => seq![],
            },
        }
    }

    /// The log opens, unless it is open.
    pub open spec fn open_log_window(self, fresh: u64) -> AppStepView {
        if self.log_window is Some {
            self.at_rest()
        } else {
            AppStepView {
                after: AppView { log_window: Some(fresh), ..self },
                effects: seq![EffectView::OpenLog(fresh)],
            }
        }
    }

    /// The log closes, if it is open.
    pub open spec fn close_log_window(self) -> AppStepView {
        AppStepView {
            after: AppView { log_window: None, ..self },
            effects: match self.log_window {
                Some(id) => seq![EffectView::Close(id)],
                None => seq![],
            },
        }
    }

    /// The worker published. The prompt opens, with nothing typed, when there is
    /// another one than before, and closes when there is none any longer. Another one
    /// may come in place of the last: openvpn3 asks in rounds.
    pub open spec fn on_snapshot(self, snapshot: SnapshotView, fresh: u64) -> AppStepView {
        let after = AppView { snapshot, ..self };
        if self.snapshot.prompt == snapshot.prompt {
            after.at_rest()
        } else if snapshot.prompt is Some {
            after.clear_fields().open_auth_window(fresh)
        } else {
            after.close_auth_window()
        }
    }

    /// The menu opens or closes. When it opens, openvpn3 is asked again, so that what
    /// the user is about to look at is true.
    pub open spec fn on_toggle(self, fresh: u64) -> AppStepView {
        match self.popup {
            Some(_) => self.close_popup(),
            None => AppStepView {
                after: AppView { popup: Some(fresh), ..self },
                effects: self.send(UiCommandView::RefreshProfiles).effects + seq![
                    EffectView::OpenPopup(fresh),
                ],
            },
        }
    }

    /// A view was closed from outside. For the prompt that is a cancel, not a
    /// dismiss: a session left waiting for input with no view to return to would
    /// be stranded.
    pub open spec fn on_closed(self, id: u64) -> AppStepView {
        if self.popup == Some(id) {
            AppView { popup: None, ..self }.at_rest()
        } else if self.log_window == Some(id) {
            AppView { log_window: None, ..self }.at_rest()
        } else if self.auth_window == Some(id) {
            AppView { auth_window: None, ..self }.clear_fields().send(UiCommandView::CancelPrompt)
        } else {
            self.at_rest()
        }
    }

    /// The prompt is answered or cancelled, and closes.
    pub open spec fn finish_prompt(self, command: UiCommandView) -> AppStepView {
        AppStepView {
            after: self.close_auth_window().after,
            effects: self.send(command).effects + self.close_auth_window().effects,
        }
    }

    /// What a message does. `fresh` is the number of the view that opens, if one
    /// does.
    pub open spec fn update(self, message: MessageView, fresh: u64) -> AppStepView {
        match message {
            MessageView::WorkerReady => AppView { ready: true, ..self }.at_rest(),
            MessageView::Snapshot(snapshot) => self.on_snapshot(snapshot, fresh),
            MessageView::TogglePopup => self.on_toggle(fresh),
            MessageView::Closed(id) => self.on_closed(id),
            MessageView::SelectProfile(config_path) => AppStepView {
                after: self.close_popup().after,
                effects: self.send(UiCommandView::SelectProfile(config_path)).effects
                    + self.close_popup().effects,
            },
            MessageView::Disconnect => AppStepView {
                after: self.close_popup().after,
                effects: self.send(UiCommandView::Disconnect).effects
                    + self.close_popup().effects,
            },
            MessageView::DismissFailure => self.send(UiCommandView::DismissFailure),
            MessageView::ImportRequested => AppStepView {
                after: self.close_popup().after,
                effects: self.close_popup().effects + seq![EffectView::PickFile],
            },
            MessageView::ImportChosen(path) => match path {
                Some(path) => self.send(UiCommandView::Import(path)),
                None => self.at_rest(),
            },
            MessageView::OpenLog => AppStepView {
                after: self.close_popup().after.open_log_window(fresh).after,
                effects: self.close_popup().effects + self.open_log_window(fresh).effects,
            },
            MessageView::CloseLog => self.close_log_window(),
            MessageView::FieldChanged(key, value) => AppView {
                field_values: self.field_values.insert(key, value),
                ..self
            }.at_rest(),
            MessageView::SubmitPrompt => match self.snapshot.prompt {
                Some(prompt) => self.finish_prompt(
                    UiCommandView::SubmitPrompt(answers(prompt, self.field_values)),
                ),
                None => self.at_rest(),
            },
            MessageView::CancelPrompt => self.finish_prompt(UiCommandView::CancelPrompt),
            MessageView::Tick => self.at_rest(),
        }
    }
}

impl Default for App {
    fn default() -> (app: App)
        ensures
            app@ == AppView::initial(),
    {
        let app = App {
            ready: false,
            snapshot: Snapshot::default(),
            popup: None,
            auth_window: None,
            log_window: None,
            field_values: HashMap::new(),
        };
        assert(app@ =~= AppView::initial());
        app
    }
}

impl App {
    /// A panel before anything happened.
    pub fn init() -> (app: App)
        ensures
            app@ == AppView::initial(),
    {
        App::default()
    }

    /// What the worker published last.
    pub fn snapshot(&self) -> (snapshot: &Snapshot)
        ensures
            snapshot@ == self@.snapshot,
    {
        &self.snapshot
    }

    /// The menu, if it is open.
    pub fn popup(&self) -> (id: Option<u64>)
        ensures
            id == self@.popup,
    {
        self.popup
    }

    /// The prompt, if it is open.
    pub fn auth_window(&self) -> (id: Option<u64>)
        ensures
            id == self@.auth_window,
    {
        self.auth_window
    }

    /// The log, if it is open.
    pub fn log_window(&self) -> (id: Option<u64>)
        ensures
            id == self@.log_window,
    {
        self.log_window
    }

    /// Hand a request to the worker, unless there is none to take it.
    fn send(&self, command: UiCommand, effects: &mut Vec<Effect>)
        ensures
            effects_view(final(effects)@) == effects_view(old(effects)@) + self@.send(
                command@,
            ).effects,
    {
        let ghost before = effects_view(effects@);
        if self.ready {
            effects.push(Effect::Send(command));
        }
        assert(effects_view(effects@) =~= before + self@.send(command@).effects);
    }

    /// Forget what was typed.
    fn clear_fields(&mut self)
        ensures
            final(self)@ == old(self)@.clear_fields(),
    {
        self.field_values.clear();
        assert(self@ =~= old(self)@.clear_fields());
    }

    fn close_popup(&mut self, effects: &mut Vec<Effect>)
        ensures
            final(self)@ == old(self)@.close_popup().after,
            effects_view(final(effects)@) == effects_view(old(effects)@)
                + old(self)@.close_popup().effects,
    {
        let ghost before = effects_view(effects@);
        if let Some(id) = self.popup.take() {
            effects.push(Effect::Close(id));
        }
        assert(effects_view(effects@) =~= before + old(self)@.close_popup().effects);
    }

    fn open_auth_window(&mut self, fresh: u64, effects: &mut Vec<Effect>)
        ensures
            final(self)@ == old(self)@.open_auth_window(fresh).after,
            effects_view(final(effects)@) == effects_view(old(effects)@)
                + old(self)@.open_auth_window(fresh).effects,
    {
        let ghost before = effects_view(effects@);
        if self.auth_window.is_none() {
            self.auth_window = Some(fresh);
            effects.push(Effect::OpenAuth(fresh));
        }
        assert(effects_view(effects@) =~= before + old(self)@.open_auth_window(fresh).effects);
    }

    fn close_auth_window(&mut self, effects: &mut Vec<Effect>)
        ensures
            final(self)@ == old(self)@.close_auth_window().after,
            effects_view(final(effects)@) == effects_view(old(effects)@)
                + old(self)@.close_auth_window().effects,
    {
        let ghost before = effects_view(effects@);
        if let Some(id) = self.auth_window.take() {
            effects.push(Effect::Close(id));
        }
        self.clear_fields();
        assert(effects_view(effects@) =~= before + old(self)@.close_auth_window().effects);
    }

    fn open_log_window(&mut self, fresh: u64, effects: &mut Vec<Effect>)
        ensures
            final(self)@ == old(self)@.open_log_window(fresh).after,
            effects_view(final(effects)@) == effects_view(old(effects)@)
                + old(self)@.open_log_window(fresh).effects,
    {
        let ghost before = effects_view(effects@);
        if self.log_window.is_none() {
            self.log_window = Some(fresh);
            effects.push(Effect::OpenLog(fresh));
        }
        assert(effects_view(effects@) =~= before + old(self)@.open_log_window(fresh).effects);
    }

    fn close_log_window(&mut self, effects: &mut Vec<Effect>)
        ensures
            final(self)@ == old(self)@.close_log_window().after,
            effects_view(final(effects)@) == effects_view(old(effects)@)
                + old(self)@.close_log_window().effects,
    {
        let ghost before = effects_view(effects@);
        if let Some(id) = self.log_window.take() {
            effects.push(Effect::Close(id));
        }
        assert(effects_view(effects@) =~= before + old(self)@.close_log_window().effects);
    }

    fn on_snapshot(&mut self, snapshot: Snapshot, fresh: u64, effects: &mut Vec<Effect>)
        ensures
            final(self)@ == old(self)@.on_snapshot(snapshot@, fresh).after,
            effects_view(final(effects)@) == effects_view(old(effects)@)
                + old(self)@.on_snapshot(snapshot@, fresh).effects,
    {
        let same = match (&self.snapshot.prompt, &snapshot.prompt) {
            (Some(before), Some(now)) => same_prompt(before, now),
            (None, None) => true,
            _ => false,
        };
        let asks = snapshot.prompt.is_some();
        self.snapshot = snapshot;
        if same {
            assert(effects_view(effects@) + seq![] =~= effects_view(effects@));
        } else if asks {
            self.clear_fields();
            self.open_auth_window(fresh, effects);
        } else {
            self.close_auth_window(effects);
        }
    }

    fn on_toggle(&mut self, fresh: u64, effects: &mut Vec<Effect>)
        ensures
            final(self)@ == old(self)@.on_toggle(fresh).after,
            effects_view(final(effects)@) == effects_view(old(effects)@) + old(self)@.on_toggle(
                fresh,
            ).effects,
    {
        if self.popup.is_some() {
            self.close_popup(effects);
        } else {
            let ghost before = effects_view(effects@);
            self.send(UiCommand::RefreshProfiles, effects);
            let ghost sent = effects_view(effects@);
            self.popup = Some(fresh);
            effects.push(Effect::OpenPopup(fresh));
            assert(effects_view(effects@) =~= sent.push(EffectView::OpenPopup(fresh)));
            assert(effects_view(effects@) =~= before + old(self)@.on_toggle(fresh).effects);
        }
    }

    fn on_closed(&mut self, id: u64, effects: &mut Vec<Effect>)
        ensures
            final(self)@ == old(self)@.on_closed(id).after,
            effects_view(final(effects)@) == effects_view(old(effects)@) + old(self)@.on_closed(
                id,
            ).effects,
    {
        assert(effects_view(effects@) + seq![] =~= effects_view(effects@));
        if self.popup == Some(id) {
            self.popup = None;
        } else if self.log_window == Some(id) {
            self.log_window = None;
        } else if self.auth_window == Some(id) {
            self.auth_window = None;
            self.clear_fields();
            self.send(UiCommand::CancelPrompt, effects);
        }
    }

    /// An answer for every field of the prompt.
    fn answer(&self, prompt: &PromptSpec) -> (responses: Vec<InputResponse>)
        ensures
            responses_view(responses@) == answers(prompt@, self@.field_values),
    {
        let mut responses: Vec<InputResponse> = Vec::new();
        let mut i: usize = 0;
        while i < prompt.fields.len()
            invariant
                i <= prompt.fields.len(),
                responses@.len() == i,
                forall|k: int|
                    0 <= k < i ==> (#[trigger] responses@[k])@ == answers(
                        prompt@,
                        self@.field_values,
                    )[k],
            decreases prompt.fields.len() - i,
        {
            let input = &prompt.fields[i];
            responses.push(
                InputResponse {
                    type_: input.type_,
                    group: input.group,
                    id: input.field.id,
                    value: self.typed_value(input),
                },
            );
            i = i + 1;
        }
        assert(responses_view(responses@) =~= answers(prompt@, self@.field_values));
        responses
    }

    /// What was typed into a field; nothing, where nothing was.
    pub fn typed_value(&self, input: &PromptInput) -> (value: String)
        ensures
            value@ == typed(self@.field_values, input@),
    {
        match self.field_values.get(&field_key(input)) {
            Some(value) => value.clone(),
            None => String::new(),
        }
    }

    /// Take in a message, and say what is to be done about it. `fresh` is the
    /// number of the view that opens, if one does.
    pub fn update(&mut self, message: Message, fresh: u64) -> (effects: Vec<Effect>)
        ensures
            final(self)@ == old(self)@.update(message@, fresh).after,
            effects_view(effects@) == old(self)@.update(message@, fresh).effects,
    {
        let mut effects: Vec<Effect> = Vec::new();
        assert(effects_view(effects@) =~= seq![]);
        match message {
            Message::WorkerReady => {
                self.ready = true;
            },
            Message::Snapshot(snapshot) => {
                self.on_snapshot(snapshot, fresh, &mut effects);
            },
            Message::TogglePopup => {
                self.on_toggle(fresh, &mut effects);
            },
            Message::Closed(id) => {
                self.on_closed(id, &mut effects);
            },
            Message::SelectProfile(config_path) => {
                self.send(UiCommand::SelectProfile(config_path), &mut effects);
                self.close_popup(&mut effects);
            },
            Message::Disconnect => {
                self.send(UiCommand::Disconnect, &mut effects);
                self.close_popup(&mut effects);
            },
            Message::DismissFailure => {
                self.send(UiCommand::DismissFailure, &mut effects);
            },
            Message::ImportRequested => {
                self.close_popup(&mut effects);
                effects.push(Effect::PickFile);
            },
            Message::ImportChosen(path) => match path {
                Some(path) => {
                    self.send(UiCommand::Import(path), &mut effects);
                },
                // Cancelling the picker is no error.
                None => {},
            },
            Message::OpenLog => {
                self.close_popup(&mut effects);
                self.open_log_window(fresh, &mut effects);
            },
            Message::CloseLog => {
                self.close_log_window(&mut effects);
            },
            Message::FieldChanged(key, value) => {
                self.field_values.insert(key, value);
            },
            Message::SubmitPrompt => match &self.snapshot.prompt {
                Some(prompt) => {
                    let responses = self.answer(prompt);
                    self.send(UiCommand::SubmitPrompt(responses), &mut effects);
                    self.close_auth_window(&mut effects);
                },
                None => {},
            },
            Message::CancelPrompt => {
                self.send(UiCommand::CancelPrompt, &mut effects);
                self.close_auth_window(&mut effects);
            },
            Message::Tick => {},
        }
        proof {
            let step = old(self)@.update(message@, fresh);
            assert(self@ =~= step.after);
            assert(effects_view(effects@) =~= step.effects);
        }
        effects
    }
}

} // verus!

//! What holds of the panel whatever it hears.

use crate::app::{
    answers, key_of, law_fields_do_not_share_values, typed, AppView, EffectView, MessageView,
};
use crate::dbus::{PromptInputView, SnapshotView, UiCommandView};
use crate::status::ConnectionState;
use vstd::prelude::*;

verus! {

/// Nothing that was typed is kept while the prompt is closed.
pub open spec fn forgetful(app: AppView) -> bool {
    app.auth_window is None ==> app.field_values == Map::<u64, Seq<char>>::empty()
}

/// A prompt that is open has something to ask.
pub open spec fn purposeful(app: AppView) -> bool {
    app.auth_window is Some ==> app.snapshot.prompt is Some
}

/// A panel starts out with nothing open and nothing typed.
pub proof fn law_the_panel_starts_blank()
    ensures
        forgetful(AppView::initial()),
        purposeful(AppView::initial()),
{
}

/// Nothing that was typed outlives the prompt it was typed into, however the
/// prompt closes. Only what comes in from a field after its prompt is gone is
/// kept until the next prompt appears.
pub proof fn law_nothing_typed_outlives_the_prompt(app: AppView, message: MessageView, fresh: u64)
    requires
        forgetful(app),
        !(message is FieldChanged && app.auth_window is None),
    ensures
        forgetful(app.update(message, fresh).after),
{
}

/// The prompt is only open while there is something to ask.
pub proof fn law_an_open_prompt_asks_for_something(app: AppView, message: MessageView, fresh: u64)
    requires
        purposeful(app),
    ensures
        purposeful(app.update(message, fresh).after),
{
}

/// A prompt that appears is shown, with nothing typed, whether there was none before
/// or another one: each round of input is asked for in its turn.
pub proof fn law_a_prompt_that_appears_is_shown(app: AppView, snapshot: SnapshotView, fresh: u64)
    requires
        snapshot.prompt is Some,
        snapshot.prompt != app.snapshot.prompt,
    ensures
        ({
            let step = app.update(MessageView::Snapshot(snapshot), fresh);
            &&& step.after.auth_window is Some
            &&& step.after.field_values == Map::<u64, Seq<char>>::empty()
            &&& app.auth_window is None ==> step.effects == seq![EffectView::OpenAuth(fresh)]
        }),
{
}

/// After a prompt is submitted, the next one that differs from it is shown.
pub proof fn law_a_second_round_is_shown(app: AppView, snapshot: SnapshotView, a: u64, b: u64)
    requires
        app.snapshot.prompt is Some,
        snapshot.prompt is Some,
        snapshot.prompt != app.snapshot.prompt,
    ensures
        ({
            let submitted = app.update(MessageView::SubmitPrompt, a).after;
            let step = submitted.update(MessageView::Snapshot(snapshot), b);
            &&& submitted.auth_window is None
            &&& step.effects == seq![EffectView::OpenAuth(b)]
            &&& step.after.auth_window == Some(b)
        }),
{
}

/// A prompt that the user has dealt with is not opened again by word of the same.
pub proof fn law_the_same_prompt_is_not_reopened(app: AppView, snapshot: SnapshotView, fresh: u64)
    requires
        snapshot.prompt == app.snapshot.prompt,
    ensures
        app.update(MessageView::Snapshot(snapshot), fresh).after.auth_window == app.auth_window,
        app.update(MessageView::Snapshot(snapshot), fresh).effects == Seq::<EffectView>::empty(),
{
}

/// Opening the menu has openvpn3 asked again.
pub proof fn law_opening_the_menu_asks_again(app: AppView, fresh: u64)
    requires
        app.ready,
        app.popup is None,
    ensures
        app.update(MessageView::TogglePopup, fresh).effects == seq![
            EffectView::Send(UiCommandView::RefreshProfiles),
            EffectView::OpenPopup(fresh),
        ],
{
    assert(app.update(MessageView::TogglePopup, fresh).effects =~= seq![
        EffectView::Send(UiCommandView::RefreshProfiles),
        EffectView::OpenPopup(fresh),
    ]);
}

/// Closing the prompt from outside cancels it, so that no session is left waiting
/// for input with no view to return to.
pub proof fn law_closing_the_prompt_cancels_it(app: AppView, id: u64, fresh: u64)
    requires
        app.ready,
        app.auth_window == Some(id),
        app.popup != Some(id),
        app.log_window != Some(id),
    ensures
        ({
            let step = app.update(MessageView::Closed(id), fresh);
            &&& step.effects == seq![EffectView::Send(UiCommandView::CancelPrompt)]
            &&& step.after.auth_window is None
            &&& step.after.field_values == Map::<u64, Seq<char>>::empty()
        }),
{
}

/// A field's answer is what was typed into it last; the answers to all other
/// fields are as they were.
pub proof fn law_what_is_typed_is_answered(
    app: AppView,
    input: PromptInputView,
    value: Seq<char>,
    other: PromptInputView,
    fresh: u64,
)
    ensures
        ({
            let key = key_of(input.type_, input.group, input.field.id);
            let after = app.update(MessageView::FieldChanged(key, value), fresh).after;
            &&& typed(after.field_values, input) == value
            &&& (other.type_ != input.type_ || other.group != input.group || other.field.id
                != input.field.id) ==> typed(after.field_values, other) == typed(
                app.field_values,
                other,
            )
        }),
{
    if key_of(other.type_, other.group, other.field.id) == key_of(
        input.type_,
        input.group,
        input.field.id,
    ) {
        law_fields_do_not_share_values(
            other.type_,
            other.group,
            other.field.id,
            input.type_,
            input.group,
            input.field.id,
        );
    }
}

/// Submitting answers every field of the prompt, each under its own queue and
/// number, and closes the prompt.
pub proof fn law_every_field_is_answered(app: AppView, fresh: u64, i: int)
    requires
        app.ready,
        app.snapshot.prompt is Some,
        0 <= i < app.snapshot.prompt->0.fields.len(),
    ensures
        ({
            let prompt = app.snapshot.prompt->0;
            let responses = answers(prompt, app.field_values);
            let step = app.update(MessageView::SubmitPrompt, fresh);
            &&& step.effects.first() == EffectView::Send(UiCommandView::SubmitPrompt(responses))
            &&& step.after.auth_window is None
            &&& responses.len() == prompt.fields.len()
            &&& responses[i].type_ == prompt.fields[i].type_
            &&& responses[i].group == prompt.fields[i].group
            &&& responses[i].id == prompt.fields[i].field.id
            &&& responses[i].value == typed(app.field_values, prompt.fields[i])
        }),
{
}

/// Nothing is sent before there is a worker to take it.
pub proof fn law_nothing_is_sent_without_a_worker(
    app: AppView,
    message: MessageView,
    fresh: u64,
    command: UiCommandView,
)
    requires
        !app.ready,
    ensures
        !app.update(message, fresh).effects.contains(EffectView::Send(command)),
{
}

/// Nothing is asked of openvpn3 unless the user asks for it: what the worker
/// publishes and the passing of time send no request.
pub proof fn law_only_the_user_sends_requests(
    app: AppView,
    snapshot: SnapshotView,
    fresh: u64,
    command: UiCommandView,
)
    ensures
        !app.update(MessageView::Snapshot(snapshot), fresh).effects.contains(
            EffectView::Send(command),
        ),
        app.update(MessageView::Tick, fresh).effects == Seq::<EffectView>::empty(),
        app.update(MessageView::Tick, fresh).after == app,
{
}

/// What is to be done to hand a request to the worker: nothing, before there is one.
pub open spec fn sends(app: AppView, command: UiCommandView) -> Seq<EffectView> {
    if app.ready {
        seq![EffectView::Send(command)]
    } else {
        seq![]
    }
}

/// What is to be done to close a view: nothing, where it is not open.
pub open spec fn closes(view: Option<u64>) -> Seq<EffectView> {
    match view {
        Some(id) => seq![EffectView::Close(id)],
        None => seq![],
    }
}

/// Requests are sent from the moment that the worker takes them, and nothing else changes
/// then.
pub proof fn law_the_worker_is_served_from_now_on(app: AppView, fresh: u64)
    ensures
        app.update(MessageView::WorkerReady, fresh).after == (AppView { ready: true, ..app }),
        app.update(MessageView::WorkerReady, fresh).effects.len() == 0,
{
}

/// What the user picks in the menu is sent as it was picked, and the menu closes.
pub proof fn law_choices_are_sent(app: AppView, config_path: Seq<char>, fresh: u64)
    ensures
        ({
            let step = app.update(MessageView::SelectProfile(config_path), fresh);
            &&& step.effects == sends(app, UiCommandView::SelectProfile(config_path)) + closes(
                app.popup,
            )
            &&& step.after == (AppView { popup: None, ..app })
        }),
        ({
            let step = app.update(MessageView::Disconnect, fresh);
            &&& step.effects == sends(app, UiCommandView::Disconnect) + closes(app.popup)
            &&& step.after == (AppView { popup: None, ..app })
        }),
        ({
            let step = app.update(MessageView::DismissFailure, fresh);
            &&& step.effects == sends(app, UiCommandView::DismissFailure)
            &&& step.after == app
        }),
{
}

/// A request to import closes the menu and has the user pick a file. The file that was
/// picked is sent; where none was, nothing is.
pub proof fn law_picked_files_are_sent(app: AppView, path: Seq<char>, fresh: u64)
    ensures
        ({
            let step = app.update(MessageView::ImportRequested, fresh);
            &&& step.effects == closes(app.popup) + seq![EffectView::PickFile]
            &&& step.after == (AppView { popup: None, ..app })
        }),
        ({
            let step = app.update(MessageView::ImportChosen(Some(path)), fresh);
            &&& step.effects == sends(app, UiCommandView::Import(path))
            &&& step.after == app
        }),
        ({
            let step = app.update(MessageView::ImportChosen(None), fresh);
            &&& step.effects.len() == 0
            &&& step.after == app
        }),
{
}

/// The menu opens under the number given, where it is closed, and closes where it is open.
/// Nothing but the menu changes.
pub proof fn law_the_menu_opens_and_closes(app: AppView, fresh: u64)
    ensures
        ({
            let step = app.update(MessageView::TogglePopup, fresh);
            &&& app.popup is None ==> step.after == (AppView { popup: Some(fresh), ..app })
                && step.effects == sends(app, UiCommandView::RefreshProfiles) + seq![
                EffectView::OpenPopup(fresh),
            ]
            &&& app.popup is Some ==> step.after == (AppView { popup: None, ..app })
                && step.effects == closes(app.popup)
        }),
{
}

/// The log opens under the number given, unless it is open, and the menu closes. It closes
/// when asked to. Nothing but the two changes.
pub proof fn law_the_log_opens_and_closes(app: AppView, fresh: u64)
    ensures
        ({
            let step = app.update(MessageView::OpenLog, fresh);
            &&& app.log_window is None ==> step.after == (AppView {
                popup: None,
                log_window: Some(fresh),
                ..app
            }) && step.effects == closes(app.popup) + seq![EffectView::OpenLog(fresh)]
            &&& app.log_window is Some ==> step.after == (AppView { popup: None, ..app })
                && step.effects == closes(app.popup)
        }),
        ({
            let step = app.update(MessageView::CloseLog, fresh);
            &&& step.after == (AppView { log_window: None, ..app })
            &&& step.effects == closes(app.log_window)
        }),
{
}

/// A view that is closed from outside is forgotten, and no other is. Only the prompt has
/// something sent for it.
pub proof fn law_views_closed_from_outside_are_forgotten(app: AppView, id: u64, fresh: u64)
    ensures
        ({
            let step = app.update(MessageView::Closed(id), fresh);
            &&& app.popup == Some(id) ==> step.after == (AppView { popup: None, ..app })
                && step.effects.len() == 0
            &&& app.log_window == Some(id) && app.popup != Some(id) ==> step.after == (AppView {
                log_window: None,
                ..app
            }) && step.effects.len() == 0
            &&& app.auth_window == Some(id) && app.popup != Some(id) && app.log_window != Some(id)
                ==> step.after == (AppView {
                auth_window: None,
                field_values: Map::empty(),
                ..app
            }) && step.effects == sends(app, UiCommandView::CancelPrompt)
            &&& app.popup != Some(id) && app.log_window != Some(id) && app.auth_window != Some(id)
                ==> step.after == app && step.effects.len() == 0
        }),
{
}

/// What the worker publishes is what is shown. It opens or closes no view but the prompt.
pub proof fn law_what_is_published_is_shown(app: AppView, snapshot: SnapshotView, fresh: u64)
    ensures
        ({
            let step = app.update(MessageView::Snapshot(snapshot), fresh);
            &&& step.after.snapshot == snapshot
            &&& step.after.ready == app.ready
            &&& step.after.popup == app.popup
            &&& step.after.log_window == app.log_window
            &&& snapshot.prompt == app.snapshot.prompt ==> step.after.field_values
                == app.field_values
            &&& snapshot.prompt is Some && snapshot.prompt != app.snapshot.prompt
                && app.auth_window is None ==> step.after.auth_window == Some(fresh)
            &&& snapshot.prompt is Some && snapshot.prompt != app.snapshot.prompt
                && app.auth_window is Some ==> step.after.auth_window == app.auth_window
                && step.effects.len() == 0
            &&& snapshot.prompt is None && app.snapshot.prompt is Some ==> step.after.auth_window
                is None && step.after.field_values == Map::<u64, Seq<char>>::empty()
                && step.effects == closes(app.auth_window)
        }),
{
}

/// What is typed changes nothing but the value of its field.
pub proof fn law_typing_changes_one_field(app: AppView, key: u64, value: Seq<char>, fresh: u64)
    ensures
        ({
            let step = app.update(MessageView::FieldChanged(key, value), fresh);
            &&& step.effects.len() == 0
            &&& step.after == (AppView {
                field_values: app.field_values.insert(key, value),
                ..app
            })
        }),
{
}

/// A prompt that is submitted or cancelled closes, with what was typed forgotten, after the
/// request is sent. Without a prompt there is nothing to submit.
pub proof fn law_finished_prompts_close(app: AppView, fresh: u64)
    ensures
        ({
            let step = app.update(MessageView::CancelPrompt, fresh);
            &&& step.effects == sends(app, UiCommandView::CancelPrompt) + closes(app.auth_window)
            &&& step.after == (AppView { auth_window: None, field_values: Map::empty(), ..app })
        }),
        ({
            let step = app.update(MessageView::SubmitPrompt, fresh);
            &&& app.snapshot.prompt is None ==> step.after == app && step.effects.len() == 0
            &&& app.snapshot.prompt is Some ==> step.after == (AppView {
                auth_window: None,
                field_values: Map::empty(),
                ..app
            })
            &&& app.snapshot.prompt is Some && !app.ready ==> step.effects == closes(
                app.auth_window,
            )
            &&& app.snapshot.prompt is Some && app.ready ==> step.effects.drop_first() == closes(
                app.auth_window,
            )
        }),
{
    if app.snapshot.prompt is Some && app.ready {
        let step = app.update(MessageView::SubmitPrompt, fresh);
        assert(step.effects.drop_first() =~= closes(app.auth_window));
    }
}

/// A field into which nothing was typed is answered with nothing.
pub proof fn law_untouched_fields_are_blank(input: PromptInputView)
    ensures
        typed(Map::empty(), input).len() == 0,
{
}

/// A panel starts out without a worker, with nothing open, nothing typed and nothing known.
pub proof fn law_the_panel_starts_closed()
    ensures
        ({
            let app = AppView::initial();
            &&& !app.ready
            &&& app.popup is None
            &&& app.auth_window is None
            &&& app.log_window is None
            &&& app.field_values == Map::<u64, Seq<char>>::empty()
            &&& app.snapshot.state == ConnectionState::Disconnected
            &&& app.snapshot.profiles.len() == 0
            &&& app.snapshot.active_config is None
            &&& app.snapshot.active_name is None
            &&& app.snapshot.session_created is None
            &&& app.snapshot.status_message.len() == 0
            &&& app.snapshot.prompt is None
            &&& app.snapshot.log is None
            &&& app.snapshot.unavailable is None
        }),
{
}

} // verus!

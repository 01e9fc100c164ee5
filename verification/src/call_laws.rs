//! What the worker asks for, and what it makes of the answer.

use crate::agenda::{runs, TaskView, WaitView};
use crate::attention::{
    law_fields_ask_for_their_item, ClientAttentionGroup, ClientAttentionType, PromptKind,
};
use crate::calls::{CallView, QueueItemView, ReplyView};
use crate::dbus::{
    law_bus_statuses_round_trip, wire_status, PromptInputView, PromptSpecView, UiCommandView,
    WireView,
};
use crate::logbuf::{LogEntryView, LogStoreView};
use crate::machine::{CommandView, EventView, InputResponseView, MachineView};
use crate::object_path::is_object_path;
use crate::roster::{labelled_all, names_by_path, sorted_by_name, ListedProfileView};
use crate::status::{ConnectionState, StatusView};
use crate::text::{
    base_name, decimal, law_a_file_is_named_by_its_stem, law_blank_text_trims_to_nothing, trimmed,
};
use crate::worker_laws::law_the_machine_is_served_first;
use crate::worker_model::{
    decoded_pair, decoded_requests, queue_fields, ui_tasks, with_failures, ProgressView, WorkerView,
};
use vstd::prelude::*;

verus! {

/// The task is the next thing that the worker does.
pub open spec fn is_next(worker: WorkerView, task: TaskView) -> bool {
    worker.waiting is None && worker.agenda.len() > 0 && worker.agenda[0] == task
}

/// The worker without the next thing to do.
pub open spec fn without_next(worker: WorkerView) -> WorkerView {
    WorkerView { agenda: worker.agenda.drop_first(), ..worker }
}

/// The worker makes this call next, and nothing else changes.
pub open spec fn asks_for(worker: WorkerView, call: CallView) -> bool {
    let step = worker.step();
    &&& step.progress == ProgressView::Ask(call)
    &&& step.after.waiting is Some
    &&& step.after == (WorkerView { waiting: step.after.waiting, ..without_next(worker) })
}

/// The worker does the next thing without a call, and is this afterwards.
pub open spec fn becomes(worker: WorkerView, after: WorkerView) -> bool {
    worker.step().progress is Worked && worker.step().after == after
}

/// The call that the worker makes next takes this answer, and leaves the worker so.
pub open spec fn takes(worker: WorkerView, reply: ReplyView, after: WorkerView) -> bool {
    worker.step().after.resume(reply) == Some(after)
}

/// The worker once the machine has heard of the event and nothing else has happened.
pub open spec fn heard(worker: WorkerView, event: EventView) -> WorkerView {
    WorkerView {
        machine: worker.machine.step(event).after,
        agenda: runs(worker.machine.step(event).commands) + worker.agenda,
        ..worker
    }
}

/// Each command of the machine is one thing to do, in their order.
pub proof fn law_commands_are_run_in_order(commands: Seq<CommandView>, i: int)
    requires
        0 <= i < commands.len(),
    ensures
        runs(commands).len() == commands.len(),
        runs(commands)[i] == TaskView::Run(commands[i]),
{
}

/// A command for something that can be addressed becomes the call of its name, to the
/// same object.
pub proof fn law_commands_become_calls(worker: WorkerView, path: Seq<char>)
    requires
        is_object_path(path),
    ensures
        is_next(worker, TaskView::Run(CommandView::NewTunnel { config_path: path })) ==> asks_for(
            worker,
            CallView::NewTunnel { config_path: path },
        ),
        is_next(worker, TaskView::Run(CommandView::EnableLogForward { session_path: path }))
            ==> asks_for(worker, CallView::EnableLogForward { session_path: path }),
        is_next(worker, TaskView::Run(CommandView::Connect { session_path: path })) ==> asks_for(
            worker,
            CallView::Connect { session_path: path },
        ),
        is_next(worker, TaskView::Run(CommandView::Disconnect { session_path: path })) ==> asks_for(
            worker,
            CallView::Disconnect { session_path: path },
        ),
        is_next(worker, TaskView::Run(CommandView::CheckReady { session_path: path })) ==> asks_for(
            worker,
            CallView::CheckReady { session_path: path },
        ),
{
}

/// What cannot be addressed is not called, and nothing changes.
pub proof fn law_what_cannot_be_addressed_is_not_called(
    worker: WorkerView,
    path: Seq<char>,
    responses: Seq<InputResponseView>,
    command: CommandView,
)
    requires
        !is_object_path(path),
        command == (CommandView::NewTunnel { config_path: path }) || command == (
        CommandView::EnableLogForward { session_path: path }) || command == (CommandView::Connect {
            session_path: path,
        }) || command == (CommandView::Disconnect { session_path: path }) || command == (
        CommandView::CheckReady { session_path: path }) || command == (CommandView::ProvideInput {
            session_path: path,
            responses,
        }),
        is_next(worker, TaskView::Run(command)),
    ensures
        becomes(worker, without_next(worker)),
{
}

/// Answers are handed over whole: one input for each, in their order, with its id and
/// its text, to the queue that it was asked for by.
pub proof fn law_answers_are_handed_over_whole(
    worker: WorkerView,
    session_path: Seq<char>,
    responses: Seq<InputResponseView>,
    i: int,
)
    requires
        is_next(worker, TaskView::Run(CommandView::ProvideInput { session_path, responses })),
        is_object_path(session_path),
        0 <= i < responses.len(),
    ensures
        worker.step().progress is Ask,
        worker.step().progress->Ask_0 is ProvideInput,
        ({
            let call = worker.step().progress->Ask_0;
            let inputs = call->ProvideInput_inputs;
            &&& call->ProvideInput_session_path == session_path
            &&& inputs.len() == responses.len()
            &&& inputs[i].id == responses[i].id
            &&& inputs[i].value == responses[i].value
            &&& inputs[i].type_ <= 0xff
            &&& inputs[i].group <= 0xff
            &&& ClientAttentionType::decoded(inputs[i].type_ as u8) is Ok
            &&& ClientAttentionType::decoded(inputs[i].type_ as u8)->Ok_0 == responses[i].type_
            &&& ClientAttentionGroup::decoded(inputs[i].group as u8) is Ok
            &&& ClientAttentionGroup::decoded(inputs[i].group as u8)->Ok_0 == responses[i].group
        }),
        worker.step().after.machine == worker.machine,
        worker.step().after.logs == worker.logs,
        worker.step().after.prompt == worker.prompt,
        worker.step().after.agenda == worker.agenda.drop_first(),
{
}

/// With nothing to answer, an empty list is handed over.
pub proof fn law_no_answers_are_made_up(
    worker: WorkerView,
    session_path: Seq<char>,
    responses: Seq<InputResponseView>,
)
    requires
        is_next(worker, TaskView::Run(CommandView::ProvideInput { session_path, responses })),
        is_object_path(session_path),
    ensures
        worker.step().progress is Ask,
        worker.step().progress->Ask_0 is ProvideInput,
        worker.step().progress->Ask_0->ProvideInput_session_path == session_path,
        worker.step().progress->Ask_0->ProvideInput_inputs.len() == responses.len(),
{
}

/// A session that was started is logged from scratch and dated now. Its signals are
/// followed first, then the machine hears of it.
pub proof fn law_started_sessions_are_followed(
    worker: WorkerView,
    config_path: Seq<char>,
    session_path: Seq<char>,
    now: u64,
)
    requires
        is_next(worker, TaskView::Run(CommandView::NewTunnel { config_path })),
        is_object_path(config_path),
    ensures
        takes(
            worker,
            ReplyView::Tunnel { session_path, now },
            WorkerView {
                logs: worker.logs.begun(session_path),
                session_created: Some(now),
                agenda: seq![
                    TaskView::Subscribe { session_path },
                    TaskView::Created { session_path, config_path },
                ] + worker.agenda.drop_first(),
                ..worker
            },
        ),
{
    let after = worker.step().after.resume(ReplyView::Tunnel { session_path, now })->0;
    assert(after.agenda =~= seq![
        TaskView::Subscribe { session_path },
        TaskView::Created { session_path, config_path },
    ] + worker.agenda.drop_first());
}

/// A call that moves a session along and is refused is explained in the log, and
/// nothing else comes of it. Without an answer nothing comes of it at all.
pub proof fn law_refused_calls_are_explained(
    worker: WorkerView,
    path: Seq<char>,
    error: Seq<char>,
)
    requires
        is_object_path(path),
    ensures
        is_next(worker, TaskView::Run(CommandView::NewTunnel { config_path: path })) ==> takes(
            worker,
            ReplyView::Failed(error),
            WorkerView {
                logs: worker.logs.noted(path, "Could not start session: "@ + error),
                ..without_next(worker)
            },
        ) && takes(worker, ReplyView::Unreachable, without_next(worker)),
        is_next(worker, TaskView::Run(CommandView::EnableLogForward { session_path: path }))
            ==> takes(
            worker,
            ReplyView::Failed(error),
            WorkerView {
                logs: worker.logs.noted(path, "Log forwarding unavailable: "@ + error),
                ..without_next(worker)
            },
        ) && takes(worker, ReplyView::Unreachable, without_next(worker)) && takes(
            worker,
            ReplyView::Done,
            without_next(worker),
        ),
        is_next(worker, TaskView::Run(CommandView::Connect { session_path: path })) ==> takes(
            worker,
            ReplyView::Failed(error),
            WorkerView {
                logs: worker.logs.noted(path, "Connect failed: "@ + error),
                ..without_next(worker)
            },
        ) && takes(worker, ReplyView::Unreachable, without_next(worker)) && takes(
            worker,
            ReplyView::Done,
            without_next(worker),
        ),
        is_next(worker, TaskView::Run(CommandView::Disconnect { session_path: path })) ==> takes(
            worker,
            ReplyView::Failed(error),
            without_next(worker),
        ) && takes(worker, ReplyView::Unreachable, without_next(worker)) && takes(
            worker,
            ReplyView::Done,
            without_next(worker),
        ),
{
}

/// A session that says that it is ready is heard; one that does not is asked what it
/// wants.
pub proof fn law_readiness_is_asked_for(
    worker: WorkerView,
    session_path: Seq<char>,
    error: Seq<char>,
)
    requires
        is_object_path(session_path),
        is_next(worker, TaskView::Run(CommandView::CheckReady { session_path })),
    ensures
        takes(
            worker,
            ReplyView::Done,
            heard(without_next(worker), EventView::SessionReady { session_path }),
        ),
        takes(worker, ReplyView::Unreachable, without_next(worker)),
        worker.step().after.resume(ReplyView::Failed(error)) is Some,
        ({
            let refused = worker.step().after.resume(ReplyView::Failed(error))->0;
            &&& asks_for(refused, CallView::ReadQueue { session_path })
            &&& without_next(refused) == without_next(worker)
        }),
{
    let rest = without_next(worker);
    law_the_machine_is_served_first(rest, EventView::SessionReady { session_path });
    let refused = worker.step().after.resume(ReplyView::Failed(error))->0;
    assert(refused.agenda.drop_first() =~= rest.agenda);
    assert(without_next(refused) =~= rest);
}

/// A session that is not ready and wants nothing, or does not say what, has its error
/// noted.
pub proof fn law_a_session_that_wants_nothing_is_noted(
    worker: WorkerView,
    session_path: Seq<char>,
    error: Seq<char>,
)
    requires
        is_next(worker, TaskView::ReadQueue { session_path, error }),
    ensures
        asks_for(worker, CallView::ReadQueue { session_path }),
        takes(
            worker,
            ReplyView::Queue(seq![]),
            WorkerView {
                logs: worker.logs.noted(session_path, "Backend not ready: "@ + error),
                ..without_next(worker)
            },
        ),
        takes(
            worker,
            ReplyView::Unreachable,
            WorkerView {
                logs: worker.logs.noted(session_path, "Backend not ready: "@ + error),
                ..without_next(worker)
            },
        ),
{
}

/// A session whose first wish is known is heard with what it wants and no message; one
/// whose first wish is not has that noted by its numbers.
pub proof fn law_the_first_wish_decides(
    worker: WorkerView,
    session_path: Seq<char>,
    error: Seq<char>,
    pairs: Seq<(u32, u32)>,
)
    requires
        is_next(worker, TaskView::ReadQueue { session_path, error }),
        pairs.len() > 0,
    ensures
        decoded_pair(pairs[0].0, pairs[0].1) is Some ==> takes(
            worker,
            ReplyView::Queue(pairs),
            heard(
                without_next(worker),
                EventView::CredentialsRequired {
                    session_path,
                    requests: decoded_requests(pairs),
                    message: seq![],
                },
            ),
        ),
        decoded_pair(pairs[0].0, pairs[0].1) is None ==> takes(
            worker,
            ReplyView::Queue(pairs),
            WorkerView {
                logs: worker.logs.noted(
                    session_path,
                    "Unrecognised credential request: "@ + "type="@ + decimal(
                        pairs[0].0 as nat,
                    ) + " group="@ + decimal(pairs[0].1 as nat),
                ),
                ..without_next(worker)
            },
        ),
{
    law_the_machine_is_served_first(
        without_next(worker),
        EventView::CredentialsRequired {
            session_path,
            requests: decoded_requests(pairs),
            message: seq![],
        },
    );
}

/// What the user picks, drops or dismisses is heard as it was asked for.
pub proof fn law_choices_are_heard(worker: WorkerView, config_path: Seq<char>)
    ensures
        is_next(worker, TaskView::Ui(UiCommandView::SelectProfile(config_path))) ==> becomes(
            worker,
            heard(without_next(worker), EventView::ProfileSelected { config_path }),
        ),
        is_next(worker, TaskView::Ui(UiCommandView::Disconnect)) ==> becomes(
            worker,
            heard(without_next(worker), EventView::DisconnectRequested),
        ),
        is_next(worker, TaskView::Ui(UiCommandView::DismissFailure)) ==> becomes(
            worker,
            heard(without_next(worker), EventView::FailureDismissed),
        ),
{
    let rest = without_next(worker);
    law_the_machine_is_served_first(rest, EventView::ProfileSelected { config_path });
    law_the_machine_is_served_first(rest, EventView::DisconnectRequested);
    law_the_machine_is_served_first(rest, EventView::FailureDismissed);
}

/// What the user does with a prompt is heard of the session that the prompt is for.
/// Without a prompt nothing comes of it.
pub proof fn law_prompts_are_heard(worker: WorkerView, responses: Seq<InputResponseView>)
    ensures
        is_next(worker, TaskView::Ui(UiCommandView::SubmitPrompt(responses))) ==> becomes(
            worker,
            match worker.prompt {
                Some(prompt) => heard(
                    without_next(worker),
                    EventView::PromptSubmitted { session_path: prompt.session_path, responses },
                ),
                None => without_next(worker),
            },
        ),
        is_next(worker, TaskView::Ui(UiCommandView::CancelPrompt)) ==> becomes(
            worker,
            match worker.prompt {
                Some(prompt) => heard(
                    without_next(worker),
                    EventView::PromptCancelled { session_path: prompt.session_path },
                ),
                None => without_next(worker),
            },
        ),
{
    if let Some(prompt) = worker.prompt {
        let rest = without_next(worker);
        let session_path = prompt.session_path;
        law_the_machine_is_served_first(
            rest,
            EventView::PromptSubmitted { session_path, responses },
        );
        law_the_machine_is_served_first(rest, EventView::PromptCancelled { session_path });
    }
}

/// A status from the bus is heard as it is, and its message is what openvpn3 said last.
pub proof fn law_statuses_are_heard(worker: WorkerView, session: Seq<char>, status: StatusView)
    requires
        is_next(worker, TaskView::Wire(WireView::Status { session, status })),
    ensures
        becomes(
            worker,
            WorkerView {
                status_message: status.message,
                ..heard(
                    without_next(worker),
                    EventView::StatusChanged { session_path: session, status },
                )
            },
        ),
{
    let rest = WorkerView { status_message: status.message, ..without_next(worker) };
    law_the_machine_is_served_first(
        rest,
        EventView::StatusChanged { session_path: session, status },
    );
}

/// A request from the bus is heard as what its numbers stand for, with its message. One
/// whose numbers stand for nothing is noted by them.
pub proof fn law_requests_are_heard(
    worker: WorkerView,
    session: Seq<char>,
    type_: u32,
    group: u32,
    message: Seq<char>,
    known_type: ClientAttentionType,
    known_group: ClientAttentionGroup,
)
    requires
        is_next(worker, TaskView::Wire(WireView::Attention { session, type_, group, message })),
    ensures
        type_ == known_type.wire() && group == known_group.wire() ==> becomes(
            worker,
            heard(
                without_next(worker),
                EventView::AttentionRequired {
                    session_path: session,
                    type_: known_type,
                    group: known_group,
                    message,
                },
            ),
        ),
        decoded_pair(type_, group) is None ==> becomes(
            worker,
            WorkerView {
                logs: worker.logs.noted(
                    session,
                    "Unrecognised input request from openvpn3: "@ + "type="@ + decimal(
                        type_ as nat,
                    ) + " group="@ + decimal(group as nat),
                ),
                ..without_next(worker)
            },
        ),
{
    law_numbers_stand_for_one_request(type_, group, known_type, known_group);
    law_the_machine_is_served_first(
        without_next(worker),
        EventView::AttentionRequired {
            session_path: session,
            type_: known_type,
            group: known_group,
            message,
        },
    );
}

/// A pair of numbers stands for the request whose numbers they are, and for no other.
pub proof fn law_numbers_stand_for_one_request(
    type_: u32,
    group: u32,
    known_type: ClientAttentionType,
    known_group: ClientAttentionGroup,
)
    ensures
        decoded_pair(type_, group) == Some((known_type, known_group)) <==> type_
            == known_type.wire() && group == known_group.wire(),
{
}

/// A line from the bus goes to the log of its session as it is.
pub proof fn law_log_lines_are_kept(
    worker: WorkerView,
    session: Seq<char>,
    entry: LogEntryView,
)
    requires
        is_next(worker, TaskView::Wire(WireView::Log { session, entry })),
    ensures
        becomes(
            worker,
            WorkerView { logs: worker.logs.pushed(session, entry), ..without_next(worker) },
        ),
{
}

/// A session that is removed is heard of and its log goes with it, unless it is the
/// latest. Other news of the session manager change nothing.
pub proof fn law_removals_are_heard(worker: WorkerView, path: Seq<char>, removed: bool)
    requires
        is_next(worker, TaskView::Wire(WireView::SessionManager { path, removed })),
    ensures
        removed ==> becomes(
            worker,
            WorkerView {
                logs: worker.logs.removed(path),
                ..heard(without_next(worker), EventView::SessionRemoved { session_path: path })
            },
        ),
        !removed ==> becomes(worker, without_next(worker)),
{
    law_the_machine_is_served_first(
        WorkerView { logs: worker.logs.removed(path), ..without_next(worker) },
        EventView::SessionRemoved { session_path: path },
    );
}

/// The machine hears of a session that was created, with its profile.
pub proof fn law_created_sessions_are_heard(
    worker: WorkerView,
    session_path: Seq<char>,
    config_path: Seq<char>,
)
    requires
        is_next(worker, TaskView::Created { session_path, config_path }),
    ensures
        becomes(
            worker,
            heard(
                without_next(worker),
                EventView::SessionCreated { session_path, config_path },
            ),
        ),
{
    law_the_machine_is_served_first(
        without_next(worker),
        EventView::SessionCreated { session_path, config_path },
    );
}

/// A prompt that the machine opens starts out without fields, for the same session, of
/// the same kind, with the same message, and with every request still to be drained.
pub proof fn law_opened_prompts_are_drained(
    worker: WorkerView,
    session_path: Seq<char>,
    kind: PromptKind,
    requests: Seq<(ClientAttentionType, ClientAttentionGroup)>,
    message: Seq<char>,
)
    requires
        is_next(
            worker,
            TaskView::Run(CommandView::OpenPrompt { session_path, kind, requests, message }),
        ),
    ensures
        becomes(
            worker,
            WorkerView {
                agenda: seq![
                    TaskView::Drain {
                        session_path,
                        kind,
                        message,
                        rest: requests,
                        fields: seq![],
                    },
                ] + worker.agenda.drop_first(),
                ..worker
            },
        ),
{
}

/// The queues are drained one by one: the next call is for the first that is left, by
/// the numbers of its request. The fields of its items come behind those collected so far,
/// and a queue that cannot be reached is passed over.
pub proof fn law_the_next_queue_is_drained(
    worker: WorkerView,
    session_path: Seq<char>,
    kind: PromptKind,
    message: Seq<char>,
    rest: Seq<(ClientAttentionType, ClientAttentionGroup)>,
    fields: Seq<PromptInputView>,
    items: Seq<Option<QueueItemView>>,
)
    requires
        is_next(worker, TaskView::Drain { session_path, kind, message, rest, fields }),
        is_object_path(session_path),
        rest.len() > 0,
    ensures
        takes(
            worker,
            ReplyView::Items(items),
            WorkerView {
                agenda: seq![
                    TaskView::Drain {
                        session_path,
                        kind,
                        message,
                        rest: rest.drop_first(),
                        fields: fields + queue_fields(rest[0].0, rest[0].1, items),
                    },
                ] + worker.agenda.drop_first(),
                ..worker
            },
        ),
        ({
            let call = worker.step().progress->Ask_0;
            &&& worker.step().progress is Ask
            &&& call is DrainQueue
            &&& call->DrainQueue_session_path == session_path
            &&& decoded_pair(call->DrainQueue_type_, call->DrainQueue_group) == Some(rest[0])
            &&& asks_for(worker, call)
        }),
        takes(
            worker,
            ReplyView::Unreachable,
            WorkerView {
                agenda: seq![
                    TaskView::Drain {
                        session_path,
                        kind,
                        message,
                        rest: rest.drop_first(),
                        fields,
                    },
                ] + worker.agenda.drop_first(),
                ..worker
            },
        ),
{
    law_numbers_stand_for_one_request(
        rest[0].0.wire() as u32,
        rest[0].1.wire() as u32,
        rest[0].0,
        rest[0].1,
    );
}

/// A prompt is shown once no queue is left, or at once where the session cannot be
/// addressed.
pub proof fn law_a_drained_prompt_is_shown(
    worker: WorkerView,
    session_path: Seq<char>,
    kind: PromptKind,
    message: Seq<char>,
    rest: Seq<(ClientAttentionType, ClientAttentionGroup)>,
    fields: Seq<PromptInputView>,
)
    requires
        is_next(worker, TaskView::Drain { session_path, kind, message, rest, fields }),
        !is_object_path(session_path) || rest.len() == 0,
    ensures
        becomes(
            worker,
            WorkerView {
                prompt: Some(PromptSpecView { session_path, kind, message, fields }),
                ..without_next(worker)
            },
        ),
{
}

/// A prompt that the machine closes is gone, and a line that it notes is in the log of
/// its session.
pub proof fn law_prompts_close_and_notes_are_written(
    worker: WorkerView,
    session_path: Seq<char>,
    message: Seq<char>,
)
    ensures
        is_next(worker, TaskView::Run(CommandView::ClosePrompt)) ==> becomes(
            worker,
            WorkerView { prompt: None, ..without_next(worker) },
        ),
        is_next(worker, TaskView::Run(CommandView::Note { session_path, message })) ==> becomes(
            worker,
            WorkerView {
                logs: worker.logs.noted(session_path, message),
                ..without_next(worker)
            },
        ),
{
}

/// A profile is renamed to what was typed without the blanks around it. A blank name, and
/// a profile that cannot be addressed, are refused with words in the menu.
pub proof fn law_renaming_asks_or_explains(
    worker: WorkerView,
    config_path: Seq<char>,
    new_name: Seq<char>,
)
    requires
        is_next(worker, TaskView::Ui(UiCommandView::RenameProfile { config_path, new_name })),
    ensures
        trimmed(new_name).len() == 0 ==> becomes(
            worker,
            WorkerView {
                unavailable: Some("A profile name cannot be empty."@),
                ..without_next(worker)
            },
        ),
        trimmed(new_name).len() > 0 && !is_object_path(config_path) ==> becomes(
            worker,
            WorkerView {
                unavailable: Some("That profile is no longer available."@),
                ..without_next(worker)
            },
        ),
        trimmed(new_name).len() > 0 && is_object_path(config_path) ==> asks_for(
            worker,
            CallView::Rename { config_path, new_name: trimmed(new_name) },
        ),
{
}

/// A profile that is not in use is deleted where it can be addressed. What is refused is
/// explained in the menu.
pub proof fn law_deleting_asks_or_explains(worker: WorkerView, config_path: Seq<char>)
    requires
        is_next(worker, TaskView::Ui(UiCommandView::DeleteProfile(config_path))),
    ensures
        worker.machine.active_config() == Some(config_path) ==> becomes(
            worker,
            WorkerView {
                unavailable: Some("Disconnect this profile before deleting it."@),
                ..without_next(worker)
            },
        ),
        worker.machine.active_config() != Some(config_path) && !is_object_path(config_path)
            ==> becomes(
            worker,
            WorkerView {
                unavailable: Some("That profile is no longer available."@),
                ..without_next(worker)
            },
        ),
        worker.machine.active_config() != Some(config_path) && is_object_path(config_path)
            ==> asks_for(worker, CallView::Remove { config_path }),
{
}

/// A profile that was renamed or deleted has the profiles listed again and clears what
/// the menu said. What openvpn3 refuses is explained in the menu.
pub proof fn law_changed_profiles_are_listed_again(
    worker: WorkerView,
    config_path: Seq<char>,
    new_name: Seq<char>,
    error: Seq<char>,
)
    requires
        is_object_path(config_path),
        trimmed(new_name).len() > 0,
        worker.machine.active_config() != Some(config_path),
    ensures
        ({
            let changed = WorkerView {
                unavailable: None,
                agenda: seq![TaskView::Refresh] + worker.agenda.drop_first(),
                ..worker
            };
            let gone = WorkerView {
                unavailable: Some("That profile is no longer available."@),
                ..without_next(worker)
            };
            &&& is_next(
                worker,
                TaskView::Ui(UiCommandView::RenameProfile { config_path, new_name }),
            ) ==> takes(worker, ReplyView::Done, changed) && takes(
                worker,
                ReplyView::Unreachable,
                gone,
            ) && takes(
                worker,
                ReplyView::Failed(error),
                WorkerView {
                    unavailable: Some("Could not rename: "@ + error),
                    ..without_next(worker)
                },
            )
            &&& is_next(worker, TaskView::Ui(UiCommandView::DeleteProfile(config_path))) ==> takes(
                worker,
                ReplyView::Done,
                changed,
            ) && takes(worker, ReplyView::Unreachable, gone) && takes(
                worker,
                ReplyView::Failed(error),
                WorkerView {
                    unavailable: Some("Could not delete: "@ + error),
                    ..without_next(worker)
                },
            )
        }),
{
}

/// The profiles are asked for when they are to be listed, and what comes back replaces
/// what the menu showed.
pub proof fn law_profiles_are_listed(
    worker: WorkerView,
    listed: Seq<ListedProfileView>,
    error: Seq<char>,
    installed: bool,
)
    requires
        is_next(worker, TaskView::Refresh),
    ensures
        asks_for(worker, CallView::ListProfiles),
        takes(
            worker,
            ReplyView::Profiles(listed),
            WorkerView {
                unavailable: None,
                profiles: sorted_by_name(labelled_all(listed)),
                profile_names: names_by_path(listed),
                ..without_next(worker)
            },
        ),
        takes(
            worker,
            ReplyView::ProfilesFailed { error, installed },
            WorkerView {
                unavailable: Some(
                    if installed {
                        "openvpn3 is installed but its services are not answering on the D-Bus system bus ("@
                            + error
                            + "). Try `openvpn3 configs-list` in a terminal — if that fails too, the openvpn3 services are not running."@
                    } else {
                        "openvpn3-linux is not installed.\n\nAdd OpenVPN's apt repository, then:\nsudo apt install openvpn3"@
                    },
                ),
                profiles: seq![],
                ..without_next(worker)
            },
        ),
{
}

/// A request to refresh has the profiles listed before anything else is done.
pub proof fn law_refreshing_lists_the_profiles(worker: WorkerView)
    requires
        is_next(worker, TaskView::Ui(UiCommandView::RefreshProfiles)),
    ensures
        becomes(
            worker,
            WorkerView {
                agenda: seq![TaskView::Refresh] + worker.agenda.drop_first(),
                ..worker
            },
        ),
{
}

/// A file is read, and what it holds is then imported under the file's own name. A file
/// that cannot be read is explained in the menu.
pub proof fn law_files_are_read_and_imported(
    worker: WorkerView,
    directories: Seq<char>,
    stem: Seq<char>,
    extension: Seq<char>,
    config: Seq<char>,
    error: Seq<char>,
)
    requires
        stem.len() > 0,
        !stem.contains('/'),
        !extension.contains('/'),
        !extension.contains('.'),
        stem != seq!['.'],
        is_next(
            worker,
            TaskView::Ui(
                UiCommandView::Import(directories + seq!['/'] + stem + seq!['.'] + extension),
            ),
        ),
    ensures
        ({
            let path = directories + seq!['/'] + stem + seq!['.'] + extension;
            let read = worker.step().after.resume(ReplyView::File(config))->0;
            &&& asks_for(worker, CallView::ReadFile { path })
            &&& worker.step().after.resume(ReplyView::File(config)) is Some
            &&& asks_for(
                read,
                CallView::Import { name: stem, config, single_use: false, persistent: true },
            )
            &&& without_next(read) == without_next(worker)
            &&& takes(
                read,
                ReplyView::Failed(error),
                WorkerView {
                    unavailable: Some("openvpn3 rejected "@ + stem + ": "@ + error),
                    ..without_next(worker)
                },
            )
            &&& takes(
                worker,
                ReplyView::Failed(error),
                WorkerView {
                    unavailable: Some("Could not read "@ + path + ": "@ + error),
                    ..without_next(worker)
                },
            )
        }),
{
    let path = directories + seq!['/'] + stem + seq!['.'] + extension;
    law_a_file_is_named_by_its_stem(path, directories, stem, extension);
    let read = worker.step().after.resume(ReplyView::File(config))->0;
    assert(read.agenda.drop_first() =~= worker.agenda.drop_first());
    assert(without_next(read) =~= without_next(worker));
}

/// A path that names no file is imported under a name of its own.
pub proof fn law_nameless_files_are_imported(
    worker: WorkerView,
    path: Seq<char>,
    config: Seq<char>,
)
    requires
        is_next(worker, TaskView::Ui(UiCommandView::Import(path))),
        base_name(path) is None,
    ensures
        asks_for(worker, CallView::ReadFile { path }),
        takes(
            worker,
            ReplyView::File(config),
            WorkerView {
                agenda: seq![TaskView::Import { name: "imported"@, config }]
                    + worker.agenda.drop_first(),
                ..worker
            },
        ),
{
}

/// An imported profile clears what the menu said and has the profiles listed again;
/// without an answer nothing comes of it.
pub proof fn law_imported_profiles_are_listed(
    worker: WorkerView,
    name: Seq<char>,
    config: Seq<char>,
    error: Seq<char>,
)
    requires
        is_next(worker, TaskView::Import { name, config }),
    ensures
        asks_for(
            worker,
            CallView::Import { name, config, single_use: false, persistent: true },
        ),
        takes(
            worker,
            ReplyView::Done,
            WorkerView {
                unavailable: None,
                agenda: seq![TaskView::Refresh] + worker.agenda.drop_first(),
                ..worker
            },
        ),
        takes(
            worker,
            ReplyView::Failed(error),
            WorkerView {
                unavailable: Some("openvpn3 rejected "@ + name + ": "@ + error),
                ..without_next(worker)
            },
        ),
        takes(worker, ReplyView::Unreachable, without_next(worker)),
{
}

/// The sessions that are there are looked at in turn, from the first.
pub proof fn law_sessions_are_looked_at_in_turn(worker: WorkerView, paths: Seq<Seq<char>>)
    ensures
        is_next(worker, TaskView::Adopt) ==> asks_for(worker, CallView::ListSessions) && takes(
            worker,
            ReplyView::Sessions(paths),
            WorkerView {
                agenda: seq![TaskView::Probe { rest: paths }] + worker.agenda.drop_first(),
                ..worker
            },
        ) && takes(worker, ReplyView::Unreachable, without_next(worker)),
        is_next(worker, TaskView::Probe { rest: paths }) && paths.len() == 0 ==> becomes(
            worker,
            without_next(worker),
        ),
        is_next(worker, TaskView::Probe { rest: paths }) && paths.len() > 0 ==> asks_for(
            worker,
            CallView::ReadStatus { session_path: paths[0] },
        ),
{
}

/// A session whose status is known is asked where it is from. One whose status is not, or
/// that does not answer, is passed over for the next.
pub proof fn law_the_first_known_session_is_taken(
    worker: WorkerView,
    paths: Seq<Seq<char>>,
    status: StatusView,
    major: u32,
    minor: u32,
    message: Seq<char>,
)
    requires
        is_next(worker, TaskView::Probe { rest: paths }),
        paths.len() > 0,
    ensures
        takes(
            worker,
            ReplyView::Status {
                major: status.major.wire() as u32,
                minor: status.minor.wire() as u32,
                message: status.message,
            },
            WorkerView {
                agenda: seq![TaskView::ReadOrigin { session_path: paths[0], status }]
                    + worker.agenda.drop_first(),
                ..worker
            },
        ),
        wire_status(major, minor, message) is Err ==> takes(
            worker,
            ReplyView::Status { major, minor, message },
            WorkerView {
                agenda: seq![TaskView::Probe { rest: paths.drop_first() }]
                    + worker.agenda.drop_first(),
                ..worker
            },
        ),
        takes(
            worker,
            ReplyView::Unreachable,
            WorkerView {
                agenda: seq![TaskView::Probe { rest: paths.drop_first() }]
                    + worker.agenda.drop_first(),
                ..worker
            },
        ),
{
    law_bus_statuses_round_trip(status, major, minor, message);
}

/// A session from elsewhere is heard of with its profile, or none where that could not be
/// read, and its status; it is dated as openvpn3 says, is the one logged, and its signals
/// are followed.
pub proof fn law_sessions_from_elsewhere_are_adopted(
    worker: WorkerView,
    session_path: Seq<char>,
    status: StatusView,
    config_path: Option<Seq<char>>,
    created: Option<u64>,
)
    requires
        is_next(worker, TaskView::ReadOrigin { session_path, status }),
    ensures
        asks_for(worker, CallView::ReadOrigin { session_path }),
        takes(
            worker,
            ReplyView::Origin { config_path, created },
            heard(
                WorkerView {
                    session_created: created,
                    logs: worker.logs.adopted(session_path),
                    agenda: seq![TaskView::Subscribe { session_path }]
                        + worker.agenda.drop_first(),
                    ..worker
                },
                EventView::ExternalSessionSeen {
                    session_path,
                    config_path: match config_path {
                        Some(path) => path,
                        None => seq![],
                    },
                    status,
                },
            ),
        ),
{
    let followed = WorkerView {
        session_created: created,
        logs: worker.logs.adopted(session_path),
        agenda: seq![TaskView::Subscribe { session_path }] + worker.agenda.drop_first(),
        ..worker
    };
    law_the_machine_is_served_first(
        followed,
        EventView::ExternalSessionSeen {
            session_path,
            config_path: match config_path {
                Some(path) => path,
                None => seq![],
            },
            status,
        },
    );
}

/// Signals are followed where they come from, and nothing else comes of it.
pub proof fn law_signals_are_followed(worker: WorkerView, session_path: Seq<char>)
    ensures
        is_next(worker, TaskView::Subscribe { session_path }) ==> asks_for(
            worker,
            CallView::Subscribe { session_path },
        ) && takes(worker, ReplyView::Done, without_next(worker)),
        is_next(worker, TaskView::Watch) ==> asks_for(worker, CallView::WatchSessions) && takes(
            worker,
            ReplyView::Done,
            without_next(worker),
        ),
{
}

/// A teardown is held against the sessions that are there: one that is no longer among
/// them is gone, and one that still is, or an answer that does not come, changes nothing.
pub proof fn law_teardowns_are_held_against_the_sessions(
    worker: WorkerView,
    paths: Seq<Seq<char>>,
)
    requires
        is_next(worker, TaskView::ReconcileTeardown),
    ensures
        worker.machine.awaiting_teardown is None ==> becomes(worker, without_next(worker)),
        worker.machine.awaiting_teardown matches Some(session_path) ==> asks_for(
            worker,
            CallView::ListSessions,
        ) && takes(worker, ReplyView::Unreachable, without_next(worker)) && takes(
            worker,
            ReplyView::Sessions(paths),
            if paths.contains(session_path) {
                without_next(worker)
            } else {
                WorkerView {
                    logs: worker.logs.removed(session_path),
                    ..heard(without_next(worker), EventView::SessionRemoved { session_path })
                }
            },
        ),
{
    if let Some(session_path) = worker.machine.awaiting_teardown {
        law_the_machine_is_served_first(
            WorkerView { logs: worker.logs.removed(session_path), ..without_next(worker) },
            EventView::SessionRemoved { session_path },
        );
    }
}

/// The display is held against the status of the session in use, where it can be
/// addressed. A status that is not known, or an answer that does not come, changes
/// nothing.
pub proof fn law_the_display_is_held_against_the_status(
    worker: WorkerView,
    status: StatusView,
    major: u32,
    minor: u32,
    message: Seq<char>,
)
    requires
        is_next(worker, TaskView::ReconcileActive),
    ensures
        worker.machine.active is None ==> becomes(worker, without_next(worker)),
        worker.machine.active is Some && !is_object_path(worker.machine.active->0.session_path)
            ==> becomes(worker, without_next(worker)),
        worker.machine.active is Some && is_object_path(worker.machine.active->0.session_path) ==> {
            let session_path = worker.machine.active->0.session_path;
            &&& asks_for(worker, CallView::ReadStatus { session_path })
            &&& takes(worker, ReplyView::Unreachable, without_next(worker))
            &&& wire_status(major, minor, message) is Err ==> takes(
                worker,
                ReplyView::Status { major, minor, message },
                without_next(worker),
            )
            &&& takes(
                worker,
                ReplyView::Status {
                    major: status.major.wire() as u32,
                    minor: status.minor.wire() as u32,
                    message: status.message,
                },
                WorkerView {
                    agenda: seq![TaskView::ReadCreated { session_path, status }]
                        + worker.agenda.drop_first(),
                    ..worker
                },
            )
        },
{
    law_bus_statuses_round_trip(status, major, minor, message);
}

/// The status of the session in use is heard once it is known when the session was
/// created. Where that could not be read, what was known of it stays.
pub proof fn law_a_read_status_is_heard(
    worker: WorkerView,
    session_path: Seq<char>,
    status: StatusView,
    created: u64,
)
    requires
        is_next(worker, TaskView::ReadCreated { session_path, status }),
    ensures
        asks_for(worker, CallView::ReadCreated { session_path }),
        takes(
            worker,
            ReplyView::Created(Some(created)),
            WorkerView {
                session_created: Some(created),
                ..heard(without_next(worker), EventView::StatusChanged { session_path, status })
            },
        ),
        takes(
            worker,
            ReplyView::Created(None),
            heard(without_next(worker), EventView::StatusChanged { session_path, status }),
        ),
{
    let rest = without_next(worker);
    let event = EventView::StatusChanged { session_path, status };
    law_the_machine_is_served_first(rest, event);
    law_the_machine_is_served_first(WorkerView { session_created: Some(created), ..rest }, event);
}

/// Every answer that was refused is explained in the log of its session, in their order;
/// the rest of the worker stays as it was.
pub proof fn law_refused_answers_are_explained(
    worker: WorkerView,
    session_path: Seq<char>,
    responses: Seq<InputResponseView>,
    errors: Seq<Seq<char>>,
)
    requires
        is_next(worker, TaskView::Run(CommandView::ProvideInput { session_path, responses })),
        is_object_path(session_path),
    ensures
        worker.step().after.resume(ReplyView::Failures(errors)) is Some,
        ({
            let after = worker.step().after.resume(ReplyView::Failures(errors))->0;
            &&& after == (WorkerView { logs: after.logs, ..without_next(worker) })
            &&& errors.len() == 0 ==> after.logs == worker.logs
            &&& errors.len() > 0 ==> after.logs == with_failures(
                worker.logs.noted(session_path, "Submitting credentials failed: "@ + errors[0]),
                session_path,
                errors.drop_first(),
            )
        }),
        takes(worker, ReplyView::Unreachable, without_next(worker)),
{
    if errors.len() > 0 {
        lemma_first_failure(worker.logs, session_path, errors);
    }
}

/// The first failure is noted before the others.
proof fn lemma_first_failure(
    logs: LogStoreView,
    session_path: Seq<char>,
    errors: Seq<Seq<char>>,
)
    requires
        errors.len() > 0,
    ensures
        with_failures(logs, session_path, errors) == with_failures(
            logs.noted(session_path, "Submitting credentials failed: "@ + errors[0]),
            session_path,
            errors.drop_first(),
        ),
    decreases errors.len(),
{
    let noted = logs.noted(session_path, "Submitting credentials failed: "@ + errors[0]);
    if errors.len() == 1 {
        assert(errors.drop_last() =~= seq![]);
        assert(errors.drop_first() =~= seq![]);
        assert(errors.last() == errors[0]);
        reveal_with_fuel(with_failures, 2);
    } else {
        lemma_first_failure(logs, session_path, errors.drop_last());
        assert(errors.drop_last()[0] == errors[0]);
        assert(errors.drop_last().drop_first() =~= errors.drop_first().drop_last());
        assert(errors.drop_first().last() == errors.last());
        assert(with_failures(noted, session_path, errors.drop_first()) == with_failures(
            noted,
            session_path,
            errors.drop_first().drop_last(),
        ).noted(session_path, "Submitting credentials failed: "@ + errors.last()));
    }
}

/// A request from the panel is served after everything that is left to do. One that acts
/// on what the panel showed is served once that is held against what openvpn3 says.
pub proof fn law_requests_are_served_in_turn(worker: WorkerView, command: UiCommandView)
    ensures
        ({
            let after = worker.later(ui_tasks(command));
            let served = seq![TaskView::Ui(command)];
            let checked = seq![
                TaskView::ReconcileTeardown,
                TaskView::ReconcileActive,
                TaskView::Ui(command),
            ];
            &&& after == (WorkerView { agenda: after.agenda, ..worker })
            &&& command is SelectProfile || command is Disconnect || command is RefreshProfiles
                ==> after.agenda == worker.agenda + checked
            &&& command is SubmitPrompt || command is CancelPrompt || command is Import || command
                is RenameProfile || command is DeleteProfile || command is DismissFailure
                ==> after.agenda == worker.agenda + served
        }),
{
}

/// While a session is going away or connecting, the timer has the display held against
/// what openvpn3 says; otherwise it changes nothing.
pub proof fn law_the_timer_settles_the_display(worker: WorkerView)
    ensures
        worker.in_flight() <==> worker.machine.awaiting_teardown is Some || worker.machine.state
            == ConnectionState::Connecting,
        worker.machine.awaiting_teardown is Some || worker.machine.state
            == ConnectionState::Connecting ==> worker.settling() == (WorkerView {
            agenda: worker.agenda + seq![TaskView::ReconcileTeardown, TaskView::ReconcileActive],
            ..worker
        }),
        worker.machine.awaiting_teardown is None && worker.machine.state
            != ConnectionState::Connecting ==> worker.settling() == worker,
{
}

/// A worker starts out with nothing but the profiles, the sessions and the session
/// manager to see to, in this order.
pub proof fn law_a_worker_starts_out_looking()
    ensures
        ({
            let worker = WorkerView::initial();
            &&& worker.machine == MachineView::initial()
            &&& worker.profiles.len() == 0
            &&& worker.profile_names == Map::<Seq<char>, Seq<char>>::empty()
            &&& worker.prompt is None
            &&& worker.status_message.len() == 0
            &&& worker.unavailable is None
            &&& worker.session_created is None
            &&& worker.waiting is None
            &&& worker.agenda == seq![TaskView::Refresh, TaskView::Adopt, TaskView::Watch]
            &&& worker.logs.capacity == 1000
            &&& worker.logs.most_recent is None
            &&& worker.logs.retained is None
            &&& worker.logs.buffers == Map::<Seq<char>, Seq<LogEntryView>>::empty()
        }),
{
}

/// A worker with nothing to do and no call out rests as it is.
pub proof fn law_an_idle_worker_rests(worker: WorkerView)
    requires
        worker.waiting is None,
        worker.agenda.len() == 0,
    ensures
        worker.step().progress is Idle,
        worker.step().after == worker,
{
}

/// The answers that a call takes. Any other leaves the call out.
pub open spec fn fits(wait: WaitView, reply: ReplyView) -> bool {
    match wait {
        WaitView::Profiles => reply is Profiles || reply is ProfilesFailed,
        WaitView::AdoptList | WaitView::TeardownList { .. } => reply is Sessions || reply
            is Unreachable,
        WaitView::ProbeStatus { .. } | WaitView::ActiveStatus { .. } => reply is Status || reply
            is Unreachable,
        WaitView::Origin { .. } => reply is Origin,
        WaitView::Acknowledged => reply is Done,
        WaitView::ActiveCreated { .. } => reply is Created,
        WaitView::Tunnel { .. } => reply is Tunnel || reply is Failed || reply is Unreachable,
        WaitView::Drain { .. } => reply is Items || reply is Unreachable,
        WaitView::Provide { .. } => reply is Failures || reply is Unreachable,
        WaitView::Queue { .. } => reply is Queue || reply is Unreachable,
        WaitView::File { .. } => reply is File || reply is Failed,
        _ => reply is Done || reply is Failed || reply is Unreachable,
    }
}

/// A call takes exactly the answers that fit it.
pub proof fn law_only_fitting_answers_are_taken(worker: WorkerView, reply: ReplyView)
    ensures
        worker.resume(reply) is Some <==> worker.waiting is Some && fits(worker.waiting->0, reply),
{
}

/// What the panel is shown is what the worker knows.
pub proof fn law_the_panel_shows_what_is_known(worker: WorkerView)
    ensures
        ({
            let shown = worker.snapshot();
            &&& shown.state == worker.machine.state
            &&& shown.profiles == worker.profiles
            &&& shown.session_created == worker.session_created
            &&& shown.status_message == worker.status_message
            &&& shown.prompt == worker.prompt
            &&& shown.unavailable == worker.unavailable
            &&& worker.machine.active is None ==> shown.active_config is None && shown.active_name
                is None
            &&& worker.machine.active is Some ==> shown.active_config == Some(
                worker.machine.active->0.config_path,
            )
            &&& worker.machine.active is Some && worker.profile_names.dom().contains(
                worker.machine.active->0.config_path,
            ) ==> shown.active_name == Some(
                worker.profile_names[worker.machine.active->0.config_path],
            )
            &&& worker.machine.active is Some && !worker.profile_names.dom().contains(
                worker.machine.active->0.config_path,
            ) ==> shown.active_name is None
        }),
{
}

/// The log that the panel is shown holds the text of each captured line, in their order,
/// and is missing exactly where none is captured.
pub proof fn law_the_panel_shows_the_captured_log(worker: WorkerView, i: int)
    ensures
        worker.snapshot().log is Some <==> worker.logs.shown() is Captured,
        worker.logs.shown() is Captured ==> worker.snapshot().log->0.len()
            == worker.logs.shown()->entries.len(),
        worker.logs.shown() is Captured && 0 <= i < worker.logs.shown()->entries.len()
            ==> worker.snapshot().log->0[i] == worker.logs.shown()->entries[i].message,
{
}

/// What is wanted is asked for in the order of the queue.
pub proof fn law_wishes_keep_their_order(a: Seq<(u32, u32)>, b: Seq<(u32, u32)>)
    ensures
        decoded_requests(a + b) == decoded_requests(a) + decoded_requests(b),
    decreases b.len(),
{
    if b.len() == 0 {
        assert(a + b =~= a);
    } else {
        law_wishes_keep_their_order(a, b.drop_last());
        assert((a + b).drop_last() =~= a + b.drop_last());
        assert((a + b).last() == b.last());
    }
}

/// A wish is asked for as what its numbers stand for; one whose numbers stand for nothing
/// is left out.
pub proof fn law_a_wish_is_asked_for_as_it_is(
    type_: u32,
    group: u32,
    known_type: ClientAttentionType,
    known_group: ClientAttentionGroup,
)
    ensures
        type_ == known_type.wire() && group == known_group.wire() ==> decoded_requests(
            seq![(type_, group)],
        ) == seq![(known_type, known_group)],
        decoded_pair(type_, group) is None ==> decoded_requests(seq![(type_, group)]).len() == 0,
{
    reveal_with_fuel(decoded_requests, 2);
    law_numbers_stand_for_one_request(type_, group, known_type, known_group);
    assert(seq![(type_, group)].drop_last() =~= seq![]);
}

/// The fields of a queue stand in the order of its items.
pub proof fn law_fields_keep_their_order(
    type_: ClientAttentionType,
    group: ClientAttentionGroup,
    a: Seq<Option<QueueItemView>>,
    b: Seq<Option<QueueItemView>>,
)
    ensures
        queue_fields(type_, group, a + b) == queue_fields(type_, group, a) + queue_fields(
            type_,
            group,
            b,
        ),
    decreases b.len(),
{
    if b.len() == 0 {
        assert(a + b =~= a);
    } else {
        law_fields_keep_their_order(type_, group, a, b.drop_last());
        assert((a + b).drop_last() =~= a + b.drop_last());
        assert((a + b).last() == b.last());
    }
}

/// Each item that was fetched is one field, with its own id, name and secrecy, whose
/// answer goes to the queue that the item was in. One that was not fetched is none.
pub proof fn law_each_item_is_one_field(
    type_: ClientAttentionType,
    group: ClientAttentionGroup,
    item: QueueItemView,
)
    ensures
        queue_fields(type_, group, seq![None]).len() == 0,
        ({
            let fields = queue_fields(type_, group, seq![Some(item)]);
            &&& fields.len() == 1
            &&& fields[0].type_ == type_
            &&& fields[0].group == group
            &&& fields[0].field.id == item.id
            &&& fields[0].field.name == item.name
            &&& fields[0].field.masked == item.hidden_input
            &&& fields[0].field.label == if trimmed(item.description).len() > 0 {
                item.description
            } else {
                item.name
            }
        }),
{
    reveal_with_fuel(queue_fields, 2);
    assert(seq![Some(item)].drop_last() =~= seq![]);
    assert(seq![None::<QueueItemView>].drop_last() =~= seq![]);
    law_fields_ask_for_their_item(item.id, item.name, item.description, item.hidden_input);
    law_blank_text_trims_to_nothing(item.description);
}

} // verus!

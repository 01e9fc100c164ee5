//! What holds of the worker's log whatever happens: the log that the panel shows
//! is that of the session in use, so a reason written there is there to be read.

use crate::agenda::{runs, TaskView, WaitView};
use crate::attention::{prompt_for, refusal, ClientAttentionGroup, ClientAttentionType};
use crate::calls::{CallView, ReplyView};
use crate::dbus::{UiCommandView, WireView};
use crate::logbuf::{appended, law_notes_are_kept, note_entry, LogEntryView, LogStoreView};
use crate::machine::{first_refusal, CommandView, EventView, MachineView};
use crate::machine_laws::law_signals_and_queues_ask_alike;
use crate::object_path::is_object_path;
use crate::status::{ConnectionState, StatusView};
use crate::worker_laws::{
    calm, free, history, law_a_step_keeps_to_one_session,
    law_an_answer_keeps_to_one_session, law_requests_and_signals_keep_to_one_session,
    law_the_machine_is_served_first, none_starts, single, starts, Happening,
};
use crate::worker_model::{
    decoded_pair, decoded_requests, messages, queue_fields, request_text, ui_tasks, with_failures,
    ProgressView, WorkerView,
};
use vstd::prelude::*;

verus! {

/// The task looks for a session to adopt.
pub open spec fn adopts(task: TaskView) -> bool {
    task is Adopt || task is Probe || task is ReadOrigin
}

/// None of the tasks looks for a session to adopt.
pub open spec fn none_adopts(agenda: Seq<TaskView>) -> bool {
    forall|i: int| 0 <= i < agenda.len() ==> !adopts(#[trigger] agenda[i])
}

/// The call that is out looks for a session to adopt.
pub open spec fn awaits_adoption(worker: WorkerView) -> bool {
    worker.waiting matches Some(wait) && (wait is AdoptList || wait is ProbeStatus || wait
        is Origin)
}

/// Nothing looks for a session to adopt.
pub open spec fn looks_no_more(worker: WorkerView) -> bool {
    none_adopts(worker.agenda) && !awaits_adoption(worker)
}

/// A session to adopt is looked for, before anything else happens.
pub open spec fn looks_first(worker: WorkerView) -> bool {
    &&& free(worker.machine)
    &&& calm(worker)
    &&& {
        ||| awaits_adoption(worker) && none_adopts(worker.agenda)
        ||| (worker.waiting is None || worker.waiting == Some(WaitView::Profiles))
            && worker.agenda.len() > 0 && adopts(worker.agenda[0]) && none_adopts(
            worker.agenda.skip(1),
        )
        ||| worker.waiting is None && worker.agenda.len() > 1 && worker.agenda[0] is Refresh
            && adopts(worker.agenda[1]) && none_adopts(worker.agenda.skip(2))
    }
}

/// The session in use, and one that the machine is about to hear of, is the one
/// whose log is shown.
pub open spec fn shows_its_own(worker: WorkerView) -> bool {
    &&& worker.machine.active is Some ==> worker.logs.most_recent
        == worker.machine.active_session()
    &&& forall|i: int|
        0 <= i < worker.agenda.len() && (#[trigger] worker.agenda[i]) is Created
            ==> worker.logs.most_recent == Some(worker.agenda[i]->Created_session_path)
}

/// What every worker keeps about its log.
pub open spec fn logged(worker: WorkerView) -> bool {
    &&& single(worker)
    &&& worker.logs.bounded()
    &&& shows_its_own(worker)
    &&& looks_no_more(worker) || looks_first(worker)
}

/// What the log keeps to whatever is written to it.
proof fn lemma_log_stays_bounded(
    logs: LogStoreView,
    path: Seq<char>,
    entry: LogEntryView,
    message: Seq<char>,
)
    requires
        logs.bounded(),
    ensures
        logs.begun(path).bounded(),
        logs.adopted(path).bounded(),
        logs.pushed(path, entry).bounded(),
        logs.noted(path, message).bounded(),
        logs.removed(path).bounded(),
{
}

proof fn lemma_failures_stay_bounded(
    logs: LogStoreView,
    session_path: Seq<char>,
    errors: Seq<Seq<char>>,
)
    requires
        logs.bounded(),
    ensures
        with_failures(logs, session_path, errors).bounded(),
        logs.most_recent is Some ==> with_failures(logs, session_path, errors).most_recent
            == logs.most_recent,
    decreases errors.len(),
{
    if errors.len() > 0 {
        lemma_failures_stay_bounded(logs, session_path, errors.drop_last());
        lemma_log_stays_bounded(
            with_failures(logs, session_path, errors.drop_last()),
            session_path,
            note_entry(seq![]),
            "Submitting credentials failed: "@ + errors.last(),
        );
    }
}

/// The session in use changes only to one that an event is about.
proof fn lemma_active_after(machine: MachineView, event: EventView)
    ensures
        ({
            let after = machine.step(event).after.active;
            ||| after is None
            ||| after == machine.active
            ||| event matches EventView::SessionCreated { session_path, .. }
                && after->0.session_path == session_path
            ||| event matches EventView::ExternalSessionSeen { session_path, .. }
                && after->0.session_path == session_path
        }),
{
}

/// The log keeps to its bound and is that of the session in use, and nothing looks
/// for a session to adopt.
spec fn settled_log(worker: WorkerView) -> bool {
    worker.logs.bounded() && shows_its_own(worker) && looks_no_more(worker)
}

proof fn lemma_dispatched_logged(worker: WorkerView, event: EventView)
    requires
        worker.waiting is None,
        none_starts(worker.agenda),
        settled_log(worker),
        event matches EventView::SessionCreated { session_path, .. } ==> worker.logs.most_recent
            == Some(session_path),
        event matches EventView::ExternalSessionSeen { session_path, .. }
            ==> worker.logs.most_recent == Some(session_path),
    ensures
        settled_log(worker.dispatched(event)),
{
    law_the_machine_is_served_first(worker, event);
    lemma_active_after(worker.machine, event);
    let tasks = runs(worker.machine.step(event).commands);
    let agenda = worker.dispatched(event).agenda;
    assert forall|i: int| 0 <= i < agenda.len() implies !((#[trigger] agenda[i]) is Created)
        && !adopts(agenda[i]) by {
        if i >= tasks.len() {
            assert(!starts(worker.agenda[i - tasks.len()]));
            assert(!adopts(worker.agenda[i - tasks.len()]));
        }
    }
}

proof fn lemma_noted_logged(worker: WorkerView, path: Seq<char>, message: Seq<char>)
    requires
        none_starts(worker.agenda),
        settled_log(worker),
    ensures
        settled_log(worker.noted(path, message)),
{
    lemma_log_stays_bounded(worker.logs, path, note_entry(seq![]), message);
}

proof fn lemma_first_logged(worker: WorkerView, task: TaskView)
    requires
        none_starts(worker.agenda),
        settled_log(worker),
        !starts(task),
        !adopts(task),
    ensures
        settled_log(worker.first(task)),
{
    let agenda = worker.first(task).agenda;
    assert forall|i: int| 0 <= i < agenda.len() implies !((#[trigger] agenda[i]) is Created)
        && !adopts(agenda[i]) by {
        if i > 0 {
            assert(!starts(worker.agenda[i - 1]));
            assert(!adopts(worker.agenda[i - 1]));
        }
    }
}

proof fn lemma_ui_logged(worker: WorkerView, command: UiCommandView)
    requires
        worker.waiting is None,
        none_starts(worker.agenda),
        settled_log(worker),
    ensures
        settled_log(worker.begin_ui(command).after),
{
    match command {
        UiCommandView::SelectProfile(config_path) => {
            lemma_dispatched_logged(worker, EventView::ProfileSelected { config_path });
        },
        UiCommandView::Disconnect => {
            lemma_dispatched_logged(worker, EventView::DisconnectRequested);
        },
        UiCommandView::DismissFailure => {
            lemma_dispatched_logged(worker, EventView::FailureDismissed);
        },
        UiCommandView::CancelPrompt => {
            if let Some(prompt) = worker.prompt {
                lemma_dispatched_logged(
                    worker,
                    EventView::PromptCancelled { session_path: prompt.session_path },
                );
            }
        },
        UiCommandView::SubmitPrompt(responses) => {
            if let Some(prompt) = worker.prompt {
                lemma_dispatched_logged(
                    worker,
                    EventView::PromptSubmitted { session_path: prompt.session_path, responses },
                );
            }
        },
        UiCommandView::RefreshProfiles => {
            lemma_first_logged(worker, TaskView::Refresh);
        },
        _ => {},
    }
}

proof fn lemma_wire_logged(worker: WorkerView, wire: WireView)
    requires
        worker.waiting is None,
        none_starts(worker.agenda),
        settled_log(worker),
    ensures
        settled_log(worker.begin_wire(wire)),
{
    match wire {
        WireView::Status { session, status } => {
            lemma_dispatched_logged(
                WorkerView { status_message: status.message, ..worker },
                EventView::StatusChanged { session_path: session, status },
            );
        },
        WireView::Attention { session, type_, group, message } => {
            match decoded_pair(type_, group) {
                Some((type_, group)) => {
                    lemma_dispatched_logged(
                        worker,
                        EventView::AttentionRequired {
                            session_path: session,
                            type_,
                            group,
                            message,
                        },
                    );
                },
                None => {
                    lemma_noted_logged(
                        worker,
                        session,
                        request_text("Unrecognised input request from openvpn3: "@, type_, group),
                    );
                },
            }
        },
        WireView::Log { session, entry } => {
            lemma_log_stays_bounded(worker.logs, session, entry, seq![]);
        },
        WireView::SessionManager { path, removed } => {
            lemma_log_stays_bounded(worker.logs, path, note_entry(seq![]), seq![]);
            lemma_dispatched_logged(
                WorkerView { logs: worker.logs.removed(path), ..worker },
                EventView::SessionRemoved { session_path: path },
            );
        },
    }
}

proof fn lemma_run_logged(worker: WorkerView, command: CommandView)
    requires
        worker.waiting is None,
        none_starts(worker.agenda),
        settled_log(worker),
    ensures
        settled_log(worker.begin_run(command).after),
{
    match command {
        CommandView::OpenPrompt { session_path, kind, requests, message } => {
            lemma_first_logged(
                worker,
                TaskView::Drain { session_path, kind, message, rest: requests, fields: seq![] },
            );
        },
        CommandView::Note { session_path, message } => {
            lemma_noted_logged(worker, session_path, message);
        },
        _ => {},
    }
}

/// A piece of work that looks for no session to adopt leaves the log that of the
/// session in use.
proof fn lemma_begun_logged(worker: WorkerView, task: TaskView)
    requires
        worker.waiting is None,
        none_starts(worker.agenda),
        settled_log(worker),
        !adopts(task),
        task matches TaskView::Created { session_path, .. } ==> worker.logs.most_recent == Some(
            session_path,
        ),
    ensures
        settled_log(worker.begin(task).after),
{
    match task {
        TaskView::Ui(command) => lemma_ui_logged(worker, command),
        TaskView::Wire(wire) => lemma_wire_logged(worker, wire),
        TaskView::Run(command) => lemma_run_logged(worker, command),
        TaskView::Created { session_path, config_path } => {
            lemma_dispatched_logged(
                worker,
                EventView::SessionCreated { session_path, config_path },
            );
        },
        _ => {},
    }
}

/// Whatever a step does, the log that is shown stays that of the session in use.
proof fn lemma_step_logged(worker: WorkerView)
    requires
        logged(worker),
    ensures
        logged(worker.step().after),
{
    law_a_step_keeps_to_one_session(worker);
    if worker.waiting is None && worker.agenda.len() > 0 {
        let task = worker.agenda.first();
        let rest = WorkerView { agenda: worker.agenda.drop_first(), ..worker };
        assert(rest.agenda =~= worker.agenda.skip(1));
        assert(shows_its_own(rest)) by {
            assert forall|i: int|
                0 <= i < rest.agenda.len() && (#[trigger] rest.agenda[i]) is Created implies
                rest.logs.most_recent == Some(rest.agenda[i]->Created_session_path) by {
                assert(worker.agenda[i + 1] is Created);
            }
        }
        if looks_no_more(worker) {
            assert(none_adopts(rest.agenda));
            if worker.agenda[0] is Subscribe {
            } else {
                assert(task is Created ==> worker.agenda[0] is Created);
                lemma_begun_logged(rest, task);
            }
        } else if worker.agenda.len() > 1 && worker.agenda[0] is Refresh && adopts(
            worker.agenda[1],
        ) && none_adopts(worker.agenda.skip(2)) {
            assert(rest.agenda.skip(1) =~= worker.agenda.skip(2));
        }
    }
}

/// Whatever is answered, the log that is shown stays that of the session in use.
proof fn lemma_answer_logged(worker: WorkerView, reply: ReplyView)
    requires
        logged(worker),
        worker.resume(reply) is Some,
    ensures
        logged(worker.resume(reply)->0),
{
    law_an_answer_keeps_to_one_session(worker, reply);
    let wait = worker.waiting->0;
    let rest = WorkerView { waiting: None, ..worker };
    let after = worker.resume(reply)->0;
    match wait {
        WaitView::Acknowledged => {},
        WaitView::Profiles => {},
        WaitView::AdoptList => {
            assert(after.agenda.skip(1) =~= after.agenda.drop_first());
            if reply is Sessions {
                assert(after.agenda.skip(1) =~= worker.agenda);
            }
        },
        WaitView::ProbeStatus { .. } => {
            assert(after.agenda.skip(1) =~= worker.agenda);
        },
        WaitView::Origin { session_path, status } => {
            let created = reply->Origin_created;
            let noted = WorkerView {
                session_created: created,
                logs: rest.logs.adopted(session_path),
                ..rest
            };
            lemma_log_stays_bounded(rest.logs, session_path, note_entry(seq![]), seq![]);
            let followed = noted.first(TaskView::Subscribe { session_path });
            lemma_first_logged(noted, TaskView::Subscribe { session_path });
            lemma_none_starts_first(noted, TaskView::Subscribe { session_path });
            lemma_dispatched_logged(
                followed,
                EventView::ExternalSessionSeen {
                    session_path,
                    config_path: match reply->Origin_config_path {
                        Some(path) => path,
                        None => seq![],
                    },
                    status,
                },
            );
        },
        WaitView::Tunnel { config_path } => {
            lemma_log_stays_bounded(rest.logs, config_path, note_entry(seq![]), seq![]);
            match reply {
                ReplyView::Tunnel { session_path, now } => {
                    lemma_log_stays_bounded(rest.logs, session_path, note_entry(seq![]), seq![]);
                    assert forall|i: int| 0 <= i < after.agenda.len() implies {
                        &&& !adopts(#[trigger] after.agenda[i])
                        &&& after.agenda[i] is Created ==> i == 1
                    } by {
                        if i >= 2 {
                            assert(after.agenda[i] == worker.agenda[i - 2]);
                            assert(!starts(worker.agenda[i - 2]));
                        }
                    }
                },
                ReplyView::Failed(error) => {
                    lemma_noted_logged(
                        rest,
                        config_path,
                        "Could not start session: "@ + error,
                    );
                },
                _ => {},
            }
        },
        _ => {
            assert(none_starts(rest.agenda));
            lemma_other_answer_logged(rest, wait, reply);
        },
    }
}

proof fn lemma_none_starts_first(worker: WorkerView, task: TaskView)
    requires
        none_starts(worker.agenda),
        !starts(task),
    ensures
        none_starts(worker.first(task).agenda),
{
    let agenda = worker.first(task).agenda;
    assert forall|i: int| 0 <= i < agenda.len() implies !starts(#[trigger] agenda[i]) by {
        if i > 0 {
            assert(!starts(worker.agenda[i - 1]));
        }
    }
}

/// Answers to calls that start no session and look for none.
proof fn lemma_other_answer_logged(worker: WorkerView, wait: WaitView, reply: ReplyView)
    requires
        worker.waiting is None,
        none_starts(worker.agenda),
        settled_log(worker),
        worker.answered(wait, reply) is Some,
        !(wait is AdoptList || wait is ProbeStatus || wait is Origin || wait is Tunnel),
    ensures
        settled_log(worker.answered(wait, reply)->0),
{
    match wait {
        WaitView::TeardownList { session_path } => {
            lemma_log_stays_bounded(worker.logs, session_path, note_entry(seq![]), seq![]);
            lemma_dispatched_logged(
                WorkerView { logs: worker.logs.removed(session_path), ..worker },
                EventView::SessionRemoved { session_path },
            );
        },
        WaitView::ActiveStatus { session_path } => {
            assert forall|status: StatusView|
                settled_log(
                    #[trigger] worker.first(TaskView::ReadCreated { session_path, status }),
                ) by {
                lemma_first_logged(worker, TaskView::ReadCreated { session_path, status });
            }
        },
        WaitView::ActiveCreated { session_path, status } => {
            let dated = WorkerView {
                session_created: if reply->Created_0 is Some {
                    reply->Created_0
                } else {
                    worker.session_created
                },
                ..worker
            };
            lemma_dispatched_logged(dated, EventView::StatusChanged { session_path, status });
        },
        WaitView::LogForward { session_path } => {
            if let ReplyView::Failed(error) = reply {
                lemma_noted_logged(
                    worker,
                    session_path,
                    "Log forwarding unavailable: "@ + error,
                );
            }
        },
        WaitView::Connect { session_path } => {
            if let ReplyView::Failed(error) = reply {
                lemma_noted_logged(worker, session_path, "Connect failed: "@ + error);
            }
        },
        WaitView::Drain { session_path, kind, message, type_, group, rest, fields } => {
            match reply {
                ReplyView::Items(items) => {
                    lemma_first_logged(
                        worker,
                        TaskView::Drain {
                            session_path,
                            kind,
                            message,
                            rest,
                            fields: fields + queue_fields(type_, group, items),
                        },
                    );
                },
                _ => {
                    lemma_first_logged(
                        worker,
                        TaskView::Drain { session_path, kind, message, rest, fields },
                    );
                },
            }
        },
        WaitView::Provide { session_path } => {
            if let ReplyView::Failures(errors) = reply {
                lemma_failures_stay_bounded(worker.logs, session_path, errors);
            }
        },
        WaitView::Ready { session_path } => {
            match reply {
                ReplyView::Done => {
                    lemma_dispatched_logged(worker, EventView::SessionReady { session_path });
                },
                ReplyView::Failed(error) => {
                    lemma_first_logged(worker, TaskView::ReadQueue { session_path, error });
                },
                _ => {},
            }
        },
        WaitView::Queue { session_path, error } => {
            lemma_noted_logged(worker, session_path, "Backend not ready: "@ + error);
            if let ReplyView::Queue(pairs) = reply {
                lemma_dispatched_logged(
                    worker,
                    EventView::CredentialsRequired {
                        session_path,
                        requests: decoded_requests(pairs),
                        message: seq![],
                    },
                );
                if pairs.len() > 0 {
                    lemma_noted_logged(
                        worker,
                        session_path,
                        request_text(
                            "Unrecognised credential request: "@,
                            pairs.first().0,
                            pairs.first().1,
                        ),
                    );
                }
            }
        },
        WaitView::Rename | WaitView::Remove | WaitView::Import { .. } => {
            lemma_first_logged(WorkerView { unavailable: None, ..worker }, TaskView::Refresh);
        },
        WaitView::File { name, path } => {
            if let ReplyView::File(config) = reply {
                lemma_first_logged(worker, TaskView::Import { name, config });
            }
        },
        _ => {},
    }
}

proof fn lemma_later_logged(worker: WorkerView, tasks: Seq<TaskView>)
    requires
        logged(worker),
        none_starts(tasks),
        none_adopts(tasks),
        single(worker.later(tasks)),
    ensures
        logged(worker.later(tasks)),
{
    let after = worker.later(tasks);
    assert forall|i: int| 0 <= i < after.agenda.len() && (#[trigger] after.agenda[i])
        is Created implies after.logs.most_recent == Some(
        after.agenda[i]->Created_session_path,
    ) by {
        if i < worker.agenda.len() {
            assert(worker.agenda[i] is Created);
        } else {
            assert(!starts(tasks[i - worker.agenda.len()]));
        }
    }
    if looks_no_more(worker) {
        assert forall|i: int| 0 <= i < after.agenda.len() implies !adopts(
            #[trigger] after.agenda[i],
        ) by {
            if i >= worker.agenda.len() {
                assert(!adopts(tasks[i - worker.agenda.len()]));
            }
        }
    } else {
        assert(none_starts(after.agenda)) by {
            assert forall|i: int| 0 <= i < after.agenda.len() implies !starts(
                #[trigger] after.agenda[i],
            ) by {
                if i >= worker.agenda.len() {
                    assert(!starts(tasks[i - worker.agenda.len()]));
                }
            }
        }
        if awaits_adoption(worker) {
            assert(after.agenda =~= worker.agenda + tasks);
        } else {
            assert(after.agenda.skip(1) =~= worker.agenda.skip(1) + tasks);
            if worker.agenda.len() > 1 {
                assert(after.agenda.skip(2) =~= worker.agenda.skip(2) + tasks);
            }
        }
    }
}

/// Whatever happened since the start, and in whatever order: the log that is shown
/// is that of the session in use, and keeps to its bound.
pub proof fn law_the_session_in_use_is_the_one_logged(happenings: Seq<Happening>)
    ensures
        logged(history(happenings)),
        history(happenings).machine.active is Some ==> history(happenings).logs.most_recent
            == history(happenings).machine.active_session(),
    decreases happenings.len(),
{
    if happenings.len() == 0 {
        let initial = WorkerView::initial();
        assert(initial.agenda.skip(2) =~= seq![TaskView::Watch]);
    } else {
        let before = history(happenings.drop_last());
        law_the_session_in_use_is_the_one_logged(happenings.drop_last());
        let nothing = WireView::SessionManager { path: seq![], removed: false };
        match happenings.last() {
            Happening::Step => lemma_step_logged(before),
            Happening::Answer(reply) => {
                if before.resume(reply) is Some {
                    lemma_answer_logged(before, reply);
                }
            },
            Happening::Request(command) => {
                law_requests_and_signals_keep_to_one_session(before, command, nothing);
                lemma_later_logged(before, ui_tasks(command));
            },
            Happening::Signal(wire) => {
                law_requests_and_signals_keep_to_one_session(
                    before,
                    UiCommandView::Disconnect,
                    wire,
                );
                lemma_later_logged(before, seq![TaskView::Wire(wire)]);
            },
            Happening::Tick => {
                law_requests_and_signals_keep_to_one_session(
                    before,
                    UiCommandView::Disconnect,
                    nothing,
                );
                if before.in_flight() {
                    lemma_later_logged(
                        before,
                        seq![TaskView::ReconcileTeardown, TaskView::ReconcileActive],
                    );
                }
            },
        }
    }
}

/// The panel shows that the attempt failed, with the reason as the last line of the
/// log.
pub open spec fn explains(worker: WorkerView, reason: Seq<char>) -> bool {
    let snapshot = worker.snapshot();
    &&& snapshot.state == ConnectionState::Failed
    &&& snapshot.log is Some
    &&& snapshot.log->0.len() > 0
    &&& snapshot.log->0.last() == reason
}

/// The worker once it has done what a refusal asks for, up to the line in the log:
/// a prompt that was open closes first.
pub open spec fn told(asked: WorkerView, prompt_was_open: bool) -> WorkerView {
    if prompt_was_open {
        asked.step().after.step().after
    } else {
        asked.step().after
    }
}

/// The attempt ends with an explanation: the panel shows the failure and the reason
/// and no prompt that was open, and the session is told to disconnect next.
#[verifier::opaque]
pub open spec fn ends_explained(
    asked: WorkerView,
    prompt_was_open: bool,
    session: Seq<char>,
    reason: Seq<char>,
) -> bool {
    let after = told(asked, prompt_was_open);
    &&& explains(after, reason)
    &&& prompt_was_open ==> after.prompt is None
    &&& after.step().progress == ProgressView::Ask(CallView::Disconnect { session_path: session })
}

/// A signal that asks for what no prompt answers is not passed over in silence,
/// whether or not a prompt is open: the panel shows the failure and the reason and no
/// prompt that was open, and the session is told to disconnect next.
pub proof fn law_refused_requests_are_explained(
    happenings: Seq<Happening>,
    session: Seq<char>,
    type_: u32,
    group: u32,
    message: Seq<char>,
    request: (ClientAttentionType, ClientAttentionGroup),
)
    requires
        history(happenings).waiting is None,
        history(happenings).agenda.len() > 0,
        history(happenings).agenda.first() == TaskView::Wire(
            WireView::Attention { session, type_, group, message },
        ),
        history(happenings).machine.active_session() == Some(session),
        is_object_path(session),
        decoded_pair(type_, group) == Some(request),
        prompt_for(request.0, request.1) is None,
    ensures
        ends_explained(
            history(happenings).step().after,
            history(happenings).machine.prompt_open,
            session,
            refusal(request.0, request.1),
        ),
{
    law_the_session_in_use_is_the_one_logged(happenings);
    let worker = history(happenings);
    let rest = WorkerView { agenda: worker.agenda.drop_first(), ..worker };
    lemma_signal_taken_in(worker, WireView::Attention { session, type_, group, message });
    law_signals_and_queues_ask_alike(rest.machine, session, request.0, request.1, message);
    lemma_same_dispatch(
        rest,
        EventView::AttentionRequired {
            session_path: session,
            type_: request.0,
            group: request.1,
            message,
        },
        EventView::CredentialsRequired { session_path: session, requests: seq![request], message },
    );
    reveal_with_fuel(first_refusal, 2);
    lemma_refused(rest, session, seq![request], message, refusal(request.0, request.1));
}

/// An input queue that holds what no prompt answers is not passed over in silence
/// either: the panel shows the failure and the reason for the first such request and
/// no prompt that was open, and the session is told to disconnect next.
pub proof fn law_refused_queues_are_explained(
    happenings: Seq<Happening>,
    session: Seq<char>,
    error: Seq<char>,
    pairs: Seq<(u32, u32)>,
    reason: Seq<char>,
)
    requires
        history(happenings).waiting == Some(WaitView::Queue { session_path: session, error }),
        history(happenings).machine.active_session() == Some(session),
        is_object_path(session),
        pairs.len() > 0,
        decoded_pair(pairs.first().0, pairs.first().1) is Some,
        first_refusal(decoded_requests(pairs)) == Some(reason),
    ensures
        history(happenings).resume(ReplyView::Queue(pairs)) is Some,
        ends_explained(
            history(happenings).resume(ReplyView::Queue(pairs))->0,
            history(happenings).machine.prompt_open,
            session,
            reason,
        ),
{
    law_the_session_in_use_is_the_one_logged(happenings);
    let rest = WorkerView { waiting: None, ..history(happenings) };
    lemma_refused(rest, session, decoded_requests(pairs), seq![], reason);
}

proof fn lemma_signal_taken_in(worker: WorkerView, wire: WireView)
    requires
        worker.waiting is None,
        worker.agenda.len() > 0,
        worker.agenda.first() == TaskView::Wire(wire),
    ensures
        worker.step().after == (WorkerView {
            agenda: worker.agenda.drop_first(),
            ..worker
        }).begin_wire(wire),
{
}

proof fn lemma_same_dispatch(worker: WorkerView, a: EventView, b: EventView)
    requires
        worker.machine.step(a) == worker.machine.step(b),
    ensures
        worker.dispatched(a) == worker.dispatched(b),
{
    law_the_machine_is_served_first(worker, a);
    law_the_machine_is_served_first(worker, b);
}

/// Requests that cannot all be answered are explained.
proof fn lemma_refused(
    worker: WorkerView,
    session: Seq<char>,
    requests: Seq<(ClientAttentionType, ClientAttentionGroup)>,
    message: Seq<char>,
    reason: Seq<char>,
)
    requires
        worker.waiting is None,
        worker.logs.bounded(),
        worker.logs.most_recent == Some(session),
        worker.machine.active_session() == Some(session),
        is_object_path(session),
        first_refusal(requests) == Some(reason),
    ensures
        ends_explained(
            worker.dispatched(
                EventView::CredentialsRequired { session_path: session, requests, message },
            ),
            worker.machine.prompt_open,
            session,
            reason,
        ),
{
    let event = EventView::CredentialsRequired { session_path: session, requests, message };
    let asked = worker.dispatched(event);
    law_the_machine_is_served_first(worker, event);
    lemma_commands_of_refusal(worker.machine, session, requests, message, reason);
    let ending = ending_tasks(session, reason);
    if worker.machine.prompt_open {
        assert(asked.agenda =~= seq![TaskView::Run(CommandView::ClosePrompt)] + (ending
            + worker.agenda));
        lemma_ends_with_prompt(asked, session, reason, worker.agenda);
    } else {
        lemma_ends(asked, session, reason, worker.agenda);
    }
}

proof fn lemma_ends(worker: WorkerView, session: Seq<char>, reason: Seq<char>, rest: Seq<TaskView>)
    requires
        worker.waiting is None,
        worker.agenda == ending_tasks(session, reason) + rest,
        worker.machine.state == ConnectionState::Failed,
        worker.logs.bounded(),
        worker.logs.most_recent == Some(session),
        is_object_path(session),
    ensures
        ends_explained(worker, false, session, reason),
{
    reveal(ends_explained);
    lemma_note_then_disconnect(worker, session, reason, rest);
    lemma_explains(worker.step().after, worker.logs, session, reason);
}

proof fn lemma_ends_with_prompt(
    worker: WorkerView,
    session: Seq<char>,
    reason: Seq<char>,
    rest: Seq<TaskView>,
)
    requires
        worker.waiting is None,
        worker.agenda == seq![TaskView::Run(CommandView::ClosePrompt)] + (ending_tasks(
            session,
            reason,
        ) + rest),
        worker.machine.state == ConnectionState::Failed,
        worker.logs.bounded(),
        worker.logs.most_recent == Some(session),
        is_object_path(session),
    ensures
        ends_explained(worker, true, session, reason),
{
    reveal(ends_explained);
    lemma_prompt_closed(worker, ending_tasks(session, reason) + rest);
    let closed = worker.step().after;
    lemma_note_then_disconnect(closed, session, reason, rest);
    lemma_explains(closed.step().after, worker.logs, session, reason);
}

/// A reason that was noted last is the last line that the panel shows.
proof fn lemma_explains(
    worker: WorkerView,
    logs: LogStoreView,
    session: Seq<char>,
    reason: Seq<char>,
)
    requires
        worker.machine.state == ConnectionState::Failed,
        worker.logs == logs.noted(session, reason),
        logs.bounded(),
        logs.most_recent == Some(session),
    ensures
        explains(worker, reason),
{
    law_notes_are_kept(logs, session, reason);
    let lines = appended(logs.captured(session), logs.capacity, note_entry(reason));
    assert(messages(lines).last() == reason);
}

/// What ends an attempt: the reason is noted and the session disconnected.
spec fn ending_tasks(session: Seq<char>, reason: Seq<char>) -> Seq<TaskView> {
    seq![
        TaskView::Run(CommandView::Note { session_path: session, message: reason }),
        TaskView::Run(CommandView::Disconnect { session_path: session }),
    ]
}

proof fn lemma_commands_of_refusal(
    machine: MachineView,
    session: Seq<char>,
    requests: Seq<(ClientAttentionType, ClientAttentionGroup)>,
    message: Seq<char>,
    reason: Seq<char>,
)
    requires
        machine.active_session() == Some(session),
        first_refusal(requests) == Some(reason),
    ensures
        ({
            let step = machine.step(
                EventView::CredentialsRequired { session_path: session, requests, message },
            );
            &&& step.after.state == ConnectionState::Failed
            &&& !machine.prompt_open ==> runs(step.commands) == ending_tasks(session, reason)
            &&& machine.prompt_open ==> runs(step.commands) == seq![
                TaskView::Run(CommandView::ClosePrompt),
            ] + ending_tasks(session, reason)
        }),
{
    let step = machine.step(
        EventView::CredentialsRequired { session_path: session, requests, message },
    );
    assert(requests.len() > 0);
    if machine.prompt_open {
        assert(runs(step.commands) =~= seq![TaskView::Run(CommandView::ClosePrompt)]
            + ending_tasks(session, reason));
    } else {
        assert(runs(step.commands) =~= ending_tasks(session, reason));
    }
}

proof fn lemma_prompt_closed(worker: WorkerView, rest: Seq<TaskView>)
    requires
        worker.waiting is None,
        worker.agenda == seq![TaskView::Run(CommandView::ClosePrompt)] + rest,
    ensures
        worker.step().after == (WorkerView { agenda: rest, prompt: None, ..worker }),
{
    assert(worker.agenda.drop_first() =~= rest);
}

proof fn lemma_note_then_disconnect(
    worker: WorkerView,
    session: Seq<char>,
    reason: Seq<char>,
    rest: Seq<TaskView>,
)
    requires
        worker.waiting is None,
        worker.agenda == ending_tasks(session, reason) + rest,
        is_object_path(session),
    ensures
        worker.step().after.machine == worker.machine,
        worker.step().after.prompt == worker.prompt,
        worker.step().after.logs == worker.logs.noted(session, reason),
        worker.step().after.step().progress == ProgressView::Ask(
            CallView::Disconnect { session_path: session },
        ),
{
    assert(worker.agenda.drop_first().first() == TaskView::Run(
        CommandView::Disconnect { session_path: session },
    ));
}

} // verus!

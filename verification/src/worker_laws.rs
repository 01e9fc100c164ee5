//! What holds of the worker whatever happens.

use crate::agenda::{runs, TaskView, WaitView};
use crate::attention::{ClientAttentionGroup, ClientAttentionType, PromptKind};
use crate::calls::{CallView, QueueItemView, ReplyView};
use crate::dbus::{PromptInputView, PromptSpecView, UiCommandView, WireView};
use crate::machine::{CommandView, EventView, InputResponseView, MachineView};
use crate::machine_laws::{
    law_connect_waits_for_readiness, law_one_session_at_a_time, law_tunnels_start_alone,
    one_session,
};
use crate::object_path::is_object_path;
use crate::status::StatusView;
use crate::text::trimmed;
use crate::worker_model::{
    decoded_pair, decoded_requests, queue_fields, request_text, ui_tasks, ProgressView,
    WorkerStepView, WorkerView,
};
use vstd::prelude::*;

verus! {

/// The task starts a session, or tells the machine of one that was started.
pub open spec fn starts(task: TaskView) -> bool {
    task is Created || (task matches TaskView::Run(command) && command is NewTunnel)
}

/// None of the tasks starts a session.
pub open spec fn none_starts(agenda: Seq<TaskView>) -> bool {
    forall|i: int| 0 <= i < agenda.len() ==> !starts(#[trigger] agenda[i])
}

/// No session is in use, and none is going away.
pub open spec fn free(machine: MachineView) -> bool {
    machine.active is None && machine.awaiting_teardown is None
}

/// A session is being started: the call is next or out, or the machine is about
/// to hear of the session, first things first.
pub open spec fn starting(worker: WorkerView) -> bool {
    ||| worker.waiting matches Some(wait) && wait is Tunnel && none_starts(worker.agenda)
    ||| worker.waiting is None && worker.agenda.len() > 0 && starts(worker.agenda[0])
        && none_starts(worker.agenda.skip(1))
    ||| worker.waiting is None && worker.agenda.len() > 1 && worker.agenda[0] is Subscribe
        && worker.agenda[1] is Created && none_starts(worker.agenda.skip(2))
    ||| worker.waiting == Some(WaitView::Acknowledged) && worker.agenda.len() > 0
        && worker.agenda[0] is Created && none_starts(worker.agenda.skip(1))
}

/// No session is being started.
pub open spec fn calm(worker: WorkerView) -> bool {
    none_starts(worker.agenda) && !(worker.waiting matches Some(wait) && wait is Tunnel)
}

/// One session at most is in use, going away or being started.
pub open spec fn single(worker: WorkerView) -> bool {
    one_session(worker.machine) && (calm(worker) || free(worker.machine) && starting(worker))
}

proof fn lemma_none_starts_joined(a: Seq<TaskView>, b: Seq<TaskView>)
    requires
        none_starts(a),
        none_starts(b),
    ensures
        none_starts(a + b),
{
}

/// What the machine asks for keeps to one session.
proof fn lemma_dispatched(worker: WorkerView, event: EventView)
    requires
        worker.waiting is None,
        none_starts(worker.agenda),
        one_session(worker.machine),
        !(event is SessionCreated && worker.machine.awaiting_teardown is Some),
    ensures
        single(worker.dispatched(event)),
{
    reveal(WorkerView::dispatched);
    let commands = worker.machine.step(event).commands;
    law_one_session_at_a_time(worker.machine, event);
    if exists|i: int| 0 <= i < commands.len() && (#[trigger] commands[i]) is NewTunnel {
        let i = choose|i: int| 0 <= i < commands.len() && (#[trigger] commands[i]) is NewTunnel;
        let config_path = commands[i]->NewTunnel_config_path;
        assert(commands.contains(CommandView::NewTunnel { config_path }));
        law_tunnels_start_alone(worker.machine, event, config_path);
        assert(worker.dispatched(event).agenda.skip(1) =~= worker.agenda);
    } else {
        assert(none_starts(runs(commands)));
        lemma_none_starts_joined(runs(commands), worker.agenda);
    }
}

/// A session whose start is announced while none is in use leads to no second.
proof fn lemma_begun(worker: WorkerView, task: TaskView)
    requires
        worker.waiting is None,
        none_starts(worker.agenda),
        one_session(worker.machine),
        starts(task) ==> free(worker.machine),
    ensures
        single(worker.begin(task).after),
{
    match task {
        TaskView::Ui(command) => {
            match command {
                UiCommandView::SelectProfile(config_path) => {
                    lemma_dispatched(worker, EventView::ProfileSelected { config_path });
                },
                UiCommandView::Disconnect => {
                    lemma_dispatched(worker, EventView::DisconnectRequested);
                },
                UiCommandView::DismissFailure => {
                    lemma_dispatched(worker, EventView::FailureDismissed);
                },
                UiCommandView::CancelPrompt => {
                    if worker.prompt is Some {
                        lemma_dispatched(
                            worker,
                            EventView::PromptCancelled {
                                session_path: worker.prompt->0.session_path,
                            },
                        );
                    }
                },
                UiCommandView::SubmitPrompt(responses) => {
                    if worker.prompt is Some {
                        lemma_dispatched(
                            worker,
                            EventView::PromptSubmitted {
                                session_path: worker.prompt->0.session_path,
                                responses,
                            },
                        );
                    }
                },
                _ => {},
            }
        },
        TaskView::Wire(wire) => {
            match wire {
                WireView::Status { session, status } => {
                    lemma_dispatched(
                        WorkerView { status_message: status.message, ..worker },
                        EventView::StatusChanged { session_path: session, status },
                    );
                },
                WireView::Attention { session, type_, group, message } => {
                    if let Some((type_, group)) = decoded_pair(type_, group) {
                        lemma_dispatched(
                            worker,
                            EventView::AttentionRequired {
                                session_path: session,
                                type_,
                                group,
                                message,
                            },
                        );
                    }
                },
                WireView::SessionManager { path, removed } => {
                    lemma_dispatched(
                        WorkerView { logs: worker.logs.removed(path), ..worker },
                        EventView::SessionRemoved { session_path: path },
                    );
                },
                _ => {},
            }
        },
        TaskView::Created { session_path, config_path } => {
            lemma_dispatched(worker, EventView::SessionCreated { session_path, config_path });
        },
        _ => {},
    }
}

/// A worker starts out with no session at all.
pub proof fn law_the_worker_starts_single()
    ensures
        single(WorkerView::initial()),
{
}

/// However a step goes, one session at most is in use, going away or being
/// started.
pub proof fn law_a_step_keeps_to_one_session(worker: WorkerView)
    requires
        single(worker),
    ensures
        single(worker.step().after),
{
    if worker.waiting is None && worker.agenda.len() > 0 {
        let rest = WorkerView { agenda: worker.agenda.drop_first(), ..worker };
        assert(rest.agenda =~= worker.agenda.skip(1));
        if worker.agenda.len() > 1 && worker.agenda[0] is Subscribe && worker.agenda[1] is Created
            && none_starts(worker.agenda.skip(2)) {
            assert(rest.agenda.skip(1) =~= worker.agenda.skip(2));
        } else {
            lemma_begun(rest, worker.agenda.first());
        }
    }
}

proof fn lemma_first(worker: WorkerView, task: TaskView)
    requires
        calm(worker),
        !starts(task),
        one_session(worker.machine),
    ensures
        single(worker.first(task)),
{
    lemma_none_starts_joined(seq![task], worker.agenda);
}

/// Whatever is answered, one session at most is in use, going away or being
/// started.
pub proof fn law_an_answer_keeps_to_one_session(worker: WorkerView, reply: ReplyView)
    requires
        single(worker),
        worker.resume(reply) is Some,
    ensures
        single(worker.resume(reply)->0),
{
    let wait = worker.waiting->0;
    let rest = WorkerView { waiting: None, ..worker };
    if wait is Acknowledged {
        assert(worker.resume(reply)->0 == rest);
    } else {
        assert(none_starts(rest.agenda));
        match wait {
            WaitView::AdoptList => {
                if let ReplyView::Sessions(paths) = reply {
                    lemma_first(rest, TaskView::Probe { rest: paths });
                }
            },
            WaitView::ProbeStatus { session_path, rest: paths } => {
                lemma_first(rest, TaskView::Probe { rest: paths });
                assert forall|status: StatusView|
                    single(#[trigger] rest.first(TaskView::ReadOrigin { session_path, status })) by {
                    lemma_first(rest, TaskView::ReadOrigin { session_path, status });
                }
            },
            WaitView::Origin { session_path, status } => {
                let created = reply->Origin_created;
                let noted = WorkerView {
                    session_created: created,
                    logs: rest.logs.adopted(session_path),
                    ..rest
                };
                let followed = noted.first(TaskView::Subscribe { session_path });
                lemma_first(noted, TaskView::Subscribe { session_path });
                lemma_dispatched(
                    followed,
                    EventView::ExternalSessionSeen {
                        session_path,
                        config_path: match reply->Origin_config_path {
                            Some(path) => path,
                            None => seq![],
                        },
                        status,
                    },
                );
            },
            WaitView::TeardownList { session_path } => {
                lemma_dispatched(
                    WorkerView { logs: rest.logs.removed(session_path), ..rest },
                    EventView::SessionRemoved { session_path },
                );
            },
            WaitView::ActiveStatus { session_path } => {
                assert forall|status: StatusView|
                    single(
                        #[trigger] rest.first(TaskView::ReadCreated { session_path, status }),
                    ) by {
                    lemma_first(rest, TaskView::ReadCreated { session_path, status });
                }
            },
            WaitView::ActiveCreated { session_path, status } => {
                let dated = WorkerView {
                    session_created: if reply->Created_0 is Some {
                        reply->Created_0
                    } else {
                        rest.session_created
                    },
                    ..rest
                };
                lemma_dispatched(dated, EventView::StatusChanged { session_path, status });
            },
            WaitView::Tunnel { config_path } => {
                if let ReplyView::Tunnel { session_path, now } = reply {
                    let after = worker.resume(reply)->0;
                    assert(after.agenda.skip(2) =~= rest.agenda);
                }
            },
            WaitView::Drain { session_path, kind, message, type_, group, rest: queues, fields } => {
                assert forall|fields: Seq<PromptInputView>|
                    single(
                        #[trigger] rest.first(
                            TaskView::Drain { session_path, kind, message, rest: queues, fields },
                        ),
                    ) by {
                    lemma_first(
                        rest,
                        TaskView::Drain { session_path, kind, message, rest: queues, fields },
                    );
                }
            },
            WaitView::Ready { session_path } => {
                lemma_dispatched(rest, EventView::SessionReady { session_path });
                if let ReplyView::Failed(error) = reply {
                    lemma_first(rest, TaskView::ReadQueue { session_path, error });
                }
            },
            WaitView::Queue { session_path, error } => {
                if let ReplyView::Queue(pairs) = reply {
                    lemma_dispatched(
                        rest,
                        EventView::CredentialsRequired {
                            session_path,
                            requests: decoded_requests(pairs),
                            message: seq![],
                        },
                    );
                }
            },
            WaitView::Rename | WaitView::Remove | WaitView::Import { .. } => {
                lemma_first(WorkerView { unavailable: None, ..rest }, TaskView::Refresh);
            },
            WaitView::File { name, path } => {
                if let ReplyView::File(config) = reply {
                    lemma_first(rest, TaskView::Import { name, config });
                }
            },
            _ => {},
        }
    }
}

proof fn lemma_later(worker: WorkerView, tasks: Seq<TaskView>)
    requires
        single(worker),
        none_starts(tasks),
    ensures
        single(worker.later(tasks)),
{
    let after = worker.later(tasks);
    if calm(worker) {
        lemma_none_starts_joined(worker.agenda, tasks);
    } else {
        if worker.agenda.len() > 0 {
            assert(after.agenda.skip(1) =~= worker.agenda.skip(1) + tasks);
        }
        if worker.agenda.len() > 1 {
            assert(after.agenda.skip(2) =~= worker.agenda.skip(2) + tasks);
        }
    }
}

/// Whatever the panel asks for, whatever signal comes in, and whenever the timer
/// fires: one session at most is in use, going away or being started.
pub proof fn law_requests_and_signals_keep_to_one_session(
    worker: WorkerView,
    command: UiCommandView,
    wire: WireView,
)
    requires
        single(worker),
    ensures
        single(worker.later(ui_tasks(command))),
        single(worker.later(seq![TaskView::Wire(wire)])),
        single(worker.settling()),
{
    lemma_later(worker, ui_tasks(command));
    lemma_later(worker, seq![TaskView::Wire(wire)]);
    lemma_later(worker, seq![TaskView::ReconcileTeardown, TaskView::ReconcileActive]);
}

/// What can happen to a worker.
pub enum Happening {
    Step,
    Answer(ReplyView),
    Request(UiCommandView),
    Signal(WireView),
    Tick,
}

/// The worker after one more thing happened.
pub open spec fn happened(worker: WorkerView, happening: Happening) -> WorkerView {
    match happening {
        Happening::Step => worker.step().after,
        Happening::Answer(reply) => match worker.resume(reply) {
            Some(after) => after,
            None => worker,
        },
        Happening::Request(command) => worker.later(ui_tasks(command)),
        Happening::Signal(wire) => worker.later(seq![TaskView::Wire(wire)]),
        Happening::Tick => worker.settling(),
    }
}

/// A new worker after all of this happened.
pub open spec fn history(happenings: Seq<Happening>) -> WorkerView
    decreases happenings.len(),
{
    if happenings.len() == 0 {
        WorkerView::initial()
    } else {
        happened(history(happenings.drop_last()), happenings.last())
    }
}

/// Whatever happened since the start, and in whatever order: one session at most
/// is in use, going away or being started.
pub proof fn law_there_is_one_session_at_most(happenings: Seq<Happening>)
    ensures
        single(history(happenings)),
    decreases happenings.len(),
{
    if happenings.len() > 0 {
        let before = history(happenings.drop_last());
        law_there_is_one_session_at_most(happenings.drop_last());
        match happenings.last() {
            Happening::Step => law_a_step_keeps_to_one_session(before),
            Happening::Answer(reply) => {
                if before.resume(reply) is Some {
                    law_an_answer_keeps_to_one_session(before, reply);
                }
            },
            Happening::Request(command) => law_requests_and_signals_keep_to_one_session(
                before,
                command,
                WireView::SessionManager { path: seq![], removed: false },
            ),
            Happening::Signal(wire) => law_requests_and_signals_keep_to_one_session(
                before,
                UiCommandView::Disconnect,
                wire,
            ),
            Happening::Tick => law_requests_and_signals_keep_to_one_session(
                before,
                UiCommandView::Disconnect,
                WireView::SessionManager { path: seq![], removed: false },
            ),
        }
    }
}

/// openvpn3 is asked to start a session only when none is in use, none is going
/// away, and none is being started.
pub proof fn law_a_session_is_started_only_when_there_is_none(
    happenings: Seq<Happening>,
    config_path: Seq<char>,
)
    requires
        history(happenings).step().progress == ProgressView::Ask(
            CallView::NewTunnel { config_path },
        ),
    ensures
        free(history(happenings).machine),
        none_starts(history(happenings).agenda.skip(1)),
        history(happenings).waiting is None,
{
    law_there_is_one_session_at_most(happenings);
    let worker = history(happenings);
    assert(worker.agenda.first() == TaskView::Run(CommandView::NewTunnel { config_path }));
}

/// One call is out at a time: a step hands one out only when none is, and does
/// nothing until it is answered.
pub proof fn law_one_call_is_out_at_a_time(worker: WorkerView, reply: ReplyView)
    ensures
        worker.step().progress is Ask ==> worker.waiting is None
            && worker.step().after.waiting is Some,
        worker.step().progress is Worked ==> worker.step().after.waiting is None,
        worker.waiting is Some ==> worker.step() == (WorkerStepView {
            after: worker,
            progress: ProgressView::Waiting,
        }),
        worker.waiting is None ==> worker.resume(reply) is None,
        worker.resume(reply) is Some ==> worker.resume(reply)->0.waiting is None,
{
    assert forall|worker: WorkerView, event: EventView|
        (#[trigger] worker.dispatched(event)).waiting == worker.waiting by {
        reveal(WorkerView::dispatched);
    }
}

/// An answer that each call accepts.
pub open spec fn an_answer(wait: WaitView) -> ReplyView {
    match wait {
        WaitView::Profiles => ReplyView::Profiles(seq![]),
        WaitView::Origin { .. } => ReplyView::Origin { config_path: None, created: None },
        WaitView::Acknowledged => ReplyView::Done,
        WaitView::ActiveCreated { .. } => ReplyView::Created(None),
        WaitView::File { .. } => ReplyView::File(seq![]),
        _ => ReplyView::Unreachable,
    }
}

/// Whatever call is out, there is an answer that lets the worker go on.
pub proof fn law_every_call_can_be_answered(worker: WorkerView)
    requires
        worker.waiting is Some,
    ensures
        worker.resume(an_answer(worker.waiting->0)) is Some,
{
}

/// How much work a task can lead to before the next call.
pub open spec fn weight(task: TaskView) -> nat {
    match task {
        TaskView::Ui(_) | TaskView::Wire(_) | TaskView::Created { .. } => 7,
        TaskView::Run(command) => if command is OpenPrompt {
            2
        } else {
            1
        },
        _ => 1,
    }
}

/// How much work the tasks can lead to before the next call.
pub open spec fn load(agenda: Seq<TaskView>) -> nat
    decreases agenda.len(),
{
    if agenda.len() == 0 {
        0
    } else {
        load(agenda.drop_last()) + weight(agenda.last())
    }
}

proof fn lemma_load_joined(a: Seq<TaskView>, b: Seq<TaskView>)
    ensures
        load(a + b) == load(a) + load(b),
    decreases b.len(),
{
    if b.len() == 0 {
        assert(a + b =~= a);
    } else {
        assert((a + b).drop_last() =~= a + b.drop_last());
        lemma_load_joined(a, b.drop_last());
    }
}

proof fn lemma_load_of_one(task: TaskView)
    ensures
        load(seq![task]) == weight(task),
{
    reveal_with_fuel(load, 2);
    assert(seq![task].drop_last() =~= seq![]);
}

proof fn lemma_load_of_commands(machine: MachineView, event: EventView)
    ensures
        load(runs(machine.step(event).commands)) < 7,
{
    reveal_with_fuel(load, 4);
    let commands = machine.step(event).commands;
    let tasks = runs(commands);
    assert(commands.len() <= 3);
    if commands.len() == 3 {
        assert(tasks.drop_last().drop_last().drop_last() =~= seq![]);
    } else if commands.len() == 2 {
        assert(tasks.drop_last().drop_last() =~= seq![]);
    } else if commands.len() == 1 {
        assert(tasks.drop_last() =~= seq![]);
    }
}

proof fn lemma_load_dispatched(worker: WorkerView, event: EventView)
    ensures
        load(worker.dispatched(event).agenda) < load(worker.agenda) + 7,
{
    reveal(WorkerView::dispatched);
    lemma_load_of_commands(worker.machine, event);
    lemma_load_joined(runs(worker.machine.step(event).commands), worker.agenda);
}

/// Work runs out: each piece of it leaves less to do, so a worker that is stepped
/// comes to a call or to rest.
pub proof fn law_work_runs_out(worker: WorkerView)
    requires
        worker.step().progress is Worked,
    ensures
        load(worker.step().after.agenda) < load(worker.agenda),
{
    let task = worker.agenda.first();
    let rest = WorkerView { agenda: worker.agenda.drop_first(), ..worker };
    assert(worker.agenda =~= seq![task] + rest.agenda);
    lemma_load_joined(seq![task], rest.agenda);
    lemma_load_of_one(task);
    assert forall|worker: WorkerView, event: EventView|
        load((#[trigger] worker.dispatched(event)).agenda) < load(worker.agenda) + 7 by {
        lemma_load_dispatched(worker, event);
    }
    match task {
        TaskView::Ui(command) => {
            if command is RefreshProfiles {
                lemma_load_joined(seq![TaskView::Refresh], rest.agenda);
                lemma_load_of_one(TaskView::Refresh);
            }
        },
        TaskView::Run(command) => {
            if let CommandView::OpenPrompt { session_path, kind, requests, message } = command {
                let drain = TaskView::Drain {
                    session_path,
                    kind,
                    message,
                    rest: requests,
                    fields: seq![],
                };
                lemma_load_joined(seq![drain], rest.agenda);
                lemma_load_of_one(drain);
            }
        },
        _ => {},
    }
}

/// What the machine asks for is done in its order and before anything else that
/// was left to do; nothing but the machine and the agenda moves.
pub proof fn law_the_machine_is_served_first(worker: WorkerView, event: EventView)
    ensures
        worker.dispatched(event) == (WorkerView {
            machine: worker.machine.step(event).after,
            agenda: runs(worker.machine.step(event).commands) + worker.agenda,
            ..worker
        }),
{
    reveal(WorkerView::dispatched);
}

/// A new session's signals are followed before the machine hears of the session,
/// and so before anything connects: no signal of it is missed.
pub proof fn law_signals_are_followed_first(
    worker: WorkerView,
    config_path: Seq<char>,
    session_path: Seq<char>,
    now: u64,
)
    requires
        worker.waiting == Some(WaitView::Tunnel { config_path }),
    ensures
        ({
            let started = worker.resume(ReplyView::Tunnel { session_path, now })->0;
            let following = started.step();
            let followed = following.after.resume(ReplyView::Done)->0;
            &&& worker.resume(ReplyView::Tunnel { session_path, now }) is Some
            &&& started.machine == worker.machine
            &&& following.progress == ProgressView::Ask(CallView::Subscribe { session_path })
            &&& following.after.machine == worker.machine
            &&& following.after.resume(ReplyView::Done) is Some
            &&& followed.agenda == seq![TaskView::Created { session_path, config_path }]
                + worker.agenda
            &&& followed.machine == worker.machine
        }),
{
    let started = worker.resume(ReplyView::Tunnel { session_path, now })->0;
    assert(started.agenda.drop_first() =~= seq![TaskView::Created { session_path, config_path }]
        + worker.agenda);
}

/// Answers are handed over once and then forgotten: all that is kept while the
/// call is out is whose answers they were.
pub proof fn law_answers_are_not_kept(
    worker: WorkerView,
    session_path: Seq<char>,
    responses: Seq<InputResponseView>,
)
    requires
        worker.waiting is None,
        worker.agenda.len() > 0,
        worker.agenda.first() == TaskView::Run(
            CommandView::ProvideInput { session_path, responses },
        ),
    ensures
        worker.step().after == (WorkerView {
            agenda: worker.agenda.drop_first(),
            waiting: if is_object_path(session_path) {
                Some(WaitView::Provide { session_path })
            } else {
                None
            },
            ..worker
        }),
{
}

/// Answers that come in when no prompt is open are dropped.
pub proof fn law_late_answers_are_dropped(worker: WorkerView, responses: Seq<InputResponseView>)
    requires
        worker.waiting is None,
        worker.prompt is None,
        worker.agenda.len() > 0,
        worker.agenda.first() == TaskView::Ui(UiCommandView::SubmitPrompt(responses)),
    ensures
        worker.step().after == (WorkerView { agenda: worker.agenda.drop_first(), ..worker }),
{
}

/// Queues that are drained one after the other.
pub open spec fn drained_in_turn(
    worker: WorkerView,
    answers: Seq<Seq<Option<QueueItemView>>>,
) -> WorkerView
    decreases answers.len(),
{
    if answers.len() == 0 {
        worker.step().after
    } else {
        drained_in_turn(
            worker.step().after.resume(ReplyView::Items(answers.first()))->0,
            answers.drop_first(),
        )
    }
}

/// The fields of every queue, in the order of the requests.
pub open spec fn gathered(
    requests: Seq<(ClientAttentionType, ClientAttentionGroup)>,
    answers: Seq<Seq<Option<QueueItemView>>>,
) -> Seq<PromptInputView>
    decreases requests.len(),
{
    if requests.len() == 0 {
        seq![]
    } else {
        queue_fields(requests.first().0, requests.first().1, answers.first()) + gathered(
            requests.drop_first(),
            answers.drop_first(),
        )
    }
}

/// Every queued request that decodes is among those that are asked for, wherever in
/// the queue it stands.
pub proof fn law_every_known_request_is_asked_for(
    pairs: Seq<(u32, u32)>,
    i: int,
    request: (ClientAttentionType, ClientAttentionGroup),
)
    requires
        0 <= i < pairs.len(),
        decoded_pair(pairs[i].0, pairs[i].1) == Some(request),
    ensures
        decoded_requests(pairs).contains(request),
    decreases pairs.len(),
{
    let known = decoded_requests(pairs.drop_last());
    if i < pairs.len() - 1 {
        law_every_known_request_is_asked_for(pairs.drop_last(), i, request);
        let k = choose|k: int| 0 <= k < known.len() && known[k] == request;
        assert(decoded_requests(pairs)[k] == request);
    } else {
        assert(decoded_requests(pairs)[known.len() as int] == request);
    }
}

/// One prompt asks for everything that is queued: the fields of every request,
/// not only of the first.
pub proof fn law_one_prompt_covers_every_queue(
    worker: WorkerView,
    session_path: Seq<char>,
    kind: PromptKind,
    message: Seq<char>,
    requests: Seq<(ClientAttentionType, ClientAttentionGroup)>,
    fields: Seq<PromptInputView>,
    answers: Seq<Seq<Option<QueueItemView>>>,
)
    requires
        worker.waiting is None,
        worker.agenda.len() > 0,
        worker.agenda.first() == (TaskView::Drain {
            session_path,
            kind,
            message,
            rest: requests,
            fields,
        }),
        is_object_path(session_path),
        answers.len() == requests.len(),
    ensures
        drained_in_turn(worker, answers) == (WorkerView {
            agenda: worker.agenda.drop_first(),
            prompt: Some(
                PromptSpecView {
                    session_path,
                    kind,
                    message,
                    fields: fields + gathered(requests, answers),
                },
            ),
            ..worker
        }),
    decreases requests.len(),
{
    if requests.len() == 0 {
        assert(fields + gathered(requests, answers) =~= fields);
    } else {
        let (type_, group) = requests.first();
        let next = worker.step().after.resume(ReplyView::Items(answers.first()))->0;
        let more = fields + queue_fields(type_, group, answers.first());
        assert(next.agenda.drop_first() =~= worker.agenda.drop_first());
        law_one_prompt_covers_every_queue(
            next,
            session_path,
            kind,
            message,
            requests.drop_first(),
            more,
            answers.drop_first(),
        );
        assert(more + gathered(requests.drop_first(), answers.drop_first()) =~= fields + gathered(
            requests,
            answers,
        ));
    }
}

/// The worker is about to connect the session.
pub open spec fn connects(worker: WorkerView, session_path: Seq<char>) -> bool {
    worker.agenda.contains(TaskView::Run(CommandView::Connect { session_path }))
}

proof fn lemma_connects_by_event(worker: WorkerView, event: EventView, session_path: Seq<char>)
    requires
        !connects(worker, session_path),
        connects(worker.dispatched(event), session_path),
    ensures
        event == (EventView::SessionReady { session_path }),
{
    reveal(WorkerView::dispatched);
    let connect = TaskView::Run(CommandView::Connect { session_path });
    let commands = worker.machine.step(event).commands;
    let agenda = worker.dispatched(event).agenda;
    let i = choose|i: int| 0 <= i < agenda.len() && agenda[i] == connect;
    if i >= commands.len() {
        assert(worker.agenda[i - commands.len()] == connect);
    } else {
        assert(commands[i] == CommandView::Connect { session_path });
        law_connect_waits_for_readiness(worker.machine, event, session_path);
    }
}

proof fn lemma_connects_by_task(worker: WorkerView, task: TaskView, session_path: Seq<char>)
    requires
        !connects(worker, session_path),
        connects(worker.first(task), session_path),
    ensures
        task == TaskView::Run(CommandView::Connect { session_path }),
{
    let connect = TaskView::Run(CommandView::Connect { session_path });
    let agenda = worker.first(task).agenda;
    let i = choose|i: int| 0 <= i < agenda.len() && agenda[i] == connect;
    if i > 0 {
        assert(worker.agenda[i - 1] == connect);
    }
}

/// A session is told to connect only once it has said that it is ready.
pub proof fn law_connecting_waits_for_readiness(
    worker: WorkerView,
    reply: ReplyView,
    session_path: Seq<char>,
)
    requires
        !connects(worker, session_path),
    ensures
        !connects(worker.step().after, session_path),
        worker.resume(reply) is Some && connects(worker.resume(reply)->0, session_path)
            ==> worker.waiting == Some(WaitView::Ready { session_path }) && reply is Done,
{
    assert forall|worker: WorkerView, event: EventView|
        !connects(worker, session_path) && connects(
            #[trigger] worker.dispatched(event),
            session_path,
        ) implies event == (EventView::SessionReady { session_path }) by {
        lemma_connects_by_event(worker, event, session_path);
    }
    assert forall|worker: WorkerView, task: TaskView|
        !connects(worker, session_path) && connects(
            #[trigger] worker.first(task),
            session_path,
        ) implies task == TaskView::Run(CommandView::Connect { session_path }) by {
        lemma_connects_by_task(worker, task, session_path);
    }
    if worker.agenda.len() > 0 {
        let rest = WorkerView { agenda: worker.agenda.drop_first(), ..worker };
        if connects(rest, session_path) {
            let i = choose|i: int|
                0 <= i < rest.agenda.len() && rest.agenda[i] == TaskView::Run(
                    CommandView::Connect { session_path },
                );
            assert(worker.agenda[i + 1] == rest.agenda[i]);
        }
    }
}

/// The profile in use is never deleted; the menu says why.
pub proof fn law_the_profile_in_use_is_not_deleted(worker: WorkerView, config_path: Seq<char>)
    requires
        worker.machine.active_config() == Some(config_path),
    ensures
        worker.begin_delete(config_path) == (WorkerStepView {
            after: worker.says("Disconnect this profile before deleting it."@),
            progress: ProgressView::Worked,
        }),
{
}

/// No profile is given a blank name or one with blanks around it.
pub proof fn law_profile_names_are_trimmed(
    worker: WorkerView,
    config_path: Seq<char>,
    new_name: Seq<char>,
    given: Seq<char>,
)
    requires
        worker.begin_rename(config_path, new_name).progress == ProgressView::Ask(
            CallView::Rename { config_path, new_name: given },
        ),
    ensures
        given == trimmed(new_name),
        given.len() > 0,
{
}

/// A profile is always imported to last and for repeated use.
pub proof fn law_imports_last(
    worker: WorkerView,
    name: Seq<char>,
    config: Seq<char>,
    single_use: bool,
    persistent: bool,
)
    requires
        worker.step().progress == ProgressView::Ask(
            CallView::Import { name, config, single_use, persistent },
        ),
    ensures
        persistent,
        !single_use,
{
}

/// A request for input that cannot be decoded is noted in the log, with its
/// numbers, and changes nothing else.
pub proof fn law_unknown_requests_are_noted(
    worker: WorkerView,
    session: Seq<char>,
    type_: u32,
    group: u32,
    message: Seq<char>,
)
    requires
        decoded_pair(type_, group) is None,
    ensures
        worker.begin_wire(WireView::Attention { session, type_, group, message })
            == worker.noted(
            session,
            request_text("Unrecognised input request from openvpn3: "@, type_, group),
        ),
{
}

/// A teardown whose signal was missed is noticed: once openvpn3 no longer lists
/// the session, the wait is over, and a profile that waited is started next.
pub proof fn law_a_missed_teardown_is_noticed(
    worker: WorkerView,
    session_path: Seq<char>,
    paths: Seq<Seq<char>>,
)
    requires
        worker.machine.awaiting_teardown == Some(session_path),
        worker.waiting == Some(WaitView::TeardownList { session_path }),
        !paths.contains(session_path),
    ensures
        worker.resume(ReplyView::Sessions(paths)) is Some,
        ({
            let after = worker.resume(ReplyView::Sessions(paths))->0;
            &&& after.machine.awaiting_teardown is None
            &&& after.agenda == (match worker.machine.pending_target {
                Some(config_path) => seq![TaskView::Run(CommandView::NewTunnel { config_path })]
                    + worker.agenda,
                None => worker.agenda,
            })
        }),
{
    reveal(WorkerView::dispatched);
    let after = worker.resume(ReplyView::Sessions(paths))->0;
    match worker.machine.pending_target {
        Some(config_path) => {
            assert(after.agenda =~= seq![TaskView::Run(CommandView::NewTunnel { config_path })]
                + worker.agenda);
        },
        None => {
            assert(after.agenda =~= worker.agenda);
        },
    }
}

} // verus!

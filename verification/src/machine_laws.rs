//! What holds of the transition machine whatever happens.

use crate::attention::{
    prompt_for, routing, ClientAttentionGroup, ClientAttentionType, PromptKind,
};
use crate::machine::{
    first_refusal, ActiveSessionView, CommandView, EventView, InputResponseView, MachineView,
    StepView,
};
use crate::status::{
    in_pause, pause_record, unmapped_reason, ConnectionState, StatusMajor, StatusMinor, StatusView,
};
use crate::text::trimmed;
use vstd::prelude::*;

verus! {

/// A session is in use or going away, never one of each.
pub open spec fn one_session(machine: MachineView) -> bool {
    machine.active is None || machine.awaiting_teardown is None
}

/// The event says that this session is gone.
pub open spec fn says_gone(event: EventView, session_path: Seq<char>) -> bool {
    ||| event == EventView::SessionRemoved { session_path }
    ||| event matches EventView::StatusChanged { session_path: path, status } && path
        == session_path && status.state() == Some(ConnectionState::Disconnected)
}

/// The session that an event about a session is about.
pub open spec fn subject(event: EventView) -> Option<Seq<char>> {
    match event {
        EventView::SessionReady { session_path } => Some(session_path),
        EventView::CredentialsRequired { session_path, .. } => Some(session_path),
        EventView::StatusChanged { session_path, .. } => Some(session_path),
        EventView::SessionRemoved { session_path } => Some(session_path),
        EventView::AttentionRequired { session_path, .. } => Some(session_path),
        EventView::PromptSubmitted { session_path, .. } => Some(session_path),
        EventView::PromptCancelled { session_path } => Some(session_path),
        _ => None,
    }
}

/// At most one session is ever in use or going away. Only a session created
/// while another is going away could break this, and nothing asks for one then.
pub proof fn law_one_session_at_a_time(machine: MachineView, event: EventView)
    requires
        one_session(machine),
        !(event is SessionCreated && machine.awaiting_teardown is Some),
    ensures
        one_session(machine.step(event).after),
{
}

/// A machine starts out with no session at all.
pub proof fn law_no_session_at_first()
    ensures
        one_session(MachineView::initial()),
{
}

/// A tunnel is only started when no session is in use and none is going away,
/// and nothing else is asked for along with it.
pub proof fn law_tunnels_start_alone(
    machine: MachineView,
    event: EventView,
    config_path: Seq<char>,
)
    requires
        one_session(machine),
        machine.step(event).commands.contains(CommandView::NewTunnel { config_path }),
    ensures
        machine.step(event).commands == seq![CommandView::NewTunnel { config_path }],
        machine.step(event).after.active is None,
        machine.step(event).after.awaiting_teardown is None,
        machine.step(event).after.state == ConnectionState::Connecting,
{
}

/// Selecting a profile while a session is in use tears that session down and
/// starts nothing.
pub proof fn law_switching_disconnects_first(machine: MachineView, config_path: Seq<char>)
    requires
        machine.active is Some,
        machine.awaiting_teardown is None,
    ensures
        ({
            let step = machine.step(EventView::ProfileSelected { config_path });
            let session_path = machine.active->0.session_path;
            &&& step.commands == seq![CommandView::Disconnect { session_path }]
            &&& step.after.active is None
            &&& step.after.awaiting_teardown == Some(session_path)
            &&& step.after.pending_target == Some(config_path)
        }),
{
}

/// While a session is going away, nothing but word that it is gone ends the
/// wait, and nothing else starts a tunnel or connects.
pub proof fn law_a_teardown_is_waited_for(
    machine: MachineView,
    event: EventView,
    session_path: Seq<char>,
    path: Seq<char>,
)
    requires
        one_session(machine),
        machine.awaiting_teardown == Some(session_path),
        !says_gone(event, session_path),
    ensures
        machine.step(event).after.awaiting_teardown == Some(session_path),
        !machine.step(event).commands.contains(CommandView::NewTunnel { config_path: path }),
        !machine.step(event).commands.contains(CommandView::Connect { session_path: path }),
{
}

/// Word that the session is gone ends the wait, whatever else was going on, and
/// starts exactly the profile that waits, if one does.
pub proof fn law_a_teardown_always_completes(
    machine: MachineView,
    event: EventView,
    session_path: Seq<char>,
)
    requires
        machine.awaiting_teardown == Some(session_path),
        says_gone(event, session_path),
    ensures
        machine.step(event).after.awaiting_teardown is None,
        machine.step(event).after.pending_target is None,
        machine.step(event).commands == (match machine.pending_target {
            Some(config_path) => seq![CommandView::NewTunnel { config_path }],
            None => seq![],
        }),
{
}

/// Selections made one after the other.
pub open spec fn select_all(machine: MachineView, choices: Seq<Seq<char>>) -> MachineView
    decreases choices.len(),
{
    if choices.len() == 0 {
        machine
    } else {
        select_all(machine, choices.drop_last()).step(
            EventView::ProfileSelected { config_path: choices.last() },
        ).after
    }
}

/// However many profiles are selected while a session goes away, none of the
/// selections starts anything, and once the session is gone exactly one tunnel is
/// started: to the last choice.
pub proof fn law_the_last_selection_wins(
    machine: MachineView,
    choices: Seq<Seq<char>>,
    gone: EventView,
    session_path: Seq<char>,
)
    requires
        machine.awaiting_teardown == Some(session_path),
        choices.len() > 0,
        says_gone(gone, session_path),
    ensures
        select_all(machine, choices.drop_last()).step(
            EventView::ProfileSelected { config_path: choices.last() },
        ).commands == Seq::<CommandView>::empty(),
        select_all(machine, choices).step(gone).commands == seq![
            CommandView::NewTunnel { config_path: choices.last() },
        ],
{
    lemma_select_all(machine, choices.drop_last());
}

/// Selections during a teardown change nothing but the choice that waits.
proof fn lemma_select_all(machine: MachineView, choices: Seq<Seq<char>>)
    requires
        machine.awaiting_teardown is Some,
    ensures
        select_all(machine, choices) == (MachineView {
            pending_target: if choices.len() == 0 {
                machine.pending_target
            } else {
                Some(choices.last())
            },
            ..machine
        }),
    decreases choices.len(),
{
    if choices.len() > 0 {
        lemma_select_all(machine, choices.drop_last());
    }
}

/// Disconnecting forgets the choice that waits: once the session is gone, nothing
/// follows.
pub proof fn law_disconnecting_settles(machine: MachineView, gone: EventView)
    requires
        machine.active is Some,
        says_gone(gone, machine.active->0.session_path),
    ensures
        ({
            let session_path = machine.active->0.session_path;
            let asked = machine.step(EventView::DisconnectRequested);
            let settled = asked.after.step(gone);
            &&& asked.commands == seq![CommandView::Disconnect { session_path }]
            &&& settled.commands == Seq::<CommandView>::empty()
            &&& settled.after.active is None
            &&& settled.after.awaiting_teardown is None
            &&& settled.after.state == if machine.state == ConnectionState::Failed {
                ConnectionState::Failed
            } else {
                ConnectionState::Disconnected
            }
        }),
{
}

/// With nothing in use, a request to disconnect asks for nothing.
pub proof fn law_nothing_to_disconnect(machine: MachineView)
    requires
        machine.active is None,
    ensures
        machine.step(EventView::DisconnectRequested).commands == Seq::<CommandView>::empty(),
        machine.step(EventView::DisconnectRequested).after.state == machine.state,
{
}

/// A session is only connected on word that it is ready, and only the one in use
/// is.
pub proof fn law_connect_waits_for_readiness(
    machine: MachineView,
    event: EventView,
    session_path: Seq<char>,
)
    requires
        machine.step(event).commands.contains(CommandView::Connect { session_path }),
    ensures
        event == (EventView::SessionReady { session_path }),
        machine.active_session() == Some(session_path),
{
}

/// A new session first has its log forwarded, and only then is asked whether it
/// is ready. It is not connected yet.
pub proof fn law_log_forwarding_comes_first(
    machine: MachineView,
    session_path: Seq<char>,
    config_path: Seq<char>,
)
    ensures
        machine.step(EventView::SessionCreated { session_path, config_path }).commands == seq![
            CommandView::EnableLogForward { session_path },
            CommandView::CheckReady { session_path },
        ],
{
}

/// Submitting a prompt hands the input over before readiness is checked again,
/// and closes the prompt before a second one could open.
pub proof fn law_input_precedes_the_readiness_check(
    machine: MachineView,
    session_path: Seq<char>,
    responses: Seq<InputResponseView>,
)
    requires
        machine.active_session() == Some(session_path),
    ensures
        machine.step(EventView::PromptSubmitted { session_path, responses }).commands == seq![
            CommandView::ProvideInput { session_path, responses },
            CommandView::ClosePrompt,
            CommandView::CheckReady { session_path },
        ],
        machine.step(EventView::PromptSubmitted { session_path, responses }).after.state
            == ConnectionState::Connecting,
{
}

/// A prompt is only opened for the session in use, only when none is open, and
/// only when it can answer every request.
pub proof fn law_prompts_can_be_answered(machine: MachineView, event: EventView, i: int, k: int)
    requires
        0 <= i < machine.step(event).commands.len(),
        machine.step(event).commands[i] is OpenPrompt,
        0 <= k < machine.step(event).commands[i]->OpenPrompt_requests.len(),
    ensures
        ({
            let opened = machine.step(event).commands[i];
            let request = opened->OpenPrompt_requests[k];
            &&& prompt_for(request.0, request.1) is Some
            &&& machine.active_session() == Some(opened->OpenPrompt_session_path)
            &&& !machine.prompt_open
            &&& machine.step(event).after.prompt_open
            &&& machine.step(event).after.state == ConnectionState::AuthPending
            &&& machine.step(event).commands.len() == 1
        }),
{
    let requests = machine.step(event).commands[i]->OpenPrompt_requests;
    lemma_no_refusal(requests, k);
}

/// Without a refusal every request is answered by a prompt.
proof fn lemma_no_refusal(requests: Seq<(ClientAttentionType, ClientAttentionGroup)>, k: int)
    requires
        first_refusal(requests) is None,
        0 <= k < requests.len(),
    ensures
        prompt_for(requests[k].0, requests[k].1) is Some,
    decreases requests.len(),
{
    if k > 0 {
        lemma_no_refusal(requests.drop_first(), k - 1);
        assert(requests.drop_first()[k - 1] == requests[k]);
    }
}

/// A request that no prompt answers is refused with a reason in words.
proof fn lemma_refusal(requests: Seq<(ClientAttentionType, ClientAttentionGroup)>, k: int)
    requires
        0 <= k < requests.len(),
        prompt_for(requests[k].0, requests[k].1) is None,
    ensures
        first_refusal(requests) is Some,
        trimmed(first_refusal(requests)->0).len() > 0,
    decreases requests.len(),
{
    crate::attention::law_routing_is_total(requests.first().0, requests.first().1);
    if k > 0 && prompt_for(requests.first().0, requests.first().1) is Some {
        assert(requests.drop_first()[k - 1] == requests[k]);
        lemma_refusal(requests.drop_first(), k - 1);
    }
}

/// What is asked for when a request cannot be answered: a prompt that is open
/// closes, the reason goes to the log, and the session is disconnected.
pub open spec fn refusing(
    prompt_open: bool,
    session_path: Seq<char>,
    reason: Seq<char>,
) -> Seq<CommandView> {
    let closing: Seq<CommandView> = if prompt_open {
        seq![CommandView::ClosePrompt]
    } else {
        seq![]
    };
    closing + seq![
        CommandView::Note { session_path, message: reason },
        CommandView::Disconnect { session_path },
    ]
}

/// One request that cannot be answered fails the attempt loudly, whether or not a
/// prompt is open: the reason goes to the log, the session is torn down, and no
/// prompt opens for the rest or stays open.
pub proof fn law_unsupported_requests_fail_loudly(
    machine: MachineView,
    session_path: Seq<char>,
    requests: Seq<(ClientAttentionType, ClientAttentionGroup)>,
    message: Seq<char>,
    k: int,
)
    requires
        machine.active_session() == Some(session_path),
        0 <= k < requests.len(),
        prompt_for(requests[k].0, requests[k].1) is None,
    ensures
        ({
            let step = machine.step(
                EventView::CredentialsRequired { session_path, requests, message },
            );
            &&& step.commands == refusing(
                machine.prompt_open,
                session_path,
                first_refusal(requests)->0,
            )
            &&& trimmed(first_refusal(requests)->0).len() > 0
            &&& step.after.state == ConnectionState::Failed
            &&& step.after.active is None
            &&& step.after.awaiting_teardown == Some(session_path)
            &&& !step.after.prompt_open
        }),
{
    lemma_refusal(requests, k);
}

/// A request that comes as a signal is treated as a queue that holds it alone.
pub proof fn law_signals_and_queues_ask_alike(
    machine: MachineView,
    session_path: Seq<char>,
    type_: ClientAttentionType,
    group: ClientAttentionGroup,
    message: Seq<char>,
)
    ensures
        machine.step(EventView::AttentionRequired { session_path, type_, group, message })
            == machine.step(
            EventView::CredentialsRequired {
                session_path,
                requests: seq![(type_, group)],
                message,
            },
        ),
{
}

/// Cancelling the prompt tears the session down and shows a failure, and no later
/// request opens a prompt for it.
pub proof fn law_cancelling_ends_the_attempt(
    machine: MachineView,
    session_path: Seq<char>,
    later: EventView,
)
    requires
        machine.active_session() == Some(session_path),
        later is AttentionRequired || later is CredentialsRequired,
    ensures
        ({
            let step = machine.step(EventView::PromptCancelled { session_path });
            &&& step.commands == seq![
                CommandView::ClosePrompt,
                CommandView::Disconnect { session_path },
            ]
            &&& step.after.state == ConnectionState::Failed
            &&& step.after.active is None
            &&& step.after.awaiting_teardown == Some(session_path)
            &&& step.after.step(later) == (StepView { after: step.after, commands: seq![] })
        }),
{
}

/// An event about a session that is neither in use nor going away changes nothing
/// and asks for nothing.
pub proof fn law_strangers_are_ignored(machine: MachineView, event: EventView)
    requires
        subject(event) is Some,
        subject(event) != machine.active_session(),
        subject(event) != machine.awaiting_teardown,
    ensures
        machine.step(event) == (StepView { after: machine, commands: seq![] }),
{
}

/// A status that stands for no state leaves the display alone and puts its name
/// in the log.
pub proof fn law_unmapped_statuses_are_only_noted(
    machine: MachineView,
    session_path: Seq<char>,
    status: StatusView,
)
    requires
        machine.active_session() == Some(session_path),
        machine.awaiting_teardown != Some(session_path),
        status.state() is None,
    ensures
        machine.step(EventView::StatusChanged { session_path, status }) == (StepView {
            after: machine,
            commands: seq![
                CommandView::Note {
                    session_path,
                    message: unmapped_reason(status.major, status.minor),
                },
            ],
        }),
{
}

/// The display follows what openvpn3 says of the session in use, whoever caused
/// it.
pub proof fn law_the_display_follows_the_status(
    machine: MachineView,
    session_path: Seq<char>,
    status: StatusView,
)
    requires
        machine.active_session() == Some(session_path),
        machine.awaiting_teardown != Some(session_path),
        status.state() is Some,
    ensures
        machine.step(EventView::StatusChanged { session_path, status }).after.state
            == status.state()->0,
{
}

/// A session from elsewhere is adopted when the machine has none, and shows as
/// what it is.
pub proof fn law_external_sessions_are_adopted(
    machine: MachineView,
    session_path: Seq<char>,
    config_path: Seq<char>,
    status: StatusView,
)
    requires
        machine.active is None,
        machine.awaiting_teardown is None,
    ensures
        ({
            let after = machine.step(
                EventView::ExternalSessionSeen { session_path, config_path, status },
            ).after;
            &&& after.active_session() == Some(session_path)
            &&& after.active_config() == Some(config_path)
            &&& after.state == (match status.state() {
                Some(state) => state,
                None => machine.state,
            })
        }),
{
}

/// Only the session in use is ever disconnected, and from then on it is the one
/// that is waited for.
pub proof fn law_only_the_session_in_use_is_disconnected(
    machine: MachineView,
    event: EventView,
    session_path: Seq<char>,
)
    requires
        machine.step(event).commands.contains(CommandView::Disconnect { session_path }),
    ensures
        machine.active_session() == Some(session_path),
        machine.step(event).after.active is None,
        machine.step(event).after.awaiting_teardown == Some(session_path),
{
}

/// A dismissed failure is no longer shown, and dismissing does nothing else.
pub proof fn law_dismissing_clears_a_failure(machine: MachineView)
    ensures
        ({
            let step = machine.step(EventView::FailureDismissed);
            &&& step.commands == Seq::<CommandView>::empty()
            &&& machine.state == ConnectionState::Failed ==> step.after.state
                == ConnectionState::Disconnected
            &&& machine.state != ConnectionState::Failed ==> step.after == machine
            &&& step.after == (MachineView { state: step.after.state, ..machine })
        }),
{
}

/// While a prompt is open, another request for input that a prompt answers changes
/// nothing: a duplicate does not reopen the prompt.
pub proof fn law_an_open_prompt_is_not_reopened(
    machine: MachineView,
    session_path: Seq<char>,
    requests: Seq<(ClientAttentionType, ClientAttentionGroup)>,
    type_: ClientAttentionType,
    group: ClientAttentionGroup,
    message: Seq<char>,
)
    requires
        machine.prompt_open,
        first_refusal(requests) is None,
        prompt_for(type_, group) is Some,
    ensures
        machine.step(EventView::CredentialsRequired { session_path, requests, message })
            == machine.unmoved(),
        machine.step(EventView::AttentionRequired { session_path, type_, group, message })
            == machine.unmoved(),
{
    reveal_with_fuel(first_refusal, 2);
}

/// A pause that is not the last one recorded is recorded: the display shows a session
/// in flux, and the log names the status.
pub proof fn law_pauses_are_recorded(
    machine: MachineView,
    session_path: Seq<char>,
    status: StatusView,
)
    requires
        machine.active_session() == Some(session_path),
        machine.awaiting_teardown != Some(session_path),
        in_pause(status.major, status.minor),
        machine.recorded_pause != Some(status.minor),
    ensures
        ({
            let step = machine.step(EventView::StatusChanged { session_path, status });
            &&& step.after.state == ConnectionState::Connecting
            &&& step.commands.last() == (CommandView::Note {
                session_path,
                message: pause_record(status.major, status.minor),
            })
            &&& step.commands.len() == if machine.prompt_open {
                2nat
            } else {
                1nat
            }
        }),
{
}

/// A pause is recorded once: the same status again changes nothing and asks for
/// nothing, however often it is read.
pub proof fn law_a_lasting_pause_is_recorded_once(
    machine: MachineView,
    session_path: Seq<char>,
    status: StatusView,
    again: StatusView,
)
    requires
        machine.active_session() == Some(session_path),
        machine.awaiting_teardown != Some(session_path),
        in_pause(status.major, status.minor),
        again.major == status.major,
        again.minor == status.minor,
    ensures
        ({
            let after = machine.step(EventView::StatusChanged { session_path, status }).after;
            after.step(EventView::StatusChanged { session_path, status: again })
                == after.unmoved()
        }),
{
}

/// A session that is in use anew has its pauses recorded, whatever was recorded of
/// the last one; and so has one that was not paused in between.
pub proof fn law_a_new_pause_is_recorded_again(
    machine: MachineView,
    session_path: Seq<char>,
    config_path: Seq<char>,
    status: StatusView,
)
    requires
        machine.active_session() == Some(session_path),
        machine.awaiting_teardown != Some(session_path),
        status.state() is Some,
        !in_pause(status.major, status.minor),
    ensures
        machine.step(EventView::SessionCreated { session_path, config_path }).after.recorded_pause
            is None,
        machine.step(EventView::StatusChanged { session_path, status }).after.recorded_pause
            is None,
{
}

/// Once the session being torn down is gone, no prompt counts as open.
pub proof fn law_no_prompt_outlives_a_teardown(
    machine: MachineView,
    event: EventView,
    session_path: Seq<char>,
)
    requires
        machine.awaiting_teardown == Some(session_path),
        says_gone(event, session_path),
    ensures
        !machine.step(event).after.prompt_open,
{
}

/// The requests that a prompt answers: those for a name and password, a passphrase,
/// or the answer to a challenge.
pub open spec fn answerable(request: (ClientAttentionType, ClientAttentionGroup)) -> bool {
    request.0 == ClientAttentionType::Credentials && (request.1
        == ClientAttentionGroup::UserPassword || request.1 == ClientAttentionGroup::PkPassphrase
        || request.1 == ClientAttentionGroup::ChallengeStatic || request.1
        == ClientAttentionGroup::ChallengeDynamic)
}

/// Where every request is answerable, none is refused.
proof fn lemma_answerable(requests: Seq<(ClientAttentionType, ClientAttentionGroup)>)
    requires
        forall|k: int| 0 <= k < requests.len() ==> answerable(#[trigger] requests[k]),
    ensures
        first_refusal(requests) is None,
    decreases requests.len(),
{
    if requests.len() > 0 {
        assert(answerable(requests[0]));
        assert forall|k: int| 0 <= k < requests.drop_first().len() implies answerable(
            #[trigger] requests.drop_first()[k],
        ) by {
            assert(answerable(requests[k + 1]));
        }
        lemma_answerable(requests.drop_first());
    }
}

/// A prompt that opens is of the kind of its first request and covers all of them, in
/// their order and with their message. It opens for the session in use, which stays in
/// use.
pub proof fn law_prompts_are_of_the_kind_asked_for(
    machine: MachineView,
    session_path: Seq<char>,
    requests: Seq<(ClientAttentionType, ClientAttentionGroup)>,
    message: Seq<char>,
)
    requires
        machine.active_session() == Some(session_path),
        !machine.prompt_open,
        requests.len() > 0,
        forall|k: int| 0 <= k < requests.len() ==> answerable(#[trigger] requests[k]),
    ensures
        ({
            let step = machine.step(
                EventView::CredentialsRequired { session_path, requests, message },
            );
            let group = requests[0].1;
            &&& step.commands.len() == 1
            &&& step.commands[0] is OpenPrompt
            &&& step.commands[0]->OpenPrompt_session_path == session_path
            &&& step.commands[0]->OpenPrompt_requests == requests
            &&& step.commands[0]->OpenPrompt_message == message
            &&& group == ClientAttentionGroup::UserPassword ==> step.commands[0]->OpenPrompt_kind
                == PromptKind::UserPassword
            &&& group == ClientAttentionGroup::PkPassphrase ==> step.commands[0]->OpenPrompt_kind
                == PromptKind::PrivateKeyPassphrase
            &&& group == ClientAttentionGroup::ChallengeStatic || group
                == ClientAttentionGroup::ChallengeDynamic ==> step.commands[0]->OpenPrompt_kind
                == PromptKind::Challenge
            &&& step.after.prompt_open
            &&& step.after.state == ConnectionState::AuthPending
            &&& step.after.active == machine.active
            &&& step.after.pending_target == machine.pending_target
            &&& step.after.awaiting_teardown == machine.awaiting_teardown
            &&& step.after.recorded_pause == machine.recorded_pause
        }),
{
    lemma_answerable(requests);
    assert(answerable(requests[0]));
}

/// After a switch, the first request of the new session that a prompt answers opens
/// one, whatever was open when the profile was picked.
pub proof fn law_the_next_session_can_ask(
    machine: MachineView,
    gone: EventView,
    old_session: Seq<char>,
    session_path: Seq<char>,
    config_path: Seq<char>,
    requests: Seq<(ClientAttentionType, ClientAttentionGroup)>,
    message: Seq<char>,
)
    requires
        machine.awaiting_teardown == Some(old_session),
        says_gone(gone, old_session),
        requests.len() > 0,
        forall|k: int| 0 <= k < requests.len() ==> answerable(#[trigger] requests[k]),
    ensures
        ({
            let created = machine.step(gone).after.step(
                EventView::SessionCreated { session_path, config_path },
            ).after;
            let asked = created.step(
                EventView::CredentialsRequired { session_path, requests, message },
            );
            &&& asked.commands.len() == 1
            &&& asked.commands[0] is OpenPrompt
            &&& asked.commands[0]->OpenPrompt_session_path == session_path
            &&& asked.after.prompt_open
        }),
{
    lemma_answerable(requests);
}

/// A failure in view outlives its session: with no profile waiting, word that the
/// session in use was removed, or that the one being torn down is gone, leaves the
/// failure where it was. From any other state the display settles on disconnected.
pub proof fn law_a_failure_outlives_its_session(
    machine: MachineView,
    event: EventView,
    session_path: Seq<char>,
)
    requires
        machine.pending_target is None,
        (event == (EventView::SessionRemoved { session_path }) && machine.active_session() == Some(
            session_path,
        )) || (says_gone(event, session_path) && machine.awaiting_teardown == Some(session_path)),
    ensures
        machine.state == ConnectionState::Failed ==> machine.step(event).after.state
            == ConnectionState::Failed,
        machine.state != ConnectionState::Failed ==> machine.step(event).after.state
            == ConnectionState::Disconnected,
        machine.step(event).commands.len() == 0,
{
}

/// A profile that waits shows as connecting from the moment that its turn comes.
pub proof fn law_a_waiting_profile_takes_over(
    machine: MachineView,
    event: EventView,
    session_path: Seq<char>,
    config_path: Seq<char>,
)
    requires
        machine.awaiting_teardown == Some(session_path),
        says_gone(event, session_path),
        machine.pending_target == Some(config_path),
    ensures
        machine.step(event).after.state == ConnectionState::Connecting,
        machine.step(event).after.active == machine.active,
        machine.step(event).commands.len() == 1,
        machine.step(event).commands[0] is NewTunnel,
        machine.step(event).commands[0]->NewTunnel_config_path == config_path,
{
}

/// What says that a session is gone: its removal, a connection that is disconnected or
/// done, or a session that is removed.
pub proof fn law_what_says_gone(
    session_path: Seq<char>,
    other: Seq<char>,
    status: StatusView,
)
    ensures
        says_gone(EventView::SessionRemoved { session_path: other }, session_path) <==> other
            == session_path,
        says_gone(EventView::StatusChanged { session_path: other, status }, session_path) <==> other
            == session_path && ((status.major == StatusMajor::Connection && (status.minor
            == StatusMinor::ConnDisconnected || status.minor == StatusMinor::ConnDone)) || (
        status.major == StatusMajor::Session && status.minor == StatusMinor::SessRemoved)),
{
}

/// With nothing in use and nothing going away, selecting a profile starts it at once
/// and shows it as connecting. No session is in use until one is created.
pub proof fn law_selecting_starts_a_tunnel(machine: MachineView, config_path: Seq<char>)
    requires
        machine.active is None,
        machine.awaiting_teardown is None,
    ensures
        ({
            let step = machine.step(EventView::ProfileSelected { config_path });
            &&& step.commands.len() == 1
            &&& step.commands[0] is NewTunnel
            &&& step.commands[0]->NewTunnel_config_path == config_path
            &&& step.after.state == ConnectionState::Connecting
            &&& step.after.active is None
            &&& step.after.awaiting_teardown is None
            &&& step.after.pending_target == machine.pending_target
            &&& step.after.prompt_open == machine.prompt_open
            &&& step.after.recorded_pause == machine.recorded_pause
        }),
{
}

/// Selecting a profile while a session is in use shows as connecting at once, and
/// leaves word of an open prompt until the session is gone.
pub proof fn law_switching_shows_at_once(machine: MachineView, config_path: Seq<char>)
    requires
        machine.active is Some,
        machine.awaiting_teardown is None,
    ensures
        ({
            let after = machine.step(EventView::ProfileSelected { config_path }).after;
            &&& after.state == ConnectionState::Connecting
            &&& after.prompt_open == machine.prompt_open
            &&& after.recorded_pause == machine.recorded_pause
        }),
{
}

/// Selecting a profile while a session goes away asks for nothing and changes nothing
/// but the choice that waits.
pub proof fn law_a_choice_waits_for_the_teardown(machine: MachineView, config_path: Seq<char>)
    requires
        machine.awaiting_teardown is Some,
    ensures
        ({
            let step = machine.step(EventView::ProfileSelected { config_path });
            &&& step.commands.len() == 0
            &&& step.after.pending_target == Some(config_path)
            &&& step.after.state == machine.state
            &&& step.after.active == machine.active
            &&& step.after.awaiting_teardown == machine.awaiting_teardown
            &&& step.after.prompt_open == machine.prompt_open
            &&& step.after.recorded_pause == machine.recorded_pause
        }),
{
}

/// A request to disconnect drops the choice that waits, and leaves the display to what
/// openvpn3 says next.
pub proof fn law_disconnecting_drops_the_choice(machine: MachineView)
    ensures
        ({
            let after = machine.step(EventView::DisconnectRequested).after;
            &&& after.pending_target is None
            &&& after.active is None
            &&& after.state == machine.state
            &&& after.prompt_open == machine.prompt_open
            &&& after.recorded_pause == machine.recorded_pause
            &&& machine.active is None ==> after.awaiting_teardown == machine.awaiting_teardown
            &&& machine.active is Some ==> after.awaiting_teardown == Some(
                machine.active->0.session_path,
            )
        }),
{
}

/// A session that was created is in use from then on, for the profile that it was
/// created for, and shows as connecting.
pub proof fn law_created_sessions_are_in_use(
    machine: MachineView,
    session_path: Seq<char>,
    config_path: Seq<char>,
)
    ensures
        ({
            let after = machine.step(EventView::SessionCreated { session_path, config_path }).after;
            &&& after.active == Some(ActiveSessionView { session_path, config_path })
            &&& after.active_session() == Some(session_path)
            &&& after.active_config() == Some(config_path)
            &&& after.state == ConnectionState::Connecting
            &&& after.pending_target is None
            &&& after.awaiting_teardown == machine.awaiting_teardown
            &&& after.prompt_open == machine.prompt_open
            &&& after.recorded_pause is None
        }),
{
}

/// The session in use connects on word that it is ready, and stays in use.
pub proof fn law_ready_sessions_connect(machine: MachineView, session_path: Seq<char>)
    requires
        machine.active_session() == Some(session_path),
    ensures
        ({
            let step = machine.step(EventView::SessionReady { session_path });
            &&& step.commands.len() == 1
            &&& step.commands[0] is Connect
            &&& step.commands[0]->Connect_session_path == session_path
            &&& step.after.state == ConnectionState::Connecting
            &&& step.after.active == machine.active
            &&& step.after.pending_target == machine.pending_target
            &&& step.after.awaiting_teardown == machine.awaiting_teardown
            &&& step.after.prompt_open == machine.prompt_open
            &&& step.after.recorded_pause == machine.recorded_pause
        }),
{
}

/// A prompt that is open closes as soon as the session in use is no longer waiting for
/// input, before anything is noted, and only then. A status changes neither which
/// session is in use nor what waits.
pub proof fn law_prompts_close_when_input_is_no_longer_wanted(
    machine: MachineView,
    session_path: Seq<char>,
    status: StatusView,
)
    requires
        machine.active_session() == Some(session_path),
        machine.awaiting_teardown != Some(session_path),
        status.state() is Some,
    ensures
        ({
            let step = machine.step(EventView::StatusChanged { session_path, status });
            let wanted = status.state() == Some(ConnectionState::AuthPending);
            &&& step.after.prompt_open <==> machine.prompt_open && wanted
            &&& step.commands.contains(CommandView::ClosePrompt) <==> machine.prompt_open && !wanted
            &&& machine.prompt_open && !wanted ==> step.commands[0] is ClosePrompt
            &&& !in_pause(status.major, status.minor) ==> step.commands.len() == if
                machine.prompt_open && !wanted {
                1nat
            } else {
                0nat
            }
            &&& step.after.active == machine.active
            &&& step.after.pending_target == machine.pending_target
            &&& step.after.awaiting_teardown == machine.awaiting_teardown
        }),
{
    let step = machine.step(EventView::StatusChanged { session_path, status });
    if machine.prompt_open && status.state() != Some(ConnectionState::AuthPending) {
        assert(step.commands[0] == CommandView::ClosePrompt);
    }
}

/// Which statuses are pauses: of a connection that is pausing, paused or resuming. The
/// last one seen of the session in use is what was recorded.
pub proof fn law_the_last_pause_is_remembered(
    machine: MachineView,
    session_path: Seq<char>,
    status: StatusView,
)
    requires
        machine.active_session() == Some(session_path),
        machine.awaiting_teardown != Some(session_path),
        status.state() is Some,
    ensures
        in_pause(status.major, status.minor) <==> status.major == StatusMajor::Connection && (
        status.minor == StatusMinor::ConnPausing || status.minor == StatusMinor::ConnPaused
            || status.minor == StatusMinor::ConnResuming),
        in_pause(status.major, status.minor) ==> machine.step(
            EventView::StatusChanged { session_path, status },
        ).after.recorded_pause == Some(status.minor),
        !in_pause(status.major, status.minor) ==> machine.step(
            EventView::StatusChanged { session_path, status },
        ).after.recorded_pause is None,
{
}

/// A session from elsewhere is left alone while one is in use or going away.
pub proof fn law_a_busy_machine_adopts_nothing(
    machine: MachineView,
    session_path: Seq<char>,
    config_path: Seq<char>,
    status: StatusView,
)
    requires
        machine.active is Some || machine.awaiting_teardown is Some,
    ensures
        ({
            let step = machine.step(
                EventView::ExternalSessionSeen { session_path, config_path, status },
            );
            &&& step.after == machine
            &&& step.commands.len() == 0
        }),
{
}

/// Adopting a session is having it in use and then hearing of its status.
pub proof fn law_adopting_is_hearing_of_the_status(
    machine: MachineView,
    session_path: Seq<char>,
    config_path: Seq<char>,
    status: StatusView,
)
    requires
        machine.active is None,
        machine.awaiting_teardown is None,
    ensures
        machine.step(EventView::ExternalSessionSeen { session_path, config_path, status }) == (
        MachineView {
            active: Some(ActiveSessionView { session_path, config_path }),
            recorded_pause: None,
            ..machine
        }).step(EventView::StatusChanged { session_path, status }),
{
}

/// Of a session that is going away nothing is heard but that it is gone.
pub proof fn law_a_session_going_away_is_not_heard(
    machine: MachineView,
    event: EventView,
    session_path: Seq<char>,
)
    requires
        one_session(machine),
        machine.awaiting_teardown == Some(session_path),
        subject(event) == Some(session_path),
        !says_gone(event, session_path),
    ensures
        machine.step(event).after == machine,
        machine.step(event).commands.len() == 0,
{
}

/// When the session in use is removed, none is in use and no prompt is open. Nothing is
/// asked for, and a choice that waits still waits.
pub proof fn law_a_removed_session_is_forgotten(machine: MachineView, session_path: Seq<char>)
    requires
        machine.active_session() == Some(session_path),
        machine.awaiting_teardown != Some(session_path),
    ensures
        ({
            let step = machine.step(EventView::SessionRemoved { session_path });
            &&& step.commands.len() == 0
            &&& step.after.active is None
            &&& !step.after.prompt_open
            &&& step.after.pending_target == machine.pending_target
            &&& step.after.awaiting_teardown == machine.awaiting_teardown
            &&& step.after.recorded_pause == machine.recorded_pause
        }),
{
}

/// The end of a teardown leaves the session in use and what was recorded alone.
pub proof fn law_a_teardown_ends_quietly(
    machine: MachineView,
    event: EventView,
    session_path: Seq<char>,
)
    requires
        machine.awaiting_teardown == Some(session_path),
        says_gone(event, session_path),
    ensures
        machine.step(event).after.active == machine.active,
        machine.step(event).after.recorded_pause == machine.recorded_pause,
{
}

/// A submitted prompt is closed, and the session that it was for stays in use.
pub proof fn law_submitting_closes_the_prompt(
    machine: MachineView,
    session_path: Seq<char>,
    responses: Seq<InputResponseView>,
)
    requires
        machine.active_session() == Some(session_path),
    ensures
        ({
            let after = machine.step(EventView::PromptSubmitted { session_path, responses }).after;
            &&& !after.prompt_open
            &&& after.active == machine.active
            &&& after.pending_target == machine.pending_target
            &&& after.awaiting_teardown == machine.awaiting_teardown
            &&& after.recorded_pause == machine.recorded_pause
        }),
{
}

/// A cancelled prompt is closed, and no choice waits any longer.
pub proof fn law_cancelling_closes_the_prompt(machine: MachineView, session_path: Seq<char>)
    requires
        machine.active_session() == Some(session_path),
    ensures
        ({
            let after = machine.step(EventView::PromptCancelled { session_path }).after;
            &&& !after.prompt_open
            &&& after.pending_target is None
            &&& after.recorded_pause == machine.recorded_pause
        }),
{
}

/// The reason in the log is that of the first request that cannot be answered. A choice
/// that waits still waits.
pub proof fn law_the_first_unsupported_request_is_explained(
    machine: MachineView,
    session_path: Seq<char>,
    requests: Seq<(ClientAttentionType, ClientAttentionGroup)>,
    message: Seq<char>,
    k: int,
)
    requires
        machine.active_session() == Some(session_path),
        0 <= k < requests.len(),
        !answerable(requests[k]),
        forall|i: int| 0 <= i < k ==> answerable(#[trigger] requests[i]),
    ensures
        ({
            let step = machine.step(
                EventView::CredentialsRequired { session_path, requests, message },
            );
            let noted = step.commands.len() - 2;
            &&& noted >= 0
            &&& step.commands[noted] is Note
            &&& step.commands[noted]->Note_session_path == session_path
            &&& step.commands[noted]->Note_message == routing(
                requests[k].0,
                requests[k].1,
            )->reason
            &&& step.commands.contains(CommandView::ClosePrompt) <==> machine.prompt_open
            &&& step.after.state == ConnectionState::Failed
            &&& step.after.pending_target == machine.pending_target
            &&& step.after.recorded_pause == machine.recorded_pause
        }),
{
    lemma_first_refusal(requests, k);
    let step = machine.step(EventView::CredentialsRequired { session_path, requests, message });
    if machine.prompt_open {
        assert(step.commands[0] == CommandView::ClosePrompt);
    }
}

/// What is said is the reason of the first request that cannot be answered.
proof fn lemma_first_refusal(requests: Seq<(ClientAttentionType, ClientAttentionGroup)>, k: int)
    requires
        0 <= k < requests.len(),
        !answerable(requests[k]),
        forall|i: int| 0 <= i < k ==> answerable(#[trigger] requests[i]),
    ensures
        first_refusal(requests) == Some(routing(requests[k].0, requests[k].1)->reason),
    decreases k,
{
    if k > 0 {
        let rest = requests.drop_first();
        assert(answerable(requests[0]));
        assert forall|i: int| 0 <= i < k - 1 implies answerable(#[trigger] rest[i]) by {
            assert(answerable(requests[i + 1]));
        }
        lemma_first_refusal(rest, k - 1);
    }
}

/// A queue that holds nothing asks for nothing.
pub proof fn law_an_empty_queue_asks_for_nothing(
    machine: MachineView,
    session_path: Seq<char>,
    message: Seq<char>,
)
    ensures
        ({
            let step = machine.step(
                EventView::CredentialsRequired { session_path, requests: seq![], message },
            );
            &&& step.after == machine
            &&& step.commands.len() == 0
        }),
{
}

/// A machine starts out disconnected, with nothing in use, nothing waiting and nothing
/// open.
pub proof fn law_a_machine_starts_out_idle()
    ensures
        MachineView::initial().state == ConnectionState::Disconnected,
        MachineView::initial().active is None,
        MachineView::initial().pending_target is None,
        MachineView::initial().awaiting_teardown is None,
        !MachineView::initial().prompt_open,
        MachineView::initial().recorded_pause is None,
{
}

} // verus!

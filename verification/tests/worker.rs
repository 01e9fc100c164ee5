use openvpn3_dbus::attention::{ClientAttentionGroup, ClientAttentionType, PromptKind};
use openvpn3_dbus::calls::{Call, QueueItem, Reply, WireInput};
use openvpn3_dbus::dbus::{Snapshot, UiCommand, Wire};
use openvpn3_dbus::logbuf::LogEntry;
use openvpn3_dbus::machine::InputResponse;
use openvpn3_dbus::roster::ListedProfile;
use openvpn3_dbus::status::{ConnectionState, Status, StatusMajor, StatusMinor};
use openvpn3_dbus::worker::Worker;
use openvpn3_dbus::worker_model::Progress;

const WORK: &str = "/net/openvpn/v3/configuration/work";
const HOME: &str = "/net/openvpn/v3/configuration/home";
const FIRST: &str = "/net/openvpn/v3/sessions/first";
const SECOND: &str = "/net/openvpn/v3/sessions/second";

fn owned(text: &str) -> String {
    text.to_owned()
}

/// Steps the worker until it asks for something or is idle.
fn next_call(worker: &mut Worker) -> Option<Call> {
    loop {
        match worker.step() {
            Progress::Worked => {}
            Progress::Idle => return None,
            Progress::Waiting => panic!("a call is out already"),
            Progress::Ask(call) => return Some(call),
        }
    }
}

fn expect(worker: &mut Worker, call: Call, reply: Reply) {
    assert_eq!(next_call(worker), Some(call));
    assert!(worker.resume(reply));
}

fn expect_idle(worker: &mut Worker) {
    assert_eq!(next_call(worker), None);
}

fn listed() -> Vec<ListedProfile> {
    vec![
        ListedProfile { config_path: owned(WORK), raw_name: owned("Work") },
        ListedProfile { config_path: owned(HOME), raw_name: owned("Home") },
    ]
}

/// A worker that has listed two profiles and found no session.
fn started() -> Worker {
    let mut worker = Worker::new();
    expect(&mut worker, Call::ListProfiles, Reply::Profiles(listed()));
    expect(&mut worker, Call::ListSessions, Reply::Sessions(vec![]));
    expect(&mut worker, Call::WatchSessions, Reply::Done);
    expect_idle(&mut worker);
    worker
}

fn session(path: &str) -> Call {
    Call::Subscribe { session_path: owned(path) }
}

/// A profile is imported to last and for repeated use.
fn import(name: &str, config: &str) -> Call {
    Call::Import {
        name: owned(name),
        config: owned(config),
        single_use: false,
        persistent: true,
    }
}

/// Has the worker start a session, up to the readiness check.
fn start_session(worker: &mut Worker, config: &str, path: &str) {
    worker.on_ui_command(UiCommand::SelectProfile(owned(config)));
    expect(
        worker,
        Call::NewTunnel { config_path: owned(config) },
        Reply::Tunnel { session_path: owned(path), now: 1_000 },
    );
    expect(worker, session(path), Reply::Done);
    expect(worker, Call::EnableLogForward { session_path: owned(path) }, Reply::Done);
}

/// A worker that is connected to the work profile.
fn connected() -> Worker {
    let mut worker = started();
    start_session(&mut worker, WORK, FIRST);
    expect(&mut worker, Call::CheckReady { session_path: owned(FIRST) }, Reply::Done);
    expect(&mut worker, Call::Connect { session_path: owned(FIRST) }, Reply::Done);
    expect_idle(&mut worker);
    worker.on_wire(status_wire(FIRST, StatusMinor::ConnConnected, "up"));
    expect_idle(&mut worker);
    assert_eq!(worker.state(), ConnectionState::Connected);
    worker
}

fn status_wire(path: &str, minor: StatusMinor, message: &str) -> Wire {
    Wire::Status {
        session: owned(path),
        status: Status { major: StatusMajor::Connection, minor, message: owned(message) },
    }
}

fn lines(snapshot: &Snapshot) -> Vec<&str> {
    match &snapshot.log {
        Some(lines) => lines.iter().map(|line| line.as_str()).collect(),
        None => vec![],
    }
}

fn item(id: u32, name: &str, hidden_input: bool) -> Option<QueueItem> {
    Some(QueueItem { id, name: owned(name), description: owned(""), hidden_input })
}

#[test]
fn a_new_worker_lists_profiles_then_adopts_then_watches() {
    let worker = started();
    let snapshot = worker.publish();
    assert_eq!(snapshot.state, ConnectionState::Disconnected);
    let names: Vec<&str> = snapshot.profiles.iter().map(|p| p.name.as_str()).collect();
    assert_eq!(names, ["Home", "Work"]);
    assert_eq!(snapshot.profiles[0].config_path, HOME);
    assert_eq!(snapshot.unavailable, None);
    assert_eq!(snapshot.log, None);
    assert!(snapshot.prompt.is_none());
}

#[test]
fn an_installed_openvpn3_that_does_not_answer_says_so() {
    let mut worker = Worker::new();
    expect(
        &mut worker,
        Call::ListProfiles,
        Reply::ProfilesFailed { error: owned("timed out"), installed: true },
    );
    assert_eq!(
        worker.publish().unavailable.as_deref(),
        Some(
            "openvpn3 is installed but its services are not answering on the D-Bus system bus \
             (timed out). Try `openvpn3 configs-list` in a terminal — if that fails too, the \
             openvpn3 services are not running."
        )
    );
}

#[test]
fn a_missing_openvpn3_says_how_to_get_it() {
    let mut worker = started();
    worker.on_ui_command(UiCommand::RefreshProfiles);
    expect(
        &mut worker,
        Call::ListProfiles,
        Reply::ProfilesFailed { error: owned("no such name"), installed: false },
    );
    let snapshot = worker.publish();
    assert_eq!(
        snapshot.unavailable.as_deref(),
        Some(
            "openvpn3-linux is not installed.\n\nAdd OpenVPN's apt repository, then:\nsudo apt \
             install openvpn3"
        )
    );
    assert!(snapshot.profiles.is_empty());
}

#[test]
fn a_session_that_is_already_there_is_adopted() {
    let mut worker = Worker::new();
    expect(&mut worker, Call::ListProfiles, Reply::Profiles(listed()));
    expect(
        &mut worker,
        Call::ListSessions,
        Reply::Sessions(vec![owned("/gone"), owned("/odd"), owned(FIRST), owned(SECOND)]),
    );
    expect(&mut worker, Call::ReadStatus { session_path: owned("/gone") }, Reply::Unreachable);
    // A status that does not decode passes the session over.
    expect(
        &mut worker,
        Call::ReadStatus { session_path: owned("/odd") },
        Reply::Status { major: 99, minor: 7, message: owned("") },
    );
    expect(
        &mut worker,
        Call::ReadStatus { session_path: owned(FIRST) },
        Reply::Status { major: 2, minor: 7, message: owned("up") },
    );
    expect(
        &mut worker,
        Call::ReadOrigin { session_path: owned(FIRST) },
        Reply::Origin { config_path: Some(owned(WORK)), created: Some(77) },
    );
    expect(&mut worker, session(FIRST), Reply::Done);
    // The second session is left alone.
    expect(&mut worker, Call::WatchSessions, Reply::Done);
    expect_idle(&mut worker);
    let snapshot = worker.publish();
    assert_eq!(snapshot.state, ConnectionState::Connected);
    assert_eq!(snapshot.active_config.as_deref(), Some(WORK));
    assert_eq!(snapshot.active_name.as_deref(), Some("Work"));
    assert_eq!(snapshot.session_created, Some(77));
    assert_eq!(snapshot.log, None);
}

#[test]
fn wide_status_numbers_are_not_taken_for_known_ones() {
    for (major, minor) in [(0x102, 7), (2, 0x1_0007)] {
        let mut worker = Worker::new();
        expect(&mut worker, Call::ListProfiles, Reply::Profiles(vec![]));
        expect(&mut worker, Call::ListSessions, Reply::Sessions(vec![owned(FIRST)]));
        expect(
            &mut worker,
            Call::ReadStatus { session_path: owned(FIRST) },
            Reply::Status { major, minor, message: owned("") },
        );
        expect(&mut worker, Call::WatchSessions, Reply::Done);
        expect_idle(&mut worker);
        assert_eq!(worker.state(), ConnectionState::Disconnected);
    }
}

#[test]
fn a_session_of_unknown_origin_has_no_name() {
    let mut worker = Worker::new();
    expect(&mut worker, Call::ListProfiles, Reply::Profiles(listed()));
    expect(&mut worker, Call::ListSessions, Reply::Sessions(vec![owned(FIRST)]));
    expect(
        &mut worker,
        Call::ReadStatus { session_path: owned(FIRST) },
        Reply::Status { major: 2, minor: 7, message: owned("") },
    );
    expect(
        &mut worker,
        Call::ReadOrigin { session_path: owned(FIRST) },
        Reply::Origin { config_path: None, created: None },
    );
    let snapshot = worker.publish();
    assert_eq!(snapshot.active_config.as_deref(), Some(""));
    assert_eq!(snapshot.active_name, None);
    assert_eq!(snapshot.session_created, None);
}

#[test]
fn a_bus_that_cannot_list_sessions_is_survived() {
    let mut worker = Worker::new();
    expect(&mut worker, Call::ListProfiles, Reply::Profiles(vec![]));
    expect(&mut worker, Call::ListSessions, Reply::Unreachable);
    expect(&mut worker, Call::WatchSessions, Reply::Done);
    expect_idle(&mut worker);
}

#[test]
fn a_session_connects_once_it_is_ready() {
    let worker = connected();
    let snapshot = worker.publish();
    assert_eq!(snapshot.session_created, Some(1_000));
    assert_eq!(snapshot.status_message, "up");
    assert_eq!(snapshot.active_name.as_deref(), Some("Work"));
}

#[test]
fn signals_are_followed_before_the_machine_hears_of_a_session() {
    let mut worker = started();
    worker.on_ui_command(UiCommand::SelectProfile(owned(WORK)));
    expect(
        &mut worker,
        Call::NewTunnel { config_path: owned(WORK) },
        Reply::Tunnel { session_path: owned(FIRST), now: 5 },
    );
    assert_eq!(worker.publish().active_config, None);
    expect(&mut worker, session(FIRST), Reply::Done);
    assert_eq!(
        next_call(&mut worker),
        Some(Call::EnableLogForward { session_path: owned(FIRST) })
    );
    assert_eq!(worker.publish().active_config.as_deref(), Some(WORK));
}

#[test]
fn failures_on_the_way_to_a_connection_are_logged() {
    let mut worker = started();
    worker.on_ui_command(UiCommand::SelectProfile(owned(WORK)));
    expect(
        &mut worker,
        Call::NewTunnel { config_path: owned(WORK) },
        Reply::Tunnel { session_path: owned(FIRST), now: 5 },
    );
    expect(&mut worker, session(FIRST), Reply::Done);
    expect(
        &mut worker,
        Call::EnableLogForward { session_path: owned(FIRST) },
        Reply::Failed(owned("denied")),
    );
    expect(&mut worker, Call::CheckReady { session_path: owned(FIRST) }, Reply::Done);
    expect(
        &mut worker,
        Call::Connect { session_path: owned(FIRST) },
        Reply::Failed(owned("no route")),
    );
    expect_idle(&mut worker);
    assert_eq!(
        lines(&worker.publish()),
        ["Log forwarding unavailable: denied", "Connect failed: no route"]
    );
}

#[test]
fn a_session_that_cannot_be_started_is_logged_under_its_profile() {
    let mut worker = started();
    worker.on_ui_command(UiCommand::SelectProfile(owned(WORK)));
    expect(
        &mut worker,
        Call::NewTunnel { config_path: owned(WORK) },
        Reply::Failed(owned("busy")),
    );
    expect_idle(&mut worker);
    assert_eq!(lines(&worker.publish()), ["Could not start session: busy"]);
}

#[test]
fn a_profile_that_is_no_object_path_starts_nothing() {
    for path in ["", "work", "/work/", "/wo rk", "//work", "/wörk"] {
        let mut worker = started();
        worker.on_ui_command(UiCommand::SelectProfile(owned(path)));
        expect_idle(&mut worker);
    }
}

#[test]
fn a_switch_waits_for_the_old_session_to_be_gone() {
    let mut worker = connected();
    worker.on_ui_command(UiCommand::SelectProfile(owned(HOME)));
    expect(
        &mut worker,
        Call::ReadStatus { session_path: owned(FIRST) },
        Reply::Status { major: 2, minor: 7, message: owned("") },
    );
    expect(&mut worker, Call::ReadCreated { session_path: owned(FIRST) }, Reply::Created(Some(9)));
    expect(&mut worker, Call::Disconnect { session_path: owned(FIRST) }, Reply::Done);
    expect_idle(&mut worker);
    assert!(worker.transition_in_flight());
    assert_eq!(worker.publish().session_created, Some(9));
    worker.on_wire(Wire::SessionManager { path: owned(FIRST), removed: true });
    expect(
        &mut worker,
        Call::NewTunnel { config_path: owned(HOME) },
        Reply::Tunnel { session_path: owned(SECOND), now: 20 },
    );
    expect(&mut worker, session(SECOND), Reply::Done);
}

#[test]
fn a_selection_while_a_session_starts_tears_it_down_first() {
    let mut worker = started();
    worker.on_ui_command(UiCommand::SelectProfile(owned(WORK)));
    assert_eq!(
        next_call(&mut worker),
        Some(Call::NewTunnel { config_path: owned(WORK) })
    );
    // The second choice comes in while the call is out.
    worker.on_ui_command(UiCommand::SelectProfile(owned(HOME)));
    assert!(matches!(worker.step(), Progress::Waiting));
    assert!(worker.resume(Reply::Tunnel { session_path: owned(FIRST), now: 5 }));
    expect(&mut worker, session(FIRST), Reply::Done);
    expect(&mut worker, Call::EnableLogForward { session_path: owned(FIRST) }, Reply::Done);
    expect(&mut worker, Call::CheckReady { session_path: owned(FIRST) }, Reply::Unreachable);
    expect(&mut worker, Call::ReadStatus { session_path: owned(FIRST) }, Reply::Unreachable);
    expect(&mut worker, Call::Disconnect { session_path: owned(FIRST) }, Reply::Done);
    expect_idle(&mut worker);
}

#[test]
fn a_missed_teardown_is_noticed_when_the_user_acts() {
    let mut worker = connected();
    worker.on_ui_command(UiCommand::Disconnect);
    expect(&mut worker, Call::ReadStatus { session_path: owned(FIRST) }, Reply::Unreachable);
    expect(&mut worker, Call::Disconnect { session_path: owned(FIRST) }, Reply::Failed(owned("x")));
    expect_idle(&mut worker);
    // Still listed: the wait goes on, and the choice waits with it.
    worker.on_ui_command(UiCommand::SelectProfile(owned(HOME)));
    expect(&mut worker, Call::ListSessions, Reply::Sessions(vec![owned(FIRST)]));
    expect_idle(&mut worker);
    // No longer listed: the choice that waited is started.
    worker.settle();
    expect(&mut worker, Call::ListSessions, Reply::Sessions(vec![owned(SECOND)]));
    assert_eq!(
        next_call(&mut worker),
        Some(Call::NewTunnel { config_path: owned(HOME) })
    );
}

#[test]
fn a_settled_worker_is_left_alone() {
    let mut worker = connected();
    assert!(!worker.transition_in_flight());
    worker.settle();
    expect_idle(&mut worker);
}

#[test]
fn a_transition_in_flight_is_held_against_openvpn3() {
    let mut worker = started();
    start_session(&mut worker, WORK, FIRST);
    expect(&mut worker, Call::CheckReady { session_path: owned(FIRST) }, Reply::Done);
    expect(&mut worker, Call::Connect { session_path: owned(FIRST) }, Reply::Done);
    expect_idle(&mut worker);
    assert!(worker.transition_in_flight());
    worker.settle();
    expect(
        &mut worker,
        Call::ReadStatus { session_path: owned(FIRST) },
        Reply::Status { major: 2, minor: 7, message: owned("") },
    );
    // What could not be read again is kept.
    expect(&mut worker, Call::ReadCreated { session_path: owned(FIRST) }, Reply::Created(None));
    expect_idle(&mut worker);
    assert_eq!(worker.state(), ConnectionState::Connected);
    assert_eq!(worker.publish().session_created, Some(1_000));
}

#[test]
fn a_status_that_does_not_decode_is_not_reconciled() {
    let mut worker = connected();
    worker.on_ui_command(UiCommand::RefreshProfiles);
    expect(
        &mut worker,
        Call::ReadStatus { session_path: owned(FIRST) },
        Reply::Status { major: 2, minor: 999, message: owned("") },
    );
    expect(&mut worker, Call::ListProfiles, Reply::Profiles(listed()));
    expect_idle(&mut worker);
    assert_eq!(worker.state(), ConnectionState::Connected);
}

#[test]
fn one_prompt_asks_for_everything_that_is_queued() {
    let mut worker = started();
    start_session(&mut worker, WORK, FIRST);
    expect(
        &mut worker,
        Call::CheckReady { session_path: owned(FIRST) },
        Reply::Failed(owned("Missing user credentials")),
    );
    expect(
        &mut worker,
        Call::ReadQueue { session_path: owned(FIRST) },
        Reply::Queue(vec![(1, 1), (1, 4)]),
    );
    expect(
        &mut worker,
        Call::DrainQueue { session_path: owned(FIRST), type_: 1, group: 1 },
        Reply::Items(vec![item(0, "username", false), None, item(1, "password", true)]),
    );
    expect(
        &mut worker,
        Call::DrainQueue { session_path: owned(FIRST), type_: 1, group: 4 },
        Reply::Items(vec![item(0, "static_challenge", true)]),
    );
    expect_idle(&mut worker);
    assert_eq!(worker.state(), ConnectionState::AuthPending);
    let prompt = worker.publish().prompt.unwrap();
    assert_eq!(prompt.session_path, FIRST);
    assert_eq!(prompt.kind, PromptKind::UserPassword);
    assert_eq!(prompt.message, "");
    let asked: Vec<(ClientAttentionGroup, u32, &str, bool)> = prompt
        .fields
        .iter()
        .map(|input| {
            (input.group, input.field.id, input.field.label.as_str(), input.field.masked)
        })
        .collect();
    assert_eq!(
        asked,
        [
            (ClientAttentionGroup::UserPassword, 0, "username", false),
            (ClientAttentionGroup::UserPassword, 1, "password", true),
            (ClientAttentionGroup::ChallengeStatic, 0, "static_challenge", true),
        ]
    );
    assert!(prompt.fields.iter().all(|input| input.type_ == ClientAttentionType::Credentials));
}

#[test]
fn a_queue_that_cannot_be_read_leaves_its_fields_out() {
    let mut worker = started();
    start_session(&mut worker, WORK, FIRST);
    expect(
        &mut worker,
        Call::CheckReady { session_path: owned(FIRST) },
        Reply::Failed(owned("Missing user credentials")),
    );
    expect(
        &mut worker,
        Call::ReadQueue { session_path: owned(FIRST) },
        Reply::Queue(vec![(1, 1), (1, 4)]),
    );
    expect(
        &mut worker,
        Call::DrainQueue { session_path: owned(FIRST), type_: 1, group: 1 },
        Reply::Unreachable,
    );
    expect(
        &mut worker,
        Call::DrainQueue { session_path: owned(FIRST), type_: 1, group: 4 },
        Reply::Items(vec![item(3, "code", false)]),
    );
    expect_idle(&mut worker);
    assert_eq!(worker.publish().prompt.unwrap().fields.len(), 1);
}

#[test]
fn a_session_that_is_not_ready_and_wants_nothing_is_logged() {
    for reply in [Reply::Queue(vec![]), Reply::Unreachable] {
        let mut worker = started();
        start_session(&mut worker, WORK, FIRST);
        expect(
            &mut worker,
            Call::CheckReady { session_path: owned(FIRST) },
            Reply::Failed(owned("backend gone")),
        );
        expect(&mut worker, Call::ReadQueue { session_path: owned(FIRST) }, reply);
        expect_idle(&mut worker);
        assert_eq!(lines(&worker.publish()), ["Backend not ready: backend gone"]);
    }
}

#[test]
fn an_unknown_credential_request_is_logged() {
    let mut worker = started();
    start_session(&mut worker, WORK, FIRST);
    expect(
        &mut worker,
        Call::CheckReady { session_path: owned(FIRST) },
        Reply::Failed(owned("Missing user credentials")),
    );
    expect(
        &mut worker,
        Call::ReadQueue { session_path: owned(FIRST) },
        Reply::Queue(vec![(1, 77), (99, 1), (1, 1)]),
    );
    expect_idle(&mut worker);
    assert_eq!(
        lines(&worker.publish()),
        ["Unrecognised credential request: type=1 group=77"]
    );
    assert!(worker.publish().prompt.is_none());
}

#[test]
fn an_unknown_request_behind_a_known_one_waits_its_turn() {
    let mut worker = started();
    start_session(&mut worker, WORK, FIRST);
    expect(
        &mut worker,
        Call::CheckReady { session_path: owned(FIRST) },
        Reply::Failed(owned("Missing user credentials")),
    );
    expect(
        &mut worker,
        Call::ReadQueue { session_path: owned(FIRST) },
        Reply::Queue(vec![(1, 1), (1, 77)]),
    );
    expect(
        &mut worker,
        Call::DrainQueue { session_path: owned(FIRST), type_: 1, group: 1 },
        Reply::Items(vec![item(0, "username", false)]),
    );
    expect_idle(&mut worker);
    assert_eq!(worker.state(), ConnectionState::AuthPending);
    assert_eq!(worker.publish().prompt.unwrap().fields.len(), 1);
    assert_eq!(worker.publish().log, None);
    // Once the known one is answered, the unknown one is first, and is reported.
    worker.on_ui_command(UiCommand::SubmitPrompt(vec![answer("me")]));
    assert!(matches!(next_call(&mut worker), Some(Call::ProvideInput { .. })));
    assert!(worker.resume(Reply::Failures(vec![])));
    expect(
        &mut worker,
        Call::CheckReady { session_path: owned(FIRST) },
        Reply::Failed(owned("Missing user credentials")),
    );
    expect(
        &mut worker,
        Call::ReadQueue { session_path: owned(FIRST) },
        Reply::Queue(vec![(1, 77)]),
    );
    expect_idle(&mut worker);
    assert_eq!(
        lines(&worker.publish()),
        ["Unrecognised credential request: type=1 group=77"]
    );
}

#[test]
fn one_unsupported_request_in_a_queue_ends_the_attempt() {
    let mut worker = started();
    start_session(&mut worker, WORK, FIRST);
    expect(
        &mut worker,
        Call::CheckReady { session_path: owned(FIRST) },
        Reply::Failed(owned("Missing user credentials")),
    );
    expect(
        &mut worker,
        Call::ReadQueue { session_path: owned(FIRST) },
        Reply::Queue(vec![(1, 1), (1, 2)]),
    );
    expect(&mut worker, Call::Disconnect { session_path: owned(FIRST) }, Reply::Done);
    expect_idle(&mut worker);
    let snapshot = worker.publish();
    assert_eq!(snapshot.state, ConnectionState::Failed);
    assert!(snapshot.prompt.is_none());
    assert_eq!(
        lines(&snapshot),
        ["This profile asked for HTTP proxy credentials, which this applet does not support."]
    );
}

/// A worker that waits for a user name.
fn prompting() -> Worker {
    let mut worker = connected();
    worker.on_wire(Wire::Attention {
        session: owned(FIRST),
        type_: 1,
        group: 1,
        message: owned("Sign in, please"),
    });
    expect(
        &mut worker,
        Call::DrainQueue { session_path: owned(FIRST), type_: 1, group: 1 },
        Reply::Items(vec![item(0, "username", false)]),
    );
    expect_idle(&mut worker);
    worker
}

fn answer(value: &str) -> InputResponse {
    InputResponse {
        type_: ClientAttentionType::Credentials,
        group: ClientAttentionGroup::UserPassword,
        id: 0,
        value: owned(value),
    }
}

#[test]
fn answers_are_handed_over_once_and_refusals_are_logged() {
    let mut worker = prompting();
    assert_eq!(worker.publish().prompt.unwrap().message, "Sign in, please");
    worker.on_ui_command(UiCommand::SubmitPrompt(vec![answer("me")]));
    expect(
        &mut worker,
        Call::ProvideInput {
            session_path: owned(FIRST),
            inputs: vec![WireInput { type_: 1, group: 1, id: 0, value: owned("me") }],
        },
        Reply::Failures(vec![owned("nope"), owned("never")]),
    );
    assert_eq!(
        next_call(&mut worker),
        Some(Call::CheckReady { session_path: owned(FIRST) })
    );
    assert_eq!(
        lines(&worker.publish()),
        ["Submitting credentials failed: nope", "Submitting credentials failed: never"]
    );
    assert!(worker.publish().prompt.is_none());
}

#[test]
fn a_duplicate_request_does_not_reopen_the_prompt() {
    let mut worker = prompting();
    worker.on_wire(Wire::Attention {
        session: owned(FIRST),
        type_: 1,
        group: 1,
        message: owned("again"),
    });
    expect_idle(&mut worker);
    assert_eq!(worker.publish().prompt.unwrap().message, "Sign in, please");
}

#[test]
fn an_unsupported_request_ends_the_attempt_though_a_prompt_is_open() {
    let mut worker = prompting();
    worker.on_wire(Wire::Attention {
        session: owned(FIRST),
        type_: 1,
        group: 9,
        message: owned("https://example.test"),
    });
    expect(&mut worker, Call::Disconnect { session_path: owned(FIRST) }, Reply::Done);
    expect_idle(&mut worker);
    let snapshot = worker.publish();
    assert_eq!(snapshot.state, ConnectionState::Failed);
    assert!(snapshot.prompt.is_none());
    assert_eq!(
        lines(&snapshot),
        [
            "This profile uses browser-based (web) authentication, which this applet does not \
             support. Start it from a terminal with `openvpn3 session-start`."
        ]
    );
}

#[test]
fn a_wide_input_request_is_not_taken_for_a_known_one() {
    let mut worker = connected();
    worker.on_wire(Wire::Attention {
        session: owned(FIRST),
        type_: 257,
        group: 1,
        message: owned(""),
    });
    expect_idle(&mut worker);
    assert_eq!(
        lines(&worker.publish()),
        ["Unrecognised input request from openvpn3: type=257 group=1"]
    );
    assert_eq!(worker.state(), ConnectionState::Connected);
    assert!(worker.publish().prompt.is_none());
}

#[test]
fn a_pause_from_outside_is_logged() {
    let mut worker = connected();
    worker.on_wire(status_wire(FIRST, StatusMinor::ConnPaused, ""));
    expect_idle(&mut worker);
    assert_eq!(worker.state(), ConnectionState::Connecting);
    assert_eq!(
        lines(&worker.publish()),
        ["openvpn3 status from outside the applet: Connection/ConnPaused"]
    );
    // However often it is read again, a pause that lasts is logged once.
    for _ in 0..3 {
        worker.settle();
        expect(
            &mut worker,
            Call::ReadStatus { session_path: owned(FIRST) },
            Reply::Status { major: 2, minor: 14, message: owned("") },
        );
        expect(&mut worker, Call::ReadCreated { session_path: owned(FIRST) }, Reply::Created(None));
        expect_idle(&mut worker);
    }
    assert_eq!(lines(&worker.publish()).len(), 1);
    worker.on_wire(status_wire(FIRST, StatusMinor::ConnResuming, ""));
    worker.on_wire(status_wire(FIRST, StatusMinor::ConnConnected, ""));
    worker.on_wire(status_wire(FIRST, StatusMinor::ConnPaused, ""));
    expect_idle(&mut worker);
    assert_eq!(
        lines(&worker.publish()),
        [
            "openvpn3 status from outside the applet: Connection/ConnPaused",
            "openvpn3 status from outside the applet: Connection/ConnResuming",
            "openvpn3 status from outside the applet: Connection/ConnPaused",
        ]
    );
}

#[test]
fn a_second_round_of_input_is_published() {
    let mut worker = prompting();
    worker.on_ui_command(UiCommand::SubmitPrompt(vec![answer("me")]));
    assert!(matches!(next_call(&mut worker), Some(Call::ProvideInput { .. })));
    assert!(worker.resume(Reply::Failures(vec![])));
    expect(
        &mut worker,
        Call::CheckReady { session_path: owned(FIRST) },
        Reply::Failed(owned("Missing user credentials")),
    );
    expect(
        &mut worker,
        Call::ReadQueue { session_path: owned(FIRST) },
        Reply::Queue(vec![(1, 1)]),
    );
    expect(
        &mut worker,
        Call::DrainQueue { session_path: owned(FIRST), type_: 1, group: 1 },
        Reply::Items(vec![item(1, "password", true)]),
    );
    expect_idle(&mut worker);
    let prompt = worker.publish().prompt.unwrap();
    assert_eq!(prompt.fields.len(), 1);
    assert_eq!(prompt.fields[0].field.name, "password");
}

#[test]
fn answers_without_a_prompt_are_dropped() {
    let mut worker = connected();
    worker.on_ui_command(UiCommand::SubmitPrompt(vec![answer("me")]));
    worker.on_ui_command(UiCommand::CancelPrompt);
    expect_idle(&mut worker);
    assert_eq!(worker.state(), ConnectionState::Connected);
}

#[test]
fn cancelling_a_prompt_ends_the_attempt() {
    let mut worker = prompting();
    worker.on_ui_command(UiCommand::CancelPrompt);
    expect(&mut worker, Call::Disconnect { session_path: owned(FIRST) }, Reply::Unreachable);
    expect_idle(&mut worker);
    let snapshot = worker.publish();
    assert_eq!(snapshot.state, ConnectionState::Failed);
    assert!(snapshot.prompt.is_none());
}

#[test]
fn a_failure_can_be_dismissed() {
    let mut worker = prompting();
    worker.on_ui_command(UiCommand::CancelPrompt);
    expect(&mut worker, Call::Disconnect { session_path: owned(FIRST) }, Reply::Done);
    worker.on_ui_command(UiCommand::DismissFailure);
    expect_idle(&mut worker);
    assert_eq!(worker.state(), ConnectionState::Disconnected);
}

#[test]
fn an_unknown_input_request_is_logged_with_its_numbers() {
    let mut worker = connected();
    worker.on_wire(Wire::Attention {
        session: owned(FIRST),
        type_: 300,
        group: 4_000_000_000,
        message: owned(""),
    });
    expect_idle(&mut worker);
    assert_eq!(
        lines(&worker.publish()),
        ["Unrecognised input request from openvpn3: type=300 group=4000000000"]
    );
    assert_eq!(worker.state(), ConnectionState::Connected);
}

#[test]
fn an_unsupported_request_ends_the_attempt_and_says_why() {
    let mut worker = connected();
    worker.on_wire(Wire::Attention {
        session: owned(FIRST),
        type_: 1,
        group: 6,
        message: owned("https://example.test"),
    });
    expect(&mut worker, Call::Disconnect { session_path: owned(FIRST) }, Reply::Done);
    expect_idle(&mut worker);
    let snapshot = worker.publish();
    assert_eq!(snapshot.state, ConnectionState::Failed);
    assert_eq!(
        lines(&snapshot),
        [
            "This profile requires out-of-band approval to continue, which this applet cannot \
             wait on. Start it from a terminal with `openvpn3 session-start`."
        ]
    );
}

#[test]
fn log_lines_are_kept_in_order() {
    let mut worker = connected();
    for message in ["one", "two"] {
        worker.on_wire(Wire::Log {
            session: owned(FIRST),
            entry: LogEntry { group: 1, level: 4, message: owned(message) },
        });
    }
    expect_idle(&mut worker);
    assert_eq!(lines(&worker.publish()), ["one", "two"]);
    // The log outlives its session.
    worker.on_wire(Wire::SessionManager { path: owned(FIRST), removed: true });
    worker.on_wire(Wire::SessionManager { path: owned(FIRST), removed: false });
    expect_idle(&mut worker);
    assert_eq!(lines(&worker.publish()), ["one", "two"]);
    assert_eq!(worker.state(), ConnectionState::Disconnected);
}

#[test]
fn a_profile_is_renamed_by_its_trimmed_name() {
    let mut worker = started();
    worker.on_ui_command(UiCommand::RenameProfile {
        config_path: owned(WORK),
        new_name: owned("  Office\n"),
    });
    expect(
        &mut worker,
        Call::Rename { config_path: owned(WORK), new_name: owned("Office") },
        Reply::Done,
    );
    expect(&mut worker, Call::ListProfiles, Reply::Profiles(vec![]));
    expect_idle(&mut worker);
}

#[test]
fn refused_renames_say_why() {
    let mut worker = started();
    worker.on_ui_command(UiCommand::RenameProfile {
        config_path: owned(WORK),
        new_name: owned(" \t"),
    });
    expect_idle(&mut worker);
    assert_eq!(
        worker.publish().unavailable.as_deref(),
        Some("A profile name cannot be empty.")
    );
    worker.on_ui_command(UiCommand::RenameProfile {
        config_path: owned("not a path"),
        new_name: owned("x"),
    });
    expect_idle(&mut worker);
    assert_eq!(
        worker.publish().unavailable.as_deref(),
        Some("That profile is no longer available.")
    );
    for (reply, text) in [
        (Reply::Failed(owned("locked")), "Could not rename: locked"),
        (Reply::Unreachable, "That profile is no longer available."),
    ] {
        worker.on_ui_command(UiCommand::RenameProfile {
            config_path: owned(WORK),
            new_name: owned("x"),
        });
        expect(
            &mut worker,
            Call::Rename { config_path: owned(WORK), new_name: owned("x") },
            reply,
        );
        expect_idle(&mut worker);
        assert_eq!(worker.publish().unavailable.as_deref(), Some(text));
    }
}

#[test]
fn the_profile_in_use_is_not_deleted() {
    let mut worker = connected();
    worker.on_ui_command(UiCommand::DeleteProfile(owned(WORK)));
    expect_idle(&mut worker);
    assert_eq!(
        worker.publish().unavailable.as_deref(),
        Some("Disconnect this profile before deleting it.")
    );
    worker.on_ui_command(UiCommand::DeleteProfile(owned(HOME)));
    expect(&mut worker, Call::Remove { config_path: owned(HOME) }, Reply::Done);
    assert_eq!(worker.publish().unavailable, None);
    expect(&mut worker, Call::ListProfiles, Reply::Profiles(vec![]));
    expect_idle(&mut worker);
}

#[test]
fn refused_deletions_say_why() {
    let mut worker = started();
    worker.on_ui_command(UiCommand::DeleteProfile(owned("/bad-path")));
    expect_idle(&mut worker);
    assert_eq!(
        worker.publish().unavailable.as_deref(),
        Some("That profile is no longer available.")
    );
    for (reply, text) in [
        (Reply::Failed(owned("locked")), "Could not delete: locked"),
        (Reply::Unreachable, "That profile is no longer available."),
    ] {
        worker.on_ui_command(UiCommand::DeleteProfile(owned(WORK)));
        expect(&mut worker, Call::Remove { config_path: owned(WORK) }, reply);
        expect_idle(&mut worker);
        assert_eq!(worker.publish().unavailable.as_deref(), Some(text));
    }
}

#[test]
fn a_file_is_imported_under_its_stem() {
    for (path, name) in [
        ("/home/me/acme corp.ovpn", "acme corp"),
        ("/home/me/.ovpn", ".ovpn"),
        ("office.tar.ovpn", "office.tar"),
        ("/", "imported"),
        ("/home/..", "imported"),
    ] {
        let mut worker = started();
        worker.on_ui_command(UiCommand::Import(owned(path)));
        expect(
            &mut worker,
            Call::ReadFile { path: owned(path) },
            Reply::File(owned("client\n")),
        );
        expect(
            &mut worker,
            import(name, "client\n"),
            Reply::Done,
        );
        expect(&mut worker, Call::ListProfiles, Reply::Profiles(listed()));
        expect_idle(&mut worker);
        assert_eq!(worker.publish().unavailable, None);
    }
}

#[test]
fn refused_imports_say_why() {
    let mut worker = started();
    worker.on_ui_command(UiCommand::Import(owned("/tmp/a.ovpn")));
    expect(
        &mut worker,
        Call::ReadFile { path: owned("/tmp/a.ovpn") },
        Reply::Failed(owned("not found")),
    );
    expect_idle(&mut worker);
    assert_eq!(
        worker.publish().unavailable.as_deref(),
        Some("Could not read /tmp/a.ovpn: not found")
    );
    worker.on_ui_command(UiCommand::Import(owned("/tmp/a.ovpn")));
    expect(&mut worker, Call::ReadFile { path: owned("/tmp/a.ovpn") }, Reply::File(owned("?")));
    expect(
        &mut worker,
        import("a", "?"),
        Reply::Failed(owned("no remote")),
    );
    expect_idle(&mut worker);
    assert_eq!(
        worker.publish().unavailable.as_deref(),
        Some("openvpn3 rejected a: no remote")
    );
    worker.on_ui_command(UiCommand::Import(owned("/tmp/a.ovpn")));
    expect(&mut worker, Call::ReadFile { path: owned("/tmp/a.ovpn") }, Reply::File(owned("?")));
    expect(
        &mut worker,
        import("a", "?"),
        Reply::Unreachable,
    );
    expect_idle(&mut worker);
}

#[test]
fn an_answer_to_another_question_is_refused() {
    let mut worker = Worker::new();
    assert!(!worker.resume(Reply::Done));
    assert_eq!(next_call(&mut worker), Some(Call::ListProfiles));
    assert!(!worker.resume(Reply::Done));
    assert!(!worker.resume(Reply::Sessions(vec![])));
    assert!(matches!(worker.step(), Progress::Waiting));
    assert!(worker.resume(Reply::Profiles(listed())));
    assert_eq!(worker.publish().profiles.len(), 2);
}

#[test]
fn what_the_machine_asks_for_is_done_before_later_signals() {
    let mut worker = started();
    worker.on_ui_command(UiCommand::SelectProfile(owned(WORK)));
    assert!(next_call(&mut worker).is_some());
    worker.on_wire(status_wire(FIRST, StatusMinor::ConnConnected, "late"));
    assert!(worker.resume(Reply::Tunnel { session_path: owned(FIRST), now: 1 }));
    expect(&mut worker, session(FIRST), Reply::Done);
    expect(&mut worker, Call::EnableLogForward { session_path: owned(FIRST) }, Reply::Done);
    assert_eq!(worker.publish().status_message, "");
    expect(&mut worker, Call::CheckReady { session_path: owned(FIRST) }, Reply::Done);
    expect(&mut worker, Call::Connect { session_path: owned(FIRST) }, Reply::Done);
    expect_idle(&mut worker);
    assert_eq!(worker.publish().status_message, "late");
    assert_eq!(worker.state(), ConnectionState::Connected);
}

use openvpn3_dbus::app::{field_key, App, Effect, Message};
use openvpn3_dbus::attention::{
    ClientAttentionGroup, ClientAttentionType, PromptField, PromptKind,
};
use openvpn3_dbus::dbus::{same_prompt, Profile, PromptInput, PromptSpec, Snapshot, UiCommand};
use openvpn3_dbus::machine::InputResponse;
use openvpn3_dbus::pages::{
    format_uptime, state_label, LogPage, Menu, Page, ProfileRow, RowAction,
};
use openvpn3_dbus::status::ConnectionState;

const SESSION: &str = "/net/openvpn/v3/sessions/one";

fn input(group: ClientAttentionGroup, id: u32, label: &str, masked: bool) -> PromptInput {
    PromptInput {
        type_: ClientAttentionType::Credentials,
        group,
        field: PromptField { id, name: label.to_owned(), label: label.to_owned(), masked },
    }
}

fn prompt() -> PromptSpec {
    PromptSpec {
        session_path: SESSION.to_owned(),
        kind: PromptKind::UserPassword,
        message: " \n".to_owned(),
        fields: vec![
            input(ClientAttentionGroup::UserPassword, 0, "User name", false),
            input(ClientAttentionGroup::UserPassword, 1, "Password", true),
            input(ClientAttentionGroup::ChallengeStatic, 0, "Code", true),
        ],
    }
}

fn asking() -> Snapshot {
    let mut snapshot = Snapshot::default();
    snapshot.state = ConnectionState::AuthPending;
    snapshot.prompt = Some(prompt());
    snapshot
}

fn ready() -> App {
    let mut app = App::init();
    assert_eq!(app.update(Message::WorkerReady, 1), []);
    app
}

/// A panel whose prompt is open, as view 5.
fn prompting() -> App {
    let mut app = ready();
    assert_eq!(app.update(Message::Snapshot(asking()), 5), [Effect::OpenAuth(5)]);
    app
}

fn type_into(app: &mut App, field: usize, value: &str) {
    let key = field_key(&prompt().fields[field]);
    assert_eq!(app.update(Message::FieldChanged(key, value.to_owned()), 0), []);
}

fn typed(app: &App) -> Vec<String> {
    prompt().fields.iter().map(|field| app.typed_value(field)).collect()
}

#[test]
fn the_panel_starts_with_nothing_open() {
    let app = App::init();
    assert_eq!(app.popup(), None);
    assert_eq!(app.auth_window(), None);
    assert_eq!(app.log_window(), None);
    assert_eq!(app.panel_icon(), ConnectionState::Disconnected.icon_name());
    assert_eq!(typed(&app), ["", "", ""]);
}

#[test]
fn nothing_is_sent_before_the_worker_is_ready() {
    let mut app = App::init();
    assert_eq!(app.update(Message::Disconnect, 1), []);
    assert_eq!(app.update(Message::DismissFailure, 1), []);
    assert_eq!(app.update(Message::ImportChosen(Some("/a.ovpn".to_owned())), 1), []);
}

#[test]
fn the_menu_toggles() {
    let mut app = ready();
    assert_eq!(
        app.update(Message::TogglePopup, 3),
        [Effect::Send(UiCommand::RefreshProfiles), Effect::OpenPopup(3)]
    );
    assert_eq!(app.popup(), Some(3));
    assert_eq!(app.update(Message::TogglePopup, 4), [Effect::Close(3)]);
    assert_eq!(app.popup(), None);
}

#[test]
fn choosing_closes_the_menu() {
    let mut app = ready();
    app.update(Message::TogglePopup, 3);
    assert_eq!(
        app.update(Message::SelectProfile("/work".to_owned()), 4),
        [Effect::Send(UiCommand::SelectProfile("/work".to_owned())), Effect::Close(3)]
    );
    assert_eq!(
        app.update(Message::Disconnect, 4),
        [Effect::Send(UiCommand::Disconnect)]
    );
}

#[test]
fn importing_picks_a_file_first() {
    let mut app = ready();
    app.update(Message::TogglePopup, 3);
    assert_eq!(
        app.update(Message::ImportRequested, 4),
        [Effect::Close(3), Effect::PickFile]
    );
    assert_eq!(app.update(Message::ImportChosen(None), 4), []);
    assert_eq!(
        app.update(Message::ImportChosen(Some("/a.ovpn".to_owned())), 4),
        [Effect::Send(UiCommand::Import("/a.ovpn".to_owned()))]
    );
}

#[test]
fn the_log_opens_once() {
    let mut app = ready();
    app.update(Message::TogglePopup, 3);
    assert_eq!(app.update(Message::OpenLog, 4), [Effect::Close(3), Effect::OpenLog(4)]);
    assert_eq!(app.update(Message::OpenLog, 6), []);
    assert_eq!(app.log_window(), Some(4));
    assert_eq!(app.update(Message::CloseLog, 6), [Effect::Close(4)]);
    assert_eq!(app.update(Message::CloseLog, 6), []);
}

#[test]
fn a_prompt_that_appears_is_shown_and_one_that_goes_is_closed() {
    let mut app = prompting();
    assert_eq!(app.update(Message::Snapshot(asking()), 6), []);
    assert_eq!(app.auth_window(), Some(5));
    type_into(&mut app, 1, "hunter2");
    assert_eq!(
        app.update(Message::Snapshot(Snapshot::default()), 6),
        [Effect::Close(5)]
    );
    assert_eq!(app.auth_window(), None);
    assert_eq!(typed(&app), ["", "", ""]);
}

#[test]
fn submitting_answers_every_field_and_forgets() {
    let mut app = prompting();
    type_into(&mut app, 0, "me");
    type_into(&mut app, 2, "12345");
    type_into(&mut app, 2, "123456");
    assert_eq!(typed(&app), ["me", "", "123456"]);
    let answer = |group: ClientAttentionGroup, id: u32, value: &str| InputResponse {
        type_: ClientAttentionType::Credentials,
        group,
        id,
        value: value.to_owned(),
    };
    assert_eq!(
        app.update(Message::SubmitPrompt, 6),
        [
            Effect::Send(UiCommand::SubmitPrompt(vec![
                answer(ClientAttentionGroup::UserPassword, 0, "me"),
                answer(ClientAttentionGroup::UserPassword, 1, ""),
                answer(ClientAttentionGroup::ChallengeStatic, 0, "123456"),
            ])),
            Effect::Close(5),
        ]
    );
    assert_eq!(app.auth_window(), None);
    assert_eq!(typed(&app), ["", "", ""]);
}

#[test]
fn a_second_round_of_input_is_shown() {
    let mut app = prompting();
    type_into(&mut app, 0, "me");
    app.update(Message::SubmitPrompt, 6);
    // Word of the same prompt, from before the answers arrived, opens nothing.
    assert_eq!(app.update(Message::Snapshot(asking()), 7), []);
    assert_eq!(app.auth_window(), None);
    let mut second = asking();
    let mut spec = prompt();
    spec.fields.remove(0);
    second.prompt = Some(spec);
    assert_eq!(app.update(Message::Snapshot(second), 8), [Effect::OpenAuth(8)]);
    assert_eq!(app.auth_window(), Some(8));
    assert_eq!(typed(&app), ["", "", ""]);
}

#[test]
fn a_prompt_in_place_of_another_starts_blank() {
    let mut app = prompting();
    type_into(&mut app, 1, "hunter2");
    let mut other = asking();
    let mut spec = prompt();
    spec.session_path = "/net/openvpn/v3/sessions/two".to_owned();
    other.prompt = Some(spec);
    assert_eq!(app.update(Message::Snapshot(other), 8), []);
    assert_eq!(app.auth_window(), Some(5));
    assert_eq!(typed(&app), ["", "", ""]);
}

#[test]
fn prompts_differ_by_everything_they_ask() {
    let same = prompt();
    assert!(same_prompt(&same, &prompt()));
    let changes: [fn(&mut PromptSpec); 10] = [
        |p| p.session_path.push('x'),
        |p| p.kind = PromptKind::Challenge,
        |p| p.message.push('x'),
        |p| {
            p.fields.pop();
        },
        |p| p.fields[2].type_ = ClientAttentionType::Pkcs11,
        |p| p.fields[2].group = ClientAttentionGroup::ChallengeDynamic,
        |p| p.fields[1].field.id = 9,
        |p| p.fields[1].field.name.push('x'),
        |p| p.fields[0].field.label.push('x'),
        |p| p.fields[0].field.masked = true,
    ];
    for change in changes {
        let mut other = prompt();
        change(&mut other);
        assert!(!same_prompt(&same, &other), "{other:?}");
    }
}

#[test]
fn submitting_without_a_prompt_does_nothing() {
    let mut app = ready();
    assert_eq!(app.update(Message::SubmitPrompt, 6), []);
}

#[test]
fn cancelling_forgets_and_closes() {
    let mut app = prompting();
    type_into(&mut app, 1, "hunter2");
    assert_eq!(
        app.update(Message::CancelPrompt, 6),
        [Effect::Send(UiCommand::CancelPrompt), Effect::Close(5)]
    );
    assert_eq!(typed(&app), ["", "", ""]);
}

#[test]
fn closing_the_prompt_from_outside_cancels_it() {
    let mut app = prompting();
    type_into(&mut app, 1, "hunter2");
    assert_eq!(
        app.update(Message::Closed(5), 6),
        [Effect::Send(UiCommand::CancelPrompt)]
    );
    assert_eq!(app.auth_window(), None);
    assert_eq!(typed(&app), ["", "", ""]);
}

#[test]
fn closing_the_menu_or_the_log_from_outside_cancels_nothing() {
    let mut app = prompting();
    app.update(Message::OpenLog, 7);
    app.update(Message::TogglePopup, 8);
    assert_eq!(app.update(Message::Closed(7), 9), []);
    assert_eq!(app.update(Message::Closed(8), 9), []);
    assert_eq!(app.update(Message::Closed(99), 9), []);
    assert_eq!(app.log_window(), None);
    assert_eq!(app.popup(), None);
    assert_eq!(app.auth_window(), Some(5));
}

#[test]
fn a_tick_changes_nothing() {
    let mut app = prompting();
    assert_eq!(app.update(Message::Tick, 9), []);
    assert_eq!(app.auth_window(), Some(5));
}

#[test]
fn keys_tell_queues_apart() {
    let fields = prompt().fields;
    assert_eq!(field_key(&fields[0]), 0x0101_0000_0000);
    assert_eq!(field_key(&fields[1]), 0x0101_0000_0001);
    assert_eq!(field_key(&fields[2]), 0x0104_0000_0000);
}

fn with_profiles(state: ConnectionState) -> Snapshot {
    let mut snapshot = Snapshot::default();
    snapshot.state = state;
    snapshot.profiles = vec![
        Profile { config_path: "/home".to_owned(), name: "Home".to_owned() },
        Profile { config_path: "/work".to_owned(), name: "Work".to_owned() },
    ];
    snapshot.active_config = Some("/work".to_owned());
    snapshot.active_name = Some("Work".to_owned());
    snapshot
}

fn showing(snapshot: Snapshot) -> App {
    let mut app = ready();
    app.update(Message::Snapshot(snapshot), 1);
    app
}

#[test]
fn the_title_names_the_state_and_the_profile() {
    for (state, title) in [
        (ConnectionState::Connected, "Connected — Work"),
        (ConnectionState::Connecting, "Connecting — Work"),
        (ConnectionState::AuthPending, "Waiting for input — Work"),
        (ConnectionState::Failed, "Failed — Work"),
        (ConnectionState::Disconnected, "Not connected"),
    ] {
        assert_eq!(showing(with_profiles(state)).view_header(None).title, title);
    }
    let mut nameless = with_profiles(ConnectionState::Failed);
    nameless.active_name = None;
    assert_eq!(showing(nameless.clone()).view_header(None).title, "Connection failed");
    nameless.state = ConnectionState::Connected;
    assert_eq!(showing(nameless).view_header(None).title, "Not connected");
}

#[test]
fn uptime_is_shown_only_while_connected() {
    let mut snapshot = with_profiles(ConnectionState::Connected);
    snapshot.session_created = Some(1_000);
    let header = showing(snapshot.clone()).view_header(Some(4_725));
    assert_eq!(header.uptime.as_deref(), Some("Up 1h 02m"));
    assert!(!header.failed);
    snapshot.state = ConnectionState::Connecting;
    assert_eq!(showing(snapshot.clone()).view_header(Some(4_725)).uptime, None);
    snapshot.state = ConnectionState::Connected;
    snapshot.session_created = None;
    assert_eq!(showing(snapshot).view_header(Some(4_725)).uptime, None);
}

#[test]
fn a_failure_shows_its_reason() {
    let mut snapshot = with_profiles(ConnectionState::Failed);
    assert_eq!(showing(snapshot.clone()).view_header(None).reason, None);
    snapshot.status_message = "auth failed".to_owned();
    let header = showing(snapshot.clone()).view_header(None);
    assert_eq!(header.reason.as_deref(), Some("auth failed"));
    assert!(header.failed);
    snapshot.state = ConnectionState::Connected;
    assert_eq!(showing(snapshot).view_header(None).reason, None);
}

#[test]
fn only_the_profile_in_use_offers_to_disconnect() {
    for (state, label) in [
        (ConnectionState::Connected, "Disconnect"),
        (ConnectionState::Connecting, "Disconnect"),
        (ConnectionState::AuthPending, "Disconnect"),
        (ConnectionState::Failed, "Connect"),
        (ConnectionState::Disconnected, "Connect"),
    ] {
        let mut app = showing(with_profiles(state));
        app.update(Message::TogglePopup, 3);
        let rows: Vec<ProfileRow> = match app.view_window(3, None) {
            Page::Menu(Menu::Profiles { rows, .. }) => rows,
            page => panic!("{page:?}"),
        };
        assert_eq!(rows.len(), 2);
        assert_eq!(rows[0].name, "Home");
        assert_eq!(rows[0].label, "Connect");
        assert_eq!(rows[0].status, "Not connected");
        assert_eq!(rows[0].action, RowAction::Connect { config_path: "/home".to_owned() });
        assert_eq!(rows[1].label, label);
        assert_eq!(rows[1].status, state_label(state));
        let connects = RowAction::Connect { config_path: "/work".to_owned() };
        assert_eq!(
            rows[1].action,
            if label == "Disconnect" { RowAction::Disconnect } else { connects }
        );
    }
}

#[test]
fn state_labels_read_as_expected() {
    assert_eq!(state_label(ConnectionState::Disconnected), "Not connected");
    assert_eq!(state_label(ConnectionState::Connecting), "Connecting…");
    assert_eq!(state_label(ConnectionState::Connected), "Connected");
    assert_eq!(state_label(ConnectionState::AuthPending), "Waiting for input");
    assert_eq!(state_label(ConnectionState::Failed), "Failed");
}

#[test]
fn an_empty_menu_says_how_to_fill_it() {
    match showing(Snapshot::default()).view_menu(None) {
        Menu::Empty { header, hint } => {
            assert_eq!(header.title, "Not connected");
            assert_eq!(hint, "No profiles yet — import a .ovpn file to get started.");
        }
        menu => panic!("{menu:?}"),
    }
}

#[test]
fn an_unavailable_openvpn3_takes_the_menu() {
    let mut snapshot = with_profiles(ConnectionState::Connected);
    snapshot.unavailable = Some("gone".to_owned());
    assert_eq!(showing(snapshot).view_menu(None), Menu::Unavailable("gone".to_owned()));
}

#[test]
fn the_prompt_shows_its_fields_with_what_was_typed() {
    let mut app = prompting();
    type_into(&mut app, 1, "hunter2");
    let page = match app.view_window(5, None) {
        Page::Auth(page) => page,
        page => panic!("{page:?}"),
    };
    assert_eq!(page.heading, "Sign in");
    assert_eq!(page.message, None);
    let shown: Vec<(&str, &str, bool)> = page
        .fields
        .iter()
        .map(|field| (field.label.as_str(), field.value.as_str(), field.masked))
        .collect();
    assert_eq!(
        shown,
        [("User name", "", false), ("Password", "hunter2", true), ("Code", "", true)]
    );
    assert_eq!(page.fields[1].key, field_key(&prompt().fields[1]));
}

#[test]
fn the_prompt_is_headed_by_its_kind() {
    for (kind, heading) in [
        (PromptKind::UserPassword, "Sign in"),
        (PromptKind::PrivateKeyPassphrase, "Private key passphrase"),
        (PromptKind::Challenge, "Additional verification"),
    ] {
        let mut snapshot = asking();
        let mut spec = prompt();
        spec.kind = kind;
        spec.message = " Look at your phone ".to_owned();
        snapshot.prompt = Some(spec);
        let page = showing(snapshot).view_auth().unwrap();
        assert_eq!(page.heading, heading);
        assert_eq!(page.message.as_deref(), Some(" Look at your phone "));
    }
    assert!(showing(Snapshot::default()).view_auth().is_none());
}

#[test]
fn the_log_view_is_never_blank() {
    let said = "No log was captured for this session — it was started outside the applet.";
    let mut snapshot = Snapshot::default();
    assert_eq!(showing(snapshot.clone()).view_log(), LogPage::NotCaptured(said));
    snapshot.log = Some(vec![]);
    assert_eq!(showing(snapshot.clone()).view_log(), LogPage::NotCaptured(said));
    snapshot.log = Some(vec!["one".to_owned(), "two".to_owned()]);
    let mut app = showing(snapshot);
    app.update(Message::OpenLog, 4);
    assert_eq!(
        app.view_window(4, None),
        Page::Log(LogPage::Lines(vec!["one".to_owned(), "two".to_owned()]))
    );
    assert_eq!(app.view_window(77, None), Page::Blank);
}

#[test]
fn uptime_is_told_in_its_two_largest_units() {
    for (seconds, text) in [
        (0, "0s"),
        (9, "9s"),
        (59, "59s"),
        (60, "1m 00s"),
        (61, "1m 01s"),
        (3_599, "59m 59s"),
        (3_600, "1h 00m"),
        (3_725, "1h 02m"),
        (86_400, "24h 00m"),
        (359_999, "99h 59m"),
    ] {
        assert_eq!(format_uptime(1_000, Some(1_000 + seconds)), text);
    }
    assert_eq!(format_uptime(1_000, Some(10)), "0s");
    assert_eq!(format_uptime(1_000, None), "0s");
    assert_eq!(format_uptime(0, Some(u64::MAX)), "5124095576030431h 00m");
}

//! What the panel's views show, as a function of its state.

use crate::app::{field_key, key_of, typed, App, AppView};
use crate::attention::PromptKind;
use crate::dbus::{Profile, ProfileView, PromptInputView, PromptSpecView, SnapshotView};
use crate::status::ConnectionState;
use crate::text::{
    decimal, decimal_padded, decimal_padded_text, decimal_text, optional, reads, texts, trim,
    trimmed,
};
use vstd::prelude::*;
use vstd::string::*;

verus! {

/// The top of the menu.
#[derive(Debug, Clone, PartialEq, Eq)]
pub struct Header {
    pub title: String,
    /// How long the session in use has been up.
    pub uptime: Option<String>,
    /// What openvpn3 said about a failure.
    pub reason: Option<String>,
    /// Are the log and a way to dismiss the failure on offer?
    pub failed: bool,
}

/// A `Header` with its texts as sequences of characters.
pub struct HeaderView {
    pub title: Seq<char>,
    pub uptime: Option<Seq<char>>,
    pub reason: Option<Seq<char>>,
    pub failed: bool,
}

impl View for Header {
    type V = HeaderView;

    open spec fn view(&self) -> HeaderView {
        HeaderView {
            title: self.title@,
            uptime: optional(self.uptime),
            reason: optional(self.reason),
            failed: self.failed,
        }
    }
}

/// What a row's button does.
#[derive(Debug, Clone, PartialEq, Eq)]
pub enum RowAction {
    Disconnect,
    Connect { config_path: String },
}

/// A `RowAction` with its text as a sequence of characters.
pub enum RowActionView {
    Disconnect,
    Connect { config_path: Seq<char> },
}

impl View for RowAction {
    type V = RowActionView;

    open spec fn view(&self) -> RowActionView {
        match *self {
            RowAction::Disconnect => RowActionView::Disconnect,
            RowAction::Connect { config_path } => RowActionView::Connect {
                config_path: config_path@,
            },
        }
    }
}

/// A profile in the menu.
#[derive(Debug, Clone, PartialEq, Eq)]
pub struct ProfileRow {
    pub name: String,
    pub status: &'static str,
    /// What the button reads.
    pub label: &'static str,
    pub action: RowAction,
}

/// A `ProfileRow` with its texts as sequences of characters.
pub struct ProfileRowView {
    pub name: Seq<char>,
    pub status: Seq<char>,
    pub label: Seq<char>,
    pub action: RowActionView,
}

impl View for ProfileRow {
    type V = ProfileRowView;

    open spec fn view(&self) -> ProfileRowView {
        ProfileRowView {
            name: self.name@,
            status: self.status@,
            label: self.label@,
            action: self.action@,
        }
    }
}

/// Rows as their views.
pub open spec fn rows_view(rows: Seq<ProfileRow>) -> Seq<ProfileRowView> {
    rows.map_values(|row: ProfileRow| row@)
}

/// The menu.
#[derive(Debug, Clone, PartialEq, Eq)]
pub enum Menu {
    /// openvpn3 cannot be used, for this reason.
    Unavailable(String),
    Empty { header: Header, hint: &'static str },
    Profiles { header: Header, rows: Vec<ProfileRow> },
}

/// A `Menu` with its texts as sequences of characters.
pub enum MenuView {
    Unavailable(Seq<char>),
    Empty { header: HeaderView, hint: Seq<char> },
    Profiles { header: HeaderView, rows: Seq<ProfileRowView> },
}

impl View for Menu {
    type V = MenuView;

    open spec fn view(&self) -> MenuView {
        match *self {
            Menu::Unavailable(reason) => MenuView::Unavailable(reason@),
            Menu::Empty { header, hint } => MenuView::Empty { header: header@, hint: hint@ },
            Menu::Profiles { header, rows } => MenuView::Profiles {
                header: header@,
                rows: rows_view(rows@),
            },
        }
    }
}

/// A field of the prompt, with what was typed into it.
#[derive(Debug, Clone, PartialEq, Eq)]
pub struct AuthField {
    pub key: u64,
    pub label: String,
    pub value: String,
    /// Is what is typed hidden?
    pub masked: bool,
}

/// An `AuthField` with its texts as sequences of characters.
pub struct AuthFieldView {
    pub key: u64,
    pub label: Seq<char>,
    pub value: Seq<char>,
    pub masked: bool,
}

impl View for AuthField {
    type V = AuthFieldView;

    open spec fn view(&self) -> AuthFieldView {
        AuthFieldView {
            key: self.key,
            label: self.label@,
            value: self.value@,
            masked: self.masked,
        }
    }
}

/// Fields as their views.
pub open spec fn auth_fields_view(fields: Seq<AuthField>) -> Seq<AuthFieldView> {
    fields.map_values(|field: AuthField| field@)
}

/// The prompt.
#[derive(Debug, Clone, PartialEq, Eq)]
pub struct AuthPage {
    pub heading: &'static str,
    /// What openvpn3 says about it, where it says anything.
    pub message: Option<String>,
    pub fields: Vec<AuthField>,
}

/// An `AuthPage` with its texts as sequences of characters.
pub struct AuthPageView {
    pub heading: Seq<char>,
    pub message: Option<Seq<char>>,
    pub fields: Seq<AuthFieldView>,
}

impl View for AuthPage {
    type V = AuthPageView;

    open spec fn view(&self) -> AuthPageView {
        AuthPageView {
            heading: self.heading@,
            message: optional(self.message),
            fields: auth_fields_view(self.fields@),
        }
    }
}

/// The log of the most recent attempt, to be read only.
#[derive(Debug, Clone, PartialEq, Eq)]
pub enum LogPage {
    Lines(Vec<String>),
    /// Nothing was captured. Saying so beats a blank pane, which reads as a bug or
    /// a clean run.
    NotCaptured(&'static str),
}

/// A `LogPage` with its texts as sequences of characters.
pub enum LogPageView {
    Lines(Seq<Seq<char>>),
    NotCaptured(Seq<char>),
}

impl View for LogPage {
    type V = LogPageView;

    open spec fn view(&self) -> LogPageView {
        match *self {
            LogPage::Lines(lines) => LogPageView::Lines(texts(lines@)),
            LogPage::NotCaptured(text) => LogPageView::NotCaptured(text@),
        }
    }
}

/// What one view shows.
#[derive(Debug, Clone, PartialEq, Eq)]
pub enum Page {
    Menu(Menu),
    Auth(AuthPage),
    Log(LogPage),
    Blank,
}

/// A `Page` with its texts as sequences of characters.
pub enum PageView {
    Menu(MenuView),
    Auth(AuthPageView),
    Log(LogPageView),
    Blank,
}

impl View for Page {
    type V = PageView;

    open spec fn view(&self) -> PageView {
        match *self {
            Page::Menu(menu) => PageView::Menu(menu@),
            Page::Auth(page) => PageView::Auth(page@),
            Page::Log(page) => PageView::Log(page@),
            Page::Blank => PageView::Blank,
        }
    }
}

/// The state in words.
pub open spec fn label_of(state: ConnectionState) -> Seq<char> {
    match state {
        ConnectionState::Disconnected => "Not connected"@,
        ConnectionState::Connecting => "Connecting…"@,
        ConnectionState::Connected => "Connected"@,
        ConnectionState::AuthPending => "Waiting for input"@,
        ConnectionState::Failed => "Failed"@,
    }
}

/// The state in words.
pub fn state_label(state: ConnectionState) -> (label: &'static str)
    ensures
        label@ == label_of(state),
{
    match state {
        ConnectionState::Disconnected => "Not connected",
        ConnectionState::Connecting => "Connecting…",
        ConnectionState::Connected => "Connected",
        ConnectionState::AuthPending => "Waiting for input",
        ConnectionState::Failed => "Failed",
    }
}

/// The seconds since then. None, where the clock is behind or cannot be read.
pub open spec fn elapsed(since_epoch: u64, now: Option<u64>) -> nat {
    match now {
        Some(now) => if now >= since_epoch {
            (now - since_epoch) as nat
        } else {
            0
        },
        None => 0,
    }
}

/// A time span in its two largest units.
pub open spec fn uptime_text(seconds: nat) -> Seq<char> {
    let hours = seconds / 3600;
    let minutes = (seconds % 3600) / 60;
    if hours > 0 {
        decimal(hours) + "h "@ + decimal_padded(minutes) + "m"@
    } else if minutes > 0 {
        decimal(minutes) + "m "@ + decimal_padded(seconds % 60) + "s"@
    } else {
        decimal(seconds % 60) + "s"@
    }
}

/// How long a session has been up.
///
/// Told from when openvpn3 created it, so an adopted session shows its true age
/// rather than the time since the applet noticed it.
pub fn format_uptime(since_epoch: u64, now: Option<u64>) -> (text: String)
    ensures
        text@ == uptime_text(elapsed(since_epoch, now)),
{
    let now: u64 = match now {
        Some(now) => now,
        None => since_epoch,
    };
    let seconds: u64 = now.saturating_sub(since_epoch);
    let hours: u64 = seconds / 3600;
    let minutes: u64 = (seconds % 3600) / 60;
    if hours > 0 {
        let mut text = decimal_text(hours);
        text.append("h ");
        text.append(decimal_padded_text(minutes).as_str());
        text.append("m");
        text
    } else if minutes > 0 {
        let mut text = decimal_text(minutes);
        text.append("m ");
        text.append(decimal_padded_text(seconds % 60).as_str());
        text.append("s");
        text
    } else {
        let mut text = decimal_text(seconds % 60);
        text.append("s");
        text
    }
}

/// The menu's title.
pub open spec fn title_of(snapshot: SnapshotView) -> Seq<char> {
    match snapshot.active_name {
        Some(name) => match snapshot.state {
            ConnectionState::Connected => "Connected — "@ + name,
            ConnectionState::Connecting => "Connecting — "@ + name,
            ConnectionState::AuthPending => "Waiting for input — "@ + name,
            ConnectionState::Failed => "Failed — "@ + name,
            ConnectionState::Disconnected => "Not connected"@,
        },
        None => if snapshot.state == ConnectionState::Failed {
            "Connection failed"@
        } else {
            "Not connected"@
        },
    }
}

/// The top of the menu: the profile in use and how long it has been up, or what
/// went wrong.
pub open spec fn header_of(snapshot: SnapshotView, now: Option<u64>) -> HeaderView {
    HeaderView {
        title: title_of(snapshot),
        uptime: match snapshot.session_created {
            Some(since) => if snapshot.state == ConnectionState::Connected {
                Some("Up "@ + uptime_text(elapsed(since, now)))
            } else {
                None
            },
            None => None,
        },
        reason: if snapshot.state == ConnectionState::Failed && snapshot.status_message.len() > 0 {
            Some(snapshot.status_message)
        } else {
            None
        },
        failed: snapshot.state == ConnectionState::Failed,
    }
}

/// Is a session on its way or up?
pub open spec fn under_way(state: ConnectionState) -> bool {
    state == ConnectionState::Connected || state == ConnectionState::Connecting || state
        == ConnectionState::AuthPending
}

/// A profile's row: its state, and the right action for it.
pub open spec fn row_of(snapshot: SnapshotView, profile: ProfileView) -> ProfileRowView {
    let active = snapshot.active_config == Some(profile.config_path);
    ProfileRowView {
        name: profile.name,
        status: if active {
            label_of(snapshot.state)
        } else {
            "Not connected"@
        },
        label: if active && under_way(snapshot.state) {
            "Disconnect"@
        } else {
            "Connect"@
        },
        action: if active && under_way(snapshot.state) {
            RowActionView::Disconnect
        } else {
            RowActionView::Connect { config_path: profile.config_path }
        },
    }
}

/// The menu.
pub open spec fn menu_of(snapshot: SnapshotView, now: Option<u64>) -> MenuView {
    match snapshot.unavailable {
        Some(reason) => MenuView::Unavailable(reason),
        None => if snapshot.profiles.len() == 0 {
            MenuView::Empty {
                header: header_of(snapshot, now),
                hint: "No profiles yet — import a .ovpn file to get started."@,
            }
        } else {
            MenuView::Profiles {
                header: header_of(snapshot, now),
                rows: snapshot.profiles.map_values(
                    |profile: ProfileView| row_of(snapshot, profile),
                ),
            }
        },
    }
}

/// The prompt's heading.
pub open spec fn heading_of(kind: PromptKind) -> Seq<char> {
    match kind {
        PromptKind::UserPassword => "Sign in"@,
        PromptKind::PrivateKeyPassphrase => "Private key passphrase"@,
        PromptKind::Challenge => "Additional verification"@,
    }
}

/// A field of the prompt, with what was typed into it.
pub open spec fn auth_field_of(
    input: PromptInputView,
    values: Map<u64, Seq<char>>,
) -> AuthFieldView {
    AuthFieldView {
        key: key_of(input.type_, input.group, input.field.id),
        label: input.field.label,
        value: typed(values, input),
        masked: input.field.masked,
    }
}

/// The prompt.
pub open spec fn auth_page_of(
    prompt: PromptSpecView,
    values: Map<u64, Seq<char>>,
) -> AuthPageView {
    AuthPageView {
        heading: heading_of(prompt.kind),
        message: if trimmed(prompt.message).len() == 0 {
            None
        } else {
            Some(prompt.message)
        },
        fields: prompt.fields.map_values(|input: PromptInputView| auth_field_of(input, values)),
    }
}

/// The log of the most recent attempt.
pub open spec fn log_page_of(log: Option<Seq<Seq<char>>>) -> LogPageView {
    match log {
        Some(lines) => if lines.len() > 0 {
            LogPageView::Lines(lines)
        } else {
            not_captured()
        },
        None => not_captured(),
    }
}

/// What the log says where nothing was captured.
pub open spec fn not_captured() -> LogPageView {
    LogPageView::NotCaptured(
        "No log was captured for this session — it was started outside the applet."@,
    )
}

impl AppView {
    /// What the view with this number shows.
    pub open spec fn page(self, id: u64, now: Option<u64>) -> PageView {
        if self.popup == Some(id) {
            PageView::Menu(menu_of(self.snapshot, now))
        } else if self.auth_window == Some(id) {
            match self.snapshot.prompt {
                Some(prompt) => PageView::Auth(auth_page_of(prompt, self.field_values)),
                None => PageView::Blank,
            }
        } else if self.log_window == Some(id) {
            PageView::Log(log_page_of(self.snapshot.log))
        } else {
            PageView::Blank
        }
    }
}

impl App {
    /// The panel icon: the state, without opening anything.
    pub fn panel_icon(&self) -> (name: &'static str)
        ensures
            name@ == self@.snapshot.state.icon(),
    {
        self.snapshot().state.icon_name()
    }

    fn view_title(&self) -> (title: String)
        ensures
            title@ == title_of(self@.snapshot),
    {
        let state = self.snapshot().state;
        match &self.snapshot().active_name {
            Some(name) => {
                let mut title = match state {
                    ConnectionState::Connected => "Connected — ".to_owned(),
                    ConnectionState::Connecting => "Connecting — ".to_owned(),
                    ConnectionState::AuthPending => "Waiting for input — ".to_owned(),
                    ConnectionState::Failed => "Failed — ".to_owned(),
                    ConnectionState::Disconnected => {
                        return "Not connected".to_owned();
                    },
                };
                title.append(name.as_str());
                title
            },
            None => if state == ConnectionState::Failed {
                "Connection failed".to_owned()
            } else {
                "Not connected".to_owned()
            },
        }
    }

    /// The profile in use and how long it has been up, or what went wrong.
    pub fn view_header(&self, now: Option<u64>) -> (header: Header)
        ensures
            header@ == header_of(self@.snapshot, now),
    {
        let snapshot = self.snapshot();
        let mut uptime: Option<String> = None;
        if snapshot.state == ConnectionState::Connected {
            if let Some(since) = snapshot.session_created {
                let mut text = "Up ".to_owned();
                text.append(format_uptime(since, now).as_str());
                uptime = Some(text);
            }
        }
        let failed = snapshot.state == ConnectionState::Failed;
        let reason = if failed && !snapshot.status_message.as_str().is_empty() {
            Some(snapshot.status_message.clone())
        } else {
            None
        };
        Header { title: self.view_title(), uptime, reason, failed }
    }

    /// A profile's row: its state, and the right action for it.
    pub fn view_profile_row(&self, profile: &Profile) -> (row: ProfileRow)
        ensures
            row@ == row_of(self@.snapshot, profile@),
    {
        let state = self.snapshot().state;
        let active = reads(&self.snapshot().active_config, &profile.config_path);
        let under_way = state == ConnectionState::Connected || state
            == ConnectionState::Connecting || state == ConnectionState::AuthPending;
        let status = if active {
            state_label(state)
        } else {
            "Not connected"
        };
        if active && under_way {
            ProfileRow {
                name: profile.name.clone(),
                status,
                label: "Disconnect",
                action: RowAction::Disconnect,
            }
        } else {
            ProfileRow {
                name: profile.name.clone(),
                status,
                label: "Connect",
                action: RowAction::Connect { config_path: profile.config_path.clone() },
            }
        }
    }

    /// The menu: every profile, its state, and the right action for it.
    pub fn view_menu(&self, now: Option<u64>) -> (menu: Menu)
        ensures
            menu@ == menu_of(self@.snapshot, now),
    {
        let snapshot = self.snapshot();
        if let Some(reason) = &snapshot.unavailable {
            return Menu::Unavailable(reason.clone());
        }
        let header = self.view_header(now);
        if snapshot.profiles.len() == 0 {
            return Menu::Empty {
                header,
                hint: "No profiles yet — import a .ovpn file to get started.",
            };
        }
        let mut rows: Vec<ProfileRow> = Vec::new();
        let mut i: usize = 0;
        while i < snapshot.profiles.len()
            invariant
                i <= snapshot.profiles.len(),
                snapshot@ == self@.snapshot,
                rows@.len() == i,
                forall|k: int|
                    0 <= k < i ==> (#[trigger] rows@[k])@ == row_of(
                        self@.snapshot,
                        self@.snapshot.profiles[k],
                    ),
            decreases snapshot.profiles.len() - i,
        {
            rows.push(self.view_profile_row(&snapshot.profiles[i]));
            i = i + 1;
        }
        proof {
            let views = self@.snapshot;
            assert(rows_view(rows@) =~= views.profiles.map_values(
                |profile: ProfileView| row_of(views, profile),
            ));
        }
        Menu::Profiles { header, rows }
    }

    /// The prompt, while there is something to ask.
    pub fn view_auth(&self) -> (page: Option<AuthPage>)
        ensures
            match page {
                Some(page) => self@.snapshot.prompt is Some && page@ == auth_page_of(
                    self@.snapshot.prompt->0,
                    self@.field_values,
                ),
                None => self@.snapshot.prompt is None,
            },
    {
        let prompt = match &self.snapshot().prompt {
            Some(prompt) => prompt,
            None => {
                return None;
            },
        };
        let heading = match prompt.kind {
            PromptKind::UserPassword => "Sign in",
            PromptKind::PrivateKeyPassphrase => "Private key passphrase",
            PromptKind::Challenge => "Additional verification",
        };
        let message = if trim(prompt.message.as_str()).is_empty() {
            None
        } else {
            Some(prompt.message.clone())
        };
        let mut fields: Vec<AuthField> = Vec::new();
        let mut i: usize = 0;
        while i < prompt.fields.len()
            invariant
                i <= prompt.fields.len(),
                fields@.len() == i,
                forall|k: int|
                    0 <= k < i ==> (#[trigger] fields@[k])@ == auth_field_of(
                        prompt@.fields[k],
                        self@.field_values,
                    ),
            decreases prompt.fields.len() - i,
        {
            let input = &prompt.fields[i];
            fields.push(
                AuthField {
                    key: field_key(input),
                    label: input.field.label.clone(),
                    value: self.typed_value(input),
                    masked: input.field.masked,
                },
            );
            i = i + 1;
        }
        proof {
            let values = self@.field_values;
            assert(auth_fields_view(fields@) =~= prompt@.fields.map_values(
                |input: PromptInputView| auth_field_of(input, values),
            ));
        }
        Some(AuthPage { heading, message, fields })
    }

    /// The log of the most recent attempt.
    pub fn view_log(&self) -> (page: LogPage)
        ensures
            page@ == log_page_of(self@.snapshot.log),
    {
        if let Some(lines) = &self.snapshot().log {
            if lines.len() > 0 {
                let copied = lines.clone();
                assert(texts(copied@) =~= texts(lines@));
                return LogPage::Lines(copied);
            }
        }
        LogPage::NotCaptured(
            "No log was captured for this session — it was started outside the applet.",
        )
    }

    /// What the view with this number shows.
    pub fn view_window(&self, id: u64, now: Option<u64>) -> (page: Page)
        ensures
            page@ == self@.page(id, now),
    {
        if self.popup() == Some(id) {
            Page::Menu(self.view_menu(now))
        } else if self.auth_window() == Some(id) {
            match self.view_auth() {
                Some(page) => Page::Auth(page),
                None => Page::Blank,
            }
        } else if self.log_window() == Some(id) {
            Page::Log(self.view_log())
        } else {
            Page::Blank
        }
    }
}

/// Only the profile in use offers to disconnect, and every other row connects the
/// profile it names.
pub proof fn law_rows_act_on_their_own_profile(snapshot: SnapshotView, profile: ProfileView)
    ensures
        match row_of(snapshot, profile).action {
            RowActionView::Disconnect => snapshot.active_config == Some(profile.config_path),
            RowActionView::Connect { config_path } => config_path == profile.config_path,
        },
{
}

/// The menu is never empty without a word: it lists every profile, or says why
/// there is nothing to list.
pub proof fn law_the_menu_explains_itself(snapshot: SnapshotView, now: Option<u64>)
    ensures
        match menu_of(snapshot, now) {
            MenuView::Unavailable(reason) => snapshot.unavailable == Some(reason),
            MenuView::Empty { hint, .. } => snapshot.profiles.len() == 0 && hint.len() > 0,
            MenuView::Profiles { rows, .. } => rows.len() == snapshot.profiles.len() && rows.len()
                > 0,
        },
{
    reveal_strlit("No profiles yet — import a .ovpn file to get started.");
}

/// The words for two states are the same only where the states are.
pub proof fn law_state_labels_are_distinct(a: ConnectionState, b: ConnectionState)
    requires
        label_of(a) == label_of(b),
    ensures
        a == b,
{
    reveal_strlit("Not connected");
    reveal_strlit("Connecting…");
    reveal_strlit("Connected");
    reveal_strlit("Waiting for input");
    reveal_strlit("Failed");
    assert("Not connected"@.len() == 13);
    assert("Connecting…"@.len() == 11);
    assert("Connected"@.len() == 9);
    assert("Waiting for input"@.len() == 17);
    assert("Failed"@.len() == 6);
}

/// The log view is never blank: it shows lines, or says that none were captured.
pub proof fn law_the_log_is_never_blank(log: Option<Seq<Seq<char>>>)
    ensures
        match log_page_of(log) {
            LogPageView::Lines(lines) => lines.len() > 0 && log == Some(lines),
            LogPageView::NotCaptured(text) => text.len() > 0,
        },
{
    reveal_strlit("No log was captured for this session — it was started outside the applet.");
}

/// The words for each state.
pub proof fn law_each_state_has_its_words()
    ensures
        label_of(ConnectionState::Disconnected) == "Not connected"@,
        label_of(ConnectionState::Connecting) == "Connecting…"@,
        label_of(ConnectionState::Connected) == "Connected"@,
        label_of(ConnectionState::AuthPending) == "Waiting for input"@,
        label_of(ConnectionState::Failed) == "Failed"@,
{
}

/// The time that passed and the time that it began make up the time now; a clock that is
/// behind, or that cannot be read, tells of no time at all.
pub proof fn law_time_adds_up(since_epoch: u64, now: u64)
    ensures
        now >= since_epoch ==> since_epoch + elapsed(since_epoch, Some(now)) == now,
        now < since_epoch ==> elapsed(since_epoch, Some(now)) == 0,
        elapsed(since_epoch, None) == 0,
{
}

/// A time span reads as its hours and minutes, its minutes and seconds, or its seconds
/// alone, whichever two are the largest that it has, the second in two digits.
pub proof fn law_uptimes_are_told_in_two_units(hours: nat, minutes: nat, seconds: nat)
    requires
        minutes < 60,
        seconds < 60,
    ensures
        hours > 0 ==> uptime_text(hours * 3600 + minutes * 60 + seconds) == decimal(hours) + "h "@
            + decimal_padded(minutes) + "m"@,
        hours == 0 && minutes > 0 ==> uptime_text(hours * 3600 + minutes * 60 + seconds)
            == decimal(minutes) + "m "@ + decimal_padded(seconds) + "s"@,
        hours == 0 && minutes == 0 ==> uptime_text(hours * 3600 + minutes * 60 + seconds)
            == decimal(seconds) + "s"@,
{
    let total = hours * 3600 + minutes * 60 + seconds;
    assert(total / 3600 == hours);
    assert((total % 3600) / 60 == minutes);
    assert(total % 60 == seconds);
}

/// The title names the profile in use and what it is doing. Without one it says whether
/// something went wrong.
pub proof fn law_the_title_names_the_profile(snapshot: SnapshotView)
    ensures
        snapshot.active_name matches Some(name) ==> {
            &&& snapshot.state == ConnectionState::Connected ==> title_of(snapshot)
                == "Connected — "@ + name
            &&& snapshot.state == ConnectionState::Connecting ==> title_of(snapshot)
                == "Connecting — "@ + name
            &&& snapshot.state == ConnectionState::AuthPending ==> title_of(snapshot)
                == "Waiting for input — "@ + name
            &&& snapshot.state == ConnectionState::Failed ==> title_of(snapshot) == "Failed — "@
                + name
        },
        snapshot.state == ConnectionState::Disconnected ==> title_of(snapshot) == "Not connected"@,
        snapshot.active_name is None && snapshot.state == ConnectionState::Failed ==> title_of(
            snapshot,
        ) == "Connection failed"@,
        snapshot.active_name is None && snapshot.state != ConnectionState::Failed ==> title_of(
            snapshot,
        ) == "Not connected"@,
{
}

/// The uptime shows exactly while a session is connected and it is known when it began. A
/// failure shows with its reason where openvpn3 gave one.
pub proof fn law_the_header_tells_what_matters(snapshot: SnapshotView, now: Option<u64>)
    ensures
        ({
            let header = header_of(snapshot, now);
            &&& header.title == title_of(snapshot)
            &&& header.uptime is Some <==> snapshot.state == ConnectionState::Connected
                && snapshot.session_created is Some
            &&& header.uptime is Some ==> header.uptime->0 == "Up "@ + uptime_text(
                elapsed(snapshot.session_created->0, now),
            )
            &&& header.failed <==> snapshot.state == ConnectionState::Failed
            &&& header.reason is Some <==> header.failed && snapshot.status_message.len() > 0
            &&& header.reason is Some ==> header.reason->0 == snapshot.status_message
        }),
{
}

/// A row bears its profile's name. The row of the profile in use tells its state and, while
/// it is connected, connecting or waiting for input, offers to disconnect; every other row
/// offers to connect.
pub proof fn law_rows_tell_their_state(snapshot: SnapshotView, profile: ProfileView)
    ensures
        ({
            let row = row_of(snapshot, profile);
            let in_use = snapshot.active_config == Some(profile.config_path);
            let busy = snapshot.state == ConnectionState::Connected || snapshot.state
                == ConnectionState::Connecting || snapshot.state == ConnectionState::AuthPending;
            &&& row.name == profile.name
            &&& in_use ==> row.status == label_of(snapshot.state)
            &&& !in_use ==> row.status == "Not connected"@
            &&& in_use && busy ==> row.label == "Disconnect"@ && row.action is Disconnect
            &&& !(in_use && busy) ==> row.label == "Connect"@ && row.action == (
            RowActionView::Connect { config_path: profile.config_path })
        }),
{
}

/// The menu says why openvpn3 cannot be used before anything else. Otherwise it lists the
/// profiles in their order under its header, or says how to get one.
pub proof fn law_the_menu_lists_the_profiles(snapshot: SnapshotView, now: Option<u64>, i: int)
    ensures
        snapshot.unavailable matches Some(reason) ==> menu_of(snapshot, now)
            == MenuView::Unavailable(reason),
        snapshot.unavailable is None && snapshot.profiles.len() == 0 ==> menu_of(snapshot, now) == (
        MenuView::Empty {
            header: header_of(snapshot, now),
            hint: "No profiles yet — import a .ovpn file to get started."@,
        }),
        snapshot.unavailable is None && snapshot.profiles.len() > 0 ==> {
            let menu = menu_of(snapshot, now);
            &&& menu is Profiles
            &&& menu->Profiles_header == header_of(snapshot, now)
            &&& menu->rows.len() == snapshot.profiles.len()
            &&& 0 <= i < snapshot.profiles.len() ==> menu->rows[i] == row_of(
                snapshot,
                snapshot.profiles[i],
            )
        },
{
}

/// The prompt is headed by its kind, says what openvpn3 says unless that is blank, and has
/// its fields in their order: each under its own key, labelled and masked as it is to be,
/// and with what was typed into it.
pub proof fn law_the_prompt_shows_its_fields(
    prompt: PromptSpecView,
    values: Map<u64, Seq<char>>,
    i: int,
)
    ensures
        ({
            let page = auth_page_of(prompt, values);
            &&& prompt.kind == PromptKind::UserPassword ==> page.heading == "Sign in"@
            &&& prompt.kind == PromptKind::PrivateKeyPassphrase ==> page.heading
                == "Private key passphrase"@
            &&& prompt.kind == PromptKind::Challenge ==> page.heading == "Additional verification"@
            &&& page.message is Some <==> trimmed(prompt.message).len() > 0
            &&& page.message is Some ==> page.message->0 == prompt.message
            &&& page.fields.len() == prompt.fields.len()
            &&& 0 <= i < prompt.fields.len() ==> {
                let input = prompt.fields[i];
                &&& page.fields[i].key == key_of(input.type_, input.group, input.field.id)
                &&& page.fields[i].label == input.field.label
                &&& page.fields[i].masked == input.field.masked
                &&& page.fields[i].value == typed(values, input)
            }
        }),
{
}

/// The log shows every captured line, and says so where there is none.
pub proof fn law_the_log_shows_its_lines(lines: Seq<Seq<char>>)
    ensures
        lines.len() > 0 ==> log_page_of(Some(lines)) == LogPageView::Lines(lines),
        lines.len() == 0 ==> log_page_of(Some(lines)) is NotCaptured,
        log_page_of(None) == LogPageView::NotCaptured(
            "No log was captured for this session — it was started outside the applet."@,
        ),
{
}

/// Each view shows its own page, and a view that is not open shows nothing.
pub proof fn law_each_view_shows_its_page(app: AppView, id: u64, now: Option<u64>)
    ensures
        app.popup == Some(id) ==> app.page(id, now) == PageView::Menu(menu_of(app.snapshot, now)),
        app.auth_window == Some(id) && app.popup != Some(id) && app.snapshot.prompt is Some
            ==> app.page(id, now) == PageView::Auth(
            auth_page_of(app.snapshot.prompt->0, app.field_values),
        ),
        app.log_window == Some(id) && app.popup != Some(id) && app.auth_window != Some(id)
            ==> app.page(id, now) == PageView::Log(log_page_of(app.snapshot.log)),
        app.auth_window == Some(id) && app.popup != Some(id) && app.snapshot.prompt is None
            ==> app.page(id, now) is Blank,
        app.popup != Some(id) && app.auth_window != Some(id) && app.log_window != Some(id)
            ==> app.page(id, now) is Blank,
{
}

} // verus!

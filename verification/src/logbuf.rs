//! Live capture of session log events.
//!
//! openvpn3's log service has no API for reading back a completed session's
//! log, and its `ProxyLogEvents` method is restricted to the `openvpn` user, so
//! neither is available to an unprivileged front-end. Whatever the applet
//! captures while the session runs is all there will ever be, which is why
//! `LogForward(true)` has to be enabled before `Connect` rather than after.

use std::collections::VecDeque;
use vstd::prelude::*;
use vstd::string::*;

verus! {

/// One `Log` signal, or a note the applet wrote itself.
#[derive(Debug, Clone, PartialEq, Eq)]
pub struct LogEntry {
    pub group: u32,
    pub level: u32,
    pub message: String,
}

/// A `LogEntry` with its text as a sequence of characters.
pub struct LogEntryView {
    pub group: u32,
    pub level: u32,
    pub message: Seq<char>,
}

impl View for LogEntry {
    type V = LogEntryView;

    open spec fn view(&self) -> LogEntryView {
        LogEntryView { group: self.group, level: self.level, message: self.message@ }
    }
}

/// The entry that a line written by the applet becomes.
pub open spec fn note_entry(message: Seq<char>) -> LogEntryView {
    LogEntryView { group: 0, level: 0, message }
}

impl LogEntry {
    /// A line the applet generated rather than received: an unmapped status or
    /// an unsupported attention request. Without these the user sees a failed
    /// icon and a log that never explains itself.
    pub fn note(message: &str) -> (entry: LogEntry)
        ensures
            entry@ == note_entry(message@),
    {
        LogEntry { group: 0, level: 0, message: message.to_owned() }
    }
}

/// What the log page has to show.
#[derive(Debug)]
pub enum SessionLog<'a> {
    Captured { path: &'a str, entries: Vec<&'a LogEntry> },
    /// A session exists but nothing was captured for it, typically one adopted
    /// from outside the applet, which never had log forwarding enabled. The
    /// page says so rather than rendering blank, because a blank pane reads as
    /// either a bug or a clean run and it is neither.
    NotCaptured { path: &'a str },
    /// No session has been seen at all.
    NoSession,
}

/// A `SessionLog` with its texts as sequences of characters.
pub enum SessionLogView {
    Captured { path: Seq<char>, entries: Seq<LogEntryView> },
    NotCaptured { path: Seq<char> },
    NoSession,
}

impl<'a> View for SessionLog<'a> {
    type V = SessionLogView;

    open spec fn view(&self) -> SessionLogView {
        match *self {
            SessionLog::Captured { path, entries } => SessionLogView::Captured {
                path: path@,
                entries: entries@.map_values(|entry: &LogEntry| entry@),
            },
            SessionLog::NotCaptured { path } => SessionLogView::NotCaptured { path: path@ },
            SessionLog::NoSession => SessionLogView::NoSession,
        }
    }
}

/// The captured lines of one session.
#[derive(Debug)]
struct SessionBuffer {
    path: String,
    entries: VecDeque<LogEntry>,
}

impl SessionBuffer {
    /// The captured lines, oldest first.
    spec fn lines(self) -> Seq<LogEntryView> {
        self.entries@.map_values(|entry: LogEntry| entry@)
    }

    /// Append a line, at the cost of the oldest where there is no room.
    fn append(&mut self, capacity: usize, entry: LogEntry)
        requires
            old(self).lines().len() <= capacity,
            capacity > 0,
        ensures
            final(self).path == old(self).path,
            final(self).lines() == appended(old(self).lines(), capacity as nat, entry@),
    {
        if self.entries.len() == capacity {
            self.entries.pop_front();
        }
        self.entries.push_back(entry);
        proof {
            assert(self.lines() == appended(old(self).lines(), capacity as nat, entry@));
        }
    }
}

/// `lines` with `entry` behind them, and without the oldest where `capacity`
/// lines were there already.
pub open spec fn appended(
    lines: Seq<LogEntryView>,
    capacity: nat,
    entry: LogEntryView,
) -> Seq<LogEntryView> {
    if lines.len() == capacity {
        lines.drop_first().push(entry)
    } else {
        lines.push(entry)
    }
}

/// Bounded per-session log capture.
///
/// Only the current session's log is kept once a session goes away. This is a
/// failure escape hatch, not a history: it serves the most recent attempt.
#[derive(Debug)]
pub struct LogStore {
    capacity: usize,
    /// Buffers for sessions believed to still exist, one per session.
    buffers: Vec<SessionBuffer>,
    /// The current session's buffer, kept after its object was removed so the
    /// log survives long enough for the user to open it.
    retained: Option<SessionBuffer>,
    most_recent: Option<String>,
}

/// A session that is gone, and its lines.
pub struct RetainedView {
    pub path: Seq<char>,
    pub lines: Seq<LogEntryView>,
}

/// A `LogStore` as the lines it holds.
#[verifier::ext_equal]
pub struct LogStoreView {
    /// How many lines a session may hold.
    pub capacity: nat,
    /// The lines of each session believed to still exist, oldest first.
    pub buffers: Map<Seq<char>, Seq<LogEntryView>>,
    /// The current session and its lines, once its object is gone.
    pub retained: Option<RetainedView>,
    /// The current session.
    pub most_recent: Option<Seq<char>>,
}

impl LogStoreView {
    /// An empty store. Even a store asked to hold nothing holds a line.
    pub open spec fn empty(capacity: nat) -> LogStoreView {
        LogStoreView {
            capacity: if capacity == 0 {
                1
            } else {
                capacity
            },
            buffers: Map::empty(),
            retained: None,
            most_recent: None,
        }
    }

    /// No session holds more lines than it may, and only the current session is
    /// kept beyond its end.
    pub open spec fn bounded(self) -> bool {
        &&& self.capacity > 0
        &&& forall|path: Seq<char>| #[trigger]
            self.buffers.dom().contains(path) ==> self.buffers[path].len() <= self.capacity
        &&& self.retained is Some ==> self.retained->0.lines.len() <= self.capacity && self.most_recent
            == Some(self.retained->0.path)
    }

    /// A session begins: it becomes the current one, with nothing captured yet.
    pub open spec fn begun(self, path: Seq<char>) -> LogStoreView {
        LogStoreView {
            buffers: self.buffers.insert(path, Seq::empty()),
            retained: None,
            most_recent: Some(path),
            ..self
        }
    }

    /// A session from elsewhere becomes the current one. What is captured stays
    /// as it is.
    pub open spec fn adopted(self, path: Seq<char>) -> LogStoreView {
        LogStoreView { retained: None, most_recent: Some(path), ..self }
    }

    /// A line arrives. It is dropped unless the session is being captured.
    pub open spec fn pushed(self, path: Seq<char>, entry: LogEntryView) -> LogStoreView {
        if self.buffers.dom().contains(path) {
            LogStoreView {
                buffers: self.buffers.insert(
                    path,
                    appended(self.buffers[path], self.capacity, entry),
                ),
                ..self
            }
        } else {
            self
        }
    }

    /// What is captured for a live session so far.
    pub open spec fn captured(self, path: Seq<char>) -> Seq<LogEntryView> {
        if self.buffers.dom().contains(path) {
            self.buffers[path]
        } else {
            Seq::empty()
        }
    }

    /// The applet writes a line. It is kept whether or not the session was being
    /// captured, and names the current session where there is none.
    pub open spec fn noted(self, path: Seq<char>, message: Seq<char>) -> LogStoreView {
        LogStoreView {
            buffers: self.buffers.insert(
                path,
                appended(self.captured(path), self.capacity, note_entry(message)),
            ),
            most_recent: match self.most_recent {
                Some(current) => Some(current),
                None => Some(path),
            },
            ..self
        }
    }

    /// A session object goes away. Its lines are kept only where it is the
    /// current one.
    pub open spec fn removed(self, path: Seq<char>) -> LogStoreView {
        if self.buffers.dom().contains(path) {
            LogStoreView {
                buffers: self.buffers.remove(path),
                retained: if self.most_recent == Some(path) {
                    Some(RetainedView { path, lines: self.buffers[path] })
                } else {
                    self.retained
                },
                ..self
            }
        } else {
            self
        }
    }

    /// Are lines of this session held, or would lines for it be?
    pub open spec fn has(self, path: Seq<char>) -> bool {
        self.buffers.dom().contains(path) || (self.retained is Some && self.retained->0.path == path)
    }

    /// The lines to show for the current session.
    pub open spec fn current_lines(self, path: Seq<char>) -> Seq<LogEntryView> {
        if self.buffers.dom().contains(path) {
            self.buffers[path]
        } else if self.retained is Some && self.retained->0.path == path {
            self.retained->0.lines
        } else {
            Seq::empty()
        }
    }

    /// What the log page has to show.
    pub open spec fn shown(self) -> SessionLogView {
        match self.most_recent {
            None => SessionLogView::NoSession,
            Some(path) => if self.current_lines(path).len() > 0 {
                SessionLogView::Captured { path, entries: self.current_lines(path) }
            } else {
                SessionLogView::NotCaptured { path }
            },
        }
    }
}

/// No two buffers belong to the same session.
spec fn distinct(buffers: Seq<SessionBuffer>) -> bool {
    forall|i: int, j: int|
        0 <= i < j < buffers.len() ==> #[trigger] buffers[i].path@ != #[trigger] buffers[j].path@
}

/// The buffers by session.
spec fn by_session(buffers: Seq<SessionBuffer>) -> Map<Seq<char>, Seq<LogEntryView>> {
    Map::new(
        |path: Seq<char>| exists|i: int| 0 <= i < buffers.len() && buffers[i].path@ == path,
        |path: Seq<char>|
            buffers[choose|i: int| 0 <= i < buffers.len() && buffers[i].path@ == path].lines(),
    )
}

/// A session's lines are those of the one buffer that bears its path.
proof fn lemma_by_session(buffers: Seq<SessionBuffer>, i: int)
    requires
        distinct(buffers),
        0 <= i < buffers.len(),
    ensures
        by_session(buffers).dom().contains(buffers[i].path@),
        by_session(buffers)[buffers[i].path@] == buffers[i].lines(),
{
    let path = buffers[i].path@;
    let k = choose|k: int| 0 <= k < buffers.len() && buffers[k].path@ == path;
    if k < i {
        assert(buffers[k].path@ != buffers[i].path@);
    } else if i < k {
        assert(buffers[i].path@ != buffers[k].path@);
    }
}

/// Changing one buffer changes one session's lines.
proof fn lemma_buffer_updated(buffers: Seq<SessionBuffer>, i: int, buffer: SessionBuffer)
    requires
        distinct(buffers),
        0 <= i < buffers.len(),
        buffer.path@ == buffers[i].path@,
    ensures
        distinct(buffers.update(i, buffer)),
        by_session(buffers.update(i, buffer)) == by_session(buffers).insert(
            buffer.path@,
            buffer.lines(),
        ),
{
    let after = buffers.update(i, buffer);
    assert forall|path: Seq<char>|
        by_session(after).dom().contains(path) == by_session(buffers).insert(
            buffer.path@,
            buffer.lines(),
        ).dom().contains(path) by {
        if by_session(after).dom().contains(path) {
            let k = choose|k: int| 0 <= k < after.len() && after[k].path@ == path;
            assert(buffers[k].path@ == path);
        }
        if by_session(buffers).dom().contains(path) {
            let k = choose|k: int| 0 <= k < buffers.len() && buffers[k].path@ == path;
            assert(after[k].path@ == path);
        }
        if path == buffer.path@ {
            assert(after[i].path@ == path);
        }
    }
    assert forall|path: Seq<char>| by_session(after).dom().contains(path) implies by_session(
        after,
    )[path] == by_session(buffers).insert(buffer.path@, buffer.lines())[path] by {
        let k = choose|k: int| 0 <= k < after.len() && after[k].path@ == path;
        lemma_by_session(after, k);
        lemma_by_session(buffers, k);
        if k != i {
            if k < i {
                assert(buffers[k].path@ != buffers[i].path@);
            } else {
                assert(buffers[i].path@ != buffers[k].path@);
            }
        }
    }
    assert(by_session(after) =~= by_session(buffers).insert(buffer.path@, buffer.lines()));
}

/// A new buffer adds a session.
proof fn lemma_buffer_added(buffers: Seq<SessionBuffer>, buffer: SessionBuffer)
    requires
        distinct(buffers),
        !by_session(buffers).dom().contains(buffer.path@),
    ensures
        distinct(buffers.push(buffer)),
        by_session(buffers.push(buffer)) == by_session(buffers).insert(
            buffer.path@,
            buffer.lines(),
        ),
{
    let after = buffers.push(buffer);
    let last = buffers.len() as int;
    assert(after[last] == buffer);
    assert forall|i: int, j: int| 0 <= i < j < after.len() implies #[trigger] after[i].path@
        != #[trigger] after[j].path@ by {
        if j < last {
            assert(buffers[i].path@ != buffers[j].path@);
        } else {
            assert(buffers[i].path@ != buffer.path@);
        }
    }
    assert forall|path: Seq<char>|
        by_session(after).dom().contains(path) == by_session(buffers).insert(
            buffer.path@,
            buffer.lines(),
        ).dom().contains(path) by {
        if by_session(after).dom().contains(path) {
            let k = choose|k: int| 0 <= k < after.len() && after[k].path@ == path;
            if k < last {
                assert(buffers[k].path@ == path);
            }
        }
        if by_session(buffers).dom().contains(path) {
            let k = choose|k: int| 0 <= k < buffers.len() && buffers[k].path@ == path;
            assert(after[k].path@ == path);
        }
        if path == buffer.path@ {
            assert(after[last].path@ == path);
        }
    }
    assert forall|path: Seq<char>| by_session(after).dom().contains(path) implies by_session(
        after,
    )[path] == by_session(buffers).insert(buffer.path@, buffer.lines())[path] by {
        let k = choose|k: int| 0 <= k < after.len() && after[k].path@ == path;
        lemma_by_session(after, k);
        if k < last {
            lemma_by_session(buffers, k);
            assert(buffers[k].path@ == path);
        }
    }
    assert(by_session(after) =~= by_session(buffers).insert(buffer.path@, buffer.lines()));
}

/// Taking a buffer out takes its session out.
proof fn lemma_buffer_removed(buffers: Seq<SessionBuffer>, i: int)
    requires
        distinct(buffers),
        0 <= i < buffers.len(),
    ensures
        distinct(buffers.remove(i)),
        by_session(buffers.remove(i)) == by_session(buffers).remove(buffers[i].path@),
{
    let after = buffers.remove(i);
    assert forall|k: int, j: int| 0 <= k < j < after.len() implies #[trigger] after[k].path@
        != #[trigger] after[j].path@ by {
        let from_k = if k < i {
            k
        } else {
            k + 1
        };
        let from_j = if j < i {
            j
        } else {
            j + 1
        };
        assert(buffers[from_k].path@ != buffers[from_j].path@);
    }
    assert forall|path: Seq<char>|
        by_session(after).dom().contains(path) == by_session(buffers).remove(
            buffers[i].path@,
        ).dom().contains(path) by {
        if by_session(after).dom().contains(path) {
            let k = choose|k: int| 0 <= k < after.len() && after[k].path@ == path;
            if k < i {
                assert(buffers[k].path@ == path);
                assert(buffers[k].path@ != buffers[i].path@);
            } else {
                assert(buffers[k + 1].path@ == path);
                assert(buffers[i].path@ != buffers[k + 1].path@);
            }
        }
        if by_session(buffers).dom().contains(path) && path != buffers[i].path@ {
            let k = choose|k: int| 0 <= k < buffers.len() && buffers[k].path@ == path;
            if k < i {
                assert(after[k].path@ == path);
            } else {
                assert(after[k - 1].path@ == path);
            }
        }
    }
    assert forall|path: Seq<char>| by_session(after).dom().contains(path) implies by_session(
        after,
    )[path] == by_session(buffers)[path] by {
        let k = choose|k: int| 0 <= k < after.len() && after[k].path@ == path;
        lemma_by_session(after, k);
        if k < i {
            lemma_by_session(buffers, k);
        } else {
            lemma_by_session(buffers, k + 1);
        }
    }
    assert(by_session(after) =~= by_session(buffers).remove(buffers[i].path@));
}

/// Where in `buffers` the session's lines are.
fn find(buffers: &Vec<SessionBuffer>, path: &str) -> (found: Option<usize>)
    requires
        distinct(buffers@),
    ensures
        match found {
            Some(i) => {
                &&& i < buffers.len()
                &&& buffers@[i as int].path@ == path@
                &&& by_session(buffers@).dom().contains(path@)
                &&& by_session(buffers@)[path@] == buffers@[i as int].lines()
            },
            None => !by_session(buffers@).dom().contains(path@),
        },
{
    let wanted = path.to_owned();
    let mut i: usize = 0;
    while i < buffers.len()
        invariant
            i <= buffers.len(),
            wanted@ == path@,
            distinct(buffers@),
            forall|k: int| 0 <= k < i ==> buffers@[k].path@ != path@,
        decreases buffers.len() - i,
    {
        if buffers[i].path == wanted {
            proof {
                lemma_by_session(buffers@, i as int);
            }
            return Some(i);
        }
        i = i + 1;
    }
    None
}

impl View for LogStore {
    type V = LogStoreView;

    closed spec fn view(&self) -> LogStoreView {
        LogStoreView {
            capacity: self.capacity as nat,
            buffers: by_session(self.buffers@),
            retained: match self.retained {
                Some(buffer) => Some(RetainedView { path: buffer.path@, lines: buffer.lines() }),
                None => None,
            },
            most_recent: match self.most_recent {
                Some(path) => Some(path@),
                None => None,
            },
        }
    }
}

impl LogStore {
    /// There is one buffer per session, and none is over its bound.
    pub closed spec fn wf(&self) -> bool {
        &&& distinct(self.buffers@)
        &&& self@.bounded()
    }

    /// A store that keeps up to `capacity` lines per session.
    pub fn new(capacity: usize) -> (store: LogStore)
        ensures
            store.wf(),
            store@ == LogStoreView::empty(capacity as nat),
    {
        let store = LogStore {
            capacity: if capacity == 0 {
                1
            } else {
                capacity
            },
            buffers: Vec::new(),
            retained: None,
            most_recent: None,
        };
        assert(store@.buffers =~= Map::<Seq<char>, Seq<LogEntryView>>::empty());
        store
    }

    /// Begin capturing for a session the applet started. Supersedes any
    /// retained log: a new attempt is not a continuation of the last one.
    pub fn begin_session(&mut self, path: &str)
        requires
            old(self).wf(),
        ensures
            final(self).wf(),
            final(self)@ == old(self)@.begun(path@),
    {
        self.retained = None;
        let buffer = SessionBuffer { path: path.to_owned(), entries: VecDeque::new() };
        let ghost fresh = buffer;
        assert(fresh.lines() =~= Seq::<LogEntryView>::empty());
        match find(&self.buffers, path) {
            Some(i) => {
                proof {
                    lemma_buffer_updated(self.buffers@, i as int, fresh);
                }
                self.buffers.set(i, buffer);
            },
            None => {
                proof {
                    lemma_buffer_added(self.buffers@, fresh);
                }
                self.buffers.push(buffer);
            },
        }
        self.most_recent = Some(path.to_owned());
    }

    /// Track a session the applet did not start. No buffer is created: log
    /// forwarding was never enabled for it, so there is nothing to capture and
    /// nothing to pretend about.
    pub fn adopt_external_session(&mut self, path: &str)
        requires
            old(self).wf(),
        ensures
            final(self).wf(),
            final(self)@ == old(self)@.adopted(path@),
    {
        self.retained = None;
        self.most_recent = Some(path.to_owned());
    }

    /// Append a received `Log` signal. Signals for sessions the applet is not
    /// tracking are dropped rather than creating a phantom buffer.
    pub fn push(&mut self, path: &str, entry: LogEntry)
        requires
            old(self).wf(),
        ensures
            final(self).wf(),
            final(self)@ == old(self)@.pushed(path@, entry@),
    {
        if let Some(i) = find(&self.buffers, path) {
            let capacity = self.capacity;
            let ghost before = self.buffers@;
            self.buffers[i].append(capacity, entry);
            proof {
                lemma_buffer_updated(before, i as int, self.buffers@[i as int]);
                assert(self.buffers@ =~= before.update(i as int, self.buffers@[i as int]));
            }
        }
    }

    /// Append a line the applet wrote. Unlike `push`, this creates a buffer if
    /// none exists: an unsupported attention request can fire before anything
    /// else has been captured, and that reason must not be lost.
    pub fn note(&mut self, path: &str, message: &str)
        requires
            old(self).wf(),
        ensures
            final(self).wf(),
            final(self)@ == old(self)@.noted(path@, message@),
    {
        let capacity = self.capacity;
        let entry = LogEntry::note(message);
        let ghost before = self.buffers@;
        match find(&self.buffers, path) {
            Some(i) => {
                self.buffers[i].append(capacity, entry);
                proof {
                    lemma_buffer_updated(before, i as int, self.buffers@[i as int]);
                    assert(self.buffers@ =~= before.update(i as int, self.buffers@[i as int]));
                }
            },
            None => {
                let mut buffer = SessionBuffer { path: path.to_owned(), entries: VecDeque::new() };
                assert(buffer.lines() =~= Seq::<LogEntryView>::empty());
                buffer.append(capacity, entry);
                proof {
                    lemma_buffer_added(before, buffer);
                }
                self.buffers.push(buffer);
            },
        }
        if self.most_recent.is_none() {
            self.most_recent = Some(path.to_owned());
        }
    }

    /// A session object went away. The current session's log is kept so it can
    /// still be read after a failure; anything older is dropped.
    pub fn remove_session(&mut self, path: &str)
        requires
            old(self).wf(),
        ensures
            final(self).wf(),
            final(self)@ == old(self)@.removed(path@),
    {
        if let Some(i) = find(&self.buffers, path) {
            proof {
                lemma_buffer_removed(self.buffers@, i as int);
            }
            let buffer = self.buffers.remove(i);
            let current = match &self.most_recent {
                Some(current) => *current == buffer.path,
                None => false,
            };
            if current {
                self.retained = Some(buffer);
            }
        }
    }

    /// Whether anything is or would be held for this session.
    pub fn has_buffer(&self, path: &str) -> (held: bool)
        requires
            self.wf(),
        ensures
            held == self@.has(path@),
    {
        if find(&self.buffers, path).is_some() {
            return true;
        }
        match &self.retained {
            Some(buffer) => buffer.path == path.to_owned(),
            None => false,
        }
    }

    /// What the log page should render.
    pub fn most_recent(&self) -> (log: SessionLog<'_>)
        requires
            self.wf(),
        ensures
            log@ == self@.shown(),
    {
        let path: &String = match &self.most_recent {
            Some(path) => path,
            None => {
                return SessionLog::NoSession;
            },
        };
        let buffer: Option<&SessionBuffer> = match find(&self.buffers, path.as_str()) {
            Some(i) => Some(&self.buffers[i]),
            None => match &self.retained {
                Some(buffer) => if buffer.path == *path {
                    Some(buffer)
                } else {
                    None
                },
                None => None,
            },
        };
        // An existing-but-empty buffer gets the same treatment as none at all:
        // there is nothing to read either way.
        match buffer {
            Some(buffer) => if buffer.entries.len() > 0 {
                let entries = references(&buffer.entries);
                assert(entries@.map_values(|entry: &LogEntry| entry@) =~= buffer.lines());
                SessionLog::Captured { path: path.as_str(), entries }
            } else {
                SessionLog::NotCaptured { path: path.as_str() }
            },
            None => SessionLog::NotCaptured { path: path.as_str() },
        }
    }
}

/// References to the entries, in order.
fn references<'a>(entries: &'a VecDeque<LogEntry>) -> (refs: Vec<&'a LogEntry>)
    ensures
        refs@.len() == entries@.len(),
        forall|i: int| 0 <= i < entries@.len() ==> *(#[trigger] refs@[i]) == entries@[i],
{
    let mut refs: Vec<&'a LogEntry> = Vec::new();
    let mut i: usize = 0;
    while i < entries.len()
        invariant
            i <= entries.len(),
            refs@.len() == i,
            forall|k: int| 0 <= k < i ==> *(#[trigger] refs@[k]) == entries@[k],
        decreases entries.len() - i,
    {
        refs.push(&entries[i]);
        i = i + 1;
    }
    refs
}

/// Every store the methods here can make holds to its bound.
pub proof fn law_store_is_bounded(store: LogStore)
    requires
        store.wf(),
    ensures
        store@.bounded(),
{
}

/// `entries` arriving one after the other for one session.
pub open spec fn pushed_all(
    store: LogStoreView,
    path: Seq<char>,
    entries: Seq<LogEntryView>,
) -> LogStoreView
    decreases entries.len(),
{
    if entries.len() == 0 {
        store
    } else {
        pushed_all(store, path, entries.drop_last()).pushed(path, entries.last())
    }
}

/// The last `count` lines, or all of them where there are no more than that.
pub open spec fn last_lines(entries: Seq<LogEntryView>, count: nat) -> Seq<LogEntryView> {
    if entries.len() <= count {
        entries
    } else {
        entries.skip(entries.len() - count)
    }
}

/// A session's log is the lines that arrived for it, in their order of arrival.
/// Beyond the capacity it is the latest of them: the oldest go first.
pub proof fn law_the_latest_lines_are_kept_in_order(
    store: LogStoreView,
    path: Seq<char>,
    entries: Seq<LogEntryView>,
)
    requires
        store.bounded(),
    ensures
        pushed_all(store.begun(path), path, entries).captured(path) == last_lines(
            entries,
            store.capacity,
        ),
        entries.len() > 0 ==> pushed_all(store.begun(path), path, entries).shown() == (
        SessionLogView::Captured { path, entries: last_lines(entries, store.capacity) }),
{
    lemma_pushed_all(store, path, entries);
}

/// What a run of pushes to the current session leaves.
proof fn lemma_pushed_all(store: LogStoreView, path: Seq<char>, entries: Seq<LogEntryView>)
    requires
        store.bounded(),
    ensures
        pushed_all(store.begun(path), path, entries) == (LogStoreView {
            buffers: store.begun(path).buffers.insert(path, last_lines(entries, store.capacity)),
            ..store.begun(path)
        }),
    decreases entries.len(),
{
    let start = store.begun(path);
    if entries.len() == 0 {
        assert(entries =~= Seq::<LogEntryView>::empty());
        assert(start.buffers.insert(path, entries) =~= start.buffers);
    } else {
        let front = entries.drop_last();
        lemma_pushed_all(store, path, front);
        let before = last_lines(front, store.capacity);
        let after = appended(before, store.capacity, entries.last());
        assert(after =~= last_lines(entries, store.capacity));
        assert(start.buffers.insert(path, before).insert(path, after) =~= start.buffers.insert(
            path,
            after,
        ));
    }
}

/// The log of the current session outlives the session: its removal changes
/// nothing in what is shown.
pub proof fn law_the_current_log_survives_removal(store: LogStoreView, path: Seq<char>)
    requires
        store.bounded(),
        store.most_recent == Some(path),
    ensures
        store.removed(path).shown() == store.shown(),
        store.removed(path).has(path) == store.has(path),
{
}

/// Any other session's log goes with the session, and nothing shown changes.
pub proof fn law_older_logs_are_dropped_on_removal(store: LogStoreView, path: Seq<char>)
    requires
        store.bounded(),
        store.most_recent != Some(path),
    ensures
        !store.removed(path).has(path),
        store.removed(path).shown() == store.shown(),
{
}

/// A new attempt is not a continuation of the last one: nothing of an earlier
/// log is shown for it, not even of a session with the same path.
pub proof fn law_a_new_attempt_starts_fresh(store: LogStoreView, path: Seq<char>)
    ensures
        store.begun(path).shown() == (SessionLogView::NotCaptured { path }),
        store.begun(path).captured(path).len() == 0,
        store.begun(path).retained is None,
{
}

/// A blank log is never presented as a captured one.
pub proof fn law_a_captured_log_is_never_empty(store: LogStoreView)
    ensures
        store.shown() matches SessionLogView::Captured { entries, .. } ==> entries.len() > 0,
{
}

/// A line that the applet writes is not lost: it is the newest of its session,
/// and it shows when that session is the current one or there was none.
pub proof fn law_notes_are_kept(store: LogStoreView, path: Seq<char>, message: Seq<char>)
    requires
        store.bounded(),
    ensures
        store.noted(path, message).captured(path).len() > 0,
        store.noted(path, message).captured(path).last() == note_entry(message),
        store.most_recent is None || store.most_recent == Some(path) ==> store.noted(
            path,
            message,
        ).shown() == (SessionLogView::Captured {
            path,
            entries: appended(store.captured(path), store.capacity, note_entry(message)),
        }),
{
}

/// Lines and removals of sessions that are not captured disturb nothing.
pub proof fn law_strangers_disturb_nothing(
    store: LogStoreView,
    path: Seq<char>,
    entry: LogEntryView,
)
    requires
        !store.buffers.dom().contains(path),
    ensures
        store.pushed(path, entry) == store,
        store.removed(path) == store,
{
}

/// A line that arrives for a captured session is its newest, whole. At capacity the oldest
/// goes; below it none does.
pub proof fn law_arriving_lines_come_last(
    store: LogStoreView,
    path: Seq<char>,
    entry: LogEntryView,
)
    requires
        store.bounded(),
        store.buffers.dom().contains(path),
    ensures
        ({
            let before = store.buffers[path];
            let after = store.pushed(path, entry).buffers[path];
            &&& after.last() == entry
            &&& before.len() < store.capacity ==> after.drop_last() == before
            &&& before.len() == store.capacity ==> after.drop_last() == before.drop_first()
        }),
{
    let before = store.buffers[path];
    let after = store.pushed(path, entry).buffers[path];
    if before.len() == store.capacity {
        assert(after.drop_last() =~= before.drop_first());
    } else {
        assert(after.drop_last() =~= before);
    }
}

/// A line of one session leaves every other session's lines, which session is current and
/// what is kept of the last one alone.
pub proof fn law_lines_stay_with_their_session(
    store: LogStoreView,
    path: Seq<char>,
    other: Seq<char>,
    entry: LogEntryView,
)
    requires
        other != path,
    ensures
        ({
            let after = store.pushed(path, entry);
            &&& after.captured(other) == store.captured(other)
            &&& after.buffers.dom().contains(other) == store.buffers.dom().contains(other)
            &&& after.buffers.dom().contains(path) == store.buffers.dom().contains(path)
            &&& after.capacity == store.capacity
            &&& after.retained == store.retained
            &&& after.most_recent == store.most_recent
        }),
{
}

/// A line that the applet writes bears its own text and no group or level, whether or not
/// the session was captured, and leaves the other sessions alone. It names the current
/// session only where there is none.
pub proof fn law_notes_stay_with_their_session(
    store: LogStoreView,
    path: Seq<char>,
    other: Seq<char>,
    message: Seq<char>,
)
    requires
        store.bounded(),
        other != path,
    ensures
        ({
            let after = store.noted(path, message);
            &&& after.buffers.dom().contains(path)
            &&& after.buffers[path].last().message == message
            &&& after.buffers[path].last().group == 0
            &&& after.buffers[path].last().level == 0
            &&& store.captured(path).len() < store.capacity ==> after.buffers[path].drop_last()
                == store.captured(path)
            &&& store.captured(path).len() == store.capacity ==> after.buffers[path].drop_last()
                == store.captured(path).drop_first()
            &&& after.captured(other) == store.captured(other)
            &&& after.buffers.dom().contains(other) == store.buffers.dom().contains(other)
            &&& after.capacity == store.capacity
            &&& after.retained == store.retained
            &&& store.most_recent is Some ==> after.most_recent == store.most_recent
            &&& store.most_recent is None ==> after.most_recent == Some(path)
        }),
{
    let before = store.captured(path);
    let after = store.noted(path, message).buffers[path];
    if before.len() == store.capacity {
        assert(after.drop_last() =~= before.drop_first());
    } else {
        assert(after.drop_last() =~= before);
    }
}

/// A session that begins is the current one and is captured from then on. What is captured
/// of the others stays.
pub proof fn law_a_new_session_is_the_current_one(
    store: LogStoreView,
    path: Seq<char>,
    other: Seq<char>,
    entry: LogEntryView,
)
    requires
        store.bounded(),
        other != path,
    ensures
        store.begun(path).most_recent == Some(path),
        store.begun(path).has(path),
        store.begun(path).capacity == store.capacity,
        store.begun(path).captured(other) == store.captured(other),
        store.begun(path).buffers.dom().contains(other) == store.buffers.dom().contains(other),
        store.begun(path).pushed(path, entry).captured(path) == seq![entry],
{
}

/// A session that is adopted is the current one, and nothing is captured for it that was
/// not before. What is captured stays, and what was kept of the last session goes.
pub proof fn law_an_adopted_session_is_the_current_one(store: LogStoreView, path: Seq<char>)
    ensures
        store.adopted(path).most_recent == Some(path),
        store.adopted(path).buffers == store.buffers,
        store.adopted(path).capacity == store.capacity,
        store.adopted(path).retained is None,
        !store.buffers.dom().contains(path) ==> store.adopted(path).shown() == (
        SessionLogView::NotCaptured { path }),
{
}

/// A removed session takes no more lines, and no other session is touched by its removal.
pub proof fn law_a_removed_session_takes_no_lines(
    store: LogStoreView,
    path: Seq<char>,
    other: Seq<char>,
    entry: LogEntryView,
)
    requires
        other != path,
    ensures
        ({
            let after = store.removed(path);
            &&& !after.buffers.dom().contains(path)
            &&& after.pushed(path, entry) == after
            &&& after.captured(other) == store.captured(other)
            &&& after.buffers.dom().contains(other) == store.buffers.dom().contains(other)
            &&& after.capacity == store.capacity
            &&& after.most_recent == store.most_recent
            &&& store.buffers.dom().contains(path) && store.most_recent == Some(path)
                ==> after.retained == Some(RetainedView { path, lines: store.buffers[path] })
            &&& store.most_recent != Some(path) ==> after.retained == store.retained
        }),
{
}

/// Only the current session's log is shown: its lines where there are any, whether it is
/// still there or not.
pub proof fn law_only_the_current_log_is_shown(store: LogStoreView, path: Seq<char>)
    ensures
        store.most_recent is None <==> store.shown() is NoSession,
        store.shown() matches SessionLogView::Captured { path: shown, entries }
            ==> store.most_recent == Some(shown) && entries == store.current_lines(shown),
        store.shown() matches SessionLogView::NotCaptured { path: shown } ==> store.most_recent
            == Some(shown) && store.current_lines(shown).len() == 0,
        store.buffers.dom().contains(path) ==> store.current_lines(path) == store.buffers[path],
        !store.buffers.dom().contains(path) && store.retained is Some && store.retained->0.path
            == path ==> store.current_lines(path) == store.retained->0.lines,
        !store.has(path) ==> store.current_lines(path).len() == 0,
        store.has(path) <==> store.buffers.dom().contains(path) || (store.retained is Some
            && store.retained->0.path == path),
{
}

/// A store starts out with no session and nothing captured, and keeps at least one line.
pub proof fn law_a_store_starts_out_empty(capacity: nat, path: Seq<char>)
    ensures
        LogStoreView::empty(capacity).shown() is NoSession,
        !LogStoreView::empty(capacity).has(path),
        LogStoreView::empty(capacity).bounded(),
        capacity > 0 ==> LogStoreView::empty(capacity).capacity == capacity,
        LogStoreView::empty(0).capacity == 1,
{
}

} // verus!

//! Application state of the TUI and the rules that change it.
//!
//! [`App`] holds everything the screen shows. Key and mouse events (see
//! `keys`) and background results (see `messages`) change it; whenever a
//! change needs outside work — reading the sandbox list, fetching logs,
//! starting a sandbox, listing a directory — the state records an
//! [`Effect`] in `effects`, which the surrounding program performs and
//! answers with an [`messages::AppMessage`].
pub mod actions;
pub mod dialogs;
pub mod keys;
pub mod messages;
pub mod name_map;
pub mod popups;
pub mod validate;

use vstd::prelude::*;

use std::collections::VecDeque;
use std::time::Instant;

use crate::config::AppConfig;
use crate::sandbox::{CreateConfig, FsEntry, MetricsSnapshot, SandboxInfo, SandboxStatus};
use crate::text::{copy_string, to_string};
use crate::theme::ThemeMode;

use self::actions::{matches_filter, sandbox_matches_filter, PendingAction, SandboxAction};
use self::dialogs::{CreateDialog, ExecDialog, VolumesView};
use self::name_map::NameMap;

verus! {

/// How often background tasks refresh sandbox list and metrics, in seconds.
pub const REFRESH_INTERVAL_SECS: u64 = 3;

/// Maximum log lines kept in memory per sandbox.
pub const MAX_LOG_LINES: usize = 500;

/// Number of samples kept per sandbox for the metrics history sparklines.
pub const METRICS_HISTORY_LEN: usize = 60;

/// How long a notification stays in the footer, in seconds.
pub const NOTIFICATION_SECS: u64 = 4;

#[verifier::external_type_specification]
#[verifier::external_body]
pub struct ExInstant(Instant);

/// The current time (`Instant::now`).
#[verifier::external_body]
fn instant_now() -> Instant {
    Instant::now()
}

//----------------------------------------------------------------------
// Types
//----------------------------------------------------------------------

/// Which panel has keyboard focus.
#[derive(Debug, Clone, Copy, PartialEq, Eq, Structural)]
pub enum Focus {
    SandboxList,
    Detail,
}

/// Tabs available in the detail panel, in display order.
#[derive(Debug, Clone, Copy, PartialEq, Eq, Structural)]
pub enum DetailTab {
    Logs,
    Filesystem,
    Info,
}

impl DetailTab {
    pub open spec fn next_spec(self) -> Self {
        match self {
            DetailTab::Logs => DetailTab::Filesystem,
            DetailTab::Filesystem => DetailTab::Info,
            DetailTab::Info => DetailTab::Logs,
        }
    }

    pub open spec fn prev_spec(self) -> Self {
        match self {
            DetailTab::Logs => DetailTab::Info,
            DetailTab::Filesystem => DetailTab::Logs,
            DetailTab::Info => DetailTab::Filesystem,
        }
    }

    pub open spec fn title_spec(self) -> Seq<char> {
        match self {
            DetailTab::Logs => "Logs"@,
            DetailTab::Filesystem => "Filesystem"@,
            DetailTab::Info => "Info"@,
        }
    }

    pub fn title(self) -> (r: &'static str)
        ensures
            r@ == self.title_spec(),
    {
        match self {
            DetailTab::Logs => "Logs",
            DetailTab::Filesystem => "Filesystem",
            DetailTab::Info => "Info",
        }
    }

    /// Every tab, in display order.
    pub fn all() -> (r: &'static [DetailTab])
        ensures
            r@ == seq![DetailTab::Logs, DetailTab::Filesystem, DetailTab::Info],
    {
        let r: &'static [DetailTab] = &[DetailTab::Logs, DetailTab::Filesystem, DetailTab::Info];
        assert(r@ =~= seq![DetailTab::Logs, DetailTab::Filesystem, DetailTab::Info]);
        r
    }
}

/// Switching to the next tab and back (or back and forth) returns to the
/// starting tab, and three steps in one direction go all the way round.
pub proof fn law_detail_tab_next_prev(t: DetailTab)
    ensures
        t.next_spec().prev_spec() == t,
        t.prev_spec().next_spec() == t,
        t.next_spec().next_spec().next_spec() == t,
{
}

/// A screen rectangle, in terminal cells.
#[derive(Debug, Clone, Copy, Default, PartialEq, Eq, Structural)]
pub struct Rect {
    pub x: u16,
    pub y: u16,
    pub width: u16,
    pub height: u16,
}

impl Rect {
    pub open spec fn contains_spec(self, x: u16, y: u16) -> bool {
        self.x <= x < self.x + self.width && self.y <= y < self.y + self.height
    }

    /// True if the point `(x, y)` falls within the rectangle.
    pub fn contains(&self, x: u16, y: u16) -> (r: bool)
        ensures
            r == self.contains_spec(x, y),
    {
        self.x <= x && (x as u32) < (self.x as u32) + (self.width as u32) && self.y <= y && (
        y as u32) < (self.y as u32) + (self.height as u32)
    }
}

/// Screen regions recorded during the most recent render, used to
/// translate mouse clicks and scrolls into keyboard-equivalent actions.
#[derive(Debug, Clone)]
pub struct MouseRegions {
    /// Bounding rect of the sandbox list panel.
    pub list_area: Rect,
    /// Bounding rect of the detail panel.
    pub detail_area: Rect,
    /// Rects of the rendered sandbox cards, in display order. `None` marks
    /// the "New Sandbox" card; `Some(i)` is an index into `App::sandboxes`.
    pub card_rects: Vec<(Rect, Option<usize>)>,
    /// Rects of the tab labels in the detail panel's tab bar.
    pub tab_rects: Vec<(Rect, DetailTab)>,
}

impl MouseRegions {
    pub fn empty() -> (r: Self)
        ensures
            r.card_rects@.len() == 0,
            r.tab_rects@.len() == 0,
            r.list_area == (Rect { x: 0, y: 0, width: 0, height: 0 }),
            r.detail_area == (Rect { x: 0, y: 0, width: 0, height: 0 }),
    {
        MouseRegions {
            list_area: Rect { x: 0, y: 0, width: 0, height: 0 },
            detail_area: Rect { x: 0, y: 0, width: 0, height: 0 },
            card_rects: Vec::new(),
            tab_rects: Vec::new(),
        }
    }
}

/// A status notification shown briefly in the footer.
#[derive(Debug)]
pub struct Notification {
    pub message: String,
    pub is_error: bool,
    /// When it was posted; it is hidden [`NOTIFICATION_SECS`] later.
    pub shown_at: Instant,
}

/// Which stream a log line came from.
#[derive(Debug, Clone, Copy, PartialEq, Eq, Structural)]
pub enum LogSource {
    Stdout,
    Stderr,
    /// Output of a pseudo-terminal session.
    Output,
    System,
}

/// One captured log line.
#[derive(Debug, Clone)]
pub struct LogLine {
    pub source: LogSource,
    /// Milliseconds since the Unix epoch.
    pub timestamp_ms: i64,
    /// Raw bytes as captured.
    pub data: Vec<u8>,
}

/// Which directory picker an effect is for.
#[derive(Debug, Clone, Copy, PartialEq, Eq, Structural)]
pub enum PickerTarget {
    /// The create dialog's workdir picker.
    Workdir,
    /// The mount popup's host-directory picker.
    MountSource,
}

/// Outside work the state asks the surrounding program to do.
#[derive(Debug, Clone)]
pub enum Effect {
    /// Re-read the sandbox list.
    RefreshSandboxes,
    /// Read the recent log lines of a sandbox.
    FetchLogs(String),
    /// Follow new log lines of a running sandbox (replacing any stream).
    FollowLogs(String),
    /// Stop following the live log stream.
    StopFollowingLogs,
    /// Read one metrics sample of a sandbox.
    FetchMetrics(String),
    /// List a directory inside a sandbox.
    ListFs { name: String, path: String },
    /// Start, stop, terminate or remove a sandbox.
    RunAction { action: SandboxAction, name: String },
    /// Create a sandbox.
    CreateSandbox(CreateConfig),
    /// Create a named volume.
    CreateVolume { name: String, disk: bool },
    /// Remove a named volume.
    RemoveVolume(String),
    /// Re-read the named-volumes list.
    RefreshVolumes,
    /// Open a host terminal running `command` inside a sandbox.
    OpenExecTerminal { sandbox: String, command: String },
    /// Open a host terminal attached to a sandbox's shell.
    OpenShellTerminal(String),
    /// Open a picker at `path` (or at the first drive root when `path` is
    /// not a directory) and hand back its listing.
    PickerOpen { target: PickerTarget, path: String },
    /// Show `path` in a picker if it is a directory.
    PickerNavigate { target: PickerTarget, path: String },
    /// Show the user's home directory in a picker.
    PickerHome(PickerTarget),
    /// Show the drive roots in a picker.
    PickerShowDrives(PickerTarget),
}

/// Central application state.
pub struct App {
    /// Full list of known sandboxes.
    pub sandboxes: Vec<SandboxInfo>,
    /// Index of the selected sandbox; `sandboxes.len()` selects the
    /// "New Sandbox" placeholder.
    pub selected: usize,
    /// Active search/filter string. Empty (or blank) means no filter.
    pub filter: String,
    /// True while the user is typing in the search box.
    pub search_active: bool,
    pub focus: Focus,
    pub tab: DetailTab,
    /// Scroll offset of the log view (0 follows the tail).
    pub log_scroll: usize,
    /// Scroll offset of the filesystem view.
    pub fs_scroll: usize,
    /// Cached log lines keyed by sandbox name.
    pub logs: NameMap<Vec<LogLine>>,
    /// Latest metrics keyed by sandbox name.
    pub metrics: NameMap<MetricsSnapshot>,
    /// Recent metrics samples per sandbox, at most [`METRICS_HISTORY_LEN`].
    pub metrics_history: NameMap<VecDeque<MetricsSnapshot>>,
    /// Cached directory listings keyed by sandbox name, then path.
    pub fs_entries: NameMap<NameMap<Vec<FsEntry>>>,
    /// Directory being browsed in the Filesystem tab.
    pub fs_path: String,
    pub create_dialog: CreateDialog,
    pub volumes_view: VolumesView,
    pub exec_dialog: ExecDialog,
    pub notification: Option<Notification>,
    /// A destructive action awaiting confirmation. While set, the
    /// confirmation dialog takes every key and ignores the mouse.
    pub confirm: Option<PendingAction>,
    pub should_quit: bool,
    /// When the sandbox list last arrived.
    pub last_refresh: Option<Instant>,
    /// True once an Esc press was handled, so its paired release is not
    /// handled a second time.
    pub esc_press_handled: bool,
    /// The sandbox the live log stream follows, if any.
    pub log_stream_name: Option<String>,
    /// Defaults used to prefill the "New Sandbox" dialog.
    pub config: AppConfig,
    pub mouse: MouseRegions,
    pub theme: ThemeMode,
    /// Outside work requested and not yet taken by the program.
    pub effects: Vec<Effect>,
}

//----------------------------------------------------------------------
// Specifications
//----------------------------------------------------------------------

/// True when the filter text is empty or only whitespace.
pub open spec fn filter_blank(filter: Seq<char>) -> bool {
    crate::text::trim(filter).len() == 0
}

impl App {
    /// The caches are well-formed maps and the dialogs are in states the
    /// key handlers accept.
    pub open spec fn wf(self) -> bool {
        &&& self.logs.wf()
        &&& self.metrics.wf()
        &&& self.metrics_history.wf()
        &&& self.fs_entries.wf()
        &&& forall|k: Seq<char>| #[trigger] self.fs_entries@.contains_key(k) ==> self.fs_entries@[k].wf()
        &&& self.create_dialog.wf()
    }

    /// Sandbox `i` is listed under the current filter.
    pub open spec fn shows(self, i: int) -> bool {
        0 <= i < self.sandboxes@.len() && (filter_blank(self.filter@) || matches_filter(
            self.sandboxes@[i],
            self.filter@,
        ))
    }

    /// `v` lists, in increasing order, exactly the sandboxes shown.
    pub open spec fn is_visible_list(self, v: Seq<usize>) -> bool {
        &&& forall|k: int| 0 <= k < v.len() ==> self.shows(#[trigger] v[k] as int)
        &&& forall|k: int, l: int| 0 <= k < l < v.len() ==> v[k] < v[l]
        &&& forall|i: int| self.shows(i) ==> exists|k: int| 0 <= k < v.len() && v[k] == i
    }

    pub open spec fn new_sandbox_selected_spec(self) -> bool {
        filter_blank(self.filter@) && self.selected == self.sandboxes@.len()
    }

    /// The sandbox the live log stream should follow: the selected one,
    /// while the Logs tab is active and it is running.
    pub open spec fn log_stream_target_spec(self) -> Option<Seq<char>> {
        if self.tab == DetailTab::Logs && self.selected < self.sandboxes@.len()
            && self.sandboxes@[self.selected as int].status == SandboxStatus::Running {
            Some(self.sandboxes@[self.selected as int].name@)
        } else {
            None
        }
    }

    /// The selected sandbox, if the selection names one.
    pub open spec fn selected_spec(self) -> Option<SandboxInfo> {
        if self.selected < self.sandboxes@.len() {
            Some(self.sandboxes@[self.selected as int])
        } else {
            None
        }
    }

    /// The footer shows `text`, as an error or not.
    pub open spec fn notice_is(self, text: Seq<char>, is_error: bool) -> bool {
        self.notification matches Some(n) && n.message@ == text && n.is_error == is_error
    }

    /// `after` is `self` with the live log stream brought in line with
    /// [`Self::log_stream_target_spec`]: a changed target stops the old
    /// stream and, when there is a new target, fetches its recent lines
    /// and follows it; a Logs tab showing a sandbox that is not running
    /// fetches its captured lines.
    pub open spec fn log_stream_synced(self, after: App) -> bool {
        &&& after == (App { effects: after.effects, log_stream_name: after.log_stream_name, ..self })
        &&& opt_view(after.log_stream_name) == if opt_view(self.log_stream_name)
            != self.log_stream_target_spec() {
            self.log_stream_target_spec()
        } else {
            opt_view(self.log_stream_name)
        }
        &&& grows_safely(self.effects@, after.effects@)
        &&& self.log_stream_effects(after.effects@.skip(self.effects@.len() as int))
    }

    /// A Logs tab shows a sandbox that is not running, whose captured
    /// lines are read once instead of followed.
    pub open spec fn needs_backfill(self) -> bool {
        &&& self.log_stream_target_spec() is None
        &&& self.tab == DetailTab::Logs
        &&& self.selected < self.sandboxes@.len()
    }

    /// `added` is what [`Self::sync_log_stream`] asks for: a changed target
    /// stops the stream, then either follows the new target after reading
    /// its recent lines, or reads the captured lines of a sandbox that is
    /// not running (see [`Self::needs_backfill`]); nothing else.
    pub open spec fn log_stream_effects(self, added: Seq<Effect>) -> bool {
        let backfill_added = |k: int|
            if self.needs_backfill() {
                &&& added.len() == k + 1
                &&& is_fetch_logs(added[k], self.sandboxes@[self.selected as int].name@)
            } else {
                added.len() == k
            };
        if opt_view(self.log_stream_name) != self.log_stream_target_spec() {
            &&& added.len() >= 1
            &&& added[0] is StopFollowingLogs
            &&& match self.log_stream_target_spec() {
                Some(t) => {
                    &&& added.len() == 3
                    &&& is_fetch_logs(added[1], t)
                    &&& is_follow_logs(added[2], t)
                },
                None => backfill_added(1),
            }
        } else {
            backfill_added(0)
        }
    }

    /// `self` and `other` differ at most in the effects queue.
    pub open spec fn same_but_effects(self, other: Self) -> bool {
        other == (App { effects: other.effects, ..self })
    }
}

/// The view of an optional name.
pub open spec fn opt_view(o: Option<String>) -> Option<Seq<char>> {
    match o {
        Some(s) => Some(s@),
        None => None,
    }
}

/// `after` is `before` with the next sandbox selected (see
/// [`App::select_next`]).
pub open spec fn next_selected(before: App, after: App) -> bool {
    &&& after == (App { selected: after.selected, ..before })
    &&& filter_blank(before.filter@) ==> after.selected == if before.sandboxes@.len()
        == 0 {
        before.selected as int
    } else if before.selected < before.sandboxes@.len() {
        before.selected + 1
    } else {
        before.sandboxes@.len() as int
    }
    &&& before.selected <= before.sandboxes@.len() ==> after.selected
        <= after.sandboxes@.len()
    &&& !filter_blank(before.filter@) ==> {
        ||| after.selected == before.selected
        ||| before.shows(after.selected as int)
    }
    &&& !filter_blank(before.filter@) && before.shows(before.selected as int) ==> {
        &&& after.selected >= before.selected
        &&& forall|j: int|
            before.selected < j < after.selected ==> !before.shows(j)
        &&& after.selected == before.selected ==> forall|j: int|
            j > before.selected ==> !before.shows(j)
    }
    &&& !filter_blank(before.filter@) && !before.shows(before.selected as int) && (
    exists|j: int| before.shows(j)) ==> {
        &&& before.shows(after.selected as int)
        &&& forall|j: int| 0 <= j < after.selected ==> !before.shows(j)
    }
}

/// `after` is `before` with the previous sandbox selected (see
/// [`App::select_prev`]).
pub open spec fn prev_selected(before: App, after: App) -> bool {
    &&& after == (App { selected: after.selected, ..before })
    &&& filter_blank(before.filter@) ==> after.selected == if before.selected > 0 {
        before.selected - 1
    } else {
        0
    }
    &&& !filter_blank(before.filter@) ==> {
        ||| after.selected == before.selected
        ||| before.shows(after.selected as int)
    }
    &&& !filter_blank(before.filter@) && before.shows(before.selected as int) ==> {
        &&& after.selected <= before.selected
        &&& forall|j: int|
            after.selected < j < before.selected ==> !before.shows(j)
        &&& after.selected == before.selected ==> forall|j: int|
            0 <= j < before.selected ==> !before.shows(j)
    }
    &&& !filter_blank(before.filter@) && !before.shows(before.selected as int) && (
    exists|j: int| before.shows(j)) ==> {
        &&& before.shows(after.selected as int)
        &&& forall|j: int| 0 <= j < after.selected ==> !before.shows(j)
    }
    &&& before.selected <= before.sandboxes@.len() ==> after.selected
        <= after.sandboxes@.len()
}

/// Work that cannot be undone: stopping, terminating or removing a
/// sandbox, and removing a volume.
pub open spec fn is_destructive(e: Effect) -> bool {
    match e {
        Effect::RunAction { action, .. } => action != SandboxAction::Start,
        Effect::RemoveVolume(_) => true,
        _ => false,
    }
}

/// `after` is `before` with work appended, none of it destructive.
pub open spec fn grows_safely(before: Seq<Effect>, after: Seq<Effect>) -> bool {
    &&& before.len() <= after.len()
    &&& after.take(before.len() as int) == before
    &&& forall|i: int| before.len() <= i < after.len() ==> !is_destructive(#[trigger] after[i])
}

/// Appending safe work twice is appending safe work.
pub proof fn lemma_grows_safely_trans(a: Seq<Effect>, b: Seq<Effect>, c: Seq<Effect>)
    requires
        grows_safely(a, b),
        grows_safely(b, c),
    ensures
        grows_safely(a, c),
{
    assert(c.take(a.len() as int) =~= b.take(a.len() as int));
    assert forall|i: int| a.len() <= i < c.len() implies !is_destructive(#[trigger] c[i]) by {
        if i < b.len() {
            assert(c[i] == c.take(b.len() as int)[i]);
        }
    }
}

/// Leaving the queue alone is appending nothing.
pub proof fn lemma_grows_safely_refl(a: Seq<Effect>)
    ensures
        grows_safely(a, a),
{
    assert(a.take(a.len() as int) =~= a);
}

/// Effect `e` asks for exactly the given kind of work on `name`.
pub open spec fn is_fetch_logs(e: Effect, name: Seq<char>) -> bool {
    e matches Effect::FetchLogs(n) && n@ == name
}

pub open spec fn is_follow_logs(e: Effect, name: Seq<char>) -> bool {
    e matches Effect::FollowLogs(n) && n@ == name
}

pub open spec fn is_fetch_metrics(e: Effect, name: Seq<char>) -> bool {
    e matches Effect::FetchMetrics(n) && n@ == name
}

pub open spec fn is_list_fs(e: Effect, name: Seq<char>, path: Seq<char>) -> bool {
    e matches Effect::ListFs { name: n, path: p } && n@ == name && p@ == path
}

pub open spec fn is_run_action(e: Effect, action: SandboxAction, name: Seq<char>) -> bool {
    e matches Effect::RunAction { action: a, name: n } && a == action && n@ == name
}

//----------------------------------------------------------------------
// Methods
//----------------------------------------------------------------------

impl App {
    /// The initial state: no sandboxes, focus on the list, Logs tab, at the
    /// filesystem root, nothing requested yet.
    pub fn new(config: AppConfig) -> (r: Self)
        ensures
            r.wf(),
            r.sandboxes@.len() == 0,
            r.selected == 0,
            r.filter@.len() == 0,
            !r.search_active,
            r.focus == Focus::SandboxList,
            r.tab == DetailTab::Logs,
            r.log_scroll == 0,
            r.fs_scroll == 0,
            r.logs@ == Map::<Seq<char>, Vec<LogLine>>::empty(),
            r.metrics@ == Map::<Seq<char>, MetricsSnapshot>::empty(),
            r.fs_path@ == "/"@,
            !r.create_dialog.visible,
            !r.volumes_view.visible,
            !r.exec_dialog.visible,
            r.notification is None,
            r.confirm is None,
            !r.should_quit,
            r.log_stream_name is None,
            r.config == config,
            r.theme == ThemeMode::Dark,
            r.effects@.len() == 0,
            r.metrics_history@ == Map::<Seq<char>, VecDeque<MetricsSnapshot>>::empty(),
            r.fs_entries@ == Map::<Seq<char>, NameMap<Vec<FsEntry>>>::empty(),
            r.last_refresh is None,
            !r.esc_press_handled,
            r.mouse.card_rects@.len() == 0,
            r.mouse.tab_rects@.len() == 0,
    {
        let fs_entries: NameMap<NameMap<Vec<FsEntry>>> = NameMap::new();
        App {
            sandboxes: Vec::new(),
            selected: 0,
            filter: String::new(),
            search_active: false,
            focus: Focus::SandboxList,
            tab: DetailTab::Logs,
            log_scroll: 0,
            fs_scroll: 0,
            logs: NameMap::new(),
            metrics: NameMap::new(),
            metrics_history: NameMap::new(),
            fs_entries,
            fs_path: to_string("/"),
            create_dialog: CreateDialog::closed(),
            volumes_view: VolumesView::closed(),
            exec_dialog: ExecDialog::closed(),
            notification: None,
            confirm: None,
            should_quit: false,
            last_refresh: None,
            esc_press_handled: false,
            log_stream_name: None,
            config,
            mouse: MouseRegions::empty(),
            theme: ThemeMode::Dark,
            effects: Vec::new(),
        }
    }

    /// The currently selected sandbox, if any.
    pub fn selected_sandbox(&self) -> (r: Option<&SandboxInfo>)
        ensures
            self.selected < self.sandboxes@.len() ==> r == Some(&self.sandboxes@[self.selected as int]),
            self.selected >= self.sandboxes@.len() ==> r is None,
    {
        if self.selected < self.sandboxes.len() {
            Some(&self.sandboxes[self.selected])
        } else {
            None
        }
    }

    /// Switch between the dark and bright palettes.
    pub fn toggle_theme(&mut self)
        ensures
            *final(self) == (App { theme: old(self).theme.toggled_spec(), ..*old(self) }),
    {
        self.theme = self.theme.toggled();
    }

    /// Show a notification in the footer.
    pub fn notify(&mut self, msg: String, is_error: bool)
        ensures
            *final(self) == (App { notification: final(self).notification, ..*old(self) }),
            final(self).notification matches Some(n) && n.message == msg && n.is_error
                == is_error,
    {
        self.notification = Some(Notification { message: msg, is_error, shown_at: instant_now() });
    }

    /// Show a notification whose text is a string literal.
    pub fn notify_str(&mut self, msg: &str, is_error: bool)
        ensures
            *final(self) == (App { notification: final(self).notification, ..*old(self) }),
            final(self).notification matches Some(n) && n.message@ == msg@ && n.is_error
                == is_error,
    {
        self.notify(to_string(msg), is_error);
    }

    /// True when no filter is active.
    pub fn filter_is_blank(&self) -> (r: bool)
        ensures
            r == filter_blank(self.filter@),
    {
        crate::text::is_blank(self.filter.as_str())
    }

    /// Indices into `sandboxes` of the sandboxes matching the current
    /// filter, in order. A blank filter matches every sandbox.
    pub fn visible_indices(&self) -> (r: Vec<usize>)
        ensures
            self.is_visible_list(r@),
    {
        let blank = self.filter_is_blank();
        let mut v: Vec<usize> = Vec::new();
        let n = self.sandboxes.len();
        for i in 0..n
            invariant
                n == self.sandboxes@.len(),
                blank == filter_blank(self.filter@),
                forall|k: int| 0 <= k < v@.len() ==> self.shows(#[trigger] v@[k] as int),
                forall|k: int| 0 <= k < v@.len() ==> v@[k] < i,
                forall|k: int, l: int| 0 <= k < l < v@.len() ==> v@[k] < v@[l],
                forall|j: int|
                    0 <= j < i && self.shows(j) ==> exists|k: int| 0 <= k < v@.len() && v@[k] == j,
        {
            if blank || sandbox_matches_filter(&self.sandboxes[i], self.filter.as_str()) {
                let ghost before = v@;
                v.push(i);
                proof {
                    assert forall|j: int| 0 <= j < i + 1 && self.shows(j) implies exists|k: int|
                        0 <= k < v@.len() && v@[k] == j by {
                        if j < i {
                            let k = choose|k: int| 0 <= k < before.len() && before[k] == j;
                            assert(v@[k] == j);
                        } else {
                            assert(v@[v@.len() - 1] == j);
                        }
                    }
                }
            }
        }
        v
    }

    /// Select the next sandbox. Without a filter the selection may move one
    /// past the last sandbox onto the "New Sandbox" placeholder; with a
    /// filter it moves to the next match (or the first match when the
    /// selection is not a match).
    pub fn select_next(&mut self)
        ensures
            next_selected(*old(self), *final(self)),
    {
        if self.filter_is_blank() {
            if self.sandboxes.len() == 0 {
                return;
            }
            if self.selected < self.sandboxes.len() {
                self.selected = self.selected + 1;
            } else {
                self.selected = self.sandboxes.len();
            }
            return;
        }
        let visible = self.visible_indices();
        if visible.len() == 0 {
            return;
        }
        let n = visible.len();
        let mut pos: Option<usize> = None;
        for k in 0..n
            invariant
                n == visible@.len(),
                pos is None ==> forall|l: int| 0 <= l < k ==> visible@[l] != self.selected,
                pos matches Some(p) ==> p < n && visible@[p as int] == self.selected,
        {
            if pos.is_none() && visible[k] == self.selected {
                pos = Some(k);
            }
        }
        match pos {
            Some(p) => {
                if p + 1 < n {
                    self.selected = visible[p + 1];
                    proof {
                        assert forall|j: int| old(self).selected < j < self.selected implies !old(
                            self,
                        ).shows(j) by {
                            if old(self).shows(j) {
                                let k = choose|k: int| 0 <= k < visible@.len() && visible@[k] == j;
                                if k <= p {
                                    if k < p {
                                        assert(visible@[k] < visible@[p as int]);
                                    }
                                } else if k > p + 1 {
                                    assert(visible@[p + 1] < visible@[k]);
                                }
                            }
                        }
                    }
                } else {
                    proof {
                        assert forall|j: int| j > old(self).selected implies !old(self).shows(j) by {
                            if old(self).shows(j) {
                                let k = choose|k: int| 0 <= k < visible@.len() && visible@[k] == j;
                                if k < p {
                                    assert(visible@[k] < visible@[p as int]);
                                }
                            }
                        }
                    }
                }
            },
            None => {
                self.selected = visible[0];
                proof {
                    assert(!old(self).shows(old(self).selected as int)) by {
                        if old(self).shows(old(self).selected as int) {
                            let k = choose|k: int|
                                0 <= k < visible@.len() && visible@[k] == old(self).selected;
                        }
                    }
                    assert forall|j: int| 0 <= j < self.selected implies !old(self).shows(j) by {
                        if old(self).shows(j) {
                            let k = choose|k: int| 0 <= k < visible@.len() && visible@[k] == j;
                            if k > 0 {
                                assert(visible@[0] < visible@[k]);
                            }
                        }
                    }
                }
            },
        }
    }

    /// Select the previous sandbox. Without a filter the selection moves up
    /// one, stopping at the top; with a filter it moves to the previous
    /// match (or the first match when the selection is not a match).
    pub fn select_prev(&mut self)
        ensures
            prev_selected(*old(self), *final(self)),
    {
        if self.filter_is_blank() {
            if self.selected > 0 {
                self.selected = self.selected - 1;
            }
            return;
        }
        let visible = self.visible_indices();
        if visible.len() == 0 {
            return;
        }
        let n = visible.len();
        let mut pos: Option<usize> = None;
        for k in 0..n
            invariant
                n == visible@.len(),
                pos is None ==> forall|l: int| 0 <= l < k ==> visible@[l] != self.selected,
                pos matches Some(p) ==> p < n && visible@[p as int] == self.selected,
        {
            if pos.is_none() && visible[k] == self.selected {
                pos = Some(k);
            }
        }
        match pos {
            Some(p) => {
                if p > 0 {
                    self.selected = visible[p - 1];
                    proof {
                        assert forall|j: int| self.selected < j < old(self).selected implies !old(
                            self,
                        ).shows(j) by {
                            if old(self).shows(j) {
                                let k = choose|k: int| 0 <= k < visible@.len() && visible@[k] == j;
                                if k < p - 1 {
                                    assert(visible@[k] < visible@[p - 1]);
                                } else if k > p {
                                    assert(visible@[p as int] < visible@[k]);
                                }
                            }
                        }
                    }
                } else {
                    proof {
                        assert forall|j: int| 0 <= j < old(self).selected implies !old(self).shows(
                            j,
                        ) by {
                            if old(self).shows(j) {
                                let k = choose|k: int| 0 <= k < visible@.len() && visible@[k] == j;
                                if k > 0 {
                                    assert(visible@[0] < visible@[k]);
                                }
                            }
                        }
                    }
                }
            },
            None => {
                self.selected = visible[0];
                proof {
                    assert(!old(self).shows(old(self).selected as int)) by {
                        if old(self).shows(old(self).selected as int) {
                            let k = choose|k: int|
                                0 <= k < visible@.len() && visible@[k] == old(self).selected;
                        }
                    }
                    assert forall|j: int| 0 <= j < self.selected implies !old(self).shows(j) by {
                        if old(self).shows(j) {
                            let k = choose|k: int| 0 <= k < visible@.len() && visible@[k] == j;
                            if k > 0 {
                                assert(visible@[0] < visible@[k]);
                            }
                        }
                    }
                }
            },
        }
    }

    /// True if the "New Sandbox" placeholder is selected. The placeholder
    /// is hidden while a filter is active.
    pub fn new_sandbox_selected(&self) -> (r: bool)
        ensures
            r == self.new_sandbox_selected_spec(),
    {
        self.filter_is_blank() && self.selected == self.sandboxes.len()
    }

    /// Switch to the next detail tab (wrapping) and reset the scroll
    /// offsets.
    pub fn next_tab(&mut self)
        ensures
            *final(self) == (App {
                tab: old(self).tab.next_spec(),
                log_scroll: 0,
                fs_scroll: 0,
                ..*old(self)
            }),
    {
        self.tab = match self.tab {
            DetailTab::Logs => DetailTab::Filesystem,
            DetailTab::Filesystem => DetailTab::Info,
            DetailTab::Info => DetailTab::Logs,
        };
        self.reset_detail_scroll();
    }

    /// Switch to the previous detail tab (wrapping) and reset the scroll
    /// offsets.
    pub fn prev_tab(&mut self)
        ensures
            *final(self) == (App {
                tab: old(self).tab.prev_spec(),
                log_scroll: 0,
                fs_scroll: 0,
                ..*old(self)
            }),
    {
        self.tab = match self.tab {
            DetailTab::Logs => DetailTab::Info,
            DetailTab::Filesystem => DetailTab::Logs,
            DetailTab::Info => DetailTab::Filesystem,
        };
        self.reset_detail_scroll();
    }

    fn reset_detail_scroll(&mut self)
        ensures
            *final(self) == (App { log_scroll: 0, fs_scroll: 0, ..*old(self) }),
    {
        self.log_scroll = 0;
        self.fs_scroll = 0;
    }

    /// Queue outside work.
    pub fn push_effect(&mut self, e: Effect)
        ensures
            *final(self) == (App { effects: final(self).effects, ..*old(self) }),
            final(self).effects@ == old(self).effects@.push(e),
            !is_destructive(e) ==> grows_safely(old(self).effects@, final(self).effects@),
    {
        self.effects.push(e);
        assert(self.effects@.take(old(self).effects@.len() as int) =~= old(self).effects@);
    }

    /// Hand the queued outside work to the program, leaving the queue empty.
    pub fn take_effects(&mut self) -> (r: Vec<Effect>)
        ensures
            r@ == old(self).effects@,
            final(self).effects@.len() == 0,
            old(self).same_but_effects(*final(self)),
    {
        let mut out: Vec<Effect> = Vec::new();
        std::mem::swap(&mut out, &mut self.effects);
        out
    }

    /// Ask for the sandbox list to be re-read.
    pub fn request_refresh(&mut self)
        ensures
            old(self).same_but_effects(*final(self)),
            final(self).effects@ == old(self).effects@.push(Effect::RefreshSandboxes),
            grows_safely(old(self).effects@, final(self).effects@),
    {
        self.push_effect(Effect::RefreshSandboxes);
    }

    /// Ask for the recent log lines of `name`.
    pub fn request_logs(&mut self, name: &str)
        ensures
            old(self).same_but_effects(*final(self)),
            final(self).effects@.len() == old(self).effects@.len() + 1,
            final(self).effects@.drop_last() == old(self).effects@,
            is_fetch_logs(final(self).effects@.last(), name@),
    {
        self.push_effect(Effect::FetchLogs(to_string(name)));
    }

    /// Ask for one metrics sample of `name`.
    pub fn request_metrics(&mut self, name: &str)
        ensures
            old(self).same_but_effects(*final(self)),
            final(self).effects@.len() == old(self).effects@.len() + 1,
            final(self).effects@.drop_last() == old(self).effects@,
            is_fetch_metrics(final(self).effects@.last(), name@),
    {
        self.push_effect(Effect::FetchMetrics(to_string(name)));
    }

    /// Ask for the listing of `path` inside `name`.
    pub fn request_fs(&mut self, name: &str, path: &str)
        ensures
            old(self).same_but_effects(*final(self)),
            final(self).effects@.len() == old(self).effects@.len() + 1,
            final(self).effects@.drop_last() == old(self).effects@,
            is_list_fs(final(self).effects@.last(), name@, path@),
    {
        self.push_effect(Effect::ListFs { name: to_string(name), path: to_string(path) });
    }

    /// Ask for the log lines of `name` unless they are cached; true when
    /// they are (and nothing changes).
    pub fn ensure_logs(&mut self, name: &str) -> (cached: bool)
        ensures
            cached == old(self).logs@.contains_key(name@),
            cached ==> *final(self) == *old(self),
            !cached ==> {
                &&& old(self).same_but_effects(*final(self))
                &&& final(self).effects@.len() == old(self).effects@.len() + 1
                &&& final(self).effects@.drop_last() == old(self).effects@
                &&& is_fetch_logs(final(self).effects@.last(), name@)
            },
    {
        let cached = self.logs.contains_key(name);
        if !cached {
            self.request_logs(name);
        }
        cached
    }

    /// Ask for a metrics sample of `name` when it runs and none is cached;
    /// true when one was asked for.
    pub fn ensure_metrics(&mut self, name: &str, running: bool) -> (requested: bool)
        ensures
            requested == (running && !old(self).metrics@.contains_key(name@)),
            !requested ==> *final(self) == *old(self),
            requested ==> {
                &&& old(self).same_but_effects(*final(self))
                &&& final(self).effects@.len() == old(self).effects@.len() + 1
                &&& final(self).effects@.drop_last() == old(self).effects@
                &&& is_fetch_metrics(final(self).effects@.last(), name@)
            },
    {
        let requested = running && !self.metrics.contains_key(name);
        if requested {
            self.request_metrics(name);
        }
        requested
    }

    /// Ask for the listing of `path` inside `name` unless it is cached;
    /// true when it is (and nothing changes).
    pub fn ensure_fs(&mut self, name: &str, path: &str) -> (cached: bool)
        requires
            old(self).fs_entries.wf(),
        ensures
            cached == (old(self).fs_entries@.contains_key(name@) && old(
                self,
            ).fs_entries@[name@]@.contains_key(path@)),
            cached ==> *final(self) == *old(self),
            !cached ==> {
                &&& old(self).same_but_effects(*final(self))
                &&& final(self).effects@.len() == old(self).effects@.len() + 1
                &&& final(self).effects@.drop_last() == old(self).effects@
                &&& is_list_fs(final(self).effects@.last(), name@, path@)
            },
    {
        let cached = match self.fs_entries.get(name) {
            Some(m) => m.contains_key(path),
            None => false,
        };
        if !cached {
            self.request_fs(name, path);
        }
        cached
    }

    /// Ask for `action` to be performed on `name`.
    pub fn run_action(&mut self, action: SandboxAction, name: &str)
        ensures
            old(self).same_but_effects(*final(self)),
            final(self).effects@.len() == old(self).effects@.len() + 1,
            final(self).effects@.drop_last() == old(self).effects@,
            is_run_action(final(self).effects@.last(), action, name@),
    {
        self.push_effect(Effect::RunAction { action, name: to_string(name) });
    }

    /// The sandbox the live log stream should currently follow.
    pub fn log_stream_target(&self) -> (r: Option<String>)
        ensures
            opt_view(r) == self.log_stream_target_spec(),
    {
        if self.tab != DetailTab::Logs {
            return None;
        }
        match self.selected_sandbox() {
            Some(sb) => if sb.status == SandboxStatus::Running {
                Some(copy_string(&sb.name))
            } else {
                None
            },
            None => None,
        }
    }

    /// Make the live log stream follow [`Self::log_stream_target`]: when the
    /// target changed, stop the old stream and, for a new target, fetch its
    /// recent lines and follow it. While the Logs tab shows a sandbox that
    /// is not running, fetch its captured lines instead.
    pub fn sync_log_stream(&mut self)
        ensures
            old(self).log_stream_synced(*final(self)),
    {
        let ghost e0 = self.effects@;
        proof {
            lemma_grows_safely_refl(e0);
        }
        let target = self.log_stream_target();
        let same = match (&target, &self.log_stream_name) {
            (None, None) => true,
            (Some(a), Some(b)) => crate::text::str_eq(a.as_str(), b.as_str()),
            _ => false,
        };
        if !same {
            self.push_effect(Effect::StopFollowingLogs);
            self.log_stream_name = None;
            if let Some(name) = target {
                let ghost e1 = self.effects@;
                let name2 = copy_string(&name);
                self.push_effect(Effect::FetchLogs(name2));
                let ghost e2 = self.effects@;
                let name3 = copy_string(&name);
                self.push_effect(Effect::FollowLogs(name3));
                proof {
                    lemma_grows_safely_trans(e0, e1, e2);
                    lemma_grows_safely_trans(e0, e2, self.effects@);
                }
                self.log_stream_name = Some(name);
                return;
            }
        }
        let ghost e1 = self.effects@;
        if self.tab == DetailTab::Logs && self.selected < self.sandboxes.len() {
            if self.sandboxes[self.selected].status != SandboxStatus::Running {
                let name = copy_string(&self.sandboxes[self.selected].name);
                self.push_effect(Effect::FetchLogs(name));
                proof {
                    lemma_grows_safely_trans(e0, e1, self.effects@);
                }
            }
        }
    }
}

} // verus!

//! Results of outside work, and how each one changes [`App`] state.
//!
//! The program performs the [`super::Effect`]s the state asks for and hands
//! each result back as an [`AppMessage`], applied by [`App::handle_message`].
use vstd::prelude::*;

use std::collections::VecDeque;

use crate::sandbox::{FsEntry, MetricsSnapshot, SandboxInfo, VolumeInfo};
use crate::text::{chars_eq, chars_of, copy_string, push_str};

use super::actions::{notice_text, quote_message, quoted, SandboxAction};
use super::dialogs::{
    dir_entries_spec, picker_ok, views, CreateDialog, DirPicker, MountAddDialog, VolumesView,
    PICKER_VISIBLE_ROWS,
};
use super::name_map::NameMap;
use super::{instant_now, App, LogLine, PickerTarget, MAX_LOG_LINES, METRICS_HISTORY_LEN};

verus! {

/// Results reported back to the state. Errors are carried as their text.
pub enum AppMessage {
    SandboxList(Result<Vec<SandboxInfo>, String>),
    LogEntries(String, Result<Vec<LogLine>, String>),
    /// A single log line pushed live by the log stream of a sandbox.
    LogStreamEntry(String, LogLine),
    Metrics(String, Result<Option<MetricsSnapshot>, String>),
    FsEntries(String, String, Result<Option<Vec<FsEntry>>, String>),
    Notification(String, bool),
    /// Result of refreshing the named-volumes list.
    VolumeList(Result<Vec<VolumeInfo>, String>),
    /// A directory picker's new location and its subdirectory names.
    PickerListing { target: PickerTarget, path: String, subdirs: Vec<String> },
    /// The drive roots to show in a directory picker.
    PickerDrives { target: PickerTarget, drives: Vec<String> },
    /// How a piece of requested work ended.
    Outcome(Outcome),
}

/// How a piece of work asked for by an [`super::Effect`] ended; errors are
/// carried as their text.
pub enum Outcome {
    /// A sandbox was started, stopped, terminated or removed.
    Action { action: SandboxAction, name: String, result: Result<(), String> },
    SandboxCreated { name: String, result: Result<(), String> },
    VolumeCreated { name: String, result: Result<(), String> },
    VolumeRemoved { name: String, result: Result<(), String> },
    /// A host terminal was opened to run `command` in `sandbox`.
    ExecTerminal { sandbox: String, command: String, result: Result<(), String> },
    /// A host terminal was opened on the shell of `sandbox`.
    ShellTerminal { sandbox: String, result: Result<(), String> },
}

/// The notification reporting outcome `o`, and whether it is an error.
pub open spec fn outcome_notice(o: Outcome) -> (Seq<char>, bool) {
    match o {
        Outcome::Action { action, name, result } => match result {
            Ok(_) => (action.name_spec() + " "@ + quoted(name@) + " OK"@, false),
            Err(e) => (action.name_spec() + " "@ + quoted(name@) + " failed: "@ + e@, true),
        },
        Outcome::SandboxCreated { name, result } => match result {
            Ok(_) => (notice_text("Created sandbox "@, name@, ""@), false),
            Err(e) => ("Create failed: "@ + e@, true),
        },
        Outcome::VolumeCreated { name, result } => match result {
            Ok(_) => (notice_text("Created volume "@, name@, ""@), false),
            Err(e) => ("Create volume failed: "@ + e@, true),
        },
        Outcome::VolumeRemoved { name, result } => match result {
            Ok(_) => (notice_text("Removed volume "@, name@, ""@), false),
            Err(e) => ("Remove volume failed: "@ + e@, true),
        },
        Outcome::ExecTerminal { sandbox, command, result } => match result {
            Ok(_) => ("Running "@ + quoted(command@) + " in "@ + quoted(sandbox@) + "…"@, false),
            Err(e) => ("Failed to open terminal: "@ + e@, true),
        },
        Outcome::ShellTerminal { sandbox, result } => match result {
            Ok(_) => (notice_text("Opening a shell in "@, sandbox@, "…"@), false),
            Err(e) => ("Failed to open terminal: "@ + e@, true),
        },
    }
}

/// The last `max` items of `s` (all of `s` when it is shorter).
pub open spec fn keep_last<T>(s: Seq<T>, max: nat) -> Seq<T> {
    if s.len() > max {
        s.skip(s.len() - max)
    } else {
        s
    }
}

/// Text of a notification made of three parts.
pub open spec fn message3(a: Seq<char>, b: Seq<char>, c: Seq<char>) -> Seq<char> {
    a + b + c
}

/// Index of the first sandbox named `name`, or -1.
pub open spec fn position_of(list: Seq<SandboxInfo>, name: Seq<char>) -> int
    decreases list.len(),
{
    if list.len() == 0 {
        -1
    } else if list[0].name@ == name {
        0
    } else {
        let r = position_of(list.drop_first(), name);
        if r < 0 {
            -1
        } else {
            r + 1
        }
    }
}

proof fn lemma_position_of(list: Seq<SandboxInfo>, name: Seq<char>, i: int)
    requires
        0 <= i <= list.len(),
        forall|j: int| 0 <= j < i ==> list[j].name@ != name,
    ensures
        i < list.len() && list[i].name@ == name ==> position_of(list, name) == i,
        i == list.len() ==> position_of(list, name) == -1,
    decreases i,
{
    if i > 0 {
        lemma_position_of(list.drop_first(), name, i - 1);
    }
}

/// Where the selection lands when the sandbox list is replaced: on the
/// first sandbox with the previously selected name, else clamped to the
/// new length; a selection that named no sandbox stays put.
pub open spec fn reselect(old_list: Seq<SandboxInfo>, selected: usize, new_list: Seq<SandboxInfo>) -> int {
    if selected < old_list.len() {
        let p = position_of(new_list, old_list[selected as int].name@);
        if p >= 0 {
            p
        } else if selected < new_list.len() {
            selected as int
        } else {
            new_list.len() as int
        }
    } else {
        selected as int
    }
}

/// `a` followed by `b`.
fn joined(a: &str, b: &str) -> (r: String)
    ensures
        r@ == a@ + b@,
{
    let mut s = String::new();
    push_str(&mut s, a);
    push_str(&mut s, b);
    assert(s@ =~= a@ + b@);
    s
}

/// `a` records the same volume as `b`.
pub open spec fn same_volume(a: VolumeInfo, b: VolumeInfo) -> bool {
    &&& a.name@ == b.name@
    &&& a.kind == b.kind
    &&& a.quota_mib == b.quota_mib
    &&& a.used_bytes == b.used_bytes
}

/// Makes a list of owned copies of volume records.
fn copy_volumes(v: &Vec<VolumeInfo>) -> (r: Vec<VolumeInfo>)
    ensures
        r@.len() == v@.len(),
        forall|i: int| 0 <= i < v@.len() ==> same_volume(#[trigger] r@[i], v@[i]),
{
    let mut out: Vec<VolumeInfo> = Vec::new();
    let n = v.len();
    for i in 0..n
        invariant
            n == v@.len(),
            out@.len() == i,
            forall|k: int| 0 <= k < i ==> same_volume(#[trigger] out@[k], v@[k]),
    {
        out.push(
            VolumeInfo {
                name: copy_string(&v[i].name),
                kind: v[i].kind,
                quota_mib: v[i].quota_mib,
                used_bytes: v[i].used_bytes,
            },
        );
    }
    out
}

/// Offer `vols` in the mount popup.
fn set_available_volumes(m: &mut MountAddDialog, vols: Vec<VolumeInfo>)
    ensures
        *final(m) == (MountAddDialog { available_volumes: vols, ..*old(m) }),
{
    m.available_volumes = vols;
}

/// List `list` in the Volumes view, clamping its selection.
fn set_volume_list(v: &mut VolumesView, list: Vec<VolumeInfo>)
    ensures
        *final(v) == (VolumesView {
            volumes: list,
            selected: final(v).selected,
            ..*old(v)
        }),
        final(v).selected == if old(v).selected >= list@.len() {
            if list@.len() > 0 {
                list@.len() - 1
            } else {
                0
            }
        } else {
            old(v).selected as int
        },
{
    let n = list.len();
    if v.selected >= n {
        v.selected = if n > 0 {
            n - 1
        } else {
            0
        };
    }
    v.volumes = list;
}

/// Which volumes the mount popup offers does not bear on the dialog's
/// well-formedness.
proof fn lemma_volumes_keep_wf(d: CreateDialog, e: CreateDialog)
    requires
        d.wf(),
        e == (CreateDialog {
            mount_add: MountAddDialog {
                available_volumes: e.mount_add.available_volumes,
                ..d.mount_add
            },
            ..d
        }),
    ensures
        e.wf(),
{
}

impl App {
    /// The footer shows error `text`; nothing else changed.
    pub open spec fn error_shown(self, text: Seq<char>, after: App) -> bool {
        &&& after == (App { notification: after.notification, ..self })
        &&& after.notice_is(text, true)
    }

    /// `after` is `self` with the sandbox list replaced by `list`, the
    /// selection kept on the same sandbox where it still exists (see
    /// [`reselect`]), the refresh time recorded, and then the log stream
    /// brought in line (see [`App::log_stream_synced`]).
    pub open spec fn sandbox_list_applied(self, list: Seq<SandboxInfo>, after: App) -> bool {
        exists|mid: App|
            {
                &&& #[trigger] mid.log_stream_synced(after)
                &&& mid == (App {
                    sandboxes: mid.sandboxes,
                    selected: mid.selected,
                    last_refresh: mid.last_refresh,
                    ..self
                })
                &&& mid.sandboxes@ == list
                &&& mid.selected == reselect(self.sandboxes@, self.selected, list)
                &&& mid.last_refresh is Some
            }
    }

    /// `after` is `self` with streamed line `entry` appended to the lines
    /// of `name`, of which the last [`MAX_LOG_LINES`] are kept.
    pub open spec fn log_line_appended(self, name: Seq<char>, entry: LogLine, after: App) -> bool {
        &&& after == (App { logs: after.logs, ..self })
        &&& after.logs@.dom() =~= self.logs@.dom().insert(name)
        &&& after.logs@[name]@ == keep_last(
            (if self.logs@.contains_key(name) {
                self.logs@[name]@
            } else {
                Seq::<LogLine>::empty()
            }).push(entry),
            MAX_LOG_LINES as nat,
        )
        &&& forall|k: Seq<char>|
            k != name && #[trigger] self.logs@.contains_key(k) ==> after.logs@[k] == self.logs@[k]
    }

    /// `after` is `self` with sample `m` the latest of `name` and appended
    /// to its history, of which the last [`METRICS_HISTORY_LEN`] are kept.
    pub open spec fn metrics_recorded(self, name: Seq<char>, m: MetricsSnapshot, after: App) -> bool {
        &&& after == (App {
            metrics: after.metrics,
            metrics_history: after.metrics_history,
            ..self
        })
        &&& after.metrics@ =~= self.metrics@.insert(name, m)
        &&& after.metrics_history@.dom() =~= self.metrics_history@.dom().insert(name)
        &&& after.metrics_history@[name]@ == keep_last(
            (if self.metrics_history@.contains_key(name) {
                self.metrics_history@[name]@
            } else {
                Seq::<MetricsSnapshot>::empty()
            }).push(m),
            METRICS_HISTORY_LEN as nat,
        )
        &&& forall|k: Seq<char>|
            k != name && #[trigger] self.metrics_history@.contains_key(k)
                ==> after.metrics_history@[k] == self.metrics_history@[k]
    }

    /// `after` is `self` with the listing of `path` inside `name` cached.
    pub open spec fn fs_listing_stored(
        self,
        name: Seq<char>,
        path: Seq<char>,
        entries: Vec<FsEntry>,
        after: App,
    ) -> bool {
        &&& after == (App { fs_entries: after.fs_entries, ..self })
        &&& after.fs_entries@.dom() =~= self.fs_entries@.dom().insert(name)
        &&& after.fs_entries@[name]@ =~= (if self.fs_entries@.contains_key(name) {
            self.fs_entries@[name]@
        } else {
            Map::<Seq<char>, Vec<FsEntry>>::empty()
        }).insert(path, entries)
        &&& forall|k: Seq<char>|
            k != name && #[trigger] self.fs_entries@.contains_key(k)
                ==> after.fs_entries@[k] == self.fs_entries@[k]
    }

    /// `after` is `self` with the Volumes view listing `list` (its
    /// selection clamped to it) and the mount popup offering the same
    /// volumes.
    pub open spec fn volume_list_applied(self, list: Seq<VolumeInfo>, after: App) -> bool {
        let v = self.volumes_view;
        let ma = self.create_dialog.mount_add;
        &&& after == (App {
            volumes_view: after.volumes_view,
            create_dialog: after.create_dialog,
            ..self
        })
        &&& after.volumes_view == (VolumesView {
            volumes: after.volumes_view.volumes,
            selected: after.volumes_view.selected,
            ..v
        })
        &&& after.create_dialog == (CreateDialog {
            mount_add: after.create_dialog.mount_add,
            ..self.create_dialog
        })
        &&& after.create_dialog.mount_add == (MountAddDialog {
            available_volumes: after.create_dialog.mount_add.available_volumes,
            ..ma
        })
        &&& after.volumes_view.volumes@ =~= list
        &&& after.volumes_view.selected == if v.selected >= list.len() {
            if list.len() > 0 {
                list.len() - 1
            } else {
                0
            }
        } else {
            v.selected as int
        }
        &&& after.create_dialog.mount_add.available_volumes@.len() == list.len()
        &&& forall|i: int|
            0 <= i < list.len() ==> same_volume(
                #[trigger] after.create_dialog.mount_add.available_volumes@[i],
                list[i],
            )
    }

    /// `after` is `self` with the `target` picker replaced by `p`.
    pub open spec fn with_picker(self, target: PickerTarget, p: DirPicker) -> App {
        match target {
            PickerTarget::Workdir => App {
                create_dialog: CreateDialog { dir_picker: p, ..self.create_dialog },
                ..self
            },
            PickerTarget::MountSource => App {
                create_dialog: CreateDialog {
                    mount_add: MountAddDialog { dir_picker: p, ..self.create_dialog.mount_add },
                    ..self.create_dialog
                },
                ..self
            },
        }
    }

    /// The `target` picker.
    pub open spec fn picker(self, target: PickerTarget) -> DirPicker {
        match target {
            PickerTarget::Workdir => self.create_dialog.dir_picker,
            PickerTarget::MountSource => self.create_dialog.mount_add.dir_picker,
        }
    }

    /// `after` is `self` with the `target` picker shown at `path`, listing
    /// the entries for subdirectories `subdirs` from the top.
    pub open spec fn picker_listing_applied(
        self,
        target: PickerTarget,
        path: String,
        subdirs: Seq<Seq<char>>,
        after: App,
    ) -> bool {
        let p = after.picker(target);
        &&& after == self.with_picker(target, p)
        &&& p == (DirPicker {
            visible: true,
            path,
            entries: p.entries,
            selected: 0,
            scroll_offset: 0,
            showing_drives: false,
        })
        &&& dir_entries_spec(subdirs, views(p.entries@))
    }

    /// `after` is `self` with the `target` picker listing `drives` from the
    /// top.
    pub open spec fn picker_drives_applied(self, target: PickerTarget, drives: Vec<String>, after: App) -> bool {
        after == self.with_picker(
            target,
            DirPicker {
                entries: drives,
                selected: 0,
                scroll_offset: 0,
                showing_drives: true,
                ..self.picker(target)
            },
        )
    }

    /// `after` is `self` with message `msg` applied.
    pub open spec fn message_applied(self, msg: AppMessage, after: App) -> bool {
        match msg {
            AppMessage::SandboxList(Ok(list)) => self.sandbox_list_applied(list@, after),
            AppMessage::SandboxList(Err(e)) => self.error_shown(
                message3("List error: "@, e@, ""@),
                after,
            ),
            AppMessage::LogEntries(name, Ok(entries)) => {
                &&& after == (App { logs: after.logs, ..self })
                &&& after.logs@ =~= self.logs@.insert(name@, entries)
            },
            AppMessage::LogEntries(name, Err(e)) => self.error_shown(
                message3("Log error for "@, name@, ": "@ + e@),
                after,
            ),
            AppMessage::LogStreamEntry(name, entry) => self.log_line_appended(name@, entry, after),
            AppMessage::Metrics(name, Ok(Some(m))) => self.metrics_recorded(name@, m, after),
            AppMessage::Metrics(_, Ok(None)) => after == self,
            AppMessage::Metrics(name, Err(e)) => self.error_shown(
                message3("Metrics error for "@, name@, ": "@ + e@),
                after,
            ),
            AppMessage::FsEntries(name, path, Ok(Some(entries))) => self.fs_listing_stored(
                name@,
                path@,
                entries,
                after,
            ),
            AppMessage::FsEntries(_, _, Ok(None)) => after == self,
            AppMessage::FsEntries(name, path, Err(e)) => self.error_shown(
                message3("FS error for "@, name@, ":"@ + path@ + ": "@ + e@),
                after,
            ),
            AppMessage::Notification(text, is_err) => {
                &&& after == (App { notification: after.notification, ..self })
                &&& after.notification matches Some(n) && n.message == text && n.is_error == is_err
            },
            AppMessage::VolumeList(Ok(list)) => self.volume_list_applied(list@, after),
            AppMessage::VolumeList(Err(e)) => self.error_shown(
                message3("Volume list error: "@, e@, ""@),
                after,
            ),
            AppMessage::PickerListing { target, path, subdirs } => self.picker_listing_applied(
                target,
                path,
                views(subdirs@),
                after,
            ),
            AppMessage::PickerDrives { target, drives } => self.picker_drives_applied(
                target,
                drives,
                after,
            ),
            AppMessage::Outcome(o) => {
                &&& after == (App { notification: after.notification, ..self })
                &&& after.notice_is(outcome_notice(o).0, outcome_notice(o).1)
            },
        }
    }
}

impl App {
    /// Replace the sandbox list, keeping the selection on the same sandbox
    /// where it still exists (see [`reselect`]), then update the log
    /// stream.
    pub fn apply_sandbox_list(&mut self, list: Vec<SandboxInfo>)
        ensures
            old(self).sandbox_list_applied(list@, *final(self)),
            final(self).wf() == old(self).wf(),
            final(self).confirm == old(self).confirm,
            final(self).effects@.take(old(self).effects@.len() as int) == old(self).effects@,
    {
        let mut new_selected = self.selected;
        if self.selected < self.sandboxes.len() {
            let name = chars_of(self.sandboxes[self.selected].name.as_str());
            let n = list.len();
            let mut found: Option<usize> = None;
            for i in 0..n
                invariant
                    n == list@.len(),
                    name@ == old(self).sandboxes@[old(self).selected as int].name@,
                    found is None ==> forall|j: int| 0 <= j < i ==> list@[j].name@ != name@,
                    found matches Some(p) ==> p < n && position_of(list@, name@) == p,
            {
                if found.is_none() {
                    let c = chars_of(list[i].name.as_str());
                    if chars_eq(&c, &name) {
                        proof {
                            lemma_position_of(list@, name@, i as int);
                        }
                        found = Some(i);
                    }
                }
            }
            proof {
                if found is None {
                    lemma_position_of(list@, name@, n as int);
                }
            }
            new_selected = match found {
                Some(p) => p,
                None => if self.selected < n {
                    self.selected
                } else {
                    n
                },
            };
        }
        self.sandboxes = list;
        self.selected = new_selected;
        self.last_refresh = Some(instant_now());
        let ghost mid = *self;
        self.sync_log_stream();
        assert(mid.log_stream_synced(*self));
    }

    /// Show `"{a}{b}{c}"` as an error notification.
    fn notify_error3(&mut self, a: &str, b: &str, c: &str)
        ensures
            old(self).error_shown(message3(a@, b@, c@), *final(self)),
    {
        let mut s = String::new();
        push_str(&mut s, a);
        push_str(&mut s, b);
        push_str(&mut s, c);
        assert(s@ =~= message3(a@, b@, c@));
        self.notify(s, true);
    }

    /// Report how a piece of requested work ended (see [`outcome_notice`]).
    pub fn report_outcome(&mut self, o: Outcome)
        ensures
            *final(self) == (App { notification: final(self).notification, ..*old(self) }),
            final(self).notice_is(outcome_notice(o).0, outcome_notice(o).1),
    {
        let ghost og = o;
        let (text, is_error) = match o {
            Outcome::Action { action, name, result } => {
                let mut s = String::new();
                push_str(&mut s, action.name());
                push_str(&mut s, " ");
                let q = quote_message("", name.as_str(), "");
                push_str(&mut s, q.as_str());
                match result {
                    Ok(()) => {
                        push_str(&mut s, " OK");
                        (s, false)
                    },
                    Err(e) => {
                        push_str(&mut s, " failed: ");
                        push_str(&mut s, e.as_str());
                        (s, true)
                    },
                }
            },
            Outcome::SandboxCreated { name, result } => match result {
                Ok(()) => (quote_message("Created sandbox ", name.as_str(), ""), false),
                Err(e) => (joined("Create failed: ", e.as_str()), true),
            },
            Outcome::VolumeCreated { name, result } => match result {
                Ok(()) => (quote_message("Created volume ", name.as_str(), ""), false),
                Err(e) => (joined("Create volume failed: ", e.as_str()), true),
            },
            Outcome::VolumeRemoved { name, result } => match result {
                Ok(()) => (quote_message("Removed volume ", name.as_str(), ""), false),
                Err(e) => (joined("Remove volume failed: ", e.as_str()), true),
            },
            Outcome::ExecTerminal { sandbox, command, result } => match result {
                Ok(()) => {
                    let mut s = quote_message("Running ", command.as_str(), " in ");
                    let q = quote_message("", sandbox.as_str(), "…");
                    push_str(&mut s, q.as_str());
                    (s, false)
                },
                Err(e) => (joined("Failed to open terminal: ", e.as_str()), true),
            },
            Outcome::ShellTerminal { sandbox, result } => match result {
                Ok(()) => (quote_message("Opening a shell in ", sandbox.as_str(), "…"), false),
                Err(e) => (joined("Failed to open terminal: ", e.as_str()), true),
            },
        };
        proof {
            reveal_strlit("");
        }
        assert(text@ =~= outcome_notice(og).0);
        self.notify(text, is_error);
    }

    /// Append one streamed log line for `name`, keeping only the last
    /// [`MAX_LOG_LINES`] lines.
    pub fn append_log_line(&mut self, name: String, entry: LogLine)
        requires
            old(self).wf(),
        ensures
            final(self).wf(),
            old(self).log_line_appended(name@, entry, *final(self)),
    {
        let mut lines = match self.logs.remove(name.as_str()) {
            Some(v) => v,
            None => Vec::new(),
        };
        let ghost base = lines@;
        lines.push(entry);
        if lines.len() > MAX_LOG_LINES {
            let excess = lines.len() - MAX_LOG_LINES;
            let tail = lines.split_off(excess);
            lines = tail;
        }
        assert(lines@ =~= keep_last(base.push(entry), MAX_LOG_LINES as nat));
        self.logs.insert(name, lines);
    }

    /// Record a metrics sample for `name`: it becomes the latest sample
    /// and joins the history, which keeps the last
    /// [`METRICS_HISTORY_LEN`] samples.
    pub fn record_metrics(&mut self, name: String, m: MetricsSnapshot)
        requires
            old(self).wf(),
        ensures
            final(self).wf(),
            old(self).metrics_recorded(name@, m, *final(self)),
    {
        let mut history = match self.metrics_history.remove(name.as_str()) {
            Some(h) => h,
            None => VecDeque::new(),
        };
        let ghost base = history@;
        history.push_back(m);
        while history.len() > METRICS_HISTORY_LEN
            invariant
                keep_last(history@, METRICS_HISTORY_LEN as nat) == keep_last(
                    base.push(m),
                    METRICS_HISTORY_LEN as nat,
                ),
            decreases history@.len(),
        {
            let ghost before = history@;
            let _ = history.pop_front();
            assert(keep_last(history@, METRICS_HISTORY_LEN as nat) =~= keep_last(
                before,
                METRICS_HISTORY_LEN as nat,
            ));
        }
        assert(history@ =~= keep_last(base.push(m), METRICS_HISTORY_LEN as nat));
        let key = copy_string(&name);
        self.metrics_history.insert(key, history);
        self.metrics.insert(name, m);
    }

    /// Cache the listing of `path` inside sandbox `name`.
    pub fn store_fs_listing(&mut self, name: String, path: String, entries: Vec<FsEntry>)
        requires
            old(self).wf(),
        ensures
            final(self).wf(),
            old(self).fs_listing_stored(name@, path@, entries, *final(self)),
    {
        let mut inner = match self.fs_entries.remove(name.as_str()) {
            Some(m) => m,
            None => NameMap::new(),
        };
        inner.insert(path, entries);
        self.fs_entries.insert(name, inner);
        proof {
            assert forall|k: Seq<char>| #[trigger] self.fs_entries@.contains_key(k) implies self.fs_entries@[k].wf() by {
                if k != name@ {
                    assert(old(self).fs_entries@.contains_key(k));
                }
            }
        }
    }

    /// Hand a picker its new location and listing.
    pub fn apply_picker_listing(&mut self, target: PickerTarget, path: String, subdirs: Vec<String>)
        requires
            old(self).wf(),
        ensures
            final(self).wf(),
            old(self).picker_listing_applied(target, path, views(subdirs@), *final(self)),
    {
        match target {
            PickerTarget::Workdir => {
                self.create_dialog.dir_picker.navigate_to(path, subdirs);
                self.create_dialog.dir_picker.visible = true;
            },
            PickerTarget::MountSource => {
                self.create_dialog.mount_add.dir_picker.navigate_to(path, subdirs);
                self.create_dialog.mount_add.dir_picker.visible = true;
            },
        }
    }

    /// Hand a picker the drive roots to show.
    pub fn apply_picker_drives(&mut self, target: PickerTarget, drives: Vec<String>)
        requires
            old(self).wf(),
        ensures
            final(self).wf(),
            old(self).picker_drives_applied(target, drives, *final(self)),
    {
        match target {
            PickerTarget::Workdir => self.create_dialog.dir_picker.show_drives(drives),
            PickerTarget::MountSource => self.create_dialog.mount_add.dir_picker.show_drives(drives),
        }
    }

    /// Replace the volume list, clamping the selection to it; the mount
    /// popup's list of volumes to choose from is refreshed as well.
    pub fn apply_volume_list(&mut self, list: Vec<VolumeInfo>)
        requires
            old(self).wf(),
        ensures
            final(self).wf(),
            old(self).volume_list_applied(list@, *final(self)),
    {
        let copies = copy_volumes(&list);
        let ghost d = self.create_dialog;
        set_available_volumes(&mut self.create_dialog.mount_add, copies);
        proof {
            lemma_volumes_keep_wf(d, self.create_dialog);
        }
        set_volume_list(&mut self.volumes_view, list);
    }

    /// Apply a background result to the state.
    pub fn handle_message(&mut self, msg: AppMessage)
        requires
            old(self).wf(),
        ensures
            final(self).wf(),
            final(self).confirm == old(self).confirm,
            final(self).effects@.take(old(self).effects@.len() as int) == old(self).effects@,
            old(self).message_applied(msg, *final(self)),
    {
        match msg {
            AppMessage::SandboxList(Ok(list)) => {
                self.apply_sandbox_list(list);
            },
            AppMessage::SandboxList(Err(e)) => {
                self.notify_error3("List error: ", e.as_str(), "");
            },
            AppMessage::LogEntries(name, Ok(entries)) => {
                self.logs.insert(name, entries);
            },
            AppMessage::LogEntries(name, Err(e)) => {
                let mut tail = String::new();
                push_str(&mut tail, ": ");
                push_str(&mut tail, e.as_str());
                self.notify_error3("Log error for ", name.as_str(), tail.as_str());
            },
            AppMessage::LogStreamEntry(name, entry) => {
                let ghost n = name@;
                self.append_log_line(name, entry);
            },
            AppMessage::Metrics(name, Ok(Some(m))) => {
                self.record_metrics(name, m);
            },
            AppMessage::Metrics(_, Ok(None)) => {},
            AppMessage::Metrics(name, Err(e)) => {
                let mut tail = String::new();
                push_str(&mut tail, ": ");
                push_str(&mut tail, e.as_str());
                self.notify_error3("Metrics error for ", name.as_str(), tail.as_str());
            },
            AppMessage::FsEntries(name, path, Ok(Some(entries))) => {
                self.store_fs_listing(name, path, entries);
            },
            AppMessage::FsEntries(_, _, Ok(None)) => {},
            AppMessage::FsEntries(name, path, Err(e)) => {
                let mut tail = String::new();
                push_str(&mut tail, ":");
                push_str(&mut tail, path.as_str());
                push_str(&mut tail, ": ");
                push_str(&mut tail, e.as_str());
                self.notify_error3("FS error for ", name.as_str(), tail.as_str());
            },
            AppMessage::Notification(text, is_err) => {
                self.notify(text, is_err);
            },
            AppMessage::VolumeList(Ok(list)) => {
                self.apply_volume_list(list);
            },
            AppMessage::VolumeList(Err(e)) => {
                self.notify_error3("Volume list error: ", e.as_str(), "");
            },
            AppMessage::PickerListing { target, path, subdirs } => {
                self.apply_picker_listing(target, path, subdirs);
            },
            AppMessage::PickerDrives { target, drives } => {
                self.apply_picker_drives(target, drives);
            },
            AppMessage::Outcome(o) => {
                self.report_outcome(o);
            },
        }
    }
}

/// The lines kept for a sandbox never exceed [`MAX_LOG_LINES`]: after a
/// streamed line arrives, it is the newest kept line and at most that many
/// are kept.
pub proof fn law_log_lines_capped(a: App, name: Seq<char>, entry: LogLine, b: App)
    requires
        a.log_line_appended(name, entry, b),
    ensures
        b.logs@.contains_key(name),
        b.logs@[name]@.len() <= MAX_LOG_LINES,
        b.logs@[name]@.last() == entry,
{
    assert(b.logs@.dom().contains(name));
}

/// A sandbox's metrics history never exceeds [`METRICS_HISTORY_LEN`]
/// samples: after a sample arrives, it is the latest sample and the newest
/// of at most that many in the history.
pub proof fn law_metrics_history_capped(a: App, name: Seq<char>, m: MetricsSnapshot, b: App)
    requires
        a.metrics_recorded(name, m, b),
    ensures
        b.metrics@[name] == m,
        b.metrics_history@.contains_key(name),
        b.metrics_history@[name]@.len() <= METRICS_HISTORY_LEN,
        b.metrics_history@[name]@.last() == m,
{
    assert(b.metrics_history@.dom().contains(name));
}

/// The metrics history rolls: after a sample arrives it is the newest
/// entry, the history grows by one until it holds
/// [`METRICS_HISTORY_LEN`] samples and then stays at that size, and the
/// entries before the newest are the latest ones of the earlier history,
/// in order, so the oldest sample is the one dropped. The sample becomes
/// the latest one of `name`, and the histories of other sandboxes stay
/// as they were.
pub proof fn law_metrics_history_rolls(a: App, name: Seq<char>, m: MetricsSnapshot, b: App)
    requires
        a.metrics_recorded(name, m, b),
    ensures
        b.metrics@[name] == m,
        forall|k: Seq<char>|
            k != name && #[trigger] a.metrics_history@.contains_key(k) ==> b.metrics_history@.contains_key(k)
                && b.metrics_history@[k] == a.metrics_history@[k],
        ({
            let prev = if a.metrics_history@.contains_key(name) {
                a.metrics_history@[name]@
            } else {
                Seq::<MetricsSnapshot>::empty()
            };
            let h = b.metrics_history@[name]@;
            &&& h.len() == if prev.len() < METRICS_HISTORY_LEN {
                prev.len() + 1
            } else {
                METRICS_HISTORY_LEN as nat
            }
            &&& h.last() == m
            &&& forall|k: int|
                0 <= k < h.len() - 1 ==> #[trigger] h[k] == prev[prev.len() - (h.len() - 1) + k]
        }),
{
}

/// The kept log lines roll in the same way: the newest line is last, at
/// most [`MAX_LOG_LINES`] are kept, and the ones before it are the latest
/// of the lines kept before, in order.
pub proof fn law_log_lines_roll(a: App, name: Seq<char>, entry: LogLine, b: App)
    requires
        a.log_line_appended(name, entry, b),
    ensures
        ({
            let prev = if a.logs@.contains_key(name) {
                a.logs@[name]@
            } else {
                Seq::<LogLine>::empty()
            };
            let h = b.logs@[name]@;
            &&& h.len() == if prev.len() < MAX_LOG_LINES {
                prev.len() + 1
            } else {
                MAX_LOG_LINES as nat
            }
            &&& h.last() == entry
            &&& forall|k: int|
                0 <= k < h.len() - 1 ==> #[trigger] h[k] == prev[prev.len() - (h.len() - 1) + k]
        }),
{
}

/// `position_of` finds a listed name, at an entry with that name.
proof fn lemma_position_of_found(list: Seq<SandboxInfo>, name: Seq<char>, i: int)
    requires
        0 <= i < list.len(),
        list[i].name@ == name,
    ensures
        0 <= position_of(list, name) < list.len(),
        list[position_of(list, name)].name@ == name,
    decreases list.len(),
{
    if list[0].name@ != name {
        lemma_position_of_found(list.drop_first(), name, i - 1);
    }
}

/// A refresh of the sandbox list keeps the selection on the same
/// sandbox: when the selected sandbox is still listed, afterwards the
/// selection names it.
pub proof fn law_refresh_keeps_selected_sandbox(a: App, list: Seq<SandboxInfo>, b: App, i: int)
    requires
        a.sandbox_list_applied(list, b),
        a.selected < a.sandboxes@.len(),
        0 <= i < list.len(),
        list[i].name@ == a.sandboxes@[a.selected as int].name@,
    ensures
        b.selected < b.sandboxes@.len(),
        b.sandboxes@[b.selected as int].name@ == a.sandboxes@[a.selected as int].name@,
{
    lemma_position_of_found(list, a.sandboxes@[a.selected as int].name@, i);
}

} // verus!



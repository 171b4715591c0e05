//! Sandbox actions, the confirmation of destructive ones, the search
//! filter, and the helpers key handling uses to change selection, scroll
//! and tabs.
use vstd::prelude::*;

use crate::sandbox::{
    guest_path_spec, host_path_to_guest_path, CreateConfig, MountSource, SandboxInfo,
    SandboxStatus, VolumeMountConfig,
};
use crate::text::{
    chars_of, contains_chars, contains_seq, copy_string, decimal, eq_ignore_ascii_case,
    is_whitespace_spec, lemma_parse_decimal, lemma_words_blank, lemma_words_concat,
    lemma_words_single,
    eq_ignore_ascii_case_chars, parse_unsigned, parse_unsigned_str, pop_char, push_char, push_str,
    starts_with, starts_with_chars, str_eq, string_from_chars, subvec, to_lowercase, to_string,
    trim, trim_str, unicode_lowercase, words, words_chars,
};

use super::dialogs::{CreateDialog, ExecDialog};
use super::keys::KeyCode;
use super::{
    filter_blank, grows_safely, is_fetch_metrics, is_list_fs, is_run_action, lemma_grows_safely_refl,
    lemma_grows_safely_trans, opt_view, App, DetailTab, Effect,
};

verus! {

/// A destructive action awaiting confirmation via the "Are you sure?"
/// dialog: stopping or terminating a sandbox, or removing a sandbox or a
/// volume.
#[derive(Debug, Clone, PartialEq, Eq)]
pub enum PendingAction {
    StopSandbox(String),
    TerminateSandbox(String),
    RemoveSandbox(String),
    RemoveVolume(String),
}

/// `'` + name + `'`.
pub open spec fn quoted(name: Seq<char>) -> Seq<char> {
    seq!['\''] + name + seq!['\'']
}

impl PendingAction {
    pub open spec fn confirm_message_spec(self) -> Seq<char> {
        match self {
            PendingAction::StopSandbox(n) => "Stop sandbox "@ + quoted(n@) + "?"@,
            PendingAction::TerminateSandbox(n) => "Terminate sandbox "@ + quoted(n@)
                + "? This forcefully stops it immediately."@,
            PendingAction::RemoveSandbox(n) => "Remove sandbox "@ + quoted(n@)
                + "? This deletes all of its state."@,
            PendingAction::RemoveVolume(n) => "Remove volume "@ + quoted(n@)
                + "? This deletes all of its data."@,
        }
    }

    /// Human-readable confirmation prompt shown in the dialog.
    pub fn confirm_message(&self) -> (r: String)
        ensures
            r@ == self.confirm_message_spec(),
    {
        let mut s = String::new();
        let (lead, name, tail) = match self {
            PendingAction::StopSandbox(n) => ("Stop sandbox ", n, "?"),
            PendingAction::TerminateSandbox(n) => (
                "Terminate sandbox ",
                n,
                "? This forcefully stops it immediately.",
            ),
            PendingAction::RemoveSandbox(n) => (
                "Remove sandbox ",
                n,
                "? This deletes all of its state.",
            ),
            PendingAction::RemoveVolume(n) => ("Remove volume ", n, "? This deletes all of its data."),
        };
        push_str(&mut s, lead);
        push_char(&mut s, '\'');
        push_str(&mut s, name.as_str());
        push_char(&mut s, '\'');
        push_str(&mut s, tail);
        assert(s@ =~= self.confirm_message_spec());
        s
    }
}

/// A sandbox lifecycle operation.
#[derive(Debug, Clone, Copy, PartialEq, Eq, Structural)]
pub enum SandboxAction {
    Start,
    Stop,
    Terminate,
    Remove,
}

impl SandboxAction {
    pub open spec fn name_spec(self) -> Seq<char> {
        match self {
            SandboxAction::Start => "Start"@,
            SandboxAction::Stop => "Stop"@,
            SandboxAction::Terminate => "Terminate"@,
            SandboxAction::Remove => "Remove"@,
        }
    }

    /// The action's name as its `Debug` form prints it.
    pub fn name(self) -> (r: &'static str)
        ensures
            r@ == self.name_spec(),
    {
        match self {
            SandboxAction::Start => "Start",
            SandboxAction::Stop => "Stop",
            SandboxAction::Terminate => "Terminate",
            SandboxAction::Remove => "Remove",
        }
    }
}

//----------------------------------------------------------------------
// Search filter
//----------------------------------------------------------------------

/// One filter token matches a sandbox: `status:<s>` matches when the
/// status name equals `<s>` ignoring ASCII case; any other token matches
/// when it is a substring of the name, both lower-cased.
pub open spec fn token_matches(sb: SandboxInfo, token: Seq<char>) -> bool {
    if starts_with(token, "status:"@) {
        eq_ignore_ascii_case(sb.status.name_spec(), token.skip("status:"@.len() as int))
    } else {
        contains_seq(unicode_lowercase(sb.name@), unicode_lowercase(token))
    }
}

/// A sandbox matches a filter when it matches every whitespace-separated
/// token of it.
pub open spec fn matches_filter(sb: SandboxInfo, filter: Seq<char>) -> bool {
    forall|k: int| 0 <= k < words(filter).len() ==> token_matches(sb, #[trigger] words(filter)[k])
}

/// A filter is a conjunction of its tokens: a sandbox matches two
/// filters joined by a space exactly when it matches each of them.
pub proof fn law_filter_tokens_all_match(sb: SandboxInfo, f1: Seq<char>, f2: Seq<char>)
    ensures
        matches_filter(sb, f1 + seq![' '] + f2) == (matches_filter(sb, f1) && matches_filter(
            sb,
            f2,
        )),
{
    let w1 = words(f1);
    let w2 = words(f2);
    let w = words(f1 + seq![' '] + f2);
    lemma_words_concat(f1, f2);
    if matches_filter(sb, f1) && matches_filter(sb, f2) {
        assert forall|k: int| 0 <= k < w.len() implies token_matches(sb, #[trigger] w[k]) by {
            if k < w1.len() {
                assert(w[k] == w1[k]);
            } else {
                assert(w[k] == w2[k - w1.len()]);
            }
        }
    }
    if matches_filter(sb, f1 + seq![' '] + f2) {
        assert forall|k: int| 0 <= k < w1.len() implies token_matches(sb, #[trigger] w1[k]) by {
            assert(w[k] == w1[k]);
        }
        assert forall|k: int| 0 <= k < w2.len() implies token_matches(sb, #[trigger] w2[k]) by {
            assert(w[k + w1.len()] == w2[k]);
        }
    }
}

/// A filter that is one word matches as that token does.
proof fn lemma_single_word_filter(sb: SandboxInfo, t: Seq<char>)
    requires
        words(t) == seq![t],
    ensures
        matches_filter(sb, t) == token_matches(sb, t),
{
    assert(words(t)[0] == t);
    if token_matches(sb, t) {
        assert forall|k: int| 0 <= k < words(t).len() implies token_matches(
            sb,
            #[trigger] words(t)[k],
        ) by {
            assert(k == 0);
        }
    }
}

/// A filter of whitespace alone (or nothing) lists every sandbox.
pub proof fn law_filter_blank_matches_all(sb: SandboxInfo, f: Seq<char>)
    requires
        forall|i: int| 0 <= i < f.len() ==> is_whitespace_spec(#[trigger] f[i]),
    ensures
        matches_filter(sb, f),
{
    lemma_words_blank(f);
}

/// A `status:` token selects by status, ignoring ASCII letter case: the
/// sandbox matches `status:x` exactly when `x` is its status name in some
/// letter case.
pub proof fn law_filter_status_token(sb: SandboxInfo, x: Seq<char>)
    requires
        x.len() > 0,
        forall|i: int| 0 <= i < x.len() ==> !is_whitespace_spec(#[trigger] x[i]),
    ensures
        matches_filter(sb, "status:"@ + x) == eq_ignore_ascii_case(sb.status.name_spec(), x),
{
    reveal_strlit("status:");
    let t = "status:"@ + x;
    assert forall|i: int| 0 <= i < t.len() implies !is_whitespace_spec(#[trigger] t[i]) by {
        if i >= 7 {
            assert(t[i] == x[i - 7]);
        }
    }
    lemma_words_single(t);
    assert(t.take(7) =~= "status:"@);
    assert(t.skip(7) =~= x);
    assert(starts_with(t, "status:"@));
    lemma_single_word_filter(sb, t);
}

/// Any other token selects by name, ignoring case: the sandbox matches it
/// exactly when the lower-cased token occurs in its lower-cased name; in
/// particular a sandbox matches its own name.
pub proof fn law_filter_name_token(sb: SandboxInfo, t: Seq<char>)
    requires
        t.len() > 0,
        forall|i: int| 0 <= i < t.len() ==> !is_whitespace_spec(#[trigger] t[i]),
        !starts_with(t, "status:"@),
    ensures
        matches_filter(sb, t) == contains_seq(unicode_lowercase(sb.name@), unicode_lowercase(t)),
        t == sb.name@ ==> matches_filter(sb, t),
{
    lemma_words_single(t);
    lemma_single_word_filter(sb, t);
    if t == sb.name@ {
        let l = unicode_lowercase(t);
        assert(l.subrange(0int, 0int + l.len()) =~= l);
        assert(contains_seq(l, l));
    }
}

/// True if the sandbox matches every token of `filter` (see
/// [`matches_filter`]).
pub fn sandbox_matches_filter(sb: &SandboxInfo, filter: &str) -> (r: bool)
    ensures
        r == matches_filter(*sb, filter@),
{
    let fc = chars_of(filter);
    let tokens = words_chars(&fc);
    let prefix = chars_of("status:");
    let status = chars_of(sb.status.name());
    let lname_s = to_lowercase(sb.name.as_str());
    let lname = chars_of(lname_s.as_str());
    let n = tokens.len();
    for k in 0..n
        invariant
            n == tokens@.len(),
            n == words(filter@).len(),
            forall|j: int| 0 <= j < n ==> (#[trigger] tokens@[j])@ == words(filter@)[j],
            prefix@ == "status:"@,
            status@ == sb.status.name_spec(),
            lname@ == unicode_lowercase(sb.name@),
            forall|j: int| 0 <= j < k ==> token_matches(*sb, #[trigger] words(filter@)[j]),
    {
        let tok = &tokens[k];
        let ok = if starts_with_chars(tok, &prefix) {
            let rest = subvec(tok, prefix.len(), tok.len());
            assert(rest@ =~= tok@.skip("status:"@.len() as int));
            eq_ignore_ascii_case_chars(&status, &rest)
        } else {
            let ts = string_from_chars(tok);
            let lt_s = to_lowercase(ts.as_str());
            let lt = chars_of(lt_s.as_str());
            contains_chars(&lname, &lt)
        };
        assert(tokens@[k as int]@ == words(filter@)[k as int]);
        if !ok {
            return false;
        }
    }
    true
}


//----------------------------------------------------------------------
// Selection under a filter, and the search box
//----------------------------------------------------------------------

/// Where the selection lands after the filter of `a` changed: it stays on
/// a sandbox that is still listed, else moves to the first listed one;
/// with nothing listed it rests on the "New Sandbox" slot (no filter) or
/// on 0.
pub open spec fn clamped(a: App, sel: usize) -> bool {
    if exists|i: int| a.shows(i) {
        if a.shows(a.selected as int) {
            sel == a.selected
        } else {
            a.shows(sel as int) && forall|j: int| 0 <= j < sel ==> !a.shows(j)
        }
    } else {
        sel == if filter_blank(a.filter@) {
            a.sandboxes@.len()
        } else {
            0
        }
    }
}

/// Keep the selection on a sandbox the filter still lists (see
/// [`clamped`]).
pub fn clamp_selection_to_filter(app: &mut App)
    ensures
        *final(app) == (App { selected: final(app).selected, ..*old(app) }),
        clamped(*old(app), final(app).selected),
{
    let visible = app.visible_indices();
    if visible.len() == 0 {
        let blank = app.filter_is_blank();
        app.selected = if blank {
            app.sandboxes.len()
        } else {
            0
        };
        proof {
            assert forall|i: int| !old(app).shows(i) by {
                if old(app).shows(i) {
                    let k = choose|k: int| 0 <= k < visible@.len() && visible@[k] == i;
                }
            }
        }
        return;
    }
    let n = visible.len();
    let mut found = false;
    for k in 0..n
        invariant
            n == visible@.len(),
            found == exists|l: int| 0 <= l < k && visible@[l] == app.selected,
    {
        if visible[k] == app.selected {
            found = true;
        }
        assert(found == exists|l: int| 0 <= l < k + 1 && visible@[l] == app.selected) by {
            if visible@[k as int] == app.selected {
                assert(0 <= k < k + 1 && visible@[k as int] == app.selected);
            }
        }
    }
    assert(old(app).shows(visible@[0] as int));
    if found {
        proof {
            let l = choose|l: int| 0 <= l < n && visible@[l] == app.selected;
            assert(old(app).shows(visible@[l] as int));
        }
    } else {
        app.selected = visible[0];
        proof {
            assert(!old(app).shows(old(app).selected as int)) by {
                if old(app).shows(old(app).selected as int) {
                    let k = choose|k: int|
                        0 <= k < visible@.len() && visible@[k] == old(app).selected;
                    assert(0 <= k < n && visible@[k] == old(app).selected);
                }
            }
            assert forall|j: int| 0 <= j < app.selected implies !old(app).shows(j) by {
                if old(app).shows(j) {
                    let k = choose|k: int| 0 <= k < visible@.len() && visible@[k] == j;
                    if k > 0 {
                        assert(visible@[0] < visible@[k]);
                    }
                }
            }
        }
    }
}

/// `after` is `before` with a new filter text and search state, and the
/// selection clamped to the new filter.
pub open spec fn searched(before: App, after: App) -> bool {
    let mid = App { filter: after.filter, search_active: after.search_active, ..before };
    &&& after == (App { selected: after.selected, ..mid })
    &&& clamped(mid, after.selected)
}

/// `after` is `before` after `code` reached the search box (see
/// [`handle_search_key`]).
pub open spec fn search_key_done(before: App, code: KeyCode, after: App) -> bool {
    &&& match code {
        KeyCode::Esc => {
            &&& searched(before, after)
            &&& !after.search_active
            &&& after.filter@.len() == 0
        },
        KeyCode::Enter => {
            &&& searched(before, after)
            &&& !after.search_active
            &&& after.filter == before.filter
        },
        KeyCode::Backspace => {
            &&& searched(before, after)
            &&& after.search_active == before.search_active
            &&& after.filter@ == if before.filter@.len() > 0 {
                before.filter@.drop_last()
            } else {
                before.filter@
            }
        },
        KeyCode::Char(c) => {
            &&& searched(before, after)
            &&& after.search_active == before.search_active
            &&& after.filter@ == before.filter@.push(c)
        },
        _ => after == before
    }
}

/// Handle a key while the search box is active: Esc clears the filter
/// and closes the box, Enter closes it keeping the filter, Backspace and
/// characters edit the filter; the selection follows the new filter.
pub fn handle_search_key(app: &mut App, code: KeyCode)
    ensures
        search_key_done(*old(app), code, *final(app)),
{
    match code {
        KeyCode::Esc => {
            app.search_active = false;
            app.filter = String::new();
            clamp_selection_to_filter(app);
        },
        KeyCode::Enter => {
            app.search_active = false;
            clamp_selection_to_filter(app);
        },
        KeyCode::Backspace => {
            let _ = pop_char(&mut app.filter);
            clamp_selection_to_filter(app);
        },
        KeyCode::Char(c) => {
            push_char(&mut app.filter, c);
            clamp_selection_to_filter(app);
        },
        _ => {},
    }
}

/// After the search box takes an editing key (Esc, Enter, Backspace or a
/// character), the selection rests on a sandbox the new filter lists
/// whenever it lists any; when it lists none, the "New Sandbox"
/// placeholder is selected without a filter and the first slot with one.
pub proof fn law_search_keeps_selection_listed(a: App, code: KeyCode, b: App)
    requires
        search_key_done(a, code, b),
        code == KeyCode::Esc || code == KeyCode::Enter || code == KeyCode::Backspace
            || code is Char,
    ensures
        (exists|i: int| b.shows(i)) ==> b.shows(b.selected as int),
        (forall|i: int| !b.shows(i)) ==> b.selected == if filter_blank(b.filter@) {
            b.sandboxes@.len()
        } else {
            0
        },
{
    let mid = App { filter: b.filter, search_active: b.search_active, ..a };
    assert(forall|i: int| mid.shows(i) == b.shows(i));
}

//----------------------------------------------------------------------
// Selection and tab changes, scrolling
//----------------------------------------------------------------------

impl App {
    /// `after` is `self` after asking for what the active tab shows of the
    /// selected sandbox: its log stream (Logs), a listing of the current
    /// directory (Filesystem) or a metrics sample (Info). Nothing happens
    /// without a selected sandbox.
    pub open spec fn tab_data_requested(self, after: App) -> bool {
        match self.selected_spec() {
            None => after == self,
            Some(sb) => match self.tab {
                DetailTab::Logs => self.log_stream_synced(after),
                DetailTab::Filesystem => {
                    &&& self.same_but_effects(after)
                    &&& after.effects@.len() == self.effects@.len() + 1
                    &&& after.effects@.drop_last() == self.effects@
                    &&& is_list_fs(after.effects@.last(), sb.name@, self.fs_path@)
                    &&& grows_safely(self.effects@, after.effects@)
                },
                DetailTab::Info => {
                    &&& self.same_but_effects(after)
                    &&& after.effects@.len() == self.effects@.len() + 1
                    &&& after.effects@.drop_last() == self.effects@
                    &&& is_fetch_metrics(after.effects@.last(), sb.name@)
                    &&& grows_safely(self.effects@, after.effects@)
                },
            },
        }
    }
}

/// Asking for a tab's data only appends harmless work.
pub proof fn lemma_tab_data_requested_safe(a: App, b: App)
    requires
        a.tab_data_requested(b),
    ensures
        grows_safely(a.effects@, b.effects@),
{
    if a.selected_spec() is None {
        lemma_grows_safely_refl(a.effects@);
    }
}

/// Ask for what the newly active tab shows of the selected sandbox.
pub fn on_tab_switched(app: &mut App)
    ensures
        old(app).tab_data_requested(*final(app)),
{
    if app.selected < app.sandboxes.len() {
        match app.tab {
            DetailTab::Logs => app.sync_log_stream(),
            DetailTab::Filesystem => {
                let name = copy_string(&app.sandboxes[app.selected].name);
                let path = copy_string(&app.fs_path);
                app.request_fs(name.as_str(), path.as_str());
            },
            DetailTab::Info => {
                let name = copy_string(&app.sandboxes[app.selected].name);
                app.request_metrics(name.as_str());
            },
        }
    }
}

/// `after` is `before` once a new selection was taken in (see
/// [`on_sandbox_selected`]).
pub open spec fn sandbox_selected_done(before: App, after: App) -> bool {
    &&& after.fs_path@ == "/"@
    &&& (App { log_scroll: 0, fs_scroll: 0, fs_path: after.fs_path, ..before }).tab_data_requested(
        after
    )
}

/// The selection changed: reset the scroll offsets, go back to the
/// filesystem root and ask for what the active tab shows.
pub fn on_sandbox_selected(app: &mut App)
    ensures
        sandbox_selected_done(*old(app), *final(app)),
{
    app.log_scroll = 0;
    app.fs_scroll = 0;
    app.fs_path = to_string("/");
    on_tab_switched(app);
}

/// `after` is `before` scrolled up (see [`scroll_up`]).
pub open spec fn scrolled_up(before: App, after: App) -> bool {
    &&& after == match before.tab {
        DetailTab::Logs => App {
            log_scroll: if before.log_scroll >= 3 {
                (before.log_scroll - 3) as usize
            } else {
                0
            },
            ..before
        },
        DetailTab::Filesystem => App {
            fs_scroll: if before.fs_scroll >= 1 {
                (before.fs_scroll - 1) as usize
            } else {
                0
            },
            ..before
        },
        DetailTab::Info => before
    }
}

/// Scroll the active detail view up: three lines of logs, or one
/// filesystem entry, stopping at the top.
pub fn scroll_up(app: &mut App)
    ensures
        scrolled_up(*old(app), *final(app)),
{
    match app.tab {
        DetailTab::Logs => app.log_scroll = app.log_scroll.saturating_sub(3),
        DetailTab::Filesystem => app.fs_scroll = app.fs_scroll.saturating_sub(1),
        DetailTab::Info => {},
    }
}

/// `after` is `before` scrolled down (see [`scroll_down`]).
pub open spec fn scrolled_down(before: App, after: App) -> bool {
    &&& after == match before.tab {
        DetailTab::Logs => App {
            log_scroll: if before.log_scroll + 3 <= usize::MAX {
                (before.log_scroll + 3) as usize
            } else {
                usize::MAX
            },
            ..before
        },
        DetailTab::Filesystem => App {
            fs_scroll: if before.fs_scroll + 1 <= usize::MAX {
                (before.fs_scroll + 1) as usize
            } else {
                usize::MAX
            },
            ..before
        },
        DetailTab::Info => before
    }
}

/// Scroll the active detail view down: three lines of logs, or one
/// filesystem entry, saturating at the largest offset.
pub fn scroll_down(app: &mut App)
    ensures
        scrolled_down(*old(app), *final(app)),
{
    match app.tab {
        DetailTab::Logs => app.log_scroll = app.log_scroll.saturating_add(3),
        DetailTab::Filesystem => app.fs_scroll = app.fs_scroll.saturating_add(1),
        DetailTab::Info => {},
    }
}

//----------------------------------------------------------------------
// Filesystem navigation
//----------------------------------------------------------------------

/// What `std::path::Path::parent` gives for a path: the path without its
/// final component (`Some("")` for a relative path of one component),
/// `None` for a root or the empty path.
pub uninterp spec fn path_parent(p: Seq<char>) -> Option<Seq<char>>;

/// `Path::parent` of `p`, as text. The result is named [`path_parent`];
/// nothing more is stated of it.
#[verifier::external_body]
pub(crate) fn parent_of(p: &str) -> (r: Option<String>)
    ensures
        opt_view(r) == path_parent(p@),
{
    std::path::Path::new(p).parent().map(|q| q.to_string_lossy().into_owned())
}

/// `after` is `before` after moving the Filesystem tab to `parent` (the
/// root when `parent` is empty) and asking for its listing; nothing
/// changes when there is no parent.
pub open spec fn fs_parent_entered(before: App, parent: Option<Seq<char>>, after: App) -> bool {
    match parent {
        None => after == before,
        Some(p) => {
            let path = if p.len() == 0 {
                "/"@
            } else {
                p
            };
            let mid = App { fs_path: after.fs_path, fs_scroll: 0, ..before };
            &&& after.fs_path@ == path
            &&& match before.selected_spec() {
                Some(sb) => {
                    &&& mid.same_but_effects(after)
                    &&& after.effects@.len() == before.effects@.len() + 1
                    &&& after.effects@.drop_last() == before.effects@
                    &&& is_list_fs(after.effects@.last(), sb.name@, path)
                    &&& grows_safely(before.effects@, after.effects@)
                },
                None => after == mid,
            }
        },
    }
}

/// Move the Filesystem tab to `parent`, the parent directory of the
/// current one (see [`fs_parent_entered`]).
pub fn enter_fs_parent(app: &mut App, parent: Option<String>)
    ensures
        fs_parent_entered(*old(app), opt_view(parent), *final(app)),
{
    if let Some(p) = parent {
        let path = if p.as_str().is_empty() {
            to_string("/")
        } else {
            p
        };
        app.fs_path = copy_string(&path);
        app.fs_scroll = 0;
        if app.selected < app.sandboxes.len() {
            let name = copy_string(&app.sandboxes[app.selected].name);
            app.request_fs(name.as_str(), path.as_str());
        }
    }
}

/// Navigate the Filesystem tab up one directory.
pub fn nav_fs_up(app: &mut App)
    ensures
        fs_parent_entered(*old(app), path_parent(old(app).fs_path@), *final(app)),
{
    let parent = parent_of(app.fs_path.as_str());
    enter_fs_parent(app, parent);
}

/// `after` is `before` with a re-read of the volumes asked for.
pub open spec fn volumes_refresh_requested(before: App, after: App) -> bool {
    &&& before.same_but_effects(after)
    &&& after.effects@ == before.effects@.push(Effect::RefreshVolumes)
    &&& grows_safely(before.effects@, after.effects@)
}

/// Ask for the named-volumes list to be re-read.
pub fn request_volume_refresh(app: &mut App)
    ensures
        volumes_refresh_requested(*old(app), *final(app)),
{
    app.push_effect(Effect::RefreshVolumes);
}


//----------------------------------------------------------------------
// Sandbox actions and their confirmation
//----------------------------------------------------------------------

/// `lead` + `'name'` + `tail`.
pub open spec fn notice_text(lead: Seq<char>, name: Seq<char>, tail: Seq<char>) -> Seq<char> {
    lead + quoted(name) + tail
}

/// Builds `lead` + `'name'` + `tail`.
pub fn quote_message(lead: &str, name: &str, tail: &str) -> (r: String)
    ensures
        r@ == notice_text(lead@, name@, tail@),
{
    let mut s = String::new();
    push_str(&mut s, lead);
    push_char(&mut s, '\'');
    push_str(&mut s, name);
    push_char(&mut s, '\'');
    push_str(&mut s, tail);
    assert(s@ =~= notice_text(lead@, name@, tail@));
    s
}

/// `after` is `before` with one effect appended.
pub open spec fn one_effect_added(before: App, after: App) -> bool {
    &&& after.effects@.len() == before.effects@.len() + 1
    &&& after.effects@.drop_last() == before.effects@
}

/// Effect `e` opens a shell terminal on `name`.
pub open spec fn is_open_shell(e: Effect, name: Seq<char>) -> bool {
    e matches Effect::OpenShellTerminal(n) && n@ == name
}

/// `after` is `before` with only a notification posted.
pub open spec fn only_notified(before: App, after: App, text: Seq<char>, is_error: bool) -> bool {
    &&& after == (App { notification: after.notification, ..before })
    &&& after.notice_is(text, is_error)
}

/// `after` is `before` after `s` on the sandbox list (see
/// [`action_toggle_start_stop`]).
pub open spec fn start_stop_done(before: App, after: App) -> bool {
    &&& grows_safely(before.effects@, after.effects@)
    &&& match before.selected_spec() {
        None => after == before,
        Some(sb) => match sb.status {
            SandboxStatus::Stopped => {
                &&& after == (App {
                    effects: after.effects,
                    notification: after.notification,
                    ..before
                })
                &&& one_effect_added(before, after)
                &&& is_run_action(after.effects@.last(), SandboxAction::Start, sb.name@)
                &&& after.notice_is(notice_text("Starting "@, sb.name@, "…"@), false)
            },
            SandboxStatus::Running => {
                &&& after == (App { confirm: after.confirm, ..before })
                &&& after.confirm matches Some(PendingAction::StopSandbox(n)) && n@
                    == sb.name@
            },
            _ => only_notified(
                before,
                after,
                "Sandbox can't be started or stopped right now"@,
                true,
            ),
        }
    }
}

/// Start a stopped sandbox right away, or ask to confirm stopping a
/// running one. Starting is not destructive so it applies at once;
/// stopping always goes through the "Are you sure?" dialog.
pub fn action_toggle_start_stop(app: &mut App)
    ensures
        start_stop_done(*old(app), *final(app)),
{
    proof {
        lemma_grows_safely_refl(app.effects@);
    }
    if app.selected >= app.sandboxes.len() {
        return;
    }
    let status = app.sandboxes[app.selected].status;
    let name = copy_string(&app.sandboxes[app.selected].name);
    match status {
        SandboxStatus::Stopped => {
            app.run_action(SandboxAction::Start, name.as_str());
            let msg = quote_message("Starting ", name.as_str(), "…");
            app.notify(msg, false);
        },
        SandboxStatus::Running => {
            app.confirm = Some(PendingAction::StopSandbox(name));
        },
        _ => {
            app.notify_str("Sandbox can't be started or stopped right now", true);
        },
    }
}

/// `after` is `before` after `t` on the sandbox list (see
/// [`action_terminate`]).
pub open spec fn terminate_done(before: App, after: App) -> bool {
    &&& match before.selected_spec() {
        None => after == before,
        Some(sb) => if sb.status == SandboxStatus::Running {
            &&& after == (App { confirm: after.confirm, ..before })
            &&& after.confirm matches Some(PendingAction::TerminateSandbox(n)) && n@
                == sb.name@
        } else {
            only_notified(before, after, "Sandbox is not running"@, true)
        }
    }
}

/// Ask to confirm terminating the selected sandbox, if it is running.
pub fn action_terminate(app: &mut App)
    ensures
        terminate_done(*old(app), *final(app)),
{
    if app.selected >= app.sandboxes.len() {
        return;
    }
    if app.sandboxes[app.selected].status == SandboxStatus::Running {
        let name = copy_string(&app.sandboxes[app.selected].name);
        app.confirm = Some(PendingAction::TerminateSandbox(name));
    } else {
        app.notify_str("Sandbox is not running", true);
    }
}

/// `after` is `before` after `d` on the sandbox list (see
/// [`action_remove`]).
pub open spec fn remove_done(before: App, after: App) -> bool {
    &&& match before.selected_spec() {
        None => after == before,
        Some(sb) => if sb.status != SandboxStatus::Running {
            &&& after == (App { confirm: after.confirm, ..before })
            &&& after.confirm matches Some(PendingAction::RemoveSandbox(n)) && n@
                == sb.name@
        } else {
            only_notified(before, after, "Stop the sandbox before removing"@, true)
        }
    }
}

/// `d` on a selected sandbox that is not running (stopped, crashed or in
/// between) asks to confirm removing it, by name, and changes nothing
/// else; on a running one it only shows an error notice. Nothing is
/// queued either way.
pub proof fn law_remove_asks_unless_running(before: App, after: App)
    requires
        remove_done(before, after),
        before.selected < before.sandboxes@.len(),
    ensures
        after.sandboxes == before.sandboxes,
        after.effects == before.effects,
        before.sandboxes@[before.selected as int].status != SandboxStatus::Running ==> {
            &&& after.confirm matches Some(PendingAction::RemoveSandbox(n))
                && n@ == before.sandboxes@[before.selected as int].name@
            &&& after.notification == before.notification
        },
        before.sandboxes@[before.selected as int].status == SandboxStatus::Running ==> {
            &&& after.confirm == before.confirm
            &&& after.notice_is("Stop the sandbox before removing"@, true)
        },
{
}

/// Ask to confirm removing the selected sandbox, unless it is running.
pub fn action_remove(app: &mut App)
    ensures
        remove_done(*old(app), *final(app)),
{
    if app.selected >= app.sandboxes.len() {
        return;
    }
    if app.sandboxes[app.selected].status != SandboxStatus::Running {
        let name = copy_string(&app.sandboxes[app.selected].name);
        app.confirm = Some(PendingAction::RemoveSandbox(name));
    } else {
        app.notify_str("Stop the sandbox before removing", true);
    }
}

/// `after` is `before` after `e` on the sandbox list (see
/// [`action_exec`]).
pub open spec fn exec_done(before: App, after: App) -> bool {
    &&& match before.selected_spec() {
        None => after == before,
        Some(sb) => if sb.status == SandboxStatus::Running {
            &&& after == (App { exec_dialog: after.exec_dialog, ..before })
            &&& after.exec_dialog.visible
            &&& after.exec_dialog.sandbox_name@ == sb.name@
            &&& after.exec_dialog.command@.len() == 0
            &&& after.exec_dialog.error is None
        } else {
            only_notified(before, after, "Sandbox is not running"@, true)
        }
    }
}

/// Open the "Exec" dialog for the selected sandbox, if it is running.
pub fn action_exec(app: &mut App)
    ensures
        exec_done(*old(app), *final(app)),
{
    if app.selected >= app.sandboxes.len() {
        return;
    }
    if app.sandboxes[app.selected].status == SandboxStatus::Running {
        let name = copy_string(&app.sandboxes[app.selected].name);
        app.exec_dialog = ExecDialog::open(name);
        proof {
            reveal_strlit("");
        }
    } else {
        app.notify_str("Sandbox is not running", true);
    }
}

/// `after` is `before` after `h` on the sandbox list (see
/// [`action_shell`]).
pub open spec fn shell_done(before: App, after: App) -> bool {
    &&& grows_safely(before.effects@, after.effects@)
    &&& match before.selected_spec() {
        None => after == before,
        Some(sb) => if sb.status == SandboxStatus::Running {
            &&& before.same_but_effects(after)
            &&& one_effect_added(before, after)
            &&& is_open_shell(after.effects@.last(), sb.name@)
        } else {
            only_notified(before, after, "Sandbox is not running"@, true)
        }
    }
}

/// Ask for a host terminal attached to the selected sandbox's shell, if
/// it is running.
pub fn action_shell(app: &mut App)
    ensures
        shell_done(*old(app), *final(app)),
{
    proof {
        lemma_grows_safely_refl(app.effects@);
    }
    if app.selected >= app.sandboxes.len() {
        return;
    }
    if app.sandboxes[app.selected].status == SandboxStatus::Running {
        let name = copy_string(&app.sandboxes[app.selected].name);
        app.push_effect(Effect::OpenShellTerminal(name));
        assert(app.effects@.drop_last() =~= old(app).effects@);
    } else {
        app.notify_str("Sandbox is not running", true);
    }
}

/// `after` is `before` once `action` was carried out: the sandbox action
/// asked for with an "in progress" notice, or the volume removal asked
/// for.
pub open spec fn pending_executed(before: App, action: PendingAction, after: App) -> bool {
    match action {
        PendingAction::StopSandbox(n) => {
            &&& after == (App {
                effects: after.effects,
                notification: after.notification,
                ..before
            })
            &&& one_effect_added(before, after)
            &&& is_run_action(after.effects@.last(), SandboxAction::Stop, n@)
            &&& after.notice_is(notice_text("Stopping "@, n@, "…"@), false)
        },
        PendingAction::TerminateSandbox(n) => {
            &&& after == (App {
                effects: after.effects,
                notification: after.notification,
                ..before
            })
            &&& one_effect_added(before, after)
            &&& is_run_action(after.effects@.last(), SandboxAction::Terminate, n@)
            &&& after.notice_is(notice_text("Terminating "@, n@, "…"@), false)
        },
        PendingAction::RemoveSandbox(n) => {
            &&& after == (App {
                effects: after.effects,
                notification: after.notification,
                ..before
            })
            &&& one_effect_added(before, after)
            &&& is_run_action(after.effects@.last(), SandboxAction::Remove, n@)
            &&& after.notice_is(notice_text("Removing "@, n@, "…"@), false)
        },
        PendingAction::RemoveVolume(n) => {
            &&& before.same_but_effects(after)
            &&& one_effect_added(before, after)
            &&& after.effects@.last() matches Effect::RemoveVolume(v) && v@ == n@
        },
    }
}

/// Carry out a confirmed destructive action.
pub fn execute_pending_action(app: &mut App, action: PendingAction)
    ensures
        pending_executed(*old(app), action, *final(app)),
{
    match action {
        PendingAction::StopSandbox(name) => {
            app.run_action(SandboxAction::Stop, name.as_str());
            let msg = quote_message("Stopping ", name.as_str(), "…");
            app.notify(msg, false);
        },
        PendingAction::TerminateSandbox(name) => {
            app.run_action(SandboxAction::Terminate, name.as_str());
            let msg = quote_message("Terminating ", name.as_str(), "…");
            app.notify(msg, false);
        },
        PendingAction::RemoveSandbox(name) => {
            app.run_action(SandboxAction::Remove, name.as_str());
            let msg = quote_message("Removing ", name.as_str(), "…");
            app.notify(msg, false);
        },
        PendingAction::RemoveVolume(name) => {
            app.push_effect(Effect::RemoveVolume(name));
            assert(app.effects@.drop_last() =~= old(app).effects@);
        },
    }
}

/// The keys that confirm a pending action: Enter, `y` and `Y`.
pub open spec fn is_yes_key(code: KeyCode) -> bool {
    code == KeyCode::Enter || code == KeyCode::Char('y') || code == KeyCode::Char('Y')
}

/// The keys that cancel a pending action: Esc, `n` and `N`.
pub open spec fn is_no_key(code: KeyCode) -> bool {
    code == KeyCode::Esc || code == KeyCode::Char('n') || code == KeyCode::Char('N')
}

/// `after` is `before` after `code` reached the confirmation dialog (see
/// [`handle_confirm_key`]).
pub open spec fn confirm_key_done(before: App, code: KeyCode, after: App) -> bool {
    &&& is_yes_key(code) ==> match before.confirm {
        Some(action) => pending_executed(App { confirm: None, ..before }, action, after),
        None => after == before
    }
    &&& is_no_key(code) ==> after == (App { confirm: None, ..before })
    &&& !is_yes_key(code) && !is_no_key(code) ==> after == before
}

/// Handle a key while the "Are you sure?" dialog is open: a yes key
/// carries out the pending action, a no key drops it, any other key does
/// nothing.
pub fn handle_confirm_key(app: &mut App, code: KeyCode)
    ensures
        confirm_key_done(*old(app), code, *final(app)),
{
    if code == KeyCode::Enter || code == KeyCode::Char('y') || code == KeyCode::Char('Y') {
        if let Some(action) = app.confirm.take() {
            execute_pending_action(app, action);
        }
    } else if code == KeyCode::Esc || code == KeyCode::Char('n') || code == KeyCode::Char('N') {
        app.confirm = None;
    }
}


//----------------------------------------------------------------------
// Create dialog submission
//----------------------------------------------------------------------

/// `None` for blank text, else `Some(text)`.
pub open spec fn nonblank(t: Seq<char>) -> Option<Seq<char>> {
    if t.len() == 0 {
        None
    } else {
        Some(t)
    }
}

/// The CPU count typed into `d`, if it is a number from 1 to 32.
pub open spec fn cpus_in_range(t: Seq<char>) -> bool {
    parse_unsigned(t, 255) matches Some(v) && 1 <= v <= 32
}

/// The memory size typed, if it is a number of at least 64 MiB.
pub open spec fn memory_in_range(t: Seq<char>) -> bool {
    parse_unsigned(t, 0xffff_ffff) matches Some(v) && v >= 64
}

/// Why the create dialog `d` cannot be submitted, or `None` when it can.
/// Fields are checked in order: name, image, CPUs, memory, max CPUs and
/// max memory (the last two only when filled in).
pub open spec fn create_error(d: CreateDialog) -> Option<Seq<char>> {
    let cpus = trim(d.cpus@);
    let memory = trim(d.memory@);
    let max_cpus = trim(d.max_cpus@);
    let max_memory = trim(d.max_memory@);
    if trim(d.name@).len() == 0 {
        Some("Name is required"@)
    } else if trim(d.image@).len() == 0 {
        Some("Image is required"@)
    } else if parse_unsigned(cpus, 255) is None {
        Some("CPUs must be a number (1–32)"@)
    } else if !cpus_in_range(cpus) {
        Some("CPUs must be between 1 and 32"@)
    } else if parse_unsigned(memory, 0xffff_ffff) is None {
        Some("Memory must be a number in MiB (min 64)"@)
    } else if !memory_in_range(memory) {
        Some("Memory must be at least 64 MiB"@)
    } else if max_cpus.len() > 0 && !cpus_in_range(max_cpus) {
        Some("Max CPUs must be between 1 and 32"@)
    } else if max_memory.len() > 0 && !memory_in_range(max_memory) {
        Some("Max Memory must be at least 64 MiB"@)
    } else {
        None
    }
}

/// `cfg` holds what dialog `d` describes: trimmed name and image, the
/// parsed numbers, blank optional texts as `None` (and the default shell
/// `/bin/sh` as `None`), and the lists as they stand. A picked workdir is a
/// host directory: it is bind-mounted, after the other mounts, at its
/// guest form (see [`guest_path_spec`]), which becomes the workdir.
pub open spec fn create_config_from(d: CreateDialog, cfg: CreateConfig) -> bool {
    let shell = trim(d.shell@);
    let max_cpus = trim(d.max_cpus@);
    let max_memory = trim(d.max_memory@);
    &&& cfg.name@ == trim(d.name@)
    &&& cfg.image@ == trim(d.image@)
    &&& parse_unsigned(trim(d.cpus@), 255) == Some(cfg.cpus as nat)
    &&& parse_unsigned(trim(d.memory@), 0xffff_ffff) == Some(cfg.memory_mib as nat)
    &&& cfg.ports == d.ports
    &&& cfg.env_vars == d.env_vars
    &&& opt_view(cfg.hostname) == nonblank(trim(d.hostname@))
    &&& match nonblank(trim(d.workdir@)) {
        None => cfg.workdir is None && cfg.mounts == d.mounts,
        Some(w) => {
            &&& opt_view(cfg.workdir) == Some(guest_path_spec(w))
            &&& cfg.mounts@.len() == d.mounts@.len() + 1
            &&& cfg.mounts@.drop_last() == d.mounts@
            &&& cfg.mounts@.last().guest_path@ == guest_path_spec(w)
            &&& cfg.mounts@.last().source matches MountSource::Bind(h) && h@ == w
        },
    }
    &&& opt_view(cfg.user) == nonblank(trim(d.user@))
    &&& opt_view(cfg.shell) == if shell.len() == 0 || shell == "/bin/sh"@ {
        None
    } else {
        Some(shell)
    }
    &&& match cfg.max_cpus {
        None => max_cpus.len() == 0,
        Some(v) => parse_unsigned(max_cpus, 255) == Some(v as nat),
    }
    &&& match cfg.max_memory_mib {
        None => max_memory.len() == 0,
        Some(v) => parse_unsigned(max_memory, 0xffff_ffff) == Some(v as nat),
    }
    &&& cfg.disable_network == d.disable_network
    &&& cfg.network_rules == d.network_rules
    &&& cfg.secrets == d.secrets
}

/// A dialog with a name and an image, a CPU count from 1 to 32, at
/// least 64 MiB of memory and no maximums passes the checks.
pub proof fn law_create_accepts_typed_dialog(d: CreateDialog, n: nat, m: nat)
    requires
        trim(d.name@).len() > 0,
        trim(d.image@).len() > 0,
        trim(d.cpus@) == decimal(n),
        1 <= n <= 32,
        trim(d.memory@) == decimal(m),
        64 <= m <= 0xffff_ffff,
        trim(d.max_cpus@).len() == 0,
        trim(d.max_memory@).len() == 0,
    ensures
        create_error(d) is None,
{
    lemma_parse_decimal(n, 255);
    lemma_parse_decimal(m, 0xffff_ffff);
}

/// A CPU count outside 1 to 32, or less than 64 MiB of memory, is refused.
pub proof fn law_create_rejects_out_of_range(d: CreateDialog, n: nat, m: nat)
    requires
        trim(d.cpus@) == decimal(n),
        trim(d.memory@) == decimal(m),
        n < 1 || n > 32 || m < 64,
    ensures
        create_error(d) is Some,
{
    lemma_parse_decimal(n, 255);
    lemma_parse_decimal(m, 0xffff_ffff);
}

/// Submitting a dialog that passes the checks asks for one sandbox, with
/// the typed name and image (trimmed) and exactly the typed CPU count and
/// memory size.
pub proof fn law_create_uses_typed_numbers(before: App, after: App, n: nat, m: nat)
    requires
        create_submitted(before, after),
        create_error(before.create_dialog) is None,
        trim(before.create_dialog.cpus@) == decimal(n),
        trim(before.create_dialog.memory@) == decimal(m),
    ensures
        after.effects@.len() == before.effects@.len() + 1,
        after.effects@.last() matches Effect::CreateSandbox(cfg) && {
            &&& cfg.cpus == n
            &&& cfg.memory_mib == m
            &&& cfg.name@ == trim(before.create_dialog.name@)
            &&& cfg.image@ == trim(before.create_dialog.image@)
        },
        !after.create_dialog.visible,
{
    lemma_parse_decimal(n, 255);
    lemma_parse_decimal(m, 0xffff_ffff);
}

/// Submitting a dialog that passes the checks hands every setting of the
/// dialog on: a filled hostname or user goes in trimmed and a blank one is
/// left out; the ports, variables, rules and secrets go in as listed, and
/// so does the network switch; the mounts go in as listed, followed by a
/// bind mount of the picked working directory when one is given.
pub proof fn law_create_passes_settings(before: App, after: App)
    requires
        create_submitted(before, after),
        create_error(before.create_dialog) is None,
    ensures
        after.effects@.last() matches Effect::CreateSandbox(cfg) && {
            let d = before.create_dialog;
            &&& (trim(d.hostname@).len() == 0 <==> cfg.hostname is None)
            &&& (cfg.hostname matches Some(h) ==> h@ == trim(d.hostname@))
            &&& (trim(d.user@).len() == 0 <==> cfg.user is None)
            &&& (cfg.user matches Some(u) ==> u@ == trim(d.user@))
            &&& cfg.ports@ == d.ports@
            &&& cfg.env_vars@ == d.env_vars@
            &&& cfg.network_rules@ == d.network_rules@
            &&& cfg.secrets@ == d.secrets@
            &&& cfg.disable_network == d.disable_network
            &&& cfg.mounts@.take(d.mounts@.len() as int) == d.mounts@
            &&& (trim(d.workdir@).len() == 0 <==> cfg.workdir is None)
            &&& (trim(d.workdir@).len() == 0 ==> cfg.mounts@.len() == d.mounts@.len())
            &&& (trim(d.shell@).len() == 0 || trim(d.shell@) == "/bin/sh"@ <==> cfg.shell is None)
            &&& (cfg.shell matches Some(x) ==> x@ == trim(d.shell@))
            &&& (trim(d.max_cpus@).len() == 0 <==> cfg.max_cpus is None)
            &&& (forall|v: nat| trim(d.max_cpus@) == decimal(v) ==> cfg.max_cpus == Some(v as u8))
            &&& (trim(d.max_memory@).len() == 0 <==> cfg.max_memory_mib is None)
            &&& (forall|v: nat| trim(d.max_memory@) == decimal(v) ==> cfg.max_memory_mib == Some(v as u32))
            &&& (trim(d.workdir@).len() > 0 ==> {
                &&& cfg.mounts@.len() == d.mounts@.len() + 1
                &&& cfg.mounts@.last().source matches MountSource::Bind(h) && h@ == trim(
                    d.workdir@,
                )
                &&& cfg.workdir matches Some(w) && w@ == cfg.mounts@.last().guest_path@
            })
        },
{
    let d = before.create_dialog;
    if let Effect::CreateSandbox(cfg) = after.effects@.last() {
        assert forall|v: nat| trim(d.max_cpus@) == decimal(v) implies cfg.max_cpus == Some(
            v as u8,
        ) by {
            lemma_parse_decimal(v, 255);
        }
        assert forall|v: nat| trim(d.max_memory@) == decimal(v) implies cfg.max_memory_mib == Some(
            v as u32,
        ) by {
            lemma_parse_decimal(v, 0xffff_ffff);
        }
        if trim(d.workdir@).len() == 0 {
            assert(cfg.mounts@.take(d.mounts@.len() as int) =~= d.mounts@);
        } else {
            assert(cfg.mounts@.take(d.mounts@.len() as int) =~= cfg.mounts@.drop_last());
        }
    }
}

/// Trimmed text, or `None` when it is blank.
fn nonblank_text(s: &String) -> (r: Option<String>)
    ensures
        opt_view(r) == nonblank(trim(s@)),
{
    let t = trim_str(s.as_str());
    if t.as_str().is_empty() {
        None
    } else {
        Some(t)
    }
}

/// Check the create dialog (see [`create_error`]).
pub fn create_dialog_error(d: &CreateDialog) -> (r: Option<&'static str>)
    ensures
        match create_error(*d) {
            Some(e) => r matches Some(m) && m@ == e,
            None => r is None,
        },
{
    if crate::text::is_blank(d.name.as_str()) {
        return Some("Name is required");
    }
    if crate::text::is_blank(d.image.as_str()) {
        return Some("Image is required");
    }
    let cpus = trim_str(d.cpus.as_str());
    match parse_unsigned_str(cpus.as_str(), 255) {
        None => return Some("CPUs must be a number (1–32)"),
        Some(v) => if v < 1 || v > 32 {
            return Some("CPUs must be between 1 and 32");
        },
    }
    let memory = trim_str(d.memory.as_str());
    match parse_unsigned_str(memory.as_str(), 0xffff_ffff) {
        None => return Some("Memory must be a number in MiB (min 64)"),
        Some(v) => if v < 64 {
            return Some("Memory must be at least 64 MiB");
        },
    }
    let max_cpus = trim_str(d.max_cpus.as_str());
    if !max_cpus.as_str().is_empty() {
        match parse_unsigned_str(max_cpus.as_str(), 255) {
            Some(v) => if v < 1 || v > 32 {
                return Some("Max CPUs must be between 1 and 32");
            },
            None => return Some("Max CPUs must be between 1 and 32"),
        }
    }
    let max_memory = trim_str(d.max_memory.as_str());
    if !max_memory.as_str().is_empty() {
        match parse_unsigned_str(max_memory.as_str(), 0xffff_ffff) {
            Some(v) => if v < 64 {
                return Some("Max Memory must be at least 64 MiB");
            },
            None => return Some("Max Memory must be at least 64 MiB"),
        }
    }
    None
}

/// Build the creation parameters from a dialog that passed
/// [`create_dialog_error`], taking its lists.
pub fn create_config(d: CreateDialog) -> (r: CreateConfig)
    requires
        create_error(d) is None,
    ensures
        create_config_from(d, r),
{
    let name = trim_str(d.name.as_str());
    let image = trim_str(d.image.as_str());
    let cpus_t = trim_str(d.cpus.as_str());
    let cpus = match parse_unsigned_str(cpus_t.as_str(), 255) {
        Some(v) => v as u8,
        None => 0,
    };
    let memory_t = trim_str(d.memory.as_str());
    let memory = match parse_unsigned_str(memory_t.as_str(), 0xffff_ffff) {
        Some(v) => v as u32,
        None => 0,
    };
    let hostname = nonblank_text(&d.hostname);
    let picked = nonblank_text(&d.workdir);
    let mut mounts = d.mounts;
    let workdir = match picked {
        Some(host) => {
            let guest = host_path_to_guest_path(host.as_str());
            let workdir = copy_string(&guest);
            mounts.push(VolumeMountConfig { guest_path: guest, source: MountSource::Bind(host) });
            assert(mounts@.drop_last() =~= d.mounts@);
            Some(workdir)
        },
        None => None,
    };
    let user = nonblank_text(&d.user);
    let shell_t = trim_str(d.shell.as_str());
    let shell = if shell_t.as_str().is_empty() || str_eq(shell_t.as_str(), "/bin/sh") {
        None
    } else {
        Some(shell_t)
    };
    let max_cpus_t = trim_str(d.max_cpus.as_str());
    let max_cpus: Option<u8> = if max_cpus_t.as_str().is_empty() {
        None
    } else {
        match parse_unsigned_str(max_cpus_t.as_str(), 255) {
            Some(v) => Some(v as u8),
            None => None,
        }
    };
    let max_memory_t = trim_str(d.max_memory.as_str());
    let max_memory: Option<u32> = if max_memory_t.as_str().is_empty() {
        None
    } else {
        match parse_unsigned_str(max_memory_t.as_str(), 0xffff_ffff) {
            Some(v) => Some(v as u32),
            None => None,
        }
    };
    CreateConfig {
        name,
        image,
        cpus,
        memory_mib: memory,
        ports: d.ports,
        env_vars: d.env_vars,
        hostname,
        workdir,
        user,
        shell,
        max_cpus,
        max_memory_mib: max_memory,
        disable_network: d.disable_network,
        network_rules: d.network_rules,
        mounts,
        secrets: d.secrets,
    }
}

/// `after` is `before` after the create dialog was submitted (see
/// [`submit_create_dialog`]).
pub open spec fn create_submitted(before: App, after: App) -> bool {
    &&& grows_safely(before.effects@, after.effects@)
    &&& match create_error(before.create_dialog) {
        Some(e) => {
            &&& after == (App {
                create_dialog: CreateDialog {
                    error: after.create_dialog.error,
                    ..before.create_dialog
                },
                ..before
            })
            &&& after.create_dialog.error matches Some(m) && m@ == e
        },
        None => {
            &&& after == (App {
                create_dialog: after.create_dialog,
                effects: after.effects,
                ..before
            })
            &&& !after.create_dialog.visible
            &&& after.create_dialog.is_cleared()
            &&& after.create_dialog.wf()
            &&& one_effect_added(before, after)
            &&& after.effects@.last() matches Effect::CreateSandbox(cfg)
                && create_config_from(before.create_dialog, cfg)
        }
    }
}

/// Submit the create dialog: when a field is invalid show why in the
/// dialog (see [`create_error`]); otherwise close the dialog and ask for
/// the sandbox described by it (see [`create_config_from`]).
pub fn submit_create_dialog(app: &mut App)
    ensures
        create_submitted(*old(app), *final(app)),
{
    proof {
        lemma_grows_safely_refl(app.effects@);
    }
    if let Some(e) = create_dialog_error(&app.create_dialog) {
        app.create_dialog.error = Some(to_string(e));
        return;
    }
    let mut dlg = CreateDialog::closed();
    std::mem::swap(&mut dlg, &mut app.create_dialog);
    let cfg = create_config(dlg);
    app.push_effect(Effect::CreateSandbox(cfg));
    assert(app.effects@.drop_last() =~= old(app).effects@);
}


//----------------------------------------------------------------------
// Timers
//----------------------------------------------------------------------

/// `after` is `before` once the periodic refresh ran: the sandbox list is
/// re-read and the active tab's data of the selected sandbox asked for.
pub open spec fn refresh_ticked(before: App, after: App) -> bool {
    exists|mid: App|
        {
            &&& #[trigger] mid.tab_data_requested(after)
            &&& before.same_but_effects(mid)
            &&& mid.effects@ == before.effects@.push(Effect::RefreshSandboxes)
        }
}

/// The periodic refresh (every [`super::REFRESH_INTERVAL_SECS`] seconds).
pub fn on_refresh_tick(app: &mut App)
    ensures
        refresh_ticked(*old(app), *final(app)),
        grows_safely(old(app).effects@, final(app).effects@),
{
    app.request_refresh();
    let ghost mid = *app;
    on_tab_switched(app);
    proof {
        lemma_tab_data_requested_safe(mid, *app);
        lemma_grows_safely_trans(old(app).effects@, mid.effects@, app.effects@);
        assert(mid.tab_data_requested(*app));
    }
}

/// Hide the notification once it has been shown for
/// [`super::NOTIFICATION_SECS`] seconds; `elapsed_secs` is how long it has
/// been shown.
pub fn expire_notification(app: &mut App, elapsed_secs: u64)
    ensures
        *final(app) == if old(app).notification is Some && elapsed_secs
            >= super::NOTIFICATION_SECS {
            App { notification: None, ..*old(app) }
        } else {
            *old(app)
        },
{
    if app.notification.is_some() && elapsed_secs >= super::NOTIFICATION_SECS {
        app.notification = None;
    }
}

} // verus!

//! Translates terminal key and mouse events into [`App`] state changes.
//!
//! The global key map is [`handle_event`]; each modal (the create dialog
//! and its popups, the directory picker, the volumes view, the exec
//! dialog) has a handler of its own. Sandbox actions, dialog submission,
//! filtering and scrolling live in [`super::actions`].
use vstd::prelude::*;

use crate::text::{copy_string, pop_char, push_char, to_string, trim, trim_str};

use super::actions::{
    action_exec, action_remove, action_shell, action_terminate, action_toggle_start_stop,
    confirm_key_done, is_no_key, is_yes_key, create_submitted, exec_done, fs_parent_entered, handle_confirm_key,
    handle_search_key, lemma_tab_data_requested_safe, nav_fs_up, on_sandbox_selected, on_tab_switched, one_effect_added,
    path_parent, remove_done, request_volume_refresh, sandbox_selected_done, scroll_down,
    scroll_up, scrolled_down, scrolled_up, search_key_done, shell_done, start_stop_done,
    submit_create_dialog, terminate_done, volumes_refresh_requested, PendingAction,
};
use super::dialogs::{CreateDialog, DialogTab, ExecDialog, ListField, SubDialogMode, VolumesView};
use super::popups::{
    env_var_add_key_done, form_key_done, is_list_key, lemma_env_var_add_key_wf, lemma_form_key_wf,
    lemma_list_key_wf, lemma_mount_add_key_wf, lemma_net_rule_add_key_wf, lemma_picker_key_wf,
    lemma_port_add_key_wf, lemma_secret_add_key_wf, list_key_done, list_key_refreshes,
    mount_add_key_done, net_rule_add_key_done, no_popup_open, picker_key_done, picker_start,
    env_keys_ok, law_env_var_keys_kept, popped, port_add_key_done, secret_add_key_done,
};
use super::{
    grows_safely, lemma_grows_safely_refl, lemma_grows_safely_trans, next_selected, prev_selected,
    App, DetailTab, Effect, Focus, PickerTarget, Rect,
};

verus! {

/// A key, as the terminal reports it.
#[derive(Debug, Clone, Copy, PartialEq, Eq, Structural)]
pub enum KeyCode {
    Char(char),
    Enter,
    Esc,
    Tab,
    BackTab,
    Up,
    Down,
    Left,
    Right,
    Backspace,
    Delete,
    /// Any key the application does not bind.
    Other,
}

/// Modifier keys held with a key.
#[derive(Debug, Clone, Copy, PartialEq, Eq, Structural)]
pub struct KeyModifiers {
    pub control: bool,
    pub shift: bool,
}

impl KeyModifiers {
    /// No modifier held.
    pub fn none() -> (r: Self)
        ensures
            !r.control,
            !r.shift,
    {
        KeyModifiers { control: false, shift: false }
    }
}

/// Whether a key went down, repeated or came up.
#[derive(Debug, Clone, Copy, PartialEq, Eq, Structural)]
pub enum KeyEventKind {
    Press,
    Repeat,
    Release,
}

/// A key event.
#[derive(Debug, Clone, Copy, PartialEq, Eq, Structural)]
pub struct KeyEvent {
    pub code: KeyCode,
    pub modifiers: KeyModifiers,
    pub kind: KeyEventKind,
}

impl KeyEvent {
    /// A press of `code` with no modifier.
    pub fn press(code: KeyCode) -> (r: Self)
        ensures
            r.code == code,
            !r.modifiers.control,
            !r.modifiers.shift,
            r.kind == KeyEventKind::Press,
    {
        KeyEvent { code, modifiers: KeyModifiers::none(), kind: KeyEventKind::Press }
    }
}

/// What a mouse did.
#[derive(Debug, Clone, Copy, PartialEq, Eq, Structural)]
pub enum MouseEventKind {
    /// The left button went down.
    LeftDown,
    ScrollUp,
    ScrollDown,
    /// Anything else (other buttons, drags, moves).
    Other,
}

/// A mouse event at a terminal cell.
#[derive(Debug, Clone, Copy, PartialEq, Eq, Structural)]
pub struct MouseEvent {
    pub kind: MouseEventKind,
    pub column: u16,
    pub row: u16,
}

/// A terminal input event.
#[derive(Debug, Clone, Copy, PartialEq, Eq, Structural)]
pub enum Event {
    Key(KeyEvent),
    Mouse(MouseEvent),
    /// Resize, focus and paste events, which change no state.
    Other,
}


//----------------------------------------------------------------------
// Outside work asked for by a handler
//----------------------------------------------------------------------

/// The effect appended between `before` and `after`, if one was.
pub open spec fn added_effect(before: Seq<Effect>, after: Seq<Effect>) -> Option<Effect> {
    if after.len() == before.len() + 1 {
        Some(after.last())
    } else {
        None
    }
}

/// `after` is `before` with `out` appended, if there is one.
pub open spec fn pushed(before: Seq<Effect>, after: Seq<Effect>, out: Option<Effect>) -> bool {
    match out {
        Some(e) => after == before.push(e),
        None => after == before,
    }
}

/// `after` is `before` with only the create dialog and the effects
/// changed, one effect at most added.
pub open spec fn dialog_changed(before: App, after: App) -> bool {
    &&& after == (App { create_dialog: after.create_dialog, effects: after.effects, ..before })
    &&& pushed(before.effects@, after.effects@, added_effect(before.effects@, after.effects@))
}

/// Queue `out`, if any.
fn push_opt_effect(app: &mut App, out: Option<Effect>)
    ensures
        old(app).same_but_effects(*final(app)),
        pushed(old(app).effects@, final(app).effects@, out),
        added_effect(old(app).effects@, final(app).effects@) == out,
{
    if let Some(e) = out {
        app.push_effect(e);
    }
}

//----------------------------------------------------------------------
// The create dialog
//----------------------------------------------------------------------

/// `after` is `before` after `code` reached the create dialog's form or
/// its focused inline list (no popup or picker open).
pub open spec fn dialog_key_done(before: App, code: KeyCode, after: App) -> bool {
    let d = before.create_dialog;
    let list = d.focused_list_spec();
    if d.list_edit_mode && list is Some && is_list_key(code, list->Some_0) {
        &&& after == (App {
            create_dialog: after.create_dialog,
            effects: after.effects,
            ..before
        })
        &&& list_key_done(d, list->Some_0, code, after.create_dialog)
        &&& after.effects@ == if list_key_refreshes(d, list->Some_0, code) {
            before.effects@.push(Effect::RefreshVolumes)
        } else {
            before.effects@
        }
    } else if code == KeyCode::Enter && d.is_create_focused_spec() {
        create_submitted(before, after)
    } else {
        &&& dialog_changed(before, after)
        &&& form_key_done(d, code, after.create_dialog, added_effect(before.effects@, after.effects@))
    }
}

/// Handle a key on the create dialog's form or focused inline list (see
/// [`dialog_key_done`]).
pub fn handle_dialog_key(app: &mut App, code: KeyCode)
    requires
        old(app).wf(),
        no_popup_open(old(app).create_dialog),
    ensures
        final(app).wf(),
        dialog_key_done(*old(app), code, *final(app)),
        grows_safely(old(app).effects@, final(app).effects@),
{
    proof {
        lemma_grows_safely_refl(app.effects@);
    }
    if app.create_dialog.list_edit_mode {
        if let Some(list) = app.create_dialog.focused_list() {
            if list_key(code, list) {
                let ghost d = app.create_dialog;
                let refresh = app.create_dialog.handle_list_key(list, code);
                proof {
                    lemma_list_key_wf(d, list, code, app.create_dialog);
                }
                if refresh {
                    request_volume_refresh(app);
                }
                return;
            }
        }
    }
    if code == KeyCode::Enter && app.create_dialog.is_create_focused() {
        submit_create_dialog(app);
        return;
    }
    let ghost d = app.create_dialog;
    let out = app.create_dialog.handle_form_key(code);
    proof {
        lemma_form_key_wf(d, code, app.create_dialog, out);
    }
    push_opt_effect(app, out);
    assert(grows_safely(old(app).effects@, app.effects@)) by {
        assert(app.effects@.take(old(app).effects@.len() as int) =~= old(app).effects@);
    }
}

/// True for the keys [`is_list_key`] names.
fn list_key(code: KeyCode, list: ListField) -> (r: bool)
    ensures
        r == is_list_key(code, list),
{
    code == KeyCode::Esc || code == KeyCode::Up || code == KeyCode::Down || code == KeyCode::Char(
        'a',
    ) || code == KeyCode::Char('A') || code == KeyCode::Char('d') || code == KeyCode::Char('D')
        || code == KeyCode::Delete || code == KeyCode::Enter || (list == ListField::NetworkRules
        && (code == KeyCode::Char('+') || code == KeyCode::Char('-')))
}

/// `after` is `before` after `code` (with `mods`) reached the create
/// dialog: the open directory picker, else the open popup, else the form
/// take it.
pub open spec fn create_dialog_key_done(
    before: App,
    code: KeyCode,
    mods: KeyModifiers,
    after: App,
) -> bool {
    let d = before.create_dialog;
    let e = after.create_dialog;
    let out = added_effect(before.effects@, after.effects@);
    if d.dir_picker.visible || (d.mount_add.visible && d.mount_add.dir_picker.visible) {
        dialog_changed(before, after) && picker_key_done(d, code, e, out)
    } else if d.port_add.visible {
        after == (App { create_dialog: e, ..before }) && port_add_key_done(d, code, e)
    } else if d.env_var_add.visible {
        after == (App { create_dialog: e, ..before }) && env_var_add_key_done(d, code, e)
    } else if d.net_rule_add.visible {
        after == (App { create_dialog: e, ..before }) && net_rule_add_key_done(d, code, e)
    } else if d.mount_add.visible {
        dialog_changed(before, after) && mount_add_key_done(d, code, mods, e, out)
    } else if d.secret_add.visible {
        after == (App { create_dialog: e, ..before }) && secret_add_key_done(d, code, e)
    } else if is_workdir_browse(d, code, mods) {
        &&& after == (App { effects: after.effects, ..before })
        &&& one_effect_added(before, after)
        &&& after.effects@.last() matches Effect::PickerOpen { target, path } && target
            == PickerTarget::Workdir && path@ == picker_start(d.workdir@)
    } else {
        dialog_key_done(before, code, after)
    }
}

/// Ctrl-F on the Workdir field of the form opens the directory picker.
pub open spec fn is_workdir_browse(d: CreateDialog, code: KeyCode, mods: KeyModifiers) -> bool {
    &&& code == KeyCode::Char('f')
    &&& mods.control
    &&& !d.list_edit_mode
    &&& d.tab == DialogTab::Basic
    &&& d.field == 6
}

/// Handle a key while the create dialog is open (see
/// [`create_dialog_key_done`]).
pub fn handle_create_dialog_key(app: &mut App, code: KeyCode, mods: KeyModifiers)
    requires
        old(app).wf(),
    ensures
        final(app).wf(),
        create_dialog_key_done(*old(app), code, mods, *final(app)),
        grows_safely(old(app).effects@, final(app).effects@),
{
    let ghost d = app.create_dialog;
    let dlg = &app.create_dialog;
    if dlg.dir_picker.visible || (dlg.mount_add.visible && dlg.mount_add.dir_picker.visible) {
        let out = app.create_dialog.handle_picker_key(code);
        proof {
            lemma_picker_key_wf(d, code, app.create_dialog, out);
        }
        push_opt_effect(app, out);
        assert(grows_safely(old(app).effects@, app.effects@)) by {
            assert(app.effects@.take(old(app).effects@.len() as int) =~= old(app).effects@);
        }
    } else if dlg.port_add.visible {
        app.create_dialog.handle_port_add_key(code);
        proof {
            lemma_port_add_key_wf(d, code, app.create_dialog);
            lemma_grows_safely_refl(app.effects@);
        }
    } else if dlg.env_var_add.visible {
        app.create_dialog.handle_env_var_add_key(code);
        proof {
            lemma_env_var_add_key_wf(d, code, app.create_dialog);
            lemma_grows_safely_refl(app.effects@);
        }
    } else if dlg.net_rule_add.visible {
        app.create_dialog.handle_net_rule_add_key(code);
        proof {
            lemma_net_rule_add_key_wf(d, code, app.create_dialog);
            lemma_grows_safely_refl(app.effects@);
        }
    } else if dlg.mount_add.visible {
        let out = app.create_dialog.handle_mount_add_key(code, mods);
        proof {
            lemma_mount_add_key_wf(d, code, mods, app.create_dialog, out);
        }
        push_opt_effect(app, out);
        assert(grows_safely(old(app).effects@, app.effects@)) by {
            assert(app.effects@.take(old(app).effects@.len() as int) =~= old(app).effects@);
        }
    } else if dlg.secret_add.visible {
        app.create_dialog.handle_secret_add_key(code);
        proof {
            lemma_secret_add_key_wf(d, code, app.create_dialog);
            lemma_grows_safely_refl(app.effects@);
        }
    } else if code == KeyCode::Char('f') && mods.control && !dlg.list_edit_mode && dlg.tab
        == DialogTab::Basic && dlg.field == 6 {
        let e = app.create_dialog.workdir_picker();
        app.push_effect(e);
        assert(app.effects@.drop_last() =~= old(app).effects@);
    } else {
        handle_dialog_key(app, code);
    }
}

//----------------------------------------------------------------------
// Volumes view and exec dialog
//----------------------------------------------------------------------

/// `after` is `before` after `code` reached the Volumes view. In the list:
/// Esc closes it, Up/Down move the selection, `n` starts adding a volume,
/// `d` or Delete asks to confirm removing the selected one, `r` re-reads
/// the list. While adding: Esc goes back, Space toggles disk backing,
/// characters and Backspace edit the name, Enter asks for the volume
/// (named by the trimmed text, which must not be blank).
pub open spec fn volumes_key_done(before: App, code: KeyCode, after: App) -> bool {
    let v = before.volumes_view;
    let len = v.volumes@.len();
    if v.mode == SubDialogMode::List {
        if code == KeyCode::Esc {
            after == (App { volumes_view: VolumesView { visible: false, ..v }, ..before })
        } else if code == KeyCode::Up {
            after == (App {
                volumes_view: VolumesView {
                    selected: if v.selected > 0 {
                        (v.selected - 1) as usize
                    } else {
                        v.selected
                    },
                    ..v
                },
                ..before
            })
        } else if code == KeyCode::Down {
            after == (App {
                volumes_view: VolumesView {
                    selected: if len > 0 && v.selected + 1 < len {
                        (v.selected + 1) as usize
                    } else {
                        v.selected
                    },
                    ..v
                },
                ..before
            })
        } else if code == KeyCode::Char('n') || code == KeyCode::Char('N') {
            &&& after == (App {
                volumes_view: VolumesView {
                    mode: SubDialogMode::Add,
                    name_input: after.volumes_view.name_input,
                    disk: false,
                    error: None,
                    ..v
                },
                ..before
            })
            &&& after.volumes_view.name_input@.len() == 0
        } else if code == KeyCode::Char('d') || code == KeyCode::Delete {
            if v.selected < len {
                &&& after == (App { confirm: after.confirm, ..before })
                &&& after.confirm matches Some(PendingAction::RemoveVolume(n)) && n@
                    == v.volumes@[v.selected as int].name@
            } else {
                after == before
            }
        } else if code == KeyCode::Char('r') || code == KeyCode::Char('R') {
            volumes_refresh_requested(before, after)
        } else {
            after == before
        }
    } else {
        if code == KeyCode::Esc {
            after == (App {
                volumes_view: VolumesView { mode: SubDialogMode::List, error: None, ..v },
                ..before
            })
        } else if code == KeyCode::Char(' ') {
            after == (App { volumes_view: VolumesView { disk: !v.disk, ..v }, ..before })
        } else if code == KeyCode::Backspace {
            &&& after == (App {
                volumes_view: VolumesView {
                    name_input: after.volumes_view.name_input,
                    error: None,
                    ..v
                },
                ..before
            })
            &&& after.volumes_view.name_input@ == popped(v.name_input@)
        } else if code == KeyCode::Enter {
            let name = trim(v.name_input@);
            if name.len() == 0 {
                &&& after == (App {
                    volumes_view: VolumesView { error: after.volumes_view.error, ..v },
                    ..before
                })
                &&& after.volumes_view.error matches Some(m) && m@ == "Name cannot be empty"@
            } else {
                &&& after == (App {
                    volumes_view: VolumesView { mode: SubDialogMode::List, error: None, ..v },
                    effects: after.effects,
                    ..before
                })
                &&& one_effect_added(before, after)
                &&& after.effects@.last() matches Effect::CreateVolume { name: n, disk } && n@
                    == name && disk == v.disk
            }
        } else if code is Char {
            &&& after == (App {
                volumes_view: VolumesView {
                    name_input: after.volumes_view.name_input,
                    error: None,
                    ..v
                },
                ..before
            })
            &&& after.volumes_view.name_input@ == v.name_input@.push(code->Char_0)
        } else {
            after == before
        }
    }
}

/// Handle a key while the Volumes view is open (see
/// [`volumes_key_done`]).
pub fn handle_volumes_view_key(app: &mut App, code: KeyCode)
    requires
        old(app).wf(),
    ensures
        final(app).wf(),
        volumes_key_done(*old(app), code, *final(app)),
        grows_safely(old(app).effects@, final(app).effects@),
{
    if app.volumes_view.mode == SubDialogMode::List {
        volumes_list_key(app, code);
    } else {
        volumes_add_key(app, code);
    }
}

fn volumes_list_key(app: &mut App, code: KeyCode)
    requires
        old(app).wf(),
        old(app).volumes_view.mode == SubDialogMode::List,
    ensures
        final(app).wf(),
        volumes_key_done(*old(app), code, *final(app)),
        grows_safely(old(app).effects@, final(app).effects@),
{
    proof {
        lemma_grows_safely_refl(app.effects@);
    }
    if code == KeyCode::Esc {
        app.volumes_view.visible = false;
    } else if code == KeyCode::Up {
        if app.volumes_view.selected > 0 {
            app.volumes_view.selected = app.volumes_view.selected - 1;
        }
    } else if code == KeyCode::Down {
        let len = app.volumes_view.volumes.len();
        if len > 0 && app.volumes_view.selected < len - 1 {
            app.volumes_view.selected = app.volumes_view.selected + 1;
        }
    } else if code == KeyCode::Char('n') || code == KeyCode::Char('N') {
        app.volumes_view.mode = SubDialogMode::Add;
        app.volumes_view.name_input = String::new();
        app.volumes_view.disk = false;
        app.volumes_view.error = None;
    } else if code == KeyCode::Char('d') || code == KeyCode::Delete {
        if app.volumes_view.selected < app.volumes_view.volumes.len() {
            let name = copy_string(&app.volumes_view.volumes[app.volumes_view.selected].name);
            app.confirm = Some(PendingAction::RemoveVolume(name));
        }
    } else if code == KeyCode::Char('r') || code == KeyCode::Char('R') {
        request_volume_refresh(app);
    }
}

fn volumes_add_key(app: &mut App, code: KeyCode)
    requires
        old(app).wf(),
        old(app).volumes_view.mode == SubDialogMode::Add,
    ensures
        final(app).wf(),
        volumes_key_done(*old(app), code, *final(app)),
        grows_safely(old(app).effects@, final(app).effects@),
{
    proof {
        lemma_grows_safely_refl(app.effects@);
    }
    if code == KeyCode::Esc {
        app.volumes_view.mode = SubDialogMode::List;
        app.volumes_view.error = None;
    } else if code == KeyCode::Char(' ') {
        app.volumes_view.disk = !app.volumes_view.disk;
    } else if code == KeyCode::Backspace {
        let _ = pop_char(&mut app.volumes_view.name_input);
        app.volumes_view.error = None;
    } else if code == KeyCode::Enter {
        let name = trim_str(app.volumes_view.name_input.as_str());
        if name.as_str().is_empty() {
            app.volumes_view.error = Some(to_string("Name cannot be empty"));
        } else {
            let disk = app.volumes_view.disk;
            app.volumes_view.mode = SubDialogMode::List;
            app.volumes_view.error = None;
            app.push_effect(Effect::CreateVolume { name, disk });
            assert(app.effects@.drop_last() =~= old(app).effects@);
        }
    } else if let KeyCode::Char(c) = code {
        push_char(&mut app.volumes_view.name_input, c);
        app.volumes_view.error = None;
    }
}

/// `after` is `before` after `code` reached the exec dialog: Esc closes
/// it, characters and Backspace edit the command, Enter closes it and asks
/// for a terminal running the trimmed command in the sandbox (a blank
/// command is refused).
pub open spec fn exec_key_done(before: App, code: KeyCode, after: App) -> bool {
    let x = before.exec_dialog;
    let closed = |e: ExecDialog|
        !e.visible && e.sandbox_name@.len() == 0 && e.command@.len() == 0 && e.error is None;
    if code == KeyCode::Esc {
        after == (App { exec_dialog: after.exec_dialog, ..before }) && closed(after.exec_dialog)
    } else if code == KeyCode::Backspace {
        &&& after == (App {
            exec_dialog: ExecDialog { command: after.exec_dialog.command, error: None, ..x },
            ..before
        })
        &&& after.exec_dialog.command@ == popped(x.command@)
    } else if code == KeyCode::Enter {
        let command = trim(x.command@);
        if command.len() == 0 {
            &&& after == (App {
                exec_dialog: ExecDialog { error: after.exec_dialog.error, ..x },
                ..before
            })
            &&& after.exec_dialog.error matches Some(m) && m@ == "Command cannot be empty"@
        } else {
            &&& after == (App {
                exec_dialog: after.exec_dialog,
                effects: after.effects,
                ..before
            })
            &&& closed(after.exec_dialog)
            &&& one_effect_added(before, after)
            &&& after.effects@.last() matches Effect::OpenExecTerminal { sandbox, command: c }
                && sandbox@ == x.sandbox_name@ && c@ == command
        }
    } else if code is Char {
        &&& after == (App {
            exec_dialog: ExecDialog { command: after.exec_dialog.command, error: None, ..x },
            ..before
        })
        &&& after.exec_dialog.command@ == x.command@.push(code->Char_0)
    } else {
        after == before
    }
}

/// Handle a key while the exec dialog is open (see [`exec_key_done`]).
pub fn handle_exec_dialog_key(app: &mut App, code: KeyCode)
    requires
        old(app).wf(),
    ensures
        final(app).wf(),
        exec_key_done(*old(app), code, *final(app)),
        grows_safely(old(app).effects@, final(app).effects@),
{
    proof {
        lemma_grows_safely_refl(app.effects@);
    }
    if code == KeyCode::Esc {
        app.exec_dialog = ExecDialog::closed();
    } else if code == KeyCode::Backspace {
        let _ = pop_char(&mut app.exec_dialog.command);
        app.exec_dialog.error = None;
    } else if code == KeyCode::Enter {
        let command = trim_str(app.exec_dialog.command.as_str());
        if command.as_str().is_empty() {
            app.exec_dialog.error = Some(to_string("Command cannot be empty"));
            return;
        }
        let sandbox = copy_string(&app.exec_dialog.sandbox_name);
        app.exec_dialog = ExecDialog::closed();
        app.push_effect(Effect::OpenExecTerminal { sandbox, command });
        assert(app.effects@.drop_last() =~= old(app).effects@);
    } else if let KeyCode::Char(c) = code {
        push_char(&mut app.exec_dialog.command, c);
        app.exec_dialog.error = None;
    }
}


//----------------------------------------------------------------------
// The main view
//----------------------------------------------------------------------

/// `after` is `before` with the previous sandbox selected and taken in.
pub open spec fn moved_up_and_selected(before: App, after: App) -> bool {
    exists|mid: App| #[trigger] prev_selected(before, mid) && sandbox_selected_done(mid, after)
}

/// `after` is `before` with the next sandbox selected and taken in.
pub open spec fn moved_down_and_selected(before: App, after: App) -> bool {
    exists|mid: App| #[trigger] next_selected(before, mid) && sandbox_selected_done(mid, after)
}

fn select_prev_and_take_in(app: &mut App)
    requires
        old(app).wf(),
    ensures
        final(app).wf(),
        moved_up_and_selected(*old(app), *final(app)),
        grows_safely(old(app).effects@, final(app).effects@),
{
    app.select_prev();
    let ghost mid = *app;
    on_sandbox_selected(app);
    assert(prev_selected(*old(app), mid) && sandbox_selected_done(mid, *app));
    proof {
        lemma_tab_data_requested_safe(
            App { log_scroll: 0, fs_scroll: 0, fs_path: app.fs_path, ..mid },
            *app,
        );
    }
}

fn select_next_and_take_in(app: &mut App)
    requires
        old(app).wf(),
    ensures
        final(app).wf(),
        moved_down_and_selected(*old(app), *final(app)),
        grows_safely(old(app).effects@, final(app).effects@),
{
    app.select_next();
    let ghost mid = *app;
    on_sandbox_selected(app);
    assert(next_selected(*old(app), mid) && sandbox_selected_done(mid, *app));
    proof {
        lemma_tab_data_requested_safe(
            App { log_scroll: 0, fs_scroll: 0, fs_path: app.fs_path, ..mid },
            *app,
        );
    }
}

/// `after` is `before` one step to the right: from the sandbox list into
/// the detail panel, or to the next tab (whose data is then asked for).
pub open spec fn nav_right_done(before: App, after: App) -> bool {
    if before.focus == Focus::SandboxList {
        after == (App { focus: Focus::Detail, ..before })
    } else {
        (App {
            tab: before.tab.next_spec(),
            log_scroll: 0,
            fs_scroll: 0,
            ..before
        }).tab_data_requested(after)
    }
}

/// `after` is `before` one step to the left: to the previous tab (whose
/// data is then asked for), or from the leftmost tab back to the sandbox
/// list; nothing from the list.
pub open spec fn nav_left_done(before: App, after: App) -> bool {
    if before.focus == Focus::Detail {
        if before.tab == DetailTab::Logs {
            after == (App { focus: Focus::SandboxList, ..before })
        } else {
            (App {
                tab: before.tab.prev_spec(),
                log_scroll: 0,
                fs_scroll: 0,
                ..before
            }).tab_data_requested(after)
        }
    } else {
        after == before
    }
}

fn nav_right(app: &mut App)
    requires
        old(app).wf(),
    ensures
        final(app).wf(),
        nav_right_done(*old(app), *final(app)),
        grows_safely(old(app).effects@, final(app).effects@),
{
    proof {
        lemma_grows_safely_refl(app.effects@);
    }
    match app.focus {
        Focus::SandboxList => app.focus = Focus::Detail,
        Focus::Detail => {
            app.next_tab();
            on_tab_switched(app);
        },
    }
}

fn nav_left(app: &mut App)
    requires
        old(app).wf(),
    ensures
        final(app).wf(),
        nav_left_done(*old(app), *final(app)),
        grows_safely(old(app).effects@, final(app).effects@),
{
    proof {
        lemma_grows_safely_refl(app.effects@);
    }
    if app.focus == Focus::Detail {
        if app.tab == DetailTab::all()[0] {
            app.focus = Focus::SandboxList;
        } else {
            app.prev_tab();
            on_tab_switched(app);
        }
    }
}

/// The Volumes view as it opens: visible, empty, listing.
pub open spec fn volumes_opened(v: VolumesView) -> bool {
    &&& v.visible
    &&& v.volumes@.len() == 0
    &&& v.selected == 0
    &&& v.mode == SubDialogMode::List
    &&& v.name_input@.len() == 0
    &&& !v.disk
    &&& v.error is None
}

/// `after` is `before` with the create dialog opened on the user's
/// defaults.
pub open spec fn create_dialog_opened(before: App, after: App) -> bool {
    &&& after == (App { create_dialog: after.create_dialog, ..before })
    &&& after.create_dialog.prefilled_from(before.config)
}

/// `after` is `before` after `code` (with `mods`) on the main view, no
/// modal being open. `q` (or Ctrl+C) quits; Esc focuses the sandbox
/// list; Tab/Right and BackTab/Left move right and left; Up/Down select
/// on the list and scroll the detail panel; on the list `/` starts a
/// search and `s`, `t`, `e`, `h`, `d` start, stop, terminate, exec, open
/// a shell in, or remove the selected sandbox; Enter opens the create
/// dialog on "New Sandbox" or focuses the detail panel; `n` opens the
/// create dialog, `v` the Volumes view, `r` refreshes, `T` switches the
/// theme; Backspace goes up a directory in the Filesystem tab.
pub open spec fn main_key_done(before: App, code: KeyCode, mods: KeyModifiers, after: App) -> bool {
    let on_list = before.focus == Focus::SandboxList;
    if code == KeyCode::Char('q') || code == KeyCode::Char('Q') || (code == KeyCode::Char('c')
        && mods.control) {
        after == (App { should_quit: true, ..before })
    } else if code == KeyCode::Esc {
        after == (App { focus: Focus::SandboxList, ..before })
    } else if code == KeyCode::Tab || code == KeyCode::Right {
        nav_right_done(before, after)
    } else if code == KeyCode::BackTab || code == KeyCode::Left {
        nav_left_done(before, after)
    } else if code == KeyCode::Up {
        if on_list {
            moved_up_and_selected(before, after)
        } else {
            scrolled_up(before, after)
        }
    } else if code == KeyCode::Down {
        if on_list {
            moved_down_and_selected(before, after)
        } else {
            scrolled_down(before, after)
        }
    } else if code == KeyCode::Char('/') && on_list {
        after == (App { search_active: true, ..before })
    } else if code == KeyCode::Char('s') && on_list {
        start_stop_done(before, after)
    } else if code == KeyCode::Char('t') && on_list {
        terminate_done(before, after)
    } else if code == KeyCode::Char('e') && on_list {
        exec_done(before, after)
    } else if code == KeyCode::Char('h') && on_list {
        shell_done(before, after)
    } else if code == KeyCode::Char('d') && on_list {
        remove_done(before, after)
    } else if code == KeyCode::Enter {
        if before.new_sandbox_selected_spec() {
            create_dialog_opened(before, after)
        } else if on_list {
            after == (App { focus: Focus::Detail, ..before })
        } else {
            after == before
        }
    } else if code == KeyCode::Char('n') {
        create_dialog_opened(before, after)
    } else if code == KeyCode::Char('v') {
        &&& after == (App { volumes_view: after.volumes_view, effects: after.effects, ..before })
        &&& volumes_opened(after.volumes_view)
        &&& after.effects@ == before.effects@.push(Effect::RefreshVolumes)
    } else if code == KeyCode::Char('r') {
        &&& after == (App {
            effects: after.effects,
            notification: after.notification,
            ..before
        })
        &&& after.effects@ == before.effects@.push(Effect::RefreshSandboxes)
        &&& after.notice_is("Refreshing…"@, false)
    } else if code == KeyCode::Char('T') {
        after == (App { theme: before.theme.toggled_spec(), ..before })
    } else if code == KeyCode::Backspace && before.focus == Focus::Detail && before.tab
        == DetailTab::Filesystem {
        fs_parent_entered(before, path_parent(before.fs_path@), after)
    } else {
        after == before
    }
}

/// Handle a key on the main view (see [`main_key_done`]).
pub fn handle_main_key(app: &mut App, code: KeyCode, mods: KeyModifiers)
    requires
        old(app).wf(),
    ensures
        final(app).wf(),
        main_key_done(*old(app), code, mods, *final(app)),
        grows_safely(old(app).effects@, final(app).effects@),
{
    proof {
        lemma_grows_safely_refl(app.effects@);
    }
    let on_list = app.focus == Focus::SandboxList;
    if code == KeyCode::Char('q') || code == KeyCode::Char('Q') || (code == KeyCode::Char('c')
        && mods.control) {
        app.should_quit = true;
    } else if code == KeyCode::Esc {
        app.focus = Focus::SandboxList;
    } else if code == KeyCode::Tab || code == KeyCode::Right {
        nav_right(app);
    } else if code == KeyCode::BackTab || code == KeyCode::Left {
        nav_left(app);
    } else if code == KeyCode::Up {
        if on_list {
            select_prev_and_take_in(app);
        } else {
            scroll_up(app);
        }
    } else if code == KeyCode::Down {
        if on_list {
            select_next_and_take_in(app);
        } else {
            scroll_down(app);
        }
    } else if code == KeyCode::Char('/') && on_list {
        app.search_active = true;
    } else if code == KeyCode::Char('s') && on_list {
        action_toggle_start_stop(app);
    } else if code == KeyCode::Char('t') && on_list {
        action_terminate(app);
    } else if code == KeyCode::Char('e') && on_list {
        action_exec(app);
    } else if code == KeyCode::Char('h') && on_list {
        action_shell(app);
    } else if code == KeyCode::Char('d') && on_list {
        action_remove(app);
    } else if code == KeyCode::Enter {
        if app.new_sandbox_selected() {
            app.create_dialog = CreateDialog::open_with_config(&app.config);
        } else if on_list {
            app.focus = Focus::Detail;
        }
    } else if code == KeyCode::Char('n') {
        app.create_dialog = CreateDialog::open_with_config(&app.config);
    } else if code == KeyCode::Char('v') {
        app.volumes_view = VolumesView::open();
        request_volume_refresh(app);
    } else if code == KeyCode::Char('r') {
        app.request_refresh();
        app.notify_str("Refreshing…", false);
    } else if code == KeyCode::Char('T') {
        app.toggle_theme();
    } else if code == KeyCode::Backspace && app.focus == Focus::Detail && app.tab
        == DetailTab::Filesystem {
        nav_fs_up(app);
    }
}

//----------------------------------------------------------------------
// Mouse
//----------------------------------------------------------------------

/// The value of the first rectangle of `rects` that holds `(x, y)`.
pub open spec fn first_hit<T>(rects: Seq<(Rect, T)>, x: u16, y: u16) -> Option<T>
    decreases rects.len(),
{
    if rects.len() == 0 {
        None
    } else if rects[0].0.contains_spec(x, y) {
        Some(rects[0].1)
    } else {
        first_hit(rects.drop_first(), x, y)
    }
}

proof fn lemma_first_hit<T>(rects: Seq<(Rect, T)>, x: u16, y: u16, i: int)
    requires
        0 <= i <= rects.len(),
        forall|j: int| 0 <= j < i ==> !(#[trigger] rects[j]).0.contains_spec(x, y),
    ensures
        i < rects.len() && rects[i].0.contains_spec(x, y) ==> first_hit(rects, x, y) == Some(
            rects[i].1,
        ),
        i == rects.len() ==> first_hit(rects, x, y) is None,
    decreases i,
{
    if i > 0 {
        assert forall|j: int| 0 <= j < i - 1 implies !(#[trigger] rects.drop_first()[j]).0.contains_spec(
            x,
            y,
        ) by {
            assert(rects.drop_first()[j] == rects[j + 1]);
        }
        lemma_first_hit(rects.drop_first(), x, y, i - 1);
    }
}

/// The value of the first of `rects` that holds `(x, y)`.
fn hit_at<T: Copy>(rects: &Vec<(Rect, T)>, x: u16, y: u16) -> (r: Option<T>)
    ensures
        r == first_hit(rects@, x, y),
{
    let n = rects.len();
    for i in 0..n
        invariant
            n == rects@.len(),
            forall|j: int| 0 <= j < i ==> !(#[trigger] rects@[j]).0.contains_spec(x, y),
    {
        if rects[i].0.contains(x, y) {
            proof {
                lemma_first_hit(rects@, x, y, i as int);
            }
            return Some(rects[i].1);
        }
    }
    proof {
        lemma_first_hit(rects@, x, y, n as int);
    }
    None
}

/// The detail tab whose label holds `(x, y)`, if any.
pub fn tab_at(app: &App, x: u16, y: u16) -> (r: Option<DetailTab>)
    ensures
        r == first_hit(app.mouse.tab_rects@, x, y),
{
    hit_at(&app.mouse.tab_rects, x, y)
}

/// The sandbox card that holds `(x, y)`, if any: `Some(None)` is the
/// "New Sandbox" card.
pub fn card_at(app: &App, x: u16, y: u16) -> (r: Option<Option<usize>>)
    ensures
        r == first_hit(app.mouse.card_rects@, x, y),
{
    hit_at(&app.mouse.card_rects, x, y)
}

/// A dialog, the confirmation, or the search box holds the input.
pub open spec fn modal_open(a: App) -> bool {
    ||| a.confirm is Some
    ||| a.create_dialog.visible
    ||| a.volumes_view.visible
    ||| a.exec_dialog.visible
    ||| a.search_active
}

/// `after` is `before` after mouse event `m`. While anything modal is
/// open the mouse does nothing. A left click on a tab label switches to
/// that tab (focusing the detail panel), on a sandbox card selects it
/// (focusing the list), elsewhere in a panel focuses it. The wheel
/// selects over the list and scrolls over the detail panel.
pub open spec fn mouse_handled(before: App, m: MouseEvent, after: App) -> bool {
    let x = m.column;
    let y = m.row;
    let list = before.mouse.list_area.contains_spec(x, y);
    let detail = before.mouse.detail_area.contains_spec(x, y);
    if modal_open(before) {
        after == before
    } else if m.kind == MouseEventKind::LeftDown {
        match first_hit(before.mouse.tab_rects@, x, y) {
            Some(tab) => (App { tab, focus: Focus::Detail, ..before }).tab_data_requested(after),
            None => match first_hit(before.mouse.card_rects@, x, y) {
                Some(card) => sandbox_selected_done(
                    App {
                        selected: match card {
                            Some(i) => i,
                            None => before.sandboxes@.len() as usize,
                        },
                        focus: Focus::SandboxList,
                        ..before
                    },
                    after,
                ),
                None => if detail {
                    after == (App { focus: Focus::Detail, ..before })
                } else if list {
                    after == (App { focus: Focus::SandboxList, ..before })
                } else {
                    after == before
                },
            },
        }
    } else if m.kind == MouseEventKind::ScrollUp {
        if list {
            moved_up_and_selected(before, after)
        } else if detail {
            scrolled_up(before, after)
        } else {
            after == before
        }
    } else if m.kind == MouseEventKind::ScrollDown {
        if list {
            moved_down_and_selected(before, after)
        } else if detail {
            scrolled_down(before, after)
        } else {
            after == before
        }
    } else {
        after == before
    }
}

/// Handle a mouse event (see [`mouse_handled`]).
pub fn handle_mouse_event(app: &mut App, m: MouseEvent)
    requires
        old(app).wf(),
    ensures
        final(app).wf(),
        mouse_handled(*old(app), m, *final(app)),
        grows_safely(old(app).effects@, final(app).effects@),
{
    proof {
        lemma_grows_safely_refl(app.effects@);
    }
    if app.confirm.is_some() || app.create_dialog.visible || app.volumes_view.visible
        || app.exec_dialog.visible || app.search_active {
        return;
    }
    let x = m.column;
    let y = m.row;
    let list = app.mouse.list_area.contains(x, y);
    let detail = app.mouse.detail_area.contains(x, y);
    if m.kind == MouseEventKind::LeftDown {
        if let Some(tab) = tab_at(app, x, y) {
            app.tab = tab;
            app.focus = Focus::Detail;
            on_tab_switched(app);
        } else if let Some(card) = card_at(app, x, y) {
            app.selected = match card {
                Some(i) => i,
                None => app.sandboxes.len(),
            };
            app.focus = Focus::SandboxList;
            on_sandbox_selected(app);
        } else if detail {
            app.focus = Focus::Detail;
        } else if list {
            app.focus = Focus::SandboxList;
        }
    } else if m.kind == MouseEventKind::ScrollUp {
        if list {
            select_prev_and_take_in(app);
        } else if detail {
            scroll_up(app);
        }
    } else if m.kind == MouseEventKind::ScrollDown {
        if list {
            select_next_and_take_in(app);
        } else if detail {
            scroll_down(app);
        }
    }
}

//----------------------------------------------------------------------
// Dispatch
//----------------------------------------------------------------------

/// `after` is `before` after key `code` (with `mods`) went to whatever
/// holds the input: the confirmation dialog first, then the create
/// dialog, the Volumes view, the exec dialog, the search box, and
/// otherwise the main view.
pub open spec fn key_dispatched(before: App, code: KeyCode, mods: KeyModifiers, after: App) -> bool {
    if before.confirm is Some {
        confirm_key_done(before, code, after)
    } else if before.create_dialog.visible {
        create_dialog_key_done(before, code, mods, after)
    } else if before.volumes_view.visible {
        volumes_key_done(before, code, after)
    } else if before.exec_dialog.visible {
        exec_key_done(before, code, after)
    } else if before.search_active {
        search_key_done(before, code, after)
    } else {
        main_key_done(before, code, mods, after)
    }
}

/// `a` once key event `k` was seen: an Esc press or repeat is recorded as
/// handled.
pub open spec fn esc_marked(a: App, k: KeyEvent) -> App {
    if k.code == KeyCode::Esc && k.kind != KeyEventKind::Release {
        App { esc_press_handled: true, ..a }
    } else {
        a
    }
}

/// `after` is `before` after key event `k`. Releases are ignored, except
/// that of Esc: some terminals only report Esc when it comes up, so an
/// Esc release acts unless its press was already handled, in which case
/// it only clears that mark.
pub open spec fn key_event_handled(before: App, k: KeyEvent, after: App) -> bool {
    if k.code == KeyCode::Esc && k.kind == KeyEventKind::Release && before.esc_press_handled {
        after == (App { esc_press_handled: false, ..before })
    } else if k.code != KeyCode::Esc && k.kind == KeyEventKind::Release {
        after == before
    } else {
        key_dispatched(esc_marked(before, k), k.code, k.modifiers, after)
    }
}

/// `after` is `before` after terminal event `ev`.
pub open spec fn event_handled(before: App, ev: Event, after: App) -> bool {
    match ev {
        Event::Key(k) => key_event_handled(before, k, after),
        Event::Mouse(m) => mouse_handled(before, m, after),
        Event::Other => after == before,
    }
}

fn dispatch_key(app: &mut App, code: KeyCode, mods: KeyModifiers)
    requires
        old(app).wf(),
    ensures
        final(app).wf(),
        key_dispatched(*old(app), code, mods, *final(app)),
        old(app).confirm is None ==> grows_safely(old(app).effects@, final(app).effects@),
{
    if app.confirm.is_some() {
        handle_confirm_key(app, code);
    } else if app.create_dialog.visible {
        handle_create_dialog_key(app, code, mods);
    } else if app.volumes_view.visible {
        handle_volumes_view_key(app, code);
    } else if app.exec_dialog.visible {
        handle_exec_dialog_key(app, code);
    } else if app.search_active {
        handle_search_key(app, code);
        proof {
            lemma_grows_safely_refl(app.effects@);
        }
    } else {
        handle_main_key(app, code, mods);
    }
}

/// Apply a terminal event to the state (see [`event_handled`]).
///
/// No stop, termination or removal is ever asked for unless a
/// confirmation was pending: every other path only appends harmless work.
pub fn handle_event(app: &mut App, event: Event)
    requires
        old(app).wf(),
    ensures
        final(app).wf(),
        event_handled(*old(app), event, *final(app)),
        old(app).confirm is None ==> grows_safely(old(app).effects@, final(app).effects@),
{
    proof {
        lemma_grows_safely_refl(app.effects@);
    }
    let key = match event {
        Event::Key(key) => key,
        Event::Mouse(m) => {
            handle_mouse_event(app, m);
            return;
        },
        Event::Other => return,
    };
    if key.code == KeyCode::Esc {
        if key.kind == KeyEventKind::Release {
            if app.esc_press_handled {
                app.esc_press_handled = false;
                return;
            }
        } else {
            app.esc_press_handled = true;
        }
    } else if key.kind == KeyEventKind::Release {
        return;
    }
    dispatch_key(app, key.code, key.modifiers);
}


//----------------------------------------------------------------------
// Laws
//----------------------------------------------------------------------

/// While a destructive action awaits confirmation, a key event changes
/// nothing but the pending action, the queued work, the notification and
/// the Esc mark: only a yes key queues work (the pending action's), and a
/// yes or no key clears the pending action.
pub proof fn law_confirmation_takes_every_key(a: App, k: KeyEvent, b: App)
    requires
        a.confirm is Some,
        key_event_handled(a, k, b),
    ensures
        b == (App {
            confirm: b.confirm,
            effects: b.effects,
            notification: b.notification,
            esc_press_handled: b.esc_press_handled,
            ..a
        }),
        !is_yes_key(k.code) ==> b.effects == a.effects,
        (is_yes_key(k.code) || is_no_key(k.code)) && !(k.code == KeyCode::Esc && k.kind
            == KeyEventKind::Release && a.esc_press_handled) && !(k.code != KeyCode::Esc && k.kind
            == KeyEventKind::Release) ==> b.confirm is None,
{
}

/// While a dialog, the confirmation or the search box is open, the mouse
/// changes nothing.
pub proof fn law_mouse_ignored_under_modals(a: App, m: MouseEvent, b: App)
    requires
        modal_open(a),
        mouse_handled(a, m, b),
    ensures
        b == a,
{
}


/// Handling Esc leaves the Esc mark alone.
proof fn lemma_esc_keeps_mark(a: App, mods: KeyModifiers, b: App)
    requires
        key_dispatched(a, KeyCode::Esc, mods, b),
    ensures
        b.esc_press_handled == a.esc_press_handled,
{
}

/// Every key the create dialog takes keeps its environment variables'
/// keys trimmed, non-empty and free of `=`: the variable popup stores
/// only such keys, the inline list only moves, opens or deletes entries,
/// and the other popups and the form leave the list alone or clear it.
pub proof fn law_create_dialog_keeps_env_keys(
    before: App,
    code: KeyCode,
    mods: KeyModifiers,
    after: App,
)
    requires
        before.wf(),
        env_keys_ok(before.create_dialog.env_vars@),
        create_dialog_key_done(before, code, mods, after),
    ensures
        env_keys_ok(after.create_dialog.env_vars@),
{
    let d = before.create_dialog;
    let e = after.create_dialog;
    if d.dir_picker.visible || (d.mount_add.visible && d.mount_add.dir_picker.visible) {
    } else if d.port_add.visible {
    } else if d.env_var_add.visible {
        law_env_var_keys_kept(d, code, ListField::EnvVars, e);
    } else if d.net_rule_add.visible {
    } else if d.mount_add.visible {
    } else if d.secret_add.visible {
    } else if is_workdir_browse(d, code, mods) {
    } else {
        let list = d.focused_list_spec();
        if d.list_edit_mode && list is Some && is_list_key(code, list->Some_0) {
            law_env_var_keys_kept(d, code, list->Some_0, e);
        }
    }
}

/// Each physical Esc key acts once: when a terminal reports both its
/// press and its release, the release only clears the mark the press
/// left.
pub proof fn law_esc_press_then_release(
    a: App,
    press: KeyEvent,
    b: App,
    release: KeyEvent,
    c: App,
)
    requires
        press.code == KeyCode::Esc,
        press.kind != KeyEventKind::Release,
        release.code == KeyCode::Esc,
        release.kind == KeyEventKind::Release,
        key_event_handled(a, press, b),
        key_event_handled(b, release, c),
    ensures
        c == (App { esc_press_handled: false, ..b }),
{
    lemma_esc_keeps_mark(esc_marked(a, press), press.modifiers, b);
}

} // verus!

use microsandbox_tui::app::actions::{PendingAction, SandboxAction};
use microsandbox_tui::app::dialogs::{CreateDialog, DialogTab, SubDialogMode, VolumesView};
use microsandbox_tui::app::keys::{
    handle_event, Event, KeyCode, KeyEvent, KeyEventKind, KeyModifiers, MouseEvent, MouseEventKind,
};
use microsandbox_tui::app::messages::AppMessage;
use microsandbox_tui::app::validate::validate_cidr;
use microsandbox_tui::app::{
    App, DetailTab, Effect, Focus, LogLine, LogSource, Rect, MAX_LOG_LINES, METRICS_HISTORY_LEN,
};
use microsandbox_tui::config::AppConfig;
use microsandbox_tui::sandbox::{
    FsEntry, LocalFsEntryKind, MetricsSnapshot, SandboxInfo, SandboxStatus as Status, VolumeInfo,
    VolumeKind,
};

fn make_app() -> App {
    App::new(AppConfig::empty())
}

fn make_sandbox(name: &str, status: Status) -> SandboxInfo {
    SandboxInfo {
        name: name.into(),
        status,
        image: "alpine:latest".into(),
        cpus: 1,
        memory_mib: 512,
        created_at: None,
        updated_at: None,
        workdir: None,
    }
}

fn key_press(code: KeyCode) -> Event {
    Event::Key(KeyEvent::press(code))
}

fn key_press_mod(code: KeyCode, modifiers: KeyModifiers) -> Event {
    Event::Key(KeyEvent { code, modifiers, kind: KeyEventKind::Press })
}

fn key_release(code: KeyCode) -> Event {
    Event::Key(KeyEvent { code, modifiers: KeyModifiers::none(), kind: KeyEventKind::Release })
}

fn mouse_event(kind: MouseEventKind, column: u16, row: u16) -> Event {
    Event::Mouse(MouseEvent { kind, column, row })
}

fn rect(x: u16, y: u16, width: u16, height: u16) -> Rect {
    Rect { x, y, width, height }
}

fn log_line(data: &[u8]) -> LogLine {
    LogLine { source: LogSource::Stdout, timestamp_ms: 0, data: data.to_vec() }
}

fn control() -> KeyModifiers {
    KeyModifiers { control: true, shift: false }
}

// ── App initial state ───────────────────────────────────────────────────

#[test]
fn tests_test_initial_state() {
    let app = make_app();
    assert!(app.sandboxes.is_empty());
    assert_eq!(app.selected, 0);
    assert_eq!(app.focus, Focus::SandboxList);
    assert_eq!(app.tab, DetailTab::Logs);
    assert!(!app.should_quit);
    assert!(!app.create_dialog.visible);
    assert!(app.notification.is_none());
    assert_eq!(app.fs_path, "/");
}

#[test]
fn tests_test_selected_sandbox_empty() {
    let app = make_app();
    assert!(app.selected_sandbox().is_none());
}

#[test]
fn tests_test_selected_sandbox_first() {
    let mut app = make_app();
    app.sandboxes.push(make_sandbox("alpha", Status::Running));
    assert_eq!(app.selected_sandbox().unwrap().name, "alpha");
}

#[test]
fn tests_test_selected_sandbox_second() {
    let mut app = make_app();
    app.sandboxes.push(make_sandbox("alpha", Status::Running));
    app.sandboxes.push(make_sandbox("beta", Status::Stopped));
    app.selected = 1;
    assert_eq!(app.selected_sandbox().unwrap().name, "beta");
}

#[test]
fn tests_test_new_sandbox_selected_empty_list() {
    let app = make_app();
    assert!(app.new_sandbox_selected());
}

#[test]
fn tests_test_new_sandbox_selected_false_when_sandbox_focused() {
    let mut app = make_app();
    app.sandboxes.push(make_sandbox("alpha", Status::Running));
    assert!(!app.new_sandbox_selected());
}

#[test]
fn tests_test_new_sandbox_selected_true_at_end() {
    let mut app = make_app();
    app.sandboxes.push(make_sandbox("alpha", Status::Running));
    app.selected = 1;
    assert!(app.new_sandbox_selected());
}

// ── log_stream_target ───────────────────────────────────────────────────

#[test]
fn tests_test_log_stream_target_none_when_not_on_logs_tab() {
    let mut app = make_app();
    app.sandboxes.push(make_sandbox("alpha", Status::Running));
    app.tab = DetailTab::Info;
    assert!(app.log_stream_target().is_none());
}

#[test]
fn tests_test_log_stream_target_none_when_sandbox_stopped() {
    let mut app = make_app();
    app.sandboxes.push(make_sandbox("alpha", Status::Stopped));
    app.tab = DetailTab::Logs;
    assert!(app.log_stream_target().is_none());
}

#[test]
fn tests_test_log_stream_target_some_when_running_on_logs_tab() {
    let mut app = make_app();
    app.sandboxes.push(make_sandbox("alpha", Status::Running));
    app.tab = DetailTab::Logs;
    assert_eq!(app.log_stream_target().as_deref(), Some("alpha"));
}

#[test]
fn tests_test_log_stream_target_none_when_no_sandbox_selected() {
    let app = make_app();
    assert!(app.log_stream_target().is_none());
}

// ── messages ────────────────────────────────────────────────────────────

#[test]
fn tests_test_handle_message_log_stream_entry_appends() {
    let mut app = make_app();
    app.handle_message(AppMessage::LogStreamEntry("alpha".into(), log_line(b"hello")));
    assert_eq!(app.logs.get("alpha").map(|v| v.len()), Some(1));
}

#[test]
fn tests_test_handle_message_log_stream_entry_caps_at_max_lines() {
    let mut app = make_app();
    for _ in 0..(MAX_LOG_LINES + 10) {
        app.handle_message(AppMessage::LogStreamEntry("alpha".into(), log_line(b"x")));
    }
    assert_eq!(app.logs.get("alpha").map(|v| v.len()), Some(MAX_LOG_LINES));
}

#[test]
fn log_stream_keeps_the_newest_lines() {
    let mut app = make_app();
    for i in 0..(MAX_LOG_LINES + 3) {
        let text = format!("{i}");
        app.handle_message(AppMessage::LogStreamEntry("alpha".into(), log_line(text.as_bytes())));
    }
    let lines = app.logs.get("alpha").unwrap();
    assert_eq!(lines[0].data, b"3".to_vec());
    assert_eq!(lines[MAX_LOG_LINES - 1].data, format!("{}", MAX_LOG_LINES + 2).into_bytes());
}

#[test]
fn tests_test_handle_message_metrics_appends_history() {
    let mut app = make_app();
    for i in 0..3u64 {
        let m = MetricsSnapshot { cpu_percent_x100: i * 100, ..Default::default() };
        app.handle_message(AppMessage::Metrics("alpha".into(), Ok(Some(m))));
    }
    let history = app.metrics_history.get("alpha").unwrap();
    assert_eq!(history.len(), 3);
    assert_eq!(history.back().unwrap().cpu_percent_x100, 200);
}

#[test]
fn tests_test_handle_message_metrics_history_caps_at_limit() {
    let mut app = make_app();
    for _ in 0..(METRICS_HISTORY_LEN + 15) {
        let m = MetricsSnapshot::default();
        app.handle_message(AppMessage::Metrics("alpha".into(), Ok(Some(m))));
    }
    let history = app.metrics_history.get("alpha").unwrap();
    assert_eq!(history.len(), METRICS_HISTORY_LEN);
}

#[test]
fn tests_test_handle_message_sandbox_list_populates() {
    let mut app = make_app();
    let list = vec![make_sandbox("alpha", Status::Running)];
    app.handle_message(AppMessage::SandboxList(Ok(list)));
    assert_eq!(app.sandboxes.len(), 1);
    assert_eq!(app.sandboxes[0].name, "alpha");
    assert!(app.last_refresh.is_some());
}

#[test]
fn tests_test_handle_message_sandbox_list_error_notifies() {
    let mut app = make_app();
    app.handle_message(AppMessage::SandboxList(Err("conn refused".into())));
    let n = app.notification.as_ref().unwrap();
    assert!(n.is_error);
    assert!(n.message.contains("conn refused"));
}

#[test]
fn sandbox_list_error_text_is_exact() {
    let mut app = make_app();
    app.handle_message(AppMessage::SandboxList(Err("conn refused".into())));
    assert_eq!(app.notification.as_ref().unwrap().message, "List error: conn refused");
}

#[test]
fn tests_test_handle_message_preserves_selection_by_name() {
    let mut app = make_app();
    app.sandboxes = vec![make_sandbox("alpha", Status::Running), make_sandbox("beta", Status::Stopped)];
    app.selected = 1;
    let new_list = vec![make_sandbox("beta", Status::Running)];
    app.handle_message(AppMessage::SandboxList(Ok(new_list)));
    assert_eq!(app.selected, 0);
    assert_eq!(app.sandboxes[app.selected].name, "beta");
}

#[test]
fn tests_test_handle_message_selection_clamps_when_sandbox_removed() {
    let mut app = make_app();
    app.sandboxes = vec![make_sandbox("alpha", Status::Running), make_sandbox("beta", Status::Stopped)];
    app.selected = 1;
    let new_list = vec![make_sandbox("alpha", Status::Running)];
    app.handle_message(AppMessage::SandboxList(Ok(new_list)));
    assert!(app.selected <= app.sandboxes.len());
}

#[test]
fn tests_test_handle_message_log_entries_stored() {
    let mut app = make_app();
    app.handle_message(AppMessage::LogEntries("mybox".into(), Ok(vec![])));
    assert!(app.logs.contains_key("mybox"));
}

#[test]
fn tests_test_handle_message_log_error_notifies() {
    let mut app = make_app();
    app.handle_message(AppMessage::LogEntries("mybox".into(), Err("err".into())));
    assert!(app.notification.as_ref().unwrap().is_error);
}

#[test]
fn tests_test_handle_message_metrics_stored() {
    let mut app = make_app();
    let m = MetricsSnapshot { cpu_percent_x100: 4200, memory_bytes: 1024, ..Default::default() };
    app.handle_message(AppMessage::Metrics("mybox".into(), Ok(Some(m))));
    assert_eq!(app.metrics.get("mybox").unwrap().cpu_percent_x100, 4200);
}

#[test]
fn tests_test_handle_message_metrics_none_no_panic() {
    let mut app = make_app();
    app.handle_message(AppMessage::Metrics("mybox".into(), Ok(None)));
    assert!(!app.metrics.contains_key("mybox"));
}

#[test]
fn tests_test_handle_message_metrics_error_notifies() {
    let mut app = make_app();
    app.handle_message(AppMessage::Metrics("mybox".into(), Err("x".into())));
    assert!(app.notification.as_ref().unwrap().is_error);
}

#[test]
fn tests_test_handle_message_fs_entries_stored() {
    let mut app = make_app();
    let entries = vec![FsEntry { path: "/etc".into(), kind: LocalFsEntryKind::Directory, size: 0 }];
    app.handle_message(AppMessage::FsEntries("mybox".into(), "/".into(), Ok(Some(entries))));
    assert!(app.fs_entries.get("mybox").unwrap().contains_key("/"));
}

#[test]
fn tests_test_handle_message_fs_none_no_panic() {
    let mut app = make_app();
    app.handle_message(AppMessage::FsEntries("mybox".into(), "/".into(), Ok(None)));
    assert!(!app.fs_entries.contains_key("mybox"));
}

#[test]
fn tests_test_handle_message_fs_error_notifies() {
    let mut app = make_app();
    app.handle_message(AppMessage::FsEntries("mybox".into(), "/".into(), Err("x".into())));
    assert!(app.notification.as_ref().unwrap().is_error);
}

#[test]
fn tests_test_handle_message_notification() {
    let mut app = make_app();
    app.handle_message(AppMessage::Notification("done".into(), false));
    let n = app.notification.as_ref().unwrap();
    assert_eq!(n.message, "done");
    assert!(!n.is_error);
}

#[test]
fn tests_test_handle_message_volume_list_updates_state() {
    let mut app = make_app();
    let volumes = vec![VolumeInfo {
        name: "vol1".into(),
        kind: VolumeKind::Disk,
        quota_mib: Some(1024),
        used_bytes: 512,
    }];
    app.handle_message(AppMessage::VolumeList(Ok(volumes.clone())));
    assert_eq!(app.volumes_view.volumes.len(), volumes.len());
    assert_eq!(app.volumes_view.volumes[0].name, volumes[0].name);
    assert_eq!(app.volumes_view.volumes[0].kind, volumes[0].kind);
    assert_eq!(app.volumes_view.volumes[0].quota_mib, volumes[0].quota_mib);
    assert_eq!(app.volumes_view.volumes[0].used_bytes, volumes[0].used_bytes);
}

// ── selection and tabs ──────────────────────────────────────────────────

#[test]
fn tests_test_select_next_empty_does_nothing() {
    let mut app = make_app();
    app.select_next();
    assert_eq!(app.selected, 0);
}

#[test]
fn tests_test_select_next_advances() {
    let mut app = make_app();
    app.sandboxes.push(make_sandbox("a", Status::Running));
    app.sandboxes.push(make_sandbox("b", Status::Running));
    app.select_next();
    assert_eq!(app.selected, 1);
}

#[test]
fn tests_test_select_next_can_reach_new_sandbox_slot() {
    let mut app = make_app();
    app.sandboxes.push(make_sandbox("a", Status::Running));
    app.select_next();
    assert!(app.new_sandbox_selected());
}

#[test]
fn tests_test_select_next_stops_at_new_sandbox_slot() {
    let mut app = make_app();
    app.sandboxes.push(make_sandbox("a", Status::Running));
    app.selected = 1;
    app.select_next();
    assert_eq!(app.selected, 1);
}

#[test]
fn tests_test_select_prev_stops_at_zero() {
    let mut app = make_app();
    app.sandboxes.push(make_sandbox("a", Status::Running));
    app.select_prev();
    assert_eq!(app.selected, 0);
}

#[test]
fn tests_test_select_prev_moves_back() {
    let mut app = make_app();
    app.sandboxes.push(make_sandbox("a", Status::Running));
    app.sandboxes.push(make_sandbox("b", Status::Running));
    app.selected = 1;
    app.select_prev();
    assert_eq!(app.selected, 0);
}

#[test]
fn tests_test_next_tab_cycles_forward() {
    let mut app = make_app();
    assert_eq!(app.tab, DetailTab::Logs);
    app.next_tab();
    assert_eq!(app.tab, DetailTab::Filesystem);
    app.next_tab();
    assert_eq!(app.tab, DetailTab::Info);
    app.next_tab();
    assert_eq!(app.tab, DetailTab::Logs);
}

#[test]
fn tests_test_prev_tab_cycles_backward() {
    let mut app = make_app();
    app.prev_tab();
    assert_eq!(app.tab, DetailTab::Info);
    app.prev_tab();
    assert_eq!(app.tab, DetailTab::Filesystem);
    app.prev_tab();
    assert_eq!(app.tab, DetailTab::Logs);
}

#[test]
fn tests_test_tab_switch_resets_scroll() {
    let mut app = make_app();
    app.log_scroll = 10;
    app.fs_scroll = 5;
    app.next_tab();
    assert_eq!(app.log_scroll, 0);
    assert_eq!(app.fs_scroll, 0);
}

#[test]
fn tests_test_notify_sets_message() {
    let mut app = make_app();
    app.notify("hello".to_string(), false);
    let n = app.notification.as_ref().unwrap();
    assert_eq!(n.message, "hello");
    assert!(!n.is_error);
}

#[test]
fn tests_test_notify_error_flag() {
    let mut app = make_app();
    app.notify("boom".to_string(), true);
    assert!(app.notification.as_ref().unwrap().is_error);
}

#[test]
fn tests_test_notify_replaces_previous() {
    let mut app = make_app();
    app.notify("first".to_string(), false);
    app.notify("second".to_string(), true);
    assert_eq!(app.notification.as_ref().unwrap().message, "second");
}

#[test]
fn tests_test_create_dialog_default_is_closed() {
    let dlg = CreateDialog::closed();
    assert!(!dlg.visible);
    assert_eq!(dlg.tab, DialogTab::Basic);
    assert_eq!(dlg.field, 0);
    assert!(dlg.name.is_empty());
}

#[test]
fn tests_test_create_dialog_open_has_defaults() {
    let dlg = CreateDialog::open();
    assert!(dlg.visible);
    assert_eq!(dlg.field, 0);
    assert_eq!(dlg.image, "alpine");
    assert_eq!(dlg.cpus, "1");
    assert_eq!(dlg.memory, "512");
    assert_eq!(dlg.shell, "/bin/sh");
    assert!(dlg.name.is_empty());
    assert!(dlg.error.is_none());
}

#[test]
fn tests_test_detail_tab_titles() {
    assert_eq!(DetailTab::Logs.title(), "Logs");
    assert_eq!(DetailTab::Filesystem.title(), "Filesystem");
    assert_eq!(DetailTab::Info.title(), "Info");
}

#[test]
fn tests_test_detail_tab_all_has_three_entries() {
    assert_eq!(DetailTab::all().len(), 3);
}

#[test]
fn app_test_detail_tab_titles() {
    assert_eq!(DetailTab::Logs.title(), "Logs");
    assert_eq!(DetailTab::Filesystem.title(), "Filesystem");
    assert_eq!(DetailTab::Info.title(), "Info");
}

#[test]
fn app_test_detail_tab_all_has_three_entries() {
    assert_eq!(DetailTab::all().len(), 3);
}

#[test]
fn tests_test_validate_cidr_accepts_valid_ipv4() {
    assert!(validate_cidr("10.0.0.0/8").is_ok());
    assert!(validate_cidr("192.168.1.1/32").is_ok());
}

#[test]
fn tests_test_validate_cidr_rejects_malformed() {
    assert!(validate_cidr("not-a-cidr").is_err());
    assert!(validate_cidr("10.0.0.0/99").is_err());
    assert!(validate_cidr("999.0.0.0/8").is_err());
    assert!(validate_cidr("10.0.0.0").is_err());
}

#[test]
fn app_test_validate_cidr_accepts_valid_ipv4() {
    assert!(validate_cidr("10.0.0.0/8").is_ok());
    assert!(validate_cidr("192.168.1.1/32").is_ok());
}

#[test]
fn app_test_validate_cidr_rejects_malformed() {
    assert!(validate_cidr("not-a-cidr").is_err());
    assert!(validate_cidr("10.0.0.0/99").is_err());
    assert!(validate_cidr("999.0.0.0/8").is_err());
    assert!(validate_cidr("10.0.0.0").is_err());
}

// ── key events ──────────────────────────────────────────────────────────

#[test]
fn tests_test_release_events_are_ignored() {
    let mut app = make_app();
    handle_event(&mut app, key_release(KeyCode::Char('q')));
    assert!(!app.should_quit);
}

#[test]
fn tests_test_non_key_events_are_ignored() {
    let mut app = make_app();
    handle_event(&mut app, Event::Other);
    assert!(!app.should_quit);
}

#[test]
fn tests_test_q_quits() {
    let mut app = make_app();
    handle_event(&mut app, key_press(KeyCode::Char('q')));
    assert!(app.should_quit);
}

#[test]
fn tests_test_shift_q_quits() {
    let mut app = make_app();
    handle_event(&mut app, key_press(KeyCode::Char('Q')));
    assert!(app.should_quit);
}

#[test]
fn tests_test_ctrl_c_quits() {
    let mut app = make_app();
    handle_event(&mut app, key_press_mod(KeyCode::Char('c'), control()));
    assert!(app.should_quit);
}

#[test]
fn tests_test_esc_closes_dialog() {
    let mut app = make_app();
    app.create_dialog = CreateDialog::open();
    assert!(app.create_dialog.visible);
    handle_event(&mut app, key_press(KeyCode::Esc));
    assert!(!app.create_dialog.visible);
}

#[test]
fn tests_test_esc_does_not_quit() {
    let mut app = make_app();
    app.create_dialog = CreateDialog::open();
    handle_event(&mut app, key_press(KeyCode::Esc));
    assert!(!app.should_quit);
}

#[test]
fn tests_test_esc_outside_dialog_moves_focus_to_list() {
    let mut app = make_app();
    app.focus = Focus::Detail;
    handle_event(&mut app, key_press(KeyCode::Esc));
    assert_eq!(app.focus, Focus::SandboxList);
}

#[test]
fn tests_test_dialog_tab_advances_field() {
    let mut app = make_app();
    app.create_dialog = CreateDialog::open();
    handle_event(&mut app, key_press(KeyCode::Tab));
    assert_eq!(app.create_dialog.field, 1);
}

#[test]
fn tests_test_dialog_backtab_goes_back() {
    let mut app = make_app();
    app.create_dialog = CreateDialog::open();
    app.create_dialog.field = 2;
    handle_event(&mut app, key_press(KeyCode::BackTab));
    assert_eq!(app.create_dialog.field, 1);
}

#[test]
fn tests_test_dialog_char_appends_to_field() {
    let mut app = make_app();
    app.create_dialog = CreateDialog::open();
    app.create_dialog.field = 0;
    handle_event(&mut app, key_press(KeyCode::Char('x')));
    assert_eq!(app.create_dialog.name, "x");
}

#[test]
fn tests_test_dialog_backspace_removes_char() {
    let mut app = make_app();
    app.create_dialog = CreateDialog::open();
    app.create_dialog.name = "ab".into();
    handle_event(&mut app, key_press(KeyCode::Backspace));
    assert_eq!(app.create_dialog.name, "a");
}

#[test]
fn tests_test_dialog_enter_with_empty_name_sets_error() {
    let mut app = make_app();
    app.create_dialog = CreateDialog::open();
    app.create_dialog.name = "".into();
    app.create_dialog.field = app.create_dialog.form_field_count();
    handle_event(&mut app, key_press(KeyCode::Enter));
    assert!(app.create_dialog.error.is_some());
    assert!(app.create_dialog.visible);
}

#[test]
fn tests_test_dialog_enter_with_empty_image_sets_error() {
    let mut app = make_app();
    app.create_dialog = CreateDialog::open();
    app.create_dialog.name = "mybox".into();
    app.create_dialog.image = "".into();
    app.create_dialog.field = app.create_dialog.form_field_count();
    handle_event(&mut app, key_press(KeyCode::Enter));
    assert!(app.create_dialog.error.is_some());
    assert!(app.create_dialog.visible);
}

#[test]
fn tests_test_volumes_view_esc_closes() {
    let mut app = make_app();
    app.volumes_view = VolumesView::open();
    handle_event(&mut app, key_press(KeyCode::Esc));
    assert!(!app.volumes_view.visible);
}

#[test]
fn tests_test_volumes_view_navigation() {
    let mut app = make_app();
    app.volumes_view = VolumesView::open();
    app.volumes_view.volumes = vec![
        VolumeInfo { name: "a".into(), kind: VolumeKind::Directory, quota_mib: None, used_bytes: 0 },
        VolumeInfo { name: "b".into(), kind: VolumeKind::Directory, quota_mib: None, used_bytes: 0 },
    ];
    handle_event(&mut app, key_press(KeyCode::Down));
    assert_eq!(app.volumes_view.selected, 1);
    handle_event(&mut app, key_press(KeyCode::Up));
    assert_eq!(app.volumes_view.selected, 0);
}

#[test]
fn tests_test_volumes_view_add_mode_toggle_and_validation() {
    let mut app = make_app();
    app.volumes_view = VolumesView::open();
    handle_event(&mut app, key_press(KeyCode::Char('n')));
    assert_eq!(app.volumes_view.mode, SubDialogMode::Add);
    handle_event(&mut app, key_press(KeyCode::Char(' ')));
    assert!(app.volumes_view.disk);
    handle_event(&mut app, key_press(KeyCode::Enter));
    assert!(app.volumes_view.error.is_some());
}

#[test]
fn tests_test_tab_switches_focus_list_to_detail() {
    let mut app = make_app();
    assert_eq!(app.focus, Focus::SandboxList);
    handle_event(&mut app, key_press(KeyCode::Tab));
    assert_eq!(app.focus, Focus::Detail);
}

#[test]
fn tests_test_n_opens_dialog() {
    let mut app = make_app();
    handle_event(&mut app, key_press(KeyCode::Char('n')));
    assert!(app.create_dialog.visible);
}

#[test]
fn test_right_switches_focus_to_detail() {
    let mut app = make_app();
    assert_eq!(app.focus, Focus::SandboxList);
    handle_event(&mut app, key_press(KeyCode::Right));
    assert_eq!(app.focus, Focus::Detail);
}

#[test]
fn test_left_does_nothing_in_list_focus() {
    let mut app = make_app();
    assert_eq!(app.focus, Focus::SandboxList);
    handle_event(&mut app, key_press(KeyCode::Left));
    assert_eq!(app.focus, Focus::SandboxList);
    assert_eq!(app.tab, DetailTab::Logs);
}

#[test]
fn tests_test_enter_on_new_sandbox_opens_dialog() {
    let mut app = make_app();
    handle_event(&mut app, key_press(KeyCode::Enter));
    assert!(app.create_dialog.visible);
}

#[test]
fn tests_test_new_sandbox_dialog_prefilled_from_config() {
    let mut app = make_app();
    app.config = AppConfig {
        image: Some("ubuntu:22.04".into()),
        cpus: Some(4),
        memory_mib: Some(2048),
        hostname: Some("dev-box".into()),
        workdir: Some("/workspace".into()),
        user: Some("dev".into()),
        shell: Some("/bin/bash".into()),
    };
    handle_event(&mut app, key_press(KeyCode::Char('n')));
    assert_eq!(app.create_dialog.image, "ubuntu:22.04");
    assert_eq!(app.create_dialog.cpus, "4");
    assert_eq!(app.create_dialog.memory, "2048");
    assert_eq!(app.create_dialog.hostname, "dev-box");
    assert_eq!(app.create_dialog.workdir, "/workspace");
    assert_eq!(app.create_dialog.user, "dev");
    assert_eq!(app.create_dialog.shell, "/bin/bash");
}

#[test]
fn tests_test_new_sandbox_dialog_uses_builtin_defaults_when_config_empty() {
    let mut app = make_app();
    assert_eq!(app.config, AppConfig::default());
    handle_event(&mut app, key_press(KeyCode::Char('n')));
    assert_eq!(app.create_dialog.image, "alpine");
    assert_eq!(app.create_dialog.cpus, "1");
    assert_eq!(app.create_dialog.memory, "512");
    assert_eq!(app.create_dialog.shell, "/bin/sh");
}

// ── sandbox actions and their confirmation ──────────────────────────────

#[test]
fn test_s_start_notifies_when_sandbox_stopped() {
    let mut app = make_app();
    app.sandboxes.push(make_sandbox("box1", Status::Stopped));
    handle_event(&mut app, key_press(KeyCode::Char('s')));
    let n = app.notification.as_ref().unwrap();
    assert!(!n.is_error);
    assert!(n.message.contains("box1"));
    assert!(app.confirm.is_none());
    assert!(matches!(
        app.effects.last(),
        Some(Effect::RunAction { action: SandboxAction::Start, name }) if name == "box1"
    ));
}

#[test]
fn test_s_stop_opens_confirm_dialog_when_sandbox_running() {
    let mut app = make_app();
    app.sandboxes.push(make_sandbox("box1", Status::Running));
    handle_event(&mut app, key_press(KeyCode::Char('s')));
    match app.confirm {
        Some(PendingAction::StopSandbox(ref name)) => assert_eq!(name, "box1"),
        _ => panic!("expected a pending StopSandbox confirmation"),
    }
    assert!(app.notification.is_none());
}

#[test]
fn test_confirming_stop_runs_the_action() {
    let mut app = make_app();
    app.sandboxes.push(make_sandbox("box1", Status::Running));
    handle_event(&mut app, key_press(KeyCode::Char('s')));
    assert!(app.confirm.is_some());
    handle_event(&mut app, key_press(KeyCode::Char('y')));
    assert!(app.confirm.is_none());
    let n = app.notification.as_ref().unwrap();
    assert!(!n.is_error);
    assert!(n.message.contains("box1"));
    assert_eq!(n.message, "Stopping 'box1'…");
    assert!(matches!(
        app.effects.last(),
        Some(Effect::RunAction { action: SandboxAction::Stop, name }) if name == "box1"
    ));
}

#[test]
fn test_cancelling_confirm_dialog_leaves_sandbox_unchanged() {
    let mut app = make_app();
    app.sandboxes.push(make_sandbox("box1", Status::Running));
    handle_event(&mut app, key_press(KeyCode::Char('s')));
    assert!(app.confirm.is_some());
    handle_event(&mut app, key_press(KeyCode::Esc));
    assert!(app.confirm.is_none());
    assert!(app.notification.is_none());
    assert!(!app.effects.iter().any(|e| matches!(e, Effect::RunAction { .. })));
}

#[test]
fn test_d_remove_opens_confirm_dialog_when_sandbox_stopped() {
    let mut app = make_app();
    app.sandboxes.push(make_sandbox("box1", Status::Stopped));
    handle_event(&mut app, key_press(KeyCode::Char('d')));
    match app.confirm {
        Some(PendingAction::RemoveSandbox(ref name)) => assert_eq!(name, "box1"),
        _ => panic!("expected a pending RemoveSandbox confirmation"),
    }
}

#[test]
fn tests_test_d_remove_error_when_sandbox_running() {
    let mut app = make_app();
    app.sandboxes.push(make_sandbox("box1", Status::Running));
    handle_event(&mut app, key_press(KeyCode::Char('d')));
    assert!(app.notification.as_ref().unwrap().is_error);
    assert!(app.confirm.is_none());
}

#[test]
fn t_key_asks_to_confirm_termination_of_running_sandbox() {
    let mut app = make_app();
    app.sandboxes.push(make_sandbox("box1", Status::Running));
    handle_event(&mut app, key_press(KeyCode::Char('t')));
    assert!(matches!(app.confirm, Some(PendingAction::TerminateSandbox(ref n)) if n == "box1"));
}

#[test]
fn pending_confirmation_swallows_other_keys() {
    let mut app = make_app();
    app.sandboxes.push(make_sandbox("box1", Status::Running));
    handle_event(&mut app, key_press(KeyCode::Char('t')));
    let before = app.effects.len();
    handle_event(&mut app, key_press(KeyCode::Char('q')));
    handle_event(&mut app, key_press(KeyCode::Char('n')));
    assert!(!app.should_quit);
    assert!(app.confirm.is_none());
    assert!(!app.create_dialog.visible);
    assert_eq!(app.effects.len(), before);
}

#[test]
fn confirm_message_texts() {
    assert_eq!(PendingAction::StopSandbox("a".into()).confirm_message(), "Stop sandbox 'a'?");
    assert_eq!(
        PendingAction::RemoveVolume("v".into()).confirm_message(),
        "Remove volume 'v'? This deletes all of its data."
    );
}

#[test]
fn tests_test_actions_ignored_in_detail_focus() {
    let mut app = make_app();
    app.sandboxes.push(make_sandbox("box1", Status::Stopped));
    app.focus = Focus::Detail;
    handle_event(&mut app, key_press(KeyCode::Char('s')));
    assert!(app.notification.is_none());
}

// ── search ──────────────────────────────────────────────────────────────

#[test]
fn tests_test_slash_activates_search_mode() {
    let mut app = make_app();
    handle_event(&mut app, key_press(KeyCode::Char('/')));
    assert!(app.search_active);
}

#[test]
fn tests_test_typing_in_search_mode_updates_filter_live() {
    let mut app = make_app();
    app.sandboxes.push(make_sandbox("alpha", Status::Running));
    app.sandboxes.push(make_sandbox("beta", Status::Stopped));
    handle_event(&mut app, key_press(KeyCode::Char('/')));
    handle_event(&mut app, key_press(KeyCode::Char('a')));
    handle_event(&mut app, key_press(KeyCode::Char('l')));
    assert_eq!(app.filter, "al");
    assert_eq!(app.visible_indices(), vec![0]);
}

#[test]
fn tests_test_backspace_in_search_mode_edits_filter() {
    let mut app = make_app();
    handle_event(&mut app, key_press(KeyCode::Char('/')));
    handle_event(&mut app, key_press(KeyCode::Char('a')));
    handle_event(&mut app, key_press(KeyCode::Char('b')));
    handle_event(&mut app, key_press(KeyCode::Backspace));
    assert_eq!(app.filter, "a");
}

#[test]
fn tests_test_esc_in_search_mode_clears_filter_and_exits() {
    let mut app = make_app();
    handle_event(&mut app, key_press(KeyCode::Char('/')));
    handle_event(&mut app, key_press(KeyCode::Char('x')));
    handle_event(&mut app, key_press(KeyCode::Esc));
    assert!(!app.search_active);
    assert!(app.filter.is_empty());
}

#[test]
fn tests_test_enter_in_search_mode_keeps_filter_and_exits_typing() {
    let mut app = make_app();
    handle_event(&mut app, key_press(KeyCode::Char('/')));
    handle_event(&mut app, key_press(KeyCode::Char('x')));
    handle_event(&mut app, key_press(KeyCode::Enter));
    assert!(!app.search_active);
    assert_eq!(app.filter, "x");
}

#[test]
fn tests_test_status_token_filters_by_status() {
    let mut app = make_app();
    app.sandboxes.push(make_sandbox("alpha", Status::Running));
    app.sandboxes.push(make_sandbox("beta", Status::Stopped));
    app.filter = "status:running".to_string();
    assert_eq!(app.visible_indices(), vec![0]);
}

#[test]
fn tests_test_new_sandbox_slot_hidden_while_filter_active() {
    let mut app = make_app();
    app.sandboxes.push(make_sandbox("alpha", Status::Running));
    app.selected = 1;
    assert!(app.new_sandbox_selected());
    app.filter = "alpha".to_string();
    assert!(!app.new_sandbox_selected());
}

#[test]
fn filter_selection_jumps_to_first_match() {
    let mut app = make_app();
    app.sandboxes.push(make_sandbox("alpha", Status::Running));
    app.sandboxes.push(make_sandbox("beta", Status::Stopped));
    app.sandboxes.push(make_sandbox("bravo", Status::Stopped));
    handle_event(&mut app, key_press(KeyCode::Char('/')));
    handle_event(&mut app, key_press(KeyCode::Char('b')));
    assert_eq!(app.selected, 1);
    handle_event(&mut app, key_press(KeyCode::Char('z')));
    assert_eq!(app.selected, 0);
    assert!(app.visible_indices().is_empty());
}

// ── mouse ───────────────────────────────────────────────────────────────

#[test]
fn tests_test_mouse_click_on_card_selects_it() {
    let mut app = make_app();
    app.sandboxes.push(make_sandbox("box0", Status::Stopped));
    app.sandboxes.push(make_sandbox("box1", Status::Stopped));
    app.mouse.card_rects = vec![(rect(0, 0, 10, 6), Some(0)), (rect(0, 6, 10, 6), Some(1))];
    app.selected = 0;
    handle_event(&mut app, mouse_event(MouseEventKind::LeftDown, 3, 7));
    assert_eq!(app.selected, 1);
    assert_eq!(app.focus, Focus::SandboxList);
}

#[test]
fn tests_test_mouse_click_on_tab_switches_tab_and_focus() {
    let mut app = make_app();
    app.sandboxes.push(make_sandbox("box0", Status::Running));
    app.mouse.tab_rects = vec![(rect(0, 0, 8, 1), DetailTab::Logs), (rect(8, 0, 10, 1), DetailTab::Filesystem)];
    app.tab = DetailTab::Logs;
    handle_event(&mut app, mouse_event(MouseEventKind::LeftDown, 9, 0));
    assert_eq!(app.tab, DetailTab::Filesystem);
    assert_eq!(app.focus, Focus::Detail);
}

#[test]
fn tests_test_mouse_scroll_over_list_moves_selection() {
    let mut app = make_app();
    app.sandboxes.push(make_sandbox("box0", Status::Stopped));
    app.sandboxes.push(make_sandbox("box1", Status::Stopped));
    app.mouse.list_area = rect(0, 0, 20, 20);
    app.selected = 0;
    handle_event(&mut app, mouse_event(MouseEventKind::ScrollDown, 2, 2));
    assert_eq!(app.selected, 1);
    handle_event(&mut app, mouse_event(MouseEventKind::ScrollUp, 2, 2));
    assert_eq!(app.selected, 0);
}

#[test]
fn tests_test_mouse_scroll_over_detail_scrolls_logs() {
    let mut app = make_app();
    app.mouse.detail_area = rect(20, 0, 20, 20);
    app.tab = DetailTab::Logs;
    app.log_scroll = 5;
    handle_event(&mut app, mouse_event(MouseEventKind::ScrollDown, 21, 2));
    assert_eq!(app.log_scroll, 8);
    handle_event(&mut app, mouse_event(MouseEventKind::ScrollUp, 21, 2));
    assert_eq!(app.log_scroll, 5);
}

#[test]
fn tests_test_mouse_ignored_while_dialog_open() {
    let mut app = make_app();
    app.sandboxes.push(make_sandbox("box0", Status::Stopped));
    app.create_dialog.visible = true;
    app.mouse.card_rects = vec![(rect(0, 0, 10, 6), Some(0))];
    app.selected = 0;
    handle_event(&mut app, mouse_event(MouseEventKind::LeftDown, 3, 3));
    assert_eq!(app.selected, 0);
}

#[test]
fn tests_test_mouse_click_on_new_sandbox_card_selects_placeholder() {
    let mut app = make_app();
    app.sandboxes.push(make_sandbox("box0", Status::Stopped));
    app.mouse.card_rects = vec![(rect(0, 0, 10, 6), Some(0)), (rect(0, 6, 10, 3), None)];
    handle_event(&mut app, mouse_event(MouseEventKind::LeftDown, 3, 7));
    assert!(app.new_sandbox_selected());
}

// ── scrolling and filesystem navigation ─────────────────────────────────

#[test]
fn tests_test_down_scrolls_logs_in_detail_focus() {
    let mut app = make_app();
    app.focus = Focus::Detail;
    app.tab = DetailTab::Logs;
    handle_event(&mut app, key_press(KeyCode::Down));
    assert!(app.log_scroll > 0);
}

#[test]
fn tests_test_up_scrolls_logs_in_detail_focus() {
    let mut app = make_app();
    app.focus = Focus::Detail;
    app.tab = DetailTab::Logs;
    app.log_scroll = 6;
    handle_event(&mut app, key_press(KeyCode::Up));
    assert_eq!(app.log_scroll, 3);
}

#[test]
fn tests_test_up_scroll_does_not_underflow() {
    let mut app = make_app();
    app.focus = Focus::Detail;
    app.tab = DetailTab::Logs;
    app.log_scroll = 0;
    handle_event(&mut app, key_press(KeyCode::Up));
    assert_eq!(app.log_scroll, 0);
}

#[test]
fn tests_test_backspace_navigates_fs_up() {
    let mut app = make_app();
    app.focus = Focus::Detail;
    app.tab = DetailTab::Filesystem;
    app.fs_path = "/usr/local".into();
    handle_event(&mut app, key_press(KeyCode::Backspace));
    assert_eq!(app.fs_path, "/usr");
}

#[test]
fn tests_test_backspace_at_root_stays_at_root() {
    let mut app = make_app();
    app.focus = Focus::Detail;
    app.tab = DetailTab::Filesystem;
    app.fs_path = "/".into();
    handle_event(&mut app, key_press(KeyCode::Backspace));
    assert_eq!(app.fs_path, "/");
}

#[test]
fn tests_test_r_shows_refreshing_notification() {
    let mut app = make_app();
    handle_event(&mut app, key_press(KeyCode::Char('r')));
    let n = app.notification.as_ref().unwrap();
    assert!(!n.is_error);
    assert!(n.message.contains("efresh"));
    assert!(matches!(app.effects.last(), Some(Effect::RefreshSandboxes)));
}

// ── Esc press and release ───────────────────────────────────────────────

#[test]
fn tests_test_esc_release_closes_dialog() {
    let mut app = make_app();
    app.create_dialog = CreateDialog::open();
    handle_event(&mut app, key_release(KeyCode::Esc));
    assert!(!app.create_dialog.visible, "Esc release must close the dialog");
}

#[test]
fn tests_test_other_release_events_still_ignored_when_dialog_open() {
    let mut app = make_app();
    app.create_dialog = CreateDialog::open();
    handle_event(&mut app, key_release(KeyCode::Char('a')));
    assert_eq!(app.create_dialog.name, "", "key-release must not modify dialog fields");
}

#[test]
fn esc_press_then_release_acts_once() {
    let mut app = make_app();
    app.create_dialog = CreateDialog::open();
    app.create_dialog.port_add.visible = true;
    handle_event(&mut app, key_press(KeyCode::Esc));
    assert!(!app.create_dialog.port_add.visible);
    assert!(app.create_dialog.visible);
    handle_event(&mut app, key_release(KeyCode::Esc));
    assert!(app.create_dialog.visible, "the paired release must not act again");
    assert!(!app.esc_press_handled);
}

// ── create dialog fields ────────────────────────────────────────────────

#[test]
fn tests_test_dialog_down_advances_field() {
    let mut app = make_app();
    app.create_dialog = CreateDialog::open();
    assert_eq!(app.create_dialog.field, 0);
    handle_event(&mut app, key_press(KeyCode::Down));
    assert_eq!(app.create_dialog.field, 1);
}

#[test]
fn tests_test_dialog_up_goes_to_previous_field() {
    let mut app = make_app();
    app.create_dialog = CreateDialog::open();
    app.create_dialog.field = 2;
    handle_event(&mut app, key_press(KeyCode::Up));
    assert_eq!(app.create_dialog.field, 1);
}

#[test]
fn tests_test_dialog_cpus_accepts_digits() {
    let mut app = make_app();
    app.create_dialog = CreateDialog::open();
    app.create_dialog.field = 2;
    app.create_dialog.cpus.clear();
    handle_event(&mut app, key_press(KeyCode::Char('4')));
    assert_eq!(app.create_dialog.cpus, "4");
    assert!(app.create_dialog.error.is_none());
}

#[test]
fn tests_test_dialog_cpus_rejects_letters() {
    let mut app = make_app();
    app.create_dialog = CreateDialog::open();
    app.create_dialog.field = 2;
    handle_event(&mut app, key_press(KeyCode::Char('x')));
    assert_eq!(app.create_dialog.cpus, "1");
    assert!(app.create_dialog.error.is_some());
}

#[test]
fn tests_test_dialog_memory_rejects_letters() {
    let mut app = make_app();
    app.create_dialog = CreateDialog::open();
    app.create_dialog.field = 3;
    handle_event(&mut app, key_press(KeyCode::Char('m')));
    assert_eq!(app.create_dialog.memory, "512");
    assert!(app.create_dialog.error.is_some());
}

#[test]
fn tests_test_dialog_backspace_clears_error() {
    let mut app = make_app();
    app.create_dialog = CreateDialog::open();
    app.create_dialog.field = 2;
    handle_event(&mut app, key_press(KeyCode::Char('x')));
    assert!(app.create_dialog.error.is_some());
    handle_event(&mut app, key_press(KeyCode::Backspace));
    assert!(app.create_dialog.error.is_none());
}

#[test]
fn tests_test_dialog_submit_zero_cpus_sets_error() {
    let mut app = make_app();
    app.create_dialog = CreateDialog::open();
    app.create_dialog.name = "mybox".into();
    app.create_dialog.cpus = "0".into();
    app.create_dialog.field = app.create_dialog.form_field_count();
    handle_event(&mut app, key_press(KeyCode::Enter));
    assert!(app.create_dialog.visible, "dialog stays open on invalid input");
    let err = app.create_dialog.error.as_deref().unwrap_or("");
    assert!(err.contains("1") && err.contains("32"), "error must state valid range");
}

#[test]
fn tests_test_dialog_submit_cpus_above_max_sets_error() {
    let mut app = make_app();
    app.create_dialog = CreateDialog::open();
    app.create_dialog.name = "mybox".into();
    app.create_dialog.cpus = "33".into();
    app.create_dialog.field = app.create_dialog.form_field_count();
    handle_event(&mut app, key_press(KeyCode::Enter));
    assert!(app.create_dialog.visible);
    assert!(app.create_dialog.error.is_some());
}

#[test]
fn tests_test_dialog_submit_memory_below_min_sets_error() {
    let mut app = make_app();
    app.create_dialog = CreateDialog::open();
    app.create_dialog.name = "mybox".into();
    app.create_dialog.memory = "32".into();
    app.create_dialog.field = app.create_dialog.form_field_count();
    handle_event(&mut app, key_press(KeyCode::Enter));
    assert!(app.create_dialog.visible);
    let err = app.create_dialog.error.as_deref().unwrap_or("");
    assert!(err.contains("64"), "error must mention minimum memory");
}

#[test]
fn test_v_key_opens_volumes_view() {
    let mut app = make_app();
    handle_event(&mut app, key_press(KeyCode::Char('v')));
    assert!(app.volumes_view.visible);
}

#[test]
fn test_submit_parses_ports_correctly() {
    let mut app = make_app();
    app.create_dialog = CreateDialog::open();
    app.create_dialog.name = "mybox".into();
    app.create_dialog.ports = vec![(8080, 80), (443, 443)];

    app.create_dialog.field = app.create_dialog.form_field_count(); // Create button
    handle_event(&mut app, key_press(KeyCode::Enter));
    assert!(!app.create_dialog.visible);
    match app.effects.last() {
        Some(Effect::CreateSandbox(cfg)) => {
            assert_eq!(cfg.name, "mybox");
            assert_eq!(cfg.ports, vec![(8080u16, 80u16), (443u16, 443u16)]);
        }
        other => panic!("unexpected effect {:?}", other),
    }
}

#[test]
fn test_down_moves_selection_in_list() {
    let mut app = make_app();
    app.sandboxes.push(make_sandbox("a", Status::Running));
    app.sandboxes.push(make_sandbox("b", Status::Running));
    handle_event(&mut app, key_press(KeyCode::Down));
    assert_eq!(app.selected, 1);
}

#[test]
fn test_up_moves_selection_in_list() {
    let mut app = make_app();
    app.sandboxes.push(make_sandbox("a", Status::Running));
    app.sandboxes.push(make_sandbox("b", Status::Running));
    app.selected = 1;
    handle_event(&mut app, key_press(KeyCode::Up));
    assert_eq!(app.selected, 0);
}

#[test]
fn test_right_advances_tab_in_detail_focus() {
    let mut app = make_app();
    app.focus = Focus::Detail;
    handle_event(&mut app, key_press(KeyCode::Right));
    assert_eq!(app.tab, DetailTab::Filesystem);
}

#[test]
fn test_left_goes_back_tab_in_detail_focus() {
    let mut app = make_app();
    app.focus = Focus::Detail;
    app.tab = DetailTab::Filesystem;
    handle_event(&mut app, key_press(KeyCode::Left));
    assert_eq!(app.tab, DetailTab::Logs);
}

#[test]
fn test_enter_on_sandbox_moves_focus_to_detail() {
    let mut app = make_app();
    app.sandboxes.push(make_sandbox("a", Status::Running));
    handle_event(&mut app, key_press(KeyCode::Enter));
    assert_eq!(app.focus, Focus::Detail);
}

// Each scenario below repeats one above under a second name.

#[test]
fn app_test_initial_state() {
    tests_test_initial_state();
}

#[test]
fn app_test_selected_sandbox_empty() {
    tests_test_selected_sandbox_empty();
}

#[test]
fn app_test_selected_sandbox_first() {
    tests_test_selected_sandbox_first();
}

#[test]
fn app_test_selected_sandbox_second() {
    tests_test_selected_sandbox_second();
}

#[test]
fn app_test_new_sandbox_selected_empty_list() {
    tests_test_new_sandbox_selected_empty_list();
}

#[test]
fn app_test_new_sandbox_selected_false_when_sandbox_focused() {
    tests_test_new_sandbox_selected_false_when_sandbox_focused();
}

#[test]
fn app_test_new_sandbox_selected_true_at_end() {
    tests_test_new_sandbox_selected_true_at_end();
}

#[test]
fn app_test_log_stream_target_none_when_not_on_logs_tab() {
    tests_test_log_stream_target_none_when_not_on_logs_tab();
}

#[test]
fn app_test_log_stream_target_none_when_sandbox_stopped() {
    tests_test_log_stream_target_none_when_sandbox_stopped();
}

#[test]
fn app_test_log_stream_target_some_when_running_on_logs_tab() {
    tests_test_log_stream_target_some_when_running_on_logs_tab();
}

#[test]
fn app_test_log_stream_target_none_when_no_sandbox_selected() {
    tests_test_log_stream_target_none_when_no_sandbox_selected();
}

#[test]
fn app_test_handle_message_log_stream_entry_appends() {
    tests_test_handle_message_log_stream_entry_appends();
}

#[test]
fn app_test_handle_message_log_stream_entry_caps_at_max_lines() {
    tests_test_handle_message_log_stream_entry_caps_at_max_lines();
}

#[test]
fn app_test_handle_message_metrics_appends_history() {
    tests_test_handle_message_metrics_appends_history();
}

#[test]
fn app_test_handle_message_metrics_history_caps_at_limit() {
    tests_test_handle_message_metrics_history_caps_at_limit();
}

#[test]
fn app_test_select_next_empty_does_nothing() {
    tests_test_select_next_empty_does_nothing();
}

#[test]
fn app_test_select_next_advances() {
    tests_test_select_next_advances();
}

#[test]
fn app_test_select_next_can_reach_new_sandbox_slot() {
    tests_test_select_next_can_reach_new_sandbox_slot();
}

#[test]
fn app_test_select_next_stops_at_new_sandbox_slot() {
    tests_test_select_next_stops_at_new_sandbox_slot();
}

#[test]
fn app_test_select_prev_stops_at_zero() {
    tests_test_select_prev_stops_at_zero();
}

#[test]
fn app_test_select_prev_moves_back() {
    tests_test_select_prev_moves_back();
}

#[test]
fn app_test_next_tab_cycles_forward() {
    tests_test_next_tab_cycles_forward();
}

#[test]
fn app_test_prev_tab_cycles_backward() {
    tests_test_prev_tab_cycles_backward();
}

#[test]
fn app_test_tab_switch_resets_scroll() {
    tests_test_tab_switch_resets_scroll();
}

#[test]
fn app_test_notify_sets_message() {
    tests_test_notify_sets_message();
}

#[test]
fn app_test_notify_error_flag() {
    tests_test_notify_error_flag();
}

#[test]
fn app_test_notify_replaces_previous() {
    tests_test_notify_replaces_previous();
}

#[test]
fn app_test_create_dialog_default_is_closed() {
    tests_test_create_dialog_default_is_closed();
}

#[test]
fn app_test_create_dialog_open_has_defaults() {
    tests_test_create_dialog_open_has_defaults();
}

#[test]
fn app_test_handle_message_sandbox_list_populates() {
    tests_test_handle_message_sandbox_list_populates();
}

#[test]
fn app_test_handle_message_sandbox_list_error_notifies() {
    tests_test_handle_message_sandbox_list_error_notifies();
}

#[test]
fn app_test_handle_message_preserves_selection_by_name() {
    tests_test_handle_message_preserves_selection_by_name();
}

#[test]
fn app_test_handle_message_selection_clamps_when_sandbox_removed() {
    tests_test_handle_message_selection_clamps_when_sandbox_removed();
}

#[test]
fn app_test_handle_message_log_entries_stored() {
    tests_test_handle_message_log_entries_stored();
}

#[test]
fn app_test_handle_message_log_error_notifies() {
    tests_test_handle_message_log_error_notifies();
}

#[test]
fn app_test_handle_message_metrics_stored() {
    tests_test_handle_message_metrics_stored();
}

#[test]
fn app_test_handle_message_metrics_none_no_panic() {
    tests_test_handle_message_metrics_none_no_panic();
}

#[test]
fn app_test_handle_message_metrics_error_notifies() {
    tests_test_handle_message_metrics_error_notifies();
}

#[test]
fn app_test_handle_message_fs_entries_stored() {
    tests_test_handle_message_fs_entries_stored();
}

#[test]
fn app_test_handle_message_fs_none_no_panic() {
    tests_test_handle_message_fs_none_no_panic();
}

#[test]
fn app_test_handle_message_fs_error_notifies() {
    tests_test_handle_message_fs_error_notifies();
}

#[test]
fn app_test_handle_message_notification() {
    tests_test_handle_message_notification();
}

#[test]
fn app_test_release_events_are_ignored() {
    tests_test_release_events_are_ignored();
}

#[test]
fn app_test_non_key_events_are_ignored() {
    tests_test_non_key_events_are_ignored();
}

#[test]
fn app_test_q_quits() {
    tests_test_q_quits();
}

#[test]
fn app_test_shift_q_quits() {
    tests_test_shift_q_quits();
}

#[test]
fn app_test_ctrl_c_quits() {
    tests_test_ctrl_c_quits();
}

#[test]
fn app_test_esc_closes_dialog() {
    tests_test_esc_closes_dialog();
}

#[test]
fn app_test_esc_does_not_quit() {
    tests_test_esc_does_not_quit();
}

#[test]
fn app_test_esc_outside_dialog_moves_focus_to_list() {
    tests_test_esc_outside_dialog_moves_focus_to_list();
}

#[test]
fn app_test_dialog_tab_advances_field() {
    tests_test_dialog_tab_advances_field();
}

#[test]
fn app_test_dialog_backtab_goes_back() {
    tests_test_dialog_backtab_goes_back();
}

#[test]
fn app_test_dialog_char_appends_to_field() {
    tests_test_dialog_char_appends_to_field();
}

#[test]
fn app_test_dialog_backspace_removes_char() {
    tests_test_dialog_backspace_removes_char();
}

#[test]
fn app_test_dialog_enter_with_empty_name_sets_error() {
    tests_test_dialog_enter_with_empty_name_sets_error();
}

#[test]
fn app_test_dialog_enter_with_empty_image_sets_error() {
    tests_test_dialog_enter_with_empty_image_sets_error();
}

#[test]
fn app_test_v_key_opens_volumes_view() {
    test_v_key_opens_volumes_view();
}

#[test]
fn app_test_volumes_view_esc_closes() {
    tests_test_volumes_view_esc_closes();
}

#[test]
fn app_test_volumes_view_navigation() {
    tests_test_volumes_view_navigation();
}

#[test]
fn app_test_volumes_view_add_mode_toggle_and_validation() {
    tests_test_volumes_view_add_mode_toggle_and_validation();
}

#[test]
fn app_test_handle_message_volume_list_updates_state() {
    tests_test_handle_message_volume_list_updates_state();
}

#[test]
fn app_test_submit_parses_ports_correctly() {
    test_submit_parses_ports_correctly();
}

#[test]
fn app_test_tab_switches_focus_list_to_detail() {
    tests_test_tab_switches_focus_list_to_detail();
}

#[test]
fn app_test_n_opens_dialog() {
    tests_test_n_opens_dialog();
}

#[test]
fn app_test_down_moves_selection_in_list() {
    test_down_moves_selection_in_list();
}

#[test]
fn app_test_up_moves_selection_in_list() {
    test_up_moves_selection_in_list();
}

#[test]
fn app_test_right_advances_tab_in_detail_focus() {
    test_right_advances_tab_in_detail_focus();
}

#[test]
fn app_test_left_goes_back_tab_in_detail_focus() {
    test_left_goes_back_tab_in_detail_focus();
}

#[test]
fn app_test_enter_on_sandbox_moves_focus_to_detail() {
    test_enter_on_sandbox_moves_focus_to_detail();
}

#[test]
fn app_test_enter_on_new_sandbox_opens_dialog() {
    tests_test_enter_on_new_sandbox_opens_dialog();
}

#[test]
fn app_test_new_sandbox_dialog_prefilled_from_config() {
    tests_test_new_sandbox_dialog_prefilled_from_config();
}

#[test]
fn app_test_new_sandbox_dialog_uses_builtin_defaults_when_config_empty() {
    tests_test_new_sandbox_dialog_uses_builtin_defaults_when_config_empty();
}

#[test]
fn app_test_slash_activates_search_mode() {
    tests_test_slash_activates_search_mode();
}

#[test]
fn app_test_typing_in_search_mode_updates_filter_live() {
    tests_test_typing_in_search_mode_updates_filter_live();
}

#[test]
fn app_test_backspace_in_search_mode_edits_filter() {
    tests_test_backspace_in_search_mode_edits_filter();
}

#[test]
fn app_test_esc_in_search_mode_clears_filter_and_exits() {
    tests_test_esc_in_search_mode_clears_filter_and_exits();
}

#[test]
fn app_test_enter_in_search_mode_keeps_filter_and_exits_typing() {
    tests_test_enter_in_search_mode_keeps_filter_and_exits_typing();
}

#[test]
fn app_test_status_token_filters_by_status() {
    tests_test_status_token_filters_by_status();
}

#[test]
fn app_test_new_sandbox_slot_hidden_while_filter_active() {
    tests_test_new_sandbox_slot_hidden_while_filter_active();
}

#[test]
fn app_test_mouse_click_on_card_selects_it() {
    tests_test_mouse_click_on_card_selects_it();
}

#[test]
fn app_test_mouse_click_on_tab_switches_tab_and_focus() {
    tests_test_mouse_click_on_tab_switches_tab_and_focus();
}

#[test]
fn app_test_mouse_scroll_over_list_moves_selection() {
    tests_test_mouse_scroll_over_list_moves_selection();
}

#[test]
fn app_test_mouse_scroll_over_detail_scrolls_logs() {
    tests_test_mouse_scroll_over_detail_scrolls_logs();
}

#[test]
fn app_test_mouse_ignored_while_dialog_open() {
    tests_test_mouse_ignored_while_dialog_open();
}

#[test]
fn app_test_mouse_click_on_new_sandbox_card_selects_placeholder() {
    tests_test_mouse_click_on_new_sandbox_card_selects_placeholder();
}

#[test]
fn app_test_actions_ignored_in_detail_focus() {
    tests_test_actions_ignored_in_detail_focus();
}

#[test]
fn app_test_down_scrolls_logs_in_detail_focus() {
    tests_test_down_scrolls_logs_in_detail_focus();
}

#[test]
fn app_test_up_scrolls_logs_in_detail_focus() {
    tests_test_up_scrolls_logs_in_detail_focus();
}

#[test]
fn app_test_up_scroll_does_not_underflow() {
    tests_test_up_scroll_does_not_underflow();
}

#[test]
fn app_test_backspace_navigates_fs_up() {
    tests_test_backspace_navigates_fs_up();
}

#[test]
fn app_test_backspace_at_root_stays_at_root() {
    tests_test_backspace_at_root_stays_at_root();
}

#[test]
fn app_test_r_shows_refreshing_notification() {
    tests_test_r_shows_refreshing_notification();
}

#[test]
fn app_test_esc_release_closes_dialog() {
    tests_test_esc_release_closes_dialog();
}

#[test]
fn app_test_other_release_events_still_ignored_when_dialog_open() {
    tests_test_other_release_events_still_ignored_when_dialog_open();
}

#[test]
fn app_test_dialog_down_advances_field() {
    tests_test_dialog_down_advances_field();
}

#[test]
fn app_test_dialog_up_goes_to_previous_field() {
    tests_test_dialog_up_goes_to_previous_field();
}

#[test]
fn app_test_dialog_cpus_accepts_digits() {
    tests_test_dialog_cpus_accepts_digits();
}

#[test]
fn app_test_dialog_cpus_rejects_letters() {
    tests_test_dialog_cpus_rejects_letters();
}

#[test]
fn app_test_dialog_memory_rejects_letters() {
    tests_test_dialog_memory_rejects_letters();
}

#[test]
fn app_test_dialog_backspace_clears_error() {
    tests_test_dialog_backspace_clears_error();
}

#[test]
fn app_test_dialog_submit_zero_cpus_sets_error() {
    tests_test_dialog_submit_zero_cpus_sets_error();
}

#[test]
fn app_test_dialog_submit_cpus_above_max_sets_error() {
    tests_test_dialog_submit_cpus_above_max_sets_error();
}

#[test]
fn app_test_dialog_submit_memory_below_min_sets_error() {
    tests_test_dialog_submit_memory_below_min_sets_error();
}

#[test]
fn esc_clears_every_field_of_a_prefilled_create_dialog() {
    let mut app = make_app();
    let cfg = AppConfig {
        image: Some("alpine".to_string()),
        cpus: Some(2),
        memory_mib: Some(512),
        hostname: Some("box".to_string()),
        workdir: Some("/work".to_string()),
        user: Some("me".to_string()),
        shell: Some("/bin/sh".to_string()),
    };
    app.create_dialog = CreateDialog::open_with_config(&cfg);
    assert_eq!(app.create_dialog.image, "alpine");
    for c in "web".chars() {
        handle_event(&mut app, key_press(KeyCode::Char(c)));
    }
    handle_event(&mut app, key_press(KeyCode::Esc));
    let d = &app.create_dialog;
    assert!(!d.visible);
    assert_eq!(d.tab, DialogTab::Basic);
    assert_eq!(d.field, 0);
    for text in [&d.name, &d.image, &d.cpus, &d.memory, &d.workdir, &d.hostname, &d.user, &d.shell] {
        assert_eq!(text, "");
    }
    assert!(!app.should_quit);
}

#[test]
fn ensure_caches_ask_only_when_missing() {
    let mut app = make_app();
    let _ = app.take_effects();
    assert!(!app.ensure_logs("web"));
    assert!(!app.ensure_metrics("web", false));
    assert!(app.ensure_metrics("web", true));
    assert!(!app.ensure_fs("web", "/"));
    let effects = app.take_effects();
    assert_eq!(effects.len(), 3);
    assert!(matches!(&effects[0], Effect::FetchLogs(n) if n == "web"));
    assert!(matches!(&effects[1], Effect::FetchMetrics(n) if n == "web"));
    assert!(matches!(&effects[2], Effect::ListFs { name, path } if name == "web" && path == "/"));

    app.logs.insert("web".to_string(), vec![log_line(b"hi")]);
    app.metrics.insert("web".to_string(), MetricsSnapshot::default());
    assert!(app.ensure_logs("web"));
    assert!(!app.ensure_metrics("web", true));
    assert!(app.take_effects().is_empty());
}

use microsandbox_tui::app::actions::{expire_notification, on_refresh_tick, SandboxAction};
use microsandbox_tui::app::dialogs::{
    picker_start_path, CreateDialog, DialogTab, MountAddDialog, NetRuleAddDialog, SecretAddDialog,
    DRIVES_ENTRY,
};
use microsandbox_tui::app::keys::{
    handle_event, Event, KeyCode, KeyEvent, KeyEventKind, KeyModifiers,
};
use microsandbox_tui::app::messages::{AppMessage, Outcome};
use microsandbox_tui::app::popups::parse_allowed_hosts;
use microsandbox_tui::app::validate::{is_ip_address, parse_port_range};
use microsandbox_tui::app::{App, Effect, Focus, PickerTarget};
use microsandbox_tui::config::AppConfig;
use microsandbox_tui::layout::{
    compute_first_visible, create_button_width, format_mount_entry, label, truncate,
};
use microsandbox_tui::sandbox::{
    MountSource, NetRuleAction, NetRuleDestGroup, NetRuleDestKind, NetRuleDirection,
    NetRuleProtocol, NetworkRule, SandboxInfo, SandboxStatus, SecretConfig, SecretHostKind,
    SecretHostPattern, VolumeMountConfig,
};
use microsandbox_tui::shell::{escape_applescript, shell_join, shell_quote};

fn fresh_app() -> App {
    App::new(AppConfig::empty())
}

fn press(app: &mut App, code: KeyCode) {
    handle_event(app, Event::Key(KeyEvent::press(code)));
}

fn type_text(app: &mut App, text: &str) {
    for c in text.chars() {
        press(app, KeyCode::Char(c));
    }
}

fn sandbox(name: &str, status: SandboxStatus) -> SandboxInfo {
    SandboxInfo {
        name: name.into(),
        status,
        image: "alpine:latest".into(),
        cpus: 1,
        memory_mib: 512,
        created_at: None,
        updated_at: None,
        workdir: None,
    }
}

fn app_with(sandboxes: Vec<SandboxInfo>) -> App {
    let mut app = fresh_app();
    app.handle_message(AppMessage::SandboxList(Ok(sandboxes)));
    app.effects.clear();
    app
}

/// Open the create dialog and move to the given tab.
fn dialog_on_tab(tab: DialogTab) -> App {
    let mut app = fresh_app();
    press(&mut app, KeyCode::Char('n'));
    assert!(app.create_dialog.visible);
    while app.create_dialog.tab != tab {
        press(&mut app, KeyCode::Right);
    }
    app
}

fn notification_text(app: &App) -> (String, bool) {
    let n = app.notification.as_ref().expect("a notification");
    (n.message.clone(), n.is_error)
}

// ----- port popup -------------------------------------------------------

#[test]
fn port_mapping_added_through_popup() {
    let mut app = dialog_on_tab(DialogTab::Network);
    press(&mut app, KeyCode::Down);
    assert_eq!(app.create_dialog.field, 1);
    press(&mut app, KeyCode::Enter);
    assert!(app.create_dialog.list_edit_mode);
    press(&mut app, KeyCode::Char('a'));
    assert!(app.create_dialog.port_add.visible);
    type_text(&mut app, "8080");
    press(&mut app, KeyCode::Enter);
    type_text(&mut app, "80");
    press(&mut app, KeyCode::Enter);
    assert!(!app.create_dialog.port_add.visible);
    assert_eq!(app.create_dialog.ports, vec![(8080u16, 80u16)]);
}

#[test]
fn port_popup_refuses_letters_and_large_ports() {
    let mut app = dialog_on_tab(DialogTab::Network);
    press(&mut app, KeyCode::Down);
    press(&mut app, KeyCode::Enter);
    press(&mut app, KeyCode::Char('a'));
    type_text(&mut app, "7x0000");
    assert_eq!(app.create_dialog.port_add.host_input, "70000");
    press(&mut app, KeyCode::Enter);
    type_text(&mut app, "22");
    press(&mut app, KeyCode::Enter);
    assert!(app.create_dialog.port_add.visible);
    assert_eq!(
        app.create_dialog.port_add.error.as_deref(),
        Some("Invalid host port (0–65535)")
    );
    assert!(app.create_dialog.ports.is_empty());
}

#[test]
fn port_mapping_deleted_from_list() {
    let mut app = dialog_on_tab(DialogTab::Network);
    app.create_dialog.ports = vec![(1, 2), (3, 4)];
    press(&mut app, KeyCode::Down);
    press(&mut app, KeyCode::Enter);
    press(&mut app, KeyCode::Down);
    assert_eq!(app.create_dialog.ports_selected, 1);
    press(&mut app, KeyCode::Char('d'));
    assert_eq!(app.create_dialog.ports, vec![(1u16, 2u16)]);
    assert_eq!(app.create_dialog.ports_selected, 0);
}

// ----- environment variables -------------------------------------------

#[test]
fn env_var_added_through_popup() {
    let mut app = dialog_on_tab(DialogTab::GuestOs);
    for _ in 0..3 {
        press(&mut app, KeyCode::Down);
    }
    assert_eq!(app.create_dialog.field, 3);
    press(&mut app, KeyCode::Enter);
    press(&mut app, KeyCode::Char('a'));
    assert!(app.create_dialog.env_var_add.visible);
    type_text(&mut app, " FOO ");
    press(&mut app, KeyCode::Enter);
    type_text(&mut app, "a b");
    press(&mut app, KeyCode::Enter);
    assert!(!app.create_dialog.env_var_add.visible);
    assert_eq!(app.create_dialog.env_vars, vec![("FOO".to_string(), "a b".to_string())]);
}

#[test]
fn env_var_key_refuses_equals_sign() {
    let mut app = dialog_on_tab(DialogTab::GuestOs);
    for _ in 0..3 {
        press(&mut app, KeyCode::Down);
    }
    press(&mut app, KeyCode::Enter);
    press(&mut app, KeyCode::Char('a'));
    type_text(&mut app, "A=");
    assert_eq!(app.create_dialog.env_var_add.key_input, "A");
    assert_eq!(
        app.create_dialog.env_var_add.error.as_deref(),
        Some("Key must not contain '='")
    );
}

#[test]
fn env_var_empty_key_is_refused() {
    let mut app = dialog_on_tab(DialogTab::GuestOs);
    for _ in 0..3 {
        press(&mut app, KeyCode::Down);
    }
    press(&mut app, KeyCode::Enter);
    press(&mut app, KeyCode::Char('a'));
    press(&mut app, KeyCode::Enter);
    press(&mut app, KeyCode::Enter);
    assert!(app.create_dialog.env_var_add.visible);
    assert_eq!(app.create_dialog.env_var_add.error.as_deref(), Some("Key cannot be empty"));
}

// ----- network toggle ---------------------------------------------------

#[test]
fn disabling_network_skips_its_fields() {
    let mut app = dialog_on_tab(DialogTab::Network);
    assert_eq!(app.create_dialog.field, 0);
    press(&mut app, KeyCode::Char(' '));
    assert!(app.create_dialog.disable_network);
    press(&mut app, KeyCode::Down);
    assert_eq!(app.create_dialog.field, 3);
    press(&mut app, KeyCode::Up);
    assert_eq!(app.create_dialog.field, 0);
}

// ----- secrets ----------------------------------------------------------

#[test]
fn secret_added_through_popup() {
    let mut app = dialog_on_tab(DialogTab::Secrets);
    press(&mut app, KeyCode::Enter);
    press(&mut app, KeyCode::Char('a'));
    assert!(app.create_dialog.secret_add.visible);
    type_text(&mut app, "API_KEY");
    press(&mut app, KeyCode::Enter);
    type_text(&mut app, "s3cret");
    press(&mut app, KeyCode::Enter);
    type_text(&mut app, "api.example.com, *.example.org ,");
    for _ in 2..7 {
        press(&mut app, KeyCode::Enter);
    }
    assert_eq!(app.create_dialog.secret_add.add_field, 7);
    press(&mut app, KeyCode::Enter);
    assert!(!app.create_dialog.secret_add.visible);
    assert_eq!(app.create_dialog.secrets.len(), 1);
    let s = &app.create_dialog.secrets[0];
    assert_eq!(s.env_var, "API_KEY");
    assert_eq!(s.value, "s3cret");
    assert_eq!(s.allowed_hosts.len(), 2);
    assert_eq!(s.allowed_hosts[0].kind, SecretHostKind::Exact);
    assert_eq!(s.allowed_hosts[0].value, "api.example.com");
    assert_eq!(s.allowed_hosts[1].kind, SecretHostKind::Wildcard);
    assert_eq!(s.allowed_hosts[1].value, "*.example.org");
}

#[test]
fn secret_without_hosts_is_refused() {
    let mut app = dialog_on_tab(DialogTab::Secrets);
    press(&mut app, KeyCode::Enter);
    press(&mut app, KeyCode::Char('a'));
    type_text(&mut app, "TOKEN");
    press(&mut app, KeyCode::Enter);
    type_text(&mut app, "v");
    for _ in 1..7 {
        press(&mut app, KeyCode::Enter);
    }
    press(&mut app, KeyCode::Enter);
    assert!(app.create_dialog.secret_add.visible);
    assert_eq!(
        app.create_dialog.secret_add.error.as_deref(),
        Some("At least one allowed host is required")
    );
}

#[test]
fn allowed_hosts_parse_any_wildcard_and_exact() {
    let hs = parse_allowed_hosts(" * , a.com,,*.b.com ");
    assert_eq!(hs.len(), 3);
    assert_eq!(hs[0].kind, SecretHostKind::Any);
    assert_eq!(hs[0].value, "");
    assert_eq!(hs[1].kind, SecretHostKind::Exact);
    assert_eq!(hs[1].value, "a.com");
    assert_eq!(hs[2].kind, SecretHostKind::Wildcard);
    assert_eq!(hs[2].value, "*.b.com");
    assert!(parse_allowed_hosts(" , ").is_empty());
}

// ----- directory picker -------------------------------------------------

#[test]
fn workdir_field_asks_for_picker_at_root_when_blank() {
    let mut app = dialog_on_tab(DialogTab::Basic);
    for _ in 0..6 {
        press(&mut app, KeyCode::Down);
    }
    assert_eq!(app.create_dialog.field, 6);
    press(&mut app, KeyCode::Enter);
    match app.effects.last() {
        Some(Effect::PickerOpen { target, path }) => {
            assert_eq!(*target, PickerTarget::Workdir);
            assert_eq!(path, "/");
        }
        other => panic!("unexpected effect {:?}", other),
    }
}

#[test]
fn ctrl_f_on_workdir_asks_for_picker_at_trimmed_path() {
    let mut app = dialog_on_tab(DialogTab::Basic);
    app.create_dialog.workdir = "  /srv/app ".into();
    for _ in 0..6 {
        press(&mut app, KeyCode::Down);
    }
    let ctrl_f = KeyEvent {
        code: KeyCode::Char('f'),
        modifiers: KeyModifiers { control: true, shift: false },
        kind: KeyEventKind::Press,
    };
    handle_event(&mut app, Event::Key(ctrl_f));
    match app.effects.last() {
        Some(Effect::PickerOpen { target, path }) => {
            assert_eq!(*target, PickerTarget::Workdir);
            assert_eq!(path, "/srv/app");
        }
        other => panic!("unexpected effect {:?}", other),
    }
    assert_eq!(app.create_dialog.workdir, "  /srv/app ");
}

#[test]
fn picker_enter_joins_highlighted_directory() {
    let mut app = dialog_on_tab(DialogTab::Basic);
    app.handle_message(AppMessage::PickerListing {
        target: PickerTarget::Workdir,
        path: "/home".into(),
        subdirs: vec!["user".into(), "guest".into()],
    });
    let p = &app.create_dialog.dir_picker;
    assert!(p.visible);
    assert_eq!(p.entries, vec![DRIVES_ENTRY.to_string(), "..".into(), "guest".into(), "user".into()]);
    for _ in 0..3 {
        press(&mut app, KeyCode::Down);
    }
    press(&mut app, KeyCode::Enter);
    match app.effects.last() {
        Some(Effect::PickerNavigate { target, path }) => {
            assert_eq!(*target, PickerTarget::Workdir);
            assert_eq!(path, "/home/user");
        }
        other => panic!("unexpected effect {:?}", other),
    }
}

#[test]
fn picker_parent_entry_goes_up_and_root_shows_drives() {
    let mut app = dialog_on_tab(DialogTab::Basic);
    app.handle_message(AppMessage::PickerListing {
        target: PickerTarget::Workdir,
        path: "/home/user".into(),
        subdirs: vec![],
    });
    press(&mut app, KeyCode::Down);
    press(&mut app, KeyCode::Enter);
    match app.effects.last() {
        Some(Effect::PickerNavigate { path, .. }) => assert_eq!(path, "/home"),
        other => panic!("unexpected effect {:?}", other),
    }
    app.handle_message(AppMessage::PickerListing {
        target: PickerTarget::Workdir,
        path: "/".into(),
        subdirs: vec![],
    });
    press(&mut app, KeyCode::Down);
    press(&mut app, KeyCode::Enter);
    assert!(matches!(
        app.effects.last(),
        Some(Effect::PickerShowDrives(PickerTarget::Workdir))
    ));
}

#[test]
fn picker_space_picks_directory_and_closes() {
    let mut app = dialog_on_tab(DialogTab::Basic);
    app.handle_message(AppMessage::PickerListing {
        target: PickerTarget::Workdir,
        path: "/srv/app".into(),
        subdirs: vec![],
    });
    press(&mut app, KeyCode::Char(' '));
    assert!(!app.create_dialog.dir_picker.visible);
    assert_eq!(app.create_dialog.workdir, "/srv/app");
}

// ----- exec, shell and volumes -----------------------------------------

#[test]
fn exec_dialog_enter_asks_for_terminal() {
    let mut app = app_with(vec![sandbox("web", SandboxStatus::Running)]);
    press(&mut app, KeyCode::Char('e'));
    assert!(app.exec_dialog.visible);
    assert_eq!(app.exec_dialog.sandbox_name, "web");
    type_text(&mut app, "  ls -la ");
    press(&mut app, KeyCode::Enter);
    assert!(!app.exec_dialog.visible);
    match app.effects.last() {
        Some(Effect::OpenExecTerminal { sandbox, command }) => {
            assert_eq!(sandbox, "web");
            assert_eq!(command, "ls -la");
        }
        other => panic!("unexpected effect {:?}", other),
    }
}

#[test]
fn exec_dialog_refuses_blank_command() {
    let mut app = app_with(vec![sandbox("web", SandboxStatus::Running)]);
    press(&mut app, KeyCode::Char('e'));
    type_text(&mut app, "   ");
    press(&mut app, KeyCode::Enter);
    assert!(app.exec_dialog.visible);
    assert_eq!(app.exec_dialog.error.as_deref(), Some("Command cannot be empty"));
    assert!(app.effects.is_empty());
}

#[test]
fn exec_on_stopped_sandbox_notifies() {
    let mut app = app_with(vec![sandbox("db", SandboxStatus::Stopped)]);
    press(&mut app, KeyCode::Char('e'));
    assert!(!app.exec_dialog.visible);
    assert_eq!(notification_text(&app), ("Sandbox is not running".to_string(), true));
}

#[test]
fn shell_key_asks_for_shell_terminal() {
    let mut app = app_with(vec![sandbox("web", SandboxStatus::Running)]);
    press(&mut app, KeyCode::Char('h'));
    assert!(matches!(app.effects.last(), Some(Effect::OpenShellTerminal(n)) if n == "web"));
    let mut stopped = app_with(vec![sandbox("db", SandboxStatus::Stopped)]);
    press(&mut stopped, KeyCode::Char('h'));
    assert!(stopped.effects.is_empty());
    assert_eq!(notification_text(&stopped), ("Sandbox is not running".to_string(), true));
}

#[test]
fn volumes_view_creates_named_volume() {
    let mut app = fresh_app();
    press(&mut app, KeyCode::Char('v'));
    assert!(app.volumes_view.visible);
    assert!(matches!(app.effects.last(), Some(Effect::RefreshVolumes)));
    press(&mut app, KeyCode::Char('n'));
    type_text(&mut app, " data ");
    press(&mut app, KeyCode::Char(' '));
    press(&mut app, KeyCode::Enter);
    match app.effects.last() {
        Some(Effect::CreateVolume { name, disk }) => {
            assert_eq!(name, "data");
            assert!(*disk);
        }
        other => panic!("unexpected effect {:?}", other),
    }
}

// ----- outcomes, timers ------------------------------------------------

#[test]
fn outcome_notices_are_exact() {
    let mut app = fresh_app();
    app.handle_message(AppMessage::Outcome(Outcome::Action {
        action: SandboxAction::Start,
        name: "web".into(),
        result: Ok(()),
    }));
    assert_eq!(notification_text(&app), ("Start 'web' OK".to_string(), false));
    app.handle_message(AppMessage::Outcome(Outcome::Action {
        action: SandboxAction::Remove,
        name: "web".into(),
        result: Err("busy".into()),
    }));
    assert_eq!(notification_text(&app), ("Remove 'web' failed: busy".to_string(), true));
    app.handle_message(AppMessage::Outcome(Outcome::SandboxCreated {
        name: "x".into(),
        result: Err("no image".into()),
    }));
    assert_eq!(notification_text(&app), ("Create failed: no image".to_string(), true));
    app.handle_message(AppMessage::Outcome(Outcome::VolumeRemoved {
        name: "v".into(),
        result: Err("in use".into()),
    }));
    assert_eq!(notification_text(&app), ("Remove volume failed: in use".to_string(), true));
    app.handle_message(AppMessage::Outcome(Outcome::ExecTerminal {
        sandbox: "web".into(),
        command: "ls".into(),
        result: Ok(()),
    }));
    assert_eq!(notification_text(&app), ("Running 'ls' in 'web'…".to_string(), false));
    app.handle_message(AppMessage::Outcome(Outcome::ShellTerminal {
        sandbox: "web".into(),
        result: Err("no terminal".into()),
    }));
    assert_eq!(
        notification_text(&app),
        ("Failed to open terminal: no terminal".to_string(), true)
    );
}

#[test]
fn refresh_tick_rereads_list_and_logs() {
    let mut app = app_with(vec![sandbox("db", SandboxStatus::Stopped)]);
    on_refresh_tick(&mut app);
    assert!(matches!(app.effects.first(), Some(Effect::RefreshSandboxes)));
    assert!(matches!(app.effects.last(), Some(Effect::FetchLogs(n)) if n == "db"));
}

#[test]
fn notification_expires_after_its_time() {
    let mut app = fresh_app();
    app.notify("hello".into(), false);
    expire_notification(&mut app, 3);
    assert!(app.notification.is_some());
    expire_notification(&mut app, 4);
    assert!(app.notification.is_none());
}

// ----- laws on concrete values -----------------------------------------

#[test]
fn pending_confirmation_swallows_quit_and_views() {
    let mut app = app_with(vec![sandbox("web", SandboxStatus::Running)]);
    press(&mut app, KeyCode::Char('t'));
    assert!(app.confirm.is_some());
    press(&mut app, KeyCode::Char('q'));
    assert!(!app.should_quit);
    press(&mut app, KeyCode::Char('v'));
    assert!(!app.volumes_view.visible);
    assert!(app.effects.is_empty());
    press(&mut app, KeyCode::Char('y'));
    assert!(app.confirm.is_none());
    assert!(matches!(
        app.effects.last(),
        Some(Effect::RunAction { action: SandboxAction::Terminate, name }) if name == "web"
    ));
}

#[test]
fn theme_toggles_back_and_forth() {
    let mut app = fresh_app();
    let before = app.theme;
    press(&mut app, KeyCode::Char('T'));
    assert_ne!(app.theme, before);
    press(&mut app, KeyCode::Char('T'));
    assert_eq!(app.theme, before);
}

#[test]
fn detail_tabs_cycle_back_to_start() {
    let mut app = app_with(vec![sandbox("web", SandboxStatus::Running)]);
    press(&mut app, KeyCode::Tab);
    assert_eq!(app.focus, Focus::Detail);
    let start = app.tab;
    for _ in 0..3 {
        press(&mut app, KeyCode::Tab);
    }
    assert_eq!(app.tab, start);
}

// ----- shell, layout, validation helpers -------------------------------

#[test]
fn shell_quote_cases() {
    assert_eq!(shell_quote("abc-1.2/x"), "abc-1.2/x");
    assert_eq!(shell_quote(""), "''");
    assert_eq!(shell_quote("a b"), "'a b'");
    assert_eq!(shell_quote("it's"), "'it'\\''s'");
}

#[test]
fn shell_join_quotes_each_argument() {
    let args = vec!["echo".to_string(), "hello world".to_string(), "x".to_string()];
    assert_eq!(shell_join(&args), "echo 'hello world' x");
    assert_eq!(shell_join(&Vec::new()), "");
}

#[test]
fn applescript_escape_cases() {
    assert_eq!(escape_applescript(r#"say "hi" \ bye"#), r#"say \"hi\" \\ bye"#);
    assert_eq!(escape_applescript("plain"), "plain");
}

#[test]
fn first_visible_card_keeps_selection_in_view() {
    assert_eq!(compute_first_visible(0, 10, 24), 0);
    assert_eq!(compute_first_visible(2, 10, 24), 0);
    assert_eq!(compute_first_visible(3, 10, 24), 1);
    assert_eq!(compute_first_visible(5, 10, 4), 5);
}

#[test]
fn button_width_and_labels() {
    assert_eq!(create_button_width("Create", 80), 10);
    assert_eq!(create_button_width("Create", 8), 8);
    assert_eq!(label("Image"), "Image       ");
    assert_eq!(label("A very long label"), "A very long label");
}

#[test]
fn truncate_cases() {
    assert_eq!(truncate("hello", 10), "hello");
    assert_eq!(truncate("hello world", 6), "hello…");
    assert_eq!(truncate("hello", 0), "");
}

#[test]
fn mount_entries_are_formatted() {
    let bind = VolumeMountConfig {
        guest_path: "/data".into(),
        source: MountSource::Bind("/home/me".into()),
    };
    assert_eq!(format_mount_entry(&bind), "/data <- bind /home/me");
    let named = VolumeMountConfig {
        guest_path: "/cache".into(),
        source: MountSource::Named("cache".into()),
    };
    assert_eq!(format_mount_entry(&named), "/cache <- volume cache");
}

#[test]
fn ip_addresses_are_recognised() {
    assert!(is_ip_address("192.168.0.1"));
    assert!(is_ip_address("::1"));
    assert!(is_ip_address("fe80::1:2"));
    assert!(!is_ip_address("256.0.0.1"));
    assert!(!is_ip_address("1.2.3"));
    assert!(!is_ip_address("example.com"));
    assert!(!is_ip_address("1::2::3"));
}

#[test]
fn port_ranges_parse() {
    assert_eq!(parse_port_range("443"), Ok((443, 443)));
    assert_eq!(parse_port_range(" 8000 - 9000 "), Ok((8000, 9000)));
    assert!(parse_port_range("9000-8000").is_err());
    assert!(parse_port_range("http").is_err());
    assert!(parse_port_range("70000").is_err());
}

#[test]
fn picked_workdir_is_bind_mounted_at_its_guest_path() {
    let mut app = fresh_app();
    press(&mut app, KeyCode::Char('n'));
    app.create_dialog.name = "dev".into();
    app.create_dialog.workdir = r"D:\work\proj\".into();
    app.create_dialog.mounts = vec![VolumeMountConfig {
        guest_path: "/cache".into(),
        source: MountSource::Named("cache".into()),
    }];
    app.create_dialog.field = app.create_dialog.form_field_count();
    press(&mut app, KeyCode::Enter);
    assert!(!app.create_dialog.visible);
    match app.effects.last() {
        Some(Effect::CreateSandbox(cfg)) => {
            assert_eq!(cfg.workdir.as_deref(), Some("/d/work/proj"));
            assert_eq!(cfg.mounts.len(), 2);
            assert_eq!(cfg.mounts[0].guest_path, "/cache");
            assert_eq!(cfg.mounts[1].guest_path, "/d/work/proj");
            assert_eq!(cfg.mounts[1].source, MountSource::Bind(r"D:\work\proj\".into()));
        }
        other => panic!("unexpected effect {:?}", other),
    }
}

#[test]
fn blank_workdir_adds_no_mount() {
    let mut app = fresh_app();
    press(&mut app, KeyCode::Char('n'));
    app.create_dialog.name = "dev".into();
    app.create_dialog.workdir = "   ".into();
    app.create_dialog.field = app.create_dialog.form_field_count();
    press(&mut app, KeyCode::Enter);
    match app.effects.last() {
        Some(Effect::CreateSandbox(cfg)) => {
            assert!(cfg.workdir.is_none());
            assert!(cfg.mounts.is_empty());
        }
        other => panic!("unexpected effect {:?}", other),
    }
}

#[test]
fn editing_a_port_mapping_unchanged_keeps_it() {
    let mut app = dialog_on_tab(DialogTab::Network);
    app.create_dialog.ports = vec![(8080, 80), (5432, 5432)];
    press(&mut app, KeyCode::Down);
    press(&mut app, KeyCode::Enter);
    press(&mut app, KeyCode::Down);
    press(&mut app, KeyCode::Enter);
    assert!(app.create_dialog.port_add.visible);
    assert_eq!(app.create_dialog.port_add.host_input, "5432");
    press(&mut app, KeyCode::Enter);
    press(&mut app, KeyCode::Enter);
    assert!(!app.create_dialog.port_add.visible);
    assert_eq!(app.create_dialog.ports, vec![(8080u16, 80u16), (5432u16, 5432u16)]);
    assert_eq!(app.create_dialog.ports_selected, 1);
}

#[test]
fn editing_an_env_var_unchanged_keeps_it() {
    let mut app = dialog_on_tab(DialogTab::GuestOs);
    app.create_dialog.env_vars = vec![("A".into(), "1".into()), ("B".into(), "two words".into())];
    for _ in 0..3 {
        press(&mut app, KeyCode::Down);
    }
    press(&mut app, KeyCode::Enter);
    press(&mut app, KeyCode::Down);
    press(&mut app, KeyCode::Enter);
    assert!(app.create_dialog.env_var_add.visible);
    press(&mut app, KeyCode::Enter);
    press(&mut app, KeyCode::Enter);
    assert!(!app.create_dialog.env_var_add.visible);
    assert_eq!(
        app.create_dialog.env_vars,
        vec![("A".to_string(), "1".to_string()), ("B".to_string(), "two words".to_string())]
    );
    assert_eq!(app.create_dialog.env_vars_selected, 1);
}

#[test]
fn picker_start_path_falls_back_to_first_root() {
    let drives = vec!["C:\\".to_string(), "D:\\".to_string()];
    assert_eq!(picker_start_path("/work".to_string(), true, &drives), "/work");
    assert_eq!(picker_start_path("/missing".to_string(), false, &drives), "C:\\");
    assert_eq!(picker_start_path("/missing".to_string(), false, &Vec::new()), "/");
}

fn edit_and_save_rule(rule: &NetworkRule) -> CreateDialog {
    let mut d = CreateDialog::closed();
    d.network_rules.push(NetworkRule {
        direction: NetRuleDirection::Egress,
        action: NetRuleAction::Allow,
        dest_kind: NetRuleDestKind::Any,
        dest_value: String::new(),
        dest_group: NetRuleDestGroup::Public,
        protocols: Vec::new(),
        port_range: None,
    });
    d.network_rules.push(rule.clone());
    d.network_rules_selected = 1;
    d.net_rule_add = NetRuleAddDialog::open_for_edit(1, rule);
    d.handle_net_rule_add_key(KeyCode::BackTab);
    assert_eq!(d.net_rule_add.add_field, 5);
    d.handle_net_rule_add_key(KeyCode::Enter);
    d
}

#[test]
fn net_rule_edit_and_save_keeps_rule() {
    let rules = [
        NetworkRule {
            direction: NetRuleDirection::Egress,
            action: NetRuleAction::Deny,
            dest_kind: NetRuleDestKind::Cidr,
            dest_value: "10.0.0.0/8".to_string(),
            dest_group: NetRuleDestGroup::Public,
            protocols: vec![NetRuleProtocol::Tcp, NetRuleProtocol::Udp],
            port_range: Some((8000, 9000)),
        },
        NetworkRule {
            direction: NetRuleDirection::Ingress,
            action: NetRuleAction::Allow,
            dest_kind: NetRuleDestKind::Domain,
            dest_value: "example.com".to_string(),
            dest_group: NetRuleDestGroup::Public,
            protocols: Vec::new(),
            port_range: Some((443, 443)),
        },
        NetworkRule {
            direction: NetRuleDirection::Egress,
            action: NetRuleAction::Allow,
            dest_kind: NetRuleDestKind::Ip,
            dest_value: "::1".to_string(),
            dest_group: NetRuleDestGroup::Public,
            protocols: vec![NetRuleProtocol::Icmpv4],
            port_range: None,
        },
    ];
    for rule in rules.iter() {
        let d = edit_and_save_rule(rule);
        assert_eq!(d.net_rule_add.error, None);
        assert!(!d.net_rule_add.visible);
        assert_eq!(d.network_rules.len(), 2);
        assert_eq!(d.network_rules_selected, 1);
        assert_eq!(&d.network_rules[1], rule);
        assert_eq!(d.network_rules[0].dest_kind, NetRuleDestKind::Any);
    }
}

#[test]
fn secret_edit_and_save_keeps_secret() {
    let secret = SecretConfig {
        env_var: "API_KEY".to_string(),
        value: "s3cret".to_string(),
        allowed_hosts: vec![
            SecretHostPattern { kind: SecretHostKind::Exact, value: "api.example.com".to_string() },
            SecretHostPattern { kind: SecretHostKind::Wildcard, value: "*.example.org".to_string() },
            SecretHostPattern { kind: SecretHostKind::Any, value: String::new() },
        ],
        inject_headers: false,
        inject_basic_auth: true,
        inject_query: true,
        inject_body: false,
        require_tls_identity: false,
    };
    let mut d = CreateDialog::closed();
    d.secrets.push(secret.clone());
    d.secret_add = SecretAddDialog::open_for_edit(0, &secret);
    assert_eq!(d.secret_add.hosts_input, "api.example.com, *.example.org, *");
    d.handle_secret_add_key(KeyCode::BackTab);
    assert_eq!(d.secret_add.add_field, 7);
    d.handle_secret_add_key(KeyCode::Enter);
    assert_eq!(d.secret_add.error, None);
    assert!(!d.secret_add.visible);
    assert_eq!(d.secrets.len(), 1);
    assert_eq!(d.secrets_selected, 0);
    assert_eq!(d.secrets[0], secret);
}

#[test]
fn mount_edit_and_save_keeps_mount() {
    let mounts = [
        VolumeMountConfig {
            guest_path: "/data".to_string(),
            source: MountSource::Bind("/home/me/data".to_string()),
        },
        VolumeMountConfig {
            guest_path: "/cache".to_string(),
            source: MountSource::Named("cache-vol".to_string()),
        },
    ];
    for m in mounts.iter() {
        let mut d = CreateDialog::closed();
        d.mounts.push(m.clone());
        d.mount_add = MountAddDialog::open_for_edit(0, m);
        d.mount_add.add_field = 2;
        let out = d.handle_mount_add_key(KeyCode::Enter, KeyModifiers::none());
        assert!(out.is_none());
        assert_eq!(d.mount_add.error, None);
        assert!(!d.mount_add.visible);
        assert_eq!(d.mounts.len(), 1);
        assert_eq!(d.mounts_selected, 0);
        assert_eq!(&d.mounts[0], m);
    }
}

#[test]
fn env_var_keys_stay_valid_through_popup_and_list() {
    let mut app = fresh_app();
    app.create_dialog = CreateDialog::open();
    let d = &mut app.create_dialog;
    d.env_var_add = microsandbox_tui::app::dialogs::EnvVarAddDialog::open();
    for c in "  KEY  ".chars() {
        d.handle_env_var_add_key(KeyCode::Char(c));
    }
    d.handle_env_var_add_key(KeyCode::Char('='));
    assert_eq!(d.env_var_add.key_input, "  KEY  ");
    d.handle_env_var_add_key(KeyCode::Enter);
    for c in "v=1".chars() {
        d.handle_env_var_add_key(KeyCode::Char(c));
    }
    d.handle_env_var_add_key(KeyCode::Enter);
    assert!(!d.env_var_add.visible);
    assert_eq!(d.env_vars, vec![("KEY".to_string(), "v=1".to_string())]);
    assert_eq!(d.env_vars_selected, 0);

    d.env_var_add = microsandbox_tui::app::dialogs::EnvVarAddDialog::open();
    for c in "   ".chars() {
        d.handle_env_var_add_key(KeyCode::Char(c));
    }
    d.handle_env_var_add_key(KeyCode::Enter);
    d.handle_env_var_add_key(KeyCode::Enter);
    assert!(d.env_var_add.visible);
    assert_eq!(d.env_var_add.error.as_deref(), Some("Key cannot be empty"));
    assert_eq!(d.env_vars.len(), 1);
}

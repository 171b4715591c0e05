use microsandbox_tui::app::actions::{sandbox_matches_filter, PendingAction};
use microsandbox_tui::app::App;
use microsandbox_tui::config::AppConfig;
use microsandbox_tui::sandbox::{SandboxInfo, SandboxStatus};
use microsandbox_tui::view::{
    age_text, uptime_text, card_actions, footer_hints, fs_view_offset, list_title, log_view_offset, percent_text,
    rate_samples, selected_position, usage_percent, window_start, Tone,
};

fn blank_app() -> App {
    App::new(AppConfig::empty())
}

#[test]
fn usage_percent_cases() {
    assert_eq!(usage_percent(50, 200), 25);
    assert_eq!(usage_percent(1, 3), 33);
    assert_eq!(usage_percent(300, 200), 100);
    assert_eq!(usage_percent(5, 0), 0);
    assert_eq!(usage_percent(u64::MAX, 10), 0);
}

#[test]
fn percent_text_has_one_decimal() {
    assert_eq!(percent_text(7550), "75.5%");
    assert_eq!(percent_text(4), "0.0%");
    assert_eq!(percent_text(5), "0.1%");
    assert_eq!(percent_text(10000), "100.0%");
    assert_eq!(percent_text(1239), "12.4%");
    assert_eq!(percent_text(1236), "12.4%");
    assert_eq!(percent_text(1234), "12.3%");
    assert_eq!(percent_text(9996), "100.0%");
    assert_eq!(percent_text(u64::MAX), "184467440737095516.2%");
}

#[test]
fn rate_samples_are_growth_between_readings() {
    assert_eq!(rate_samples(&vec![10, 15, 15, 30]), vec![5, 0, 15]);
    assert_eq!(rate_samples(&vec![10, 4]), vec![0]);
    assert!(rate_samples(&vec![7]).is_empty());
    assert!(rate_samples(&Vec::new()).is_empty());
}

#[test]
fn log_offset_follows_tail_at_zero() {
    assert_eq!(log_view_offset(0, 100, 20), 80);
    assert_eq!(log_view_offset(10, 100, 20), 10);
    assert_eq!(log_view_offset(95, 100, 20), 80);
    assert_eq!(log_view_offset(0, 5, 20), 0);
}

#[test]
fn fs_offset_stays_on_an_entry() {
    assert_eq!(fs_view_offset(3, 10), 3);
    assert_eq!(fs_view_offset(30, 10), 9);
    assert_eq!(fs_view_offset(4, 0), 0);
}

#[test]
fn window_start_keeps_selection_visible() {
    assert_eq!(window_start(2, 4), 0);
    assert_eq!(window_start(4, 4), 1);
    assert_eq!(window_start(9, 4), 6);
}

#[test]
fn selected_position_cases() {
    let visible = vec![1, 3, 4];
    assert_eq!(selected_position(&visible, 3, false), 1);
    assert_eq!(selected_position(&visible, 2, false), 0);
    assert_eq!(selected_position(&visible, 5, true), 3);
}

#[test]
fn list_title_reflects_search_and_filter() {
    let mut app = blank_app();
    assert_eq!(list_title(&app), " Sandboxes ");
    app.filter = "web".into();
    assert_eq!(list_title(&app), " Sandboxes — filter: web ");
    app.search_active = true;
    assert_eq!(list_title(&app), " Sandboxes — search: web_ ");
    app.search_active = false;
    app.filter = "   ".into();
    assert_eq!(list_title(&app), " Sandboxes ");
}

#[test]
fn card_actions_by_status() {
    let running: Vec<(&str, &str)> =
        card_actions(SandboxStatus::Running).iter().map(|a| (a.0, a.1)).collect();
    assert_eq!(running, vec![("s", "top"), ("t", "erm"), ("d", "el")]);
    let stopped = card_actions(SandboxStatus::Stopped);
    assert_eq!(stopped.len(), 2);
    assert_eq!(stopped[0].2, Tone::Success);
    let crashed = card_actions(SandboxStatus::Crashed);
    assert_eq!(crashed.len(), 1);
    assert_eq!(crashed[0].2, Tone::Danger);
}

#[test]
fn footer_hints_by_mode() {
    let mut app = blank_app();
    let main = footer_hints(&app);
    assert_eq!(main.first(), Some(&("q", "quit")));
    assert_eq!(main.last(), Some(&("T", "theme")));
    assert_eq!(main.len(), 7);
    app.search_active = true;
    assert_eq!(footer_hints(&app)[2], ("Esc", "clear & exit"));
    app.confirm = Some(PendingAction::RemoveVolume("v".into()));
    assert_eq!(footer_hints(&app), vec![("y/Enter", "confirm"), ("n/Esc", "cancel")]);
}

#[test]
fn filter_ignores_letter_case() {
    let sb = SandboxInfo {
        name: "WebServer".into(),
        status: SandboxStatus::Running,
        image: "alpine".into(),
        cpus: 1,
        memory_mib: 512,
        created_at: None,
        updated_at: None,
        workdir: None,
    };
    assert!(sandbox_matches_filter(&sb, "webs"));
    assert!(sandbox_matches_filter(&sb, "SERVER status:RUNNING"));
    assert!(!sandbox_matches_filter(&sb, "web status:stopped"));
    assert!(!sandbox_matches_filter(&sb, "db"));
}

#[test]
fn age_text_cases() {
    assert_eq!(age_text(100, None), "—");
    assert_eq!(age_text(100, Some(200)), "0s");
    assert_eq!(age_text(100, Some(100)), "0s");
    assert_eq!(age_text(9520, Some(100)), "2h 37m");
    assert!(!age_text(i64::MAX, Some(i64::MIN)).is_empty());
}

#[test]
fn uptime_text_cases() {
    assert_eq!(uptime_text(false, Some(5)), "not running");
    assert_eq!(uptime_text(false, None), "not running");
    assert_eq!(uptime_text(true, None), "—");
    assert_eq!(uptime_text(true, Some(9420)), "2h 37m");
    assert_eq!(uptime_text(true, Some(61)), "1m 1s");
}

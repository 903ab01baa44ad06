use dashboard::actions::{dashboard_actions, DashboardAction, Risk};
use dashboard::app::{refresh_due, App, Effect, Key, PendingAction, Tab};
use dashboard::state::{BotStatus, Snapshot};

fn bot(name: &str) -> BotStatus {
    BotStatus {
        name: name.to_string(),
        pair: "A/B".to_string(),
        active: true,
        runtime_status: "online".to_string(),
        log_path: None,
        log_tail: vec![],
    }
}

fn snapshot(n: usize) -> Snapshot {
    Snapshot {
        bots: (0..n).map(|i| bot(&format!("b{i}"))).collect(),
        warnings: 0,
        pm2_online: true,
        pm2_processes: n,
        alerts: vec![],
    }
}

fn app_with(n: usize) -> App {
    App::new(snapshot(n), dashboard_actions())
}

fn typed(app: &App) -> Option<String> {
    match &app.pending_action {
        Some(PendingAction::Danger { typed, .. }) => Some(typed.clone()),
        _ => None,
    }
}

#[test]
fn tab_titles_and_ring() {
    assert_eq!(Tab::Overview.title(), "Overview");
    assert_eq!(Tab::BotDetail.title(), "Bot Detail");
    assert_eq!(Tab::Scripts.title(), "Scripts");
    assert_eq!(Tab::Alerts.title(), "Alerts");
    let mut app = app_with(1);
    for expected in [Tab::BotDetail, Tab::Scripts, Tab::Alerts, Tab::Overview] {
        app.handle_key(Key::Right);
        assert_eq!(app.tab, expected);
    }
    app.handle_key(Key::Left);
    assert_eq!(app.tab, Tab::Alerts);
    app.handle_key(Key::Tab);
    assert_eq!(app.tab, Tab::Overview);
}

#[test]
fn new_app_starts_ready() {
    let app = app_with(2);
    assert_eq!(app.last_output, "Ready.");
    assert_eq!(app.bot_selection(), Some(0));
    assert_eq!(app.action_selection(), Some(0));
    assert_eq!(app.selected_bot().map(|b| b.name.clone()), Some("b0".to_string()));
}

#[test]
fn empty_snapshot_clears_bot_selection() {
    let mut app = app_with(0);
    assert_eq!(app.bot_selection(), None);
    assert!(app.selected_bot().is_none());
    app.handle_key(Key::Down);
    assert_eq!(app.selected_bot, 0);
    assert_eq!(app.bot_selection(), None);
}

#[test]
fn action_cursor_wraps_both_ways() {
    let mut app = app_with(1);
    app.tab = Tab::Scripts;
    app.handle_key(Key::Up);
    assert_eq!(app.selected_action, 7);
    app.handle_key(Key::Char('j'));
    assert_eq!(app.selected_action, 0);
    app.handle_key(Key::Char('k'));
    assert_eq!(app.selected_action, 7);
}

#[test]
fn bot_cursor_wraps_outside_scripts() {
    let mut app = app_with(3);
    app.handle_key(Key::Down);
    app.handle_key(Key::Down);
    assert_eq!(app.selected_bot, 2);
    app.handle_key(Key::Down);
    assert_eq!(app.selected_bot, 0);
    app.handle_key(Key::Up);
    assert_eq!(app.selected_bot, 2);
    assert_eq!(app.selected_action, 0);
}

#[test]
fn quit_and_refresh_inputs() {
    let mut app = app_with(1);
    assert_eq!(app.handle_key(Key::Char('q')), Effect::Quit);
    assert_eq!(app.handle_key(Key::Char('r')), Effect::Refresh);
    assert_eq!(app.handle_key(Key::Other), Effect::Stay);
}

#[test]
fn safe_action_runs_at_once() {
    let mut app = app_with(1);
    app.selected_action = 2;
    assert_eq!(app.handle_key(Key::Char('x')), Effect::Run(2));
    assert!(app.pending_action.is_none());
}

#[test]
fn confirm_action_needs_yes() {
    let mut app = app_with(1);
    app.selected_action = 4;
    assert_eq!(app.handle_key(Key::Char('x')), Effect::Stay);
    assert!(matches!(app.pending_action, Some(PendingAction::Confirm { action_index: 4 })));
    assert_eq!(app.handle_key(Key::Char('q')), Effect::Stay);
    assert_eq!(app.handle_key(Key::Enter), Effect::Stay);
    assert_eq!(app.handle_key(Key::Char('Y')), Effect::Run(4));
    assert!(app.pending_action.is_none());
}

#[test]
fn confirm_action_cancelled() {
    let mut app = app_with(1);
    app.selected_action = 4;
    app.handle_key(Key::Char('x'));
    assert_eq!(app.handle_key(Key::Char('n')), Effect::Stay);
    assert!(app.pending_action.is_none());
    assert_eq!(app.last_output, "Action cancelled.");
}

#[test]
fn danger_action_needs_token() {
    let mut app = app_with(1);
    app.selected_action = 5;
    app.handle_key(Key::Char('x'));
    assert_eq!(typed(&app), Some(String::new()));
    for c in "del".chars() {
        app.handle_key(Key::Char(c));
    }
    assert_eq!(typed(&app), Some("DEL".to_string()));
    assert_eq!(app.handle_key(Key::Enter), Effect::Stay);
    assert_eq!(app.last_output, "Confirmation token mismatch. Type DELETE and press Enter.");
    assert_eq!(typed(&app), Some("DEL".to_string()));
    app.handle_key(Key::Char('-'));
    for c in "ete".chars() {
        app.handle_key(Key::Char(c));
    }
    assert_eq!(typed(&app), Some("DELETE".to_string()));
    assert_eq!(app.handle_key(Key::Enter), Effect::Run(5));
    assert!(app.pending_action.is_none());
}

#[test]
fn danger_token_is_bounded() {
    let mut app = app_with(1);
    app.selected_action = 7;
    app.handle_key(Key::Char('x'));
    for c in "DELETEXYZ".chars() {
        app.handle_key(Key::Char(c));
    }
    assert_eq!(typed(&app), Some("DELETE".to_string()));
    app.handle_key(Key::Backspace);
    assert_eq!(typed(&app), Some("DELET".to_string()));
    app.handle_key(Key::Char('x'));
    assert_eq!(typed(&app), Some("DELETX".to_string()));
    assert_eq!(app.handle_key(Key::Enter), Effect::Stay);
    app.handle_key(Key::Esc);
    assert!(app.pending_action.is_none());
    assert_eq!(app.last_output, "Danger action cancelled.");
}

#[test]
fn backspace_on_empty_token() {
    let mut app = app_with(1);
    app.selected_action = 6;
    app.handle_key(Key::Char('x'));
    app.handle_key(Key::Backspace);
    assert_eq!(typed(&app), Some(String::new()));
}

#[test]
fn run_without_actions() {
    let mut app = App::new(snapshot(1), Vec::<DashboardAction>::new());
    assert_eq!(app.action_selection(), None);
    assert_eq!(app.run_selected_action(), Effect::Stay);
    assert_eq!(app.last_output, "No actions configured.");
}

#[test]
fn run_brings_cursor_into_range() {
    let actions = vec![DashboardAction { name: "A", command: "true", args: vec![], risk: Risk::Safe }];
    let mut app = App::new(snapshot(1), actions);
    app.selected_action = 3;
    assert_eq!(app.run_selected_action(), Effect::Run(0));
    assert_eq!(app.selected_action, 0);
}

#[test]
fn refresh_clamps_and_announces() {
    let mut app = app_with(3);
    app.selected_bot = 2;
    app.refresh(Ok(snapshot(2)));
    assert_eq!(app.selected_bot, 1);
    assert_eq!(app.last_output, "Refreshed status data.");
    app.refresh(Ok(snapshot(0)));
    assert_eq!(app.selected_bot, 0);
    assert_eq!(app.bot_selection(), None);
}

#[test]
fn refresh_failure_keeps_snapshot() {
    let mut app = app_with(2);
    app.refresh(Err("read failed".to_string()));
    assert_eq!(app.snapshot.bots.len(), 2);
    assert_eq!(app.last_output, "read failed");
}

#[test]
fn tick_is_silent_or_reports() {
    let mut app = app_with(2);
    app.tick(Ok(snapshot(1)));
    assert_eq!(app.snapshot.bots.len(), 1);
    assert_eq!(app.last_output, "Ready.");
    app.tick(Err("nope".to_string()));
    assert_eq!(app.last_output, "Auto-refresh failed: nope");
    assert!(refresh_due(1000));
    assert!(!refresh_due(999));
}

#[test]
fn finishing_an_action() {
    let mut app = app_with(1);
    app.finish_action(Ok("[safe] A\ndone".to_string()));
    assert_eq!(app.last_output, "[safe] A\ndone");
    app.finish_action(Err("[safe] A failed (code 1)\nx".to_string()));
    assert_eq!(app.last_output, "[safe] A failed (code 1)\nx");
    let mut kept = app_with(2);
    assert_eq!(kept.reload_snapshot(Err("e".to_string()), false), Err("e".to_string()));
    assert_eq!(kept.snapshot.bots.len(), 2);
}

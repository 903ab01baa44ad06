use dashboard::actions::{dashboard_actions, DashboardAction, Risk};

fn sample(risk: Risk) -> DashboardAction {
    DashboardAction { name: "Clear Logs", command: "bash", args: vec!["scripts/clear-logs.sh"], risk }
}

#[test]
fn risk_labels() {
    assert_eq!(Risk::Safe.label(), "safe");
    assert_eq!(Risk::Confirm.label(), "confirm");
    assert_eq!(Risk::Danger.label(), "danger");
}

#[test]
fn catalogue_is_fixed_and_ordered() {
    let actions = dashboard_actions();
    assert_eq!(actions.len(), 8);
    assert_eq!(actions[0].name, "Check Update Status");
    assert_eq!(actions[0].command, "bash");
    assert_eq!(actions[0].args, vec!["scripts/check-update.sh"]);
    assert_eq!(actions[4].name, "Create Bot Symlinks");
    assert_eq!(actions[4].risk, Risk::Confirm);
    assert_eq!(actions[7].name, "Clear All");
    assert_eq!(actions[7].args, vec!["scripts/clear-all.sh"]);
    let risks: Vec<Risk> = actions.iter().map(|a| a.risk).collect();
    assert_eq!(
        risks,
        vec![
            Risk::Safe,
            Risk::Safe,
            Risk::Safe,
            Risk::Safe,
            Risk::Confirm,
            Risk::Danger,
            Risk::Danger,
            Risk::Danger
        ]
    );
}

#[test]
fn success_report_uses_trimmed_stdout() {
    let r = sample(Risk::Danger).outcome(true, Some(0), "  cleared 3 files \n\n", "noise");
    assert_eq!(r, Ok(String::from("[danger] Clear Logs\ncleared 3 files")));
}

#[test]
fn success_report_falls_back_to_stderr() {
    let r = sample(Risk::Safe).outcome(true, Some(0), " \n", "\n  only stderr  \n");
    assert_eq!(r, Ok(String::from("[safe] Clear Logs\nonly stderr")));
}

#[test]
fn success_report_with_no_output() {
    let r = sample(Risk::Confirm).outcome(true, Some(0), "", "");
    assert_eq!(r, Ok(String::from("[confirm] Clear Logs\n")));
}

#[test]
fn failure_report_names_exit_code() {
    let r = sample(Risk::Danger).outcome(false, Some(-2), "ignored", "  boom\n");
    assert_eq!(r, Err(String::from("[danger] Clear Logs failed (code -2)\nboom")));
}

#[test]
fn failure_report_without_exit_code() {
    let r = sample(Risk::Safe).outcome(false, None, "", "killed");
    assert_eq!(r, Err(String::from("[safe] Clear Logs failed (code unknown)\nkilled")));
}

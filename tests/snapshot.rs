use dashboard::process::{load_pm2_status, record_process, ProcessTable};
use dashboard::state::{
    bot_name, has_error_marker, load_snapshot, pair_text, resolve_bot_log_path, runtime_status,
    tail_lines, LogDirectory, LogFile, RegistryEntry,
};

fn entry(name: Option<&str>, a: &str, b: &str, active: Option<bool>) -> RegistryEntry {
    RegistryEntry {
        name: name.map(|n| n.to_string()),
        asset_a: a.to_string(),
        asset_b: b.to_string(),
        active,
    }
}

fn file(name: &str, modified: Option<u128>, contents: Option<&str>) -> LogFile {
    LogFile {
        file_name: name.to_string(),
        path: format!("profiles/logs/{name}"),
        modified,
        contents: contents.map(|c| c.to_string()),
    }
}

fn no_logs() -> LogDirectory {
    LogDirectory { exists: false, files: vec![] }
}

#[test]
fn marker_detection_ignores_case() {
    assert!(has_error_marker("2024 error: disk full"));
    assert!(has_error_marker("Warning: slow"));
    assert!(has_error_marker("FaTaL crash"));
    assert!(!has_error_marker("all good"));
    assert!(!has_error_marker(""));
    assert!(!has_error_marker("err or"));
}

#[test]
fn tail_keeps_last_lines_in_order() {
    let raw: String = (1..=12).map(|i| format!("line {i}\n")).collect();
    let tail = tail_lines(&raw, 10);
    assert_eq!(tail.len(), 10);
    assert_eq!(tail[0], "line 3");
    assert_eq!(tail[9], "line 12");
}

#[test]
fn tail_of_short_text_and_crlf() {
    assert_eq!(tail_lines("a\r\nb", 10), vec!["a".to_string(), "b".to_string()]);
    assert!(tail_lines("", 10).is_empty());
    assert_eq!(tail_lines("a\nb\nc", 0), Vec::<String>::new());
}

#[test]
fn exact_log_name_wins_over_newer_match() {
    let dir = LogDirectory {
        exists: true,
        files: vec![file("alpha.log", Some(100), None), file("alpha-old.log", Some(200), None)],
    };
    assert_eq!(resolve_bot_log_path(&dir, "alpha"), Some(0));
}

#[test]
fn scan_prefers_newest_match_ignoring_case() {
    let dir = LogDirectory {
        exists: true,
        files: vec![
            file("Beta-1.log", Some(300), None),
            file("gamma.log", Some(900), None),
            file("BETA-2.log", Some(500), None),
            file("beta-3.log", None, None),
        ],
    };
    assert_eq!(resolve_bot_log_path(&dir, "beta"), Some(2));
    assert_eq!(resolve_bot_log_path(&dir, "delta"), None);
}

#[test]
fn scan_tie_takes_later_file() {
    let dir = LogDirectory {
        exists: true,
        files: vec![file("x-a.log", Some(7), None), file("x-b.log", Some(7), None)],
    };
    assert_eq!(resolve_bot_log_path(&dir, "x"), Some(1));
}

#[test]
fn missing_directory_gives_no_log() {
    let dir = LogDirectory { exists: false, files: vec![file("alpha-2.log", Some(1), None)] };
    assert_eq!(resolve_bot_log_path(&dir, "alpha"), None);
}

#[test]
fn names_pairs_and_statuses() {
    assert_eq!(bot_name(&entry(None, "", "", None), 2), "bot-3");
    assert_eq!(bot_name(&entry(Some("zed"), "", "", None), 0), "zed");
    assert_eq!(pair_text(&entry(None, "ETH", "BTC", None)), "ETH/BTC");
    assert_eq!(pair_text(&entry(None, "ETH", "", None)), "?/ ?");
    let mut table = ProcessTable::new();
    table.insert("alpha".to_string(), "online".to_string());
    assert_eq!(runtime_status(&table, "alpha", false), "online");
    assert_eq!(runtime_status(&table, "beta", true), "not-running");
    assert_eq!(runtime_status(&table, "beta", false), "disabled");
}

#[test]
fn single_entry_offline_no_log() {
    let registry = Some(vec![entry(Some("alpha"), "BTC", "USDT", Some(true))]);
    let snap = load_snapshot(&registry, &ProcessTable::new(), false, &no_logs());
    assert_eq!(snap.bots.len(), 1);
    let bot = &snap.bots[0];
    assert_eq!(bot.name, "alpha");
    assert_eq!(bot.pair, "BTC/USDT");
    assert!(bot.active);
    assert_eq!(bot.runtime_status, "not-running");
    assert_eq!(bot.log_path, None);
    assert!(bot.log_tail.is_empty());
    assert_eq!(snap.warnings, 1);
    assert!(!snap.pm2_online);
    assert_eq!(snap.alerts, vec!["PM2 unavailable (pm2 jlist failed or not installed).".to_string()]);
}

#[test]
fn empty_registry_gives_no_bots() {
    let snap = load_snapshot(&Some(vec![]), &ProcessTable::new(), true, &no_logs());
    assert!(snap.bots.is_empty());
    assert_eq!(snap.warnings, 0);
    assert!(snap.alerts.is_empty());
}

#[test]
fn offline_counts_malformed_pairs() {
    let registry = Some(vec![
        entry(Some("a"), "BTC", "", None),
        entry(None, "", "USDT", Some(false)),
        entry(Some("c"), "ETH", "USDT", None),
    ]);
    let snap = load_snapshot(&registry, &ProcessTable::new(), false, &no_logs());
    assert_eq!(snap.bots.len(), 3);
    assert!(!snap.pm2_online);
    assert_eq!(snap.warnings, 3);
    assert_eq!(snap.bots[1].name, "bot-2");
    assert_eq!(snap.bots[1].pair, "?/ ?");
    assert_eq!(snap.bots[1].runtime_status, "disabled");
    assert_eq!(snap.alerts.len(), 1);
}

#[test]
fn missing_registry_warns() {
    let snap = load_snapshot(&None, &ProcessTable::new(), false, &no_logs());
    assert!(snap.bots.is_empty());
    assert_eq!(snap.warnings, 2);
    assert_eq!(
        snap.alerts,
        vec![
            "PM2 unavailable (pm2 jlist failed or not installed).".to_string(),
            "profiles/bots.json not found.".to_string()
        ]
    );
}

#[test]
fn log_markers_raise_alerts() {
    let mut table = ProcessTable::new();
    table.insert("alpha".to_string(), "online".to_string());
    table.insert("other".to_string(), "stopped".to_string());
    let dir = LogDirectory {
        exists: true,
        files: vec![file("alpha.log", Some(1), Some("ok\nan Error happened\n")), file("beta.log", Some(1), Some("fine\n"))],
    };
    let registry = Some(vec![entry(Some("alpha"), "A", "B", None), entry(Some("beta"), "C", "D", None)]);
    let snap = load_snapshot(&registry, &table, true, &dir);
    assert_eq!(snap.pm2_processes, 2);
    assert_eq!(snap.bots[0].runtime_status, "online");
    assert_eq!(snap.bots[0].log_path, Some("profiles/logs/alpha.log".to_string()));
    assert_eq!(snap.bots[0].log_tail, vec!["ok".to_string(), "an Error happened".to_string()]);
    assert_eq!(snap.warnings, 1);
    assert_eq!(snap.alerts, vec!["alpha: error/warn marker found in recent log lines.".to_string()]);
}

#[test]
fn rebuilding_gives_equal_snapshots() {
    let registry = Some(vec![entry(Some("alpha"), "BTC", "", None)]);
    let dir = LogDirectory { exists: true, files: vec![file("alpha.log", Some(3), Some("WARN x"))] };
    let a = load_snapshot(&registry, &ProcessTable::new(), false, &dir);
    let b = load_snapshot(&registry, &ProcessTable::new(), false, &dir);
    assert_eq!(format!("{a:?}"), format!("{b:?}"));
}

#[test]
fn supervisor_failure_is_offline() {
    let (table, online) = load_pm2_status(false, "[]");
    assert!(!online);
    assert_eq!(table.len(), 0);
}

#[test]
fn supervisor_listing_is_read() {
    let out = "some banner\n[{\"name\":\"alpha\",\"pm2_env\":{\"status\":\"online\"}},{\"name\":\"beta\"},{\"name\":\"\"},{\"pm2_env\":{}},{\"name\":\"alpha\",\"pm2_env\":{\"status\":\"errored\"}}]";
    let (table, online) = load_pm2_status(true, out);
    assert!(online);
    assert_eq!(table.len(), 2);
    assert_eq!(table.get("alpha"), Some("errored".to_string()));
    assert_eq!(table.get("beta"), Some("unknown".to_string()));
}

#[test]
fn supervisor_garbage_is_offline() {
    assert!(!load_pm2_status(true, "not json").1);
    assert!(!load_pm2_status(true, "{\"a\": 1}").1);
    assert!(!load_pm2_status(true, "[1, 2").1);
}

#[test]
fn recording_skips_nameless_entries() {
    let mut table = ProcessTable::new();
    record_process(&mut table, None, Some("online"));
    record_process(&mut table, Some(""), Some("online"));
    assert_eq!(table.len(), 0);
    record_process(&mut table, Some("x"), None);
    assert_eq!(table.get("x"), Some("unknown".to_string()));
}

#[test]
fn supervisor_listing_skips_non_string_names() {
    let (table, online) = load_pm2_status(true, "[{\"name\":7,\"pm2_env\":{\"status\":\"online\"}},{\"name\":\"z\",\"pm2_env\":{\"status\":3}}]");
    assert!(online);
    assert_eq!(table.len(), 1);
    assert_eq!(table.get("z"), Some("unknown".to_string()));
}

#[test]
fn supervisor_empty_array_is_online() {
    let (table, online) = load_pm2_status(true, "[]");
    assert!(online);
    assert_eq!(table.len(), 0);
}

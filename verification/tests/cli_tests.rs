use insync::app::{AppCommand, AppEffect, AppEvent, AppModel, AppResolution, AppSetupStepStatus, AppStatus, AppView};
use insync::config::{ServiceConfig, SyncPairConfig};
use insync::dashboard::{
    calendar_detail_label, command_hints, compact_calendar_id, compact_detail_value, compact_string,
    conflict_resolution_policy, direction_label, empty_dash, last_run_label, next_run_label, selected_pair_lines,
    setup_status_label, status_label, tui_key_action, view_label, Tone, TuiAction, TuiKey,
};
use insync::policy::SyncDirection;
use insync::service::{
    background_platform, command_display, daemon_arguments, escape_quotes, quote, quoted_command_line,
    render_launchd_plist, render_systemd_unit, systemd_escape_arg, terminal_launch, xml_escape, BackgroundPlatform,
    LaunchdLogPaths, PlatformError, TerminalLaunch,
};
use insync::setup::{add_pair, optional_setup_value, required_setup_value, setup_direction, SetupDirection};

#[test]
fn systemd_unit_renders_daemon_arguments_and_escapes_paths() {
    let unit = render_systemd_unit(
        "/opt/insync/bin/insync",
        "/home/test/Application Support/insync.json",
        true,
    );

    assert!(unit.contains("Description=insync calendar sync daemon"));
    assert!(unit.contains(
        "ExecStart=/opt/insync/bin/insync --config \"/home/test/Application Support/insync.json\" daemon --apply"
    ));
    assert!(unit.contains("Restart=on-failure"));
    assert!(unit.contains("WantedBy=default.target"));
}

#[test]
fn launchd_plist_renders_array_arguments_logs_and_xml_escapes() {
    let logs = LaunchdLogPaths {
        dir: "/Users/test/Library/Logs/insync".to_string(),
        stdout: "/Users/test/Library/Logs/insync/out&sync.log".to_string(),
        stderr: "/Users/test/Library/Logs/insync/err.log".to_string(),
    };
    let plist = render_launchd_plist("/opt/in&sync/bin/insync", "/Users/test/insync<local>.json", true, &logs);

    assert!(plist.contains("<string>dev.bkniffler.insync</string>"));
    assert!(plist.contains("<string>/opt/in&amp;sync/bin/insync</string>"));
    assert!(plist.contains("<string>/Users/test/insync&lt;local&gt;.json</string>"));
    assert!(plist.contains("<string>--apply</string>"));
    assert!(plist.contains("<string>/Users/test/Library/Logs/insync/out&amp;sync.log</string>"));
    assert!(plist.contains("<key>RunAtLoad</key>"));
}

#[test]
fn systemd_unit_exact_text_without_apply() {
    let unit = render_systemd_unit("/bin/insync", "/etc/insync.json", false);
    assert_eq!(
        unit,
        "[Unit]\nDescription=insync calendar sync daemon\nAfter=network-online.target\nWants=network-online.target\n\n[Service]\nType=simple\nExecStart=/bin/insync --config /etc/insync.json daemon\nRestart=on-failure\nRestartSec=30\nEnvironment=RUST_LOG=info\n\n[Install]\nWantedBy=default.target\n"
    );
}

#[test]
fn escaping_helpers() {
    assert_eq!(xml_escape("a&b<c>d\"e'f"), "a&amp;b&lt;c&gt;d&quot;e&apos;f");
    assert_eq!(systemd_escape_arg("/plain/path-1.json"), "/plain/path-1.json");
    assert_eq!(systemd_escape_arg("a \"b\" \\c"), "\"a \\\"b\\\" \\\\c\"");
    assert_eq!(quote("plain"), "plain");
    assert_eq!(quote("two words"), "\"two words\"");
    assert_eq!(quote(""), "\"\"");
    assert_eq!(quote("say \"hi\""), "\"say \\\"hi\\\"\"");
}

#[test]
fn daemon_arguments_and_command_display() {
    let args = daemon_arguments("/bin/insync", "/c.json", true);
    assert_eq!(args, vec!["/bin/insync", "--config", "/c.json", "daemon", "--apply"]);
    assert_eq!(command_display("systemctl", &["--user".to_string(), "daemon-reload".to_string()]), "systemctl --user daemon-reload");
    assert_eq!(command_display("id", &[]), "id");
}

#[test]
fn background_platform_per_os() {
    assert_eq!(background_platform("macos").unwrap(), BackgroundPlatform::Launchd);
    assert_eq!(background_platform("linux").unwrap(), BackgroundPlatform::Systemd);
    assert!(matches!(background_platform("windows"), Err(PlatformError::Windows)));
    match background_platform("freebsd") {
        Err(PlatformError::Unsupported(name)) => assert_eq!(name, "freebsd"),
        other => panic!("unexpected: {other:?}"),
    }
}

#[test]
fn dashboard_labels() {
    assert_eq!(status_label(AppStatus::Syncing), "syncing");
    assert_eq!(view_label(AppView::Dashboard), "pairs");
    assert_eq!(setup_status_label(AppSetupStepStatus::Attention), "Check");
    assert_eq!(direction_label(SyncDirection::LeftToRight), "google -> icloud");
    assert_eq!(conflict_resolution_policy("delete_vs_update"), "default policy update_wins unless configured");
    assert_eq!(conflict_resolution_policy("other"), "manual review");
    assert_eq!(conflict_resolution_policy("icloud_uid_exists"), "ignore known collision or choose manual");
    assert_eq!(empty_dash(""), "-");
    assert_eq!(empty_dash("x"), "x");
}

#[test]
fn compacting_values() {
    assert_eq!(compact_string("short", 10), "short");
    assert_eq!(compact_string("abcdefghijkl", 8), "...hijkl");
    assert_eq!(compact_calendar_id("https://caldav.icloud.com/123456789/calendars/home/"), "...123456789/calendars/home/");
    assert_eq!(compact_calendar_id("https://caldav.icloud.com/123456789/calendars/home/").chars().count(), 28);
    assert_eq!(compact_detail_value("abc", 10), "abc");
    assert_eq!(compact_detail_value(&"x".repeat(100), 200).chars().count(), 64);
    assert_eq!(compact_detail_value(&"x".repeat(100), 20).chars().count(), 16);
}

#[test]
fn calendar_labels() {
    assert_eq!(calendar_detail_label(Some("Work"), Some("me@x"), "id"), "Work [me@x]");
    assert_eq!(calendar_detail_label(Some("  "), None, "id"), "id");
    assert_eq!(calendar_detail_label(None, Some(" "), "id"), "id");
}

fn model_with_pair() -> AppModel {
    let mut config = ServiceConfig::default();
    config.sync.pairs = vec![SyncPairConfig {
        id: "personal".to_string(),
        enabled: true,
        direction: SyncDirection::TwoWay,
        google_calendar_id: "primary".to_string(),
        icloud_calendar_id: "home".to_string(),
    }];
    AppModel::from_config(&config)
}

#[test]
fn run_labels() {
    let mut model = model_with_pair();
    assert_eq!(last_run_label(&model), "No runs yet");
    assert_eq!(next_run_label(&model), "not scheduled");
    model.last_run_status = Some("completed".to_string());
    assert_eq!(last_run_label(&model), "completed");
    model.last_run_at = Some("12:00".to_string());
    assert_eq!(last_run_label(&model), "completed at 12:00");
}

#[test]
fn selected_pair_panel_lines() {
    let model = model_with_pair();
    let pair = model.selected_pair().unwrap();
    let short = selected_pair_lines(pair, 5, 80);
    assert_eq!(short, vec![
        "personal".to_string(),
        "enabled / two-way".to_string(),
        "Google: primary".to_string(),
        "iCloud: home".to_string(),
        "Sync: G never / I never".to_string(),
    ]);
    let full = selected_pair_lines(pair, 20, 80);
    assert_eq!(full.len(), 9);
    assert_eq!(full[1], "State: enabled");
    assert_eq!(full[2], "Direction: two-way");
    assert_eq!(full[8], "iCloud sync: never");
}

#[test]
fn command_bar_hints_follow_view() {
    let mut model = model_with_pair();
    let hints = command_hints(&model);
    assert_eq!(hints.len(), 12);
    assert_eq!(hints[8].label, " pause   ");
    model.background_paused = true;
    model.view = AppView::Reports;
    let hints = command_hints(&model);
    assert_eq!(hints.len(), 14);
    assert_eq!(hints[8].label, " resume   ");
    assert_eq!(hints[10].key, "f");
    assert_eq!(hints[11].key, "t");
    assert_eq!(hints[13].tone, Tone::Exit);
}

#[test]
fn key_bindings() {
    let mut model = model_with_pair();
    assert!(matches!(tui_key_action(&model, TuiKey::Char('q')), TuiAction::Quit));
    assert!(matches!(tui_key_action(&model, TuiKey::Char('j')), TuiAction::SelectNextPair));
    assert!(matches!(tui_key_action(&model, TuiKey::Char('d')), TuiAction::Run(AppEvent::ExecuteCommand(AppCommand::DryRun))));
    assert!(matches!(tui_key_action(&model, TuiKey::Char('f')), TuiAction::Ignore));
    model.view = AppView::Runs;
    assert!(matches!(tui_key_action(&model, TuiKey::Down), TuiAction::Update(AppEvent::SelectNextRun)));
    assert!(matches!(tui_key_action(&model, TuiKey::Char('f')), TuiAction::Update(AppEvent::CycleRunFilter)));
    model.command_palette_open = true;
    assert!(matches!(tui_key_action(&model, TuiKey::Enter), TuiAction::Run(AppEvent::ExecuteSelectedCommand)));
    assert!(matches!(tui_key_action(&model, TuiKey::Char('q')), TuiAction::Ignore));
}

#[test]
fn tab_walks_the_screens_and_conflict_keys_queue_resolutions() {
    let mut model = model_with_pair();
    assert!(matches!(tui_key_action(&model, TuiKey::Tab), TuiAction::Update(AppEvent::ShowReports)));
    assert!(matches!(tui_key_action(&model, TuiKey::BackTab), TuiAction::Update(AppEvent::ShowSetup)));
    assert!(matches!(tui_key_action(&model, TuiKey::Char('g')), TuiAction::Ignore));
    model.view = AppView::Conflicts;
    assert!(matches!(tui_key_action(&model, TuiKey::Tab), TuiAction::Update(AppEvent::ShowRuns)));
    assert!(matches!(
        tui_key_action(&model, TuiKey::Char('g')),
        TuiAction::Run(AppEvent::ResolveSelectedConflict(AppResolution::GoogleWins))
    ));
    assert!(matches!(
        tui_key_action(&model, TuiKey::Char('x')),
        TuiAction::Run(AppEvent::ResolveSelectedConflict(AppResolution::DeleteWins))
    ));
    assert!(matches!(tui_key_action(&model, TuiKey::Char('c')), TuiAction::Update(AppEvent::ShowConflicts)));
    model.view = AppView::Setup;
    assert!(matches!(tui_key_action(&model, TuiKey::Tab), TuiAction::Update(AppEvent::ShowDashboard)));
}

#[test]
fn apply_waits_for_y_or_enter() {
    let mut model = model_with_pair();
    assert!(matches!(tui_key_action(&model, TuiKey::Char('a')), TuiAction::Run(AppEvent::ExecuteCommand(AppCommand::ApplyRun))));
    model.update(AppEvent::ExecuteCommand(AppCommand::ApplyRun));
    assert!(model.confirm_apply);
    assert!(matches!(tui_key_action(&model, TuiKey::Char('y')), TuiAction::Run(AppEvent::ConfirmApplyRun)));
    assert!(matches!(tui_key_action(&model, TuiKey::Enter), TuiAction::Run(AppEvent::ConfirmApplyRun)));
    assert!(matches!(tui_key_action(&model, TuiKey::Esc), TuiAction::Update(AppEvent::CancelApplyRun)));
    assert!(matches!(tui_key_action(&model, TuiKey::Char('n')), TuiAction::Update(AppEvent::CancelApplyRun)));
    assert!(matches!(tui_key_action(&model, TuiKey::Char('q')), TuiAction::Ignore));
    assert!(matches!(tui_key_action(&model, TuiKey::Char('d')), TuiAction::Ignore));
    let effects = model.update(AppEvent::ConfirmApplyRun);
    assert_eq!(effects, vec![AppEffect::RunApplySync]);
    assert!(!model.confirm_apply);
}

#[test]
fn dashboard_answers_effects_until_quit() {
    let mut model = model_with_pair();
    let quit = model.apply_tui_effects(vec![AppEffect::RunDrySync, AppEffect::LoadConflicts]);
    assert!(!quit);
    assert_eq!(model.status, AppStatus::Idle);
    assert_eq!(model.last_message.as_deref(), Some("conflict refresh requested"));
    let quit = model.apply_tui_effects(vec![AppEffect::ExportDryRunReport, AppEffect::Quit, AppEffect::RunApplySync]);
    assert!(quit);
    assert_eq!(model.last_message.as_deref(), Some("report export requested"));
}

#[test]
fn setup_values_and_pairs() {
    assert_eq!(optional_setup_value(Some("  x ".to_string())).as_deref(), Some("x"));
    assert_eq!(optional_setup_value(Some("   ".to_string())), None);
    assert_eq!(required_setup_value(None, "--pair-id").unwrap_err(), "--pair-id is required");
    assert_eq!(setup_direction(SetupDirection::IcloudToGoogle), SyncDirection::RightToLeft);

    let mut config = ServiceConfig::default();
    let pair = |id: &str, cal: &str| SyncPairConfig {
        id: id.to_string(),
        enabled: true,
        direction: SyncDirection::TwoWay,
        google_calendar_id: cal.to_string(),
        icloud_calendar_id: "home".to_string(),
    };
    assert!(add_pair(&mut config, pair("a", "g1"), false).is_ok());
    assert!(add_pair(&mut config, pair("a", "g2"), false).is_err());
    assert_eq!(config.sync.pairs[0].google_calendar_id, "g1");
    assert!(add_pair(&mut config, pair("a", "g3"), true).is_ok());
    assert_eq!(config.sync.pairs.len(), 1);
    assert_eq!(config.sync.pairs[0].google_calendar_id, "g3");
}

#[test]
fn terminal_launch_per_platform() {
    let args = vec!["--config".to_string(), "/Users/me/My Config.json".to_string(), "tui".to_string()];
    assert_eq!(
        quoted_command_line("/usr/local/bin/insync", &args),
        "/usr/local/bin/insync --config \"/Users/me/My Config.json\" tui"
    );
    assert_eq!(escape_quotes("say \"hi\""), "say \\\"hi\\\"");
    match terminal_launch("macos", "unix", "/usr/local/bin/insync", &args) {
        Some(TerminalLaunch::AppleScript(script)) => assert_eq!(
            script,
            "tell application \"Terminal\" to do script \"/usr/local/bin/insync --config \\\"/Users/me/My Config.json\\\" tui\""
        ),
        other => panic!("unexpected {other:?}"),
    }
    match terminal_launch("windows", "windows", "C:\\insync.exe", &vec!["tui".to_string()]) {
        Some(TerminalLaunch::WindowsStart(cmd)) => {
            assert_eq!(cmd, vec!["/c", "start", "", "cmd", "/k", "C:\\insync.exe tui"])
        }
        other => panic!("unexpected {other:?}"),
    }
    match terminal_launch("linux", "unix", "/usr/bin/insync", &vec!["tui".to_string()]) {
        Some(TerminalLaunch::Emulators { candidates, command }) => {
            assert_eq!(candidates[0], ("x-terminal-emulator", vec!["-e"]));
            assert_eq!(candidates[1], ("gnome-terminal", vec!["--"]));
            assert_eq!(candidates[6], ("kitty", Vec::<&str>::new()));
            assert_eq!(candidates.len(), 8);
            assert_eq!(command, vec!["/usr/bin/insync", "tui"]);
        }
        other => panic!("unexpected {other:?}"),
    }
    assert!(terminal_launch("unknown", "", "insync", &Vec::new()).is_none());
}

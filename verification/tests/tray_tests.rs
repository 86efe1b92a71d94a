use chrono::TimeZone;
use insync::store::{SyncRun, SyncRunStatus};
use insync::tray_status::{
    color_for, menu_action, relative_time_at, MenuAction, MenuItemKind, MenuState, StatusSnapshot, StoreReading, SyncState,
};

fn noon() -> i64 {
    chrono::Utc.with_ymd_and_hms(2026, 6, 2, 12, 0, 0).unwrap().timestamp()
}

fn run(status: SyncRunStatus, finished_at: Option<&str>) -> SyncRun {
    SyncRun {
        id: "run-1".to_string(),
        sync_pair_id: Some("personal".to_string()),
        status,
        started_at: "2026-06-02 11:00:00".to_string(),
        finished_at: finished_at.map(|f| f.to_string()),
        error: None,
    }
}

#[test]
fn tray_reads_state_from_the_store() {
    let unconfigured = StatusSnapshot::read(None, true);
    assert_eq!(unconfigured.state, SyncState::Unconfigured);
    assert!(!unconfigured.background_running);

    let idle = StatusSnapshot::read(Some(StoreReading { conflict_counts: Some(vec![]), last_run: None }), true);
    assert_eq!(idle.state, SyncState::Idle);

    let conflicts =
        StatusSnapshot::read(Some(StoreReading { conflict_counts: Some(vec![2, 3]), last_run: None }), false);
    assert_eq!(conflicts.state, SyncState::Conflicts);
    assert_eq!(conflicts.conflict_count, 5);

    let failing = StatusSnapshot::read(
        Some(StoreReading { conflict_counts: Some(vec![1]), last_run: Some(run(SyncRunStatus::Failed, None)) }),
        true,
    );
    assert_eq!(failing.state, SyncState::Error);

    let running = StatusSnapshot::read(
        Some(StoreReading { conflict_counts: None, last_run: Some(run(SyncRunStatus::Running, None)) }),
        true,
    );
    assert_eq!(running.state, SyncState::Syncing);
    assert_eq!(running.conflict_count, 0);
}

#[test]
fn tray_summary_line_names_state_and_background() {
    assert_eq!(StatusSnapshot::unconfigured().summary_line(), "insync — Not configured");
    let idle = StatusSnapshot { state: SyncState::Idle, conflict_count: 0, last_run: None, background_running: true };
    assert_eq!(idle.summary_line(), "insync — Idle · background on");
    let conflicts =
        StatusSnapshot { state: SyncState::Conflicts, conflict_count: 2, last_run: None, background_running: false };
    assert_eq!(conflicts.summary_line(), "insync — Conflicts need attention · background paused");
}

#[test]
fn tray_detail_line_shows_age_and_conflicts() {
    let none = StatusSnapshot { state: SyncState::Idle, conflict_count: 0, last_run: None, background_running: true };
    assert_eq!(none.detail_line_at(noon()), "No runs yet");

    let finished = StatusSnapshot {
        state: SyncState::Conflicts,
        conflict_count: 3,
        last_run: Some(run(SyncRunStatus::Completed, Some("2026-06-02 11:50:00"))),
        background_running: true,
    };
    assert_eq!(finished.detail_line_at(noon()), "Last run 10m ago · 3 conflict(s)");

    let started_only = StatusSnapshot {
        state: SyncState::Syncing,
        conflict_count: 0,
        last_run: Some(run(SyncRunStatus::Running, None)),
        background_running: true,
    };
    assert_eq!(started_only.detail_line_at(noon()), "Last run 1h ago");
    assert!(started_only.detail_line().starts_with("Last run "));
}

#[test]
fn relative_time_is_coarse_and_falls_back_to_the_text() {
    assert_eq!(relative_time_at("2026-06-02 11:59:30", noon()), "just now");
    assert_eq!(relative_time_at("2026-06-02 12:30:00", noon()), "just now");
    assert_eq!(relative_time_at("2026-06-02 11:59:15", noon()), "0m ago");
    assert_eq!(relative_time_at("2026-06-02T11:15:00", noon()), "45m ago");
    assert_eq!(relative_time_at("2026-06-02 09:00:01", noon()), "2h ago");
    assert_eq!(relative_time_at("2026-05-30 12:00:00", noon()), "3d ago");
    assert_eq!(relative_time_at("yesterday", noon()), "yesterday");
}

#[test]
fn tray_icon_colours_follow_state() {
    assert_eq!(color_for(SyncState::Idle), (60, 170, 90));
    assert_eq!(color_for(SyncState::Error), (210, 70, 60));
    assert_eq!(color_for(SyncState::Conflicts), (220, 170, 40));
    assert_eq!(color_for(SyncState::Syncing), (40, 130, 220));
    assert_eq!(color_for(SyncState::Unconfigured), (120, 120, 128));
}

#[test]
fn tray_menu_offers_one_writer_at_a_time() {
    let idle = StatusSnapshot { state: SyncState::Idle, conflict_count: 0, last_run: None, background_running: false };
    let menu = MenuState::of(&idle);
    assert!(menu.sync_now_enabled && menu.toggle_enabled && menu.dashboard_enabled);
    assert_eq!(menu.toggle_label(), "Start background sync");

    let running = StatusSnapshot { background_running: true, ..idle.clone() };
    let menu = MenuState::of(&running);
    assert!(!menu.sync_now_enabled);
    assert_eq!(menu.toggle_label(), "Pause background sync");

    let syncing = StatusSnapshot { state: SyncState::Syncing, ..idle.clone() };
    assert!(!MenuState::of(&syncing).sync_now_enabled);

    let menu = MenuState::of(&StatusSnapshot::unconfigured());
    assert!(!menu.sync_now_enabled && !menu.toggle_enabled && !menu.dashboard_enabled);
}

#[test]
fn tray_clicks_map_to_supervisor_actions() {
    assert_eq!(menu_action(MenuItemKind::Quit, true), (MenuAction::StopAndExit, false));
    assert_eq!(menu_action(MenuItemKind::SyncNow, false), (MenuAction::RunSyncOnce, true));
    assert_eq!(menu_action(MenuItemKind::ToggleBackground, true), (MenuAction::StopBackground, true));
    assert_eq!(menu_action(MenuItemKind::ToggleBackground, false), (MenuAction::StartBackground, true));
    assert_eq!(menu_action(MenuItemKind::OpenDashboard, false), (MenuAction::OpenDashboard, false));
    assert_eq!(menu_action(MenuItemKind::OpenSetup, true), (MenuAction::OpenSetup, false));
}

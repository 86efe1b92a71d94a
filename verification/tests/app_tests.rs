use insync::app::{
    AppCommand, AppConflictDetail, AppConflictSummary, AppEffect, AppEvent, AppModel,
    AppNotificationSeverity, AppPair, AppPairRuntimeSnapshot, AppReportFilter, AppReportRow,
    AppReportSort, AppResolution, AppRun, AppRunFilter, AppRuntimeSnapshot, AppSetupState,
    AppSetupStepStatus, AppStatus, AppView,
};
use insync::config::{SecretStoreKind, ServiceConfig, SyncPairConfig};
use insync::policy::SyncDirection;

fn empty_model() -> AppModel {
    AppModel {
        status: AppStatus::Idle,
        view: AppView::Dashboard,
        command_palette_open: false,
        confirm_apply: false,
        selected_command_index: 0,
        selected_pair_id: None,
        selected_run_id: None,
        selected_conflict_index: None,
        run_filter: AppRunFilter::All,
        setup: AppSetupState::default(),
        report_filter: AppReportFilter::All,
        report_sort: AppReportSort::Pair,
        selected_report_index: None,
        background_paused: false,
        conflict_count: 0,
        last_message: None,
        last_run_at: None,
        last_run_status: None,
        next_run_at: None,
        recent_error: None,
        pairs: Vec::new(),
        runs: Vec::new(),
        report_rows: Vec::new(),
        plan: None,
        conflict_summaries: Vec::new(),
        conflict_details: Vec::new(),
    }
}

fn pair(id: &str, enabled: bool, direction: SyncDirection, google: &str, icloud: &str) -> AppPair {
    AppPair {
        id: id.to_string(),
        enabled,
        direction,
        google_calendar_id: google.to_string(),
        icloud_calendar_id: icloud.to_string(),
        google_calendar_name: None,
        icloud_calendar_name: None,
        google_account_label: None,
        icloud_account_label: None,
        google_last_sync_at: None,
        icloud_last_sync_at: None,
    }
}

fn report_row(pair_id: &str, action: &str, reason: &str, resolution: &str, title: &str, uid: &str, icloud_present: &str, icloud_title: &str, diff: &str) -> AppReportRow {
    AppReportRow {
        pair_id: pair_id.to_string(),
        action: action.to_string(),
        reason: reason.to_string(),
        resolution: resolution.to_string(),
        title: title.to_string(),
        canonical_uid: uid.to_string(),
        google_present: "yes".to_string(),
        icloud_present: icloud_present.to_string(),
        google_title: title.to_string(),
        icloud_title: icloud_title.to_string(),
        google_start: String::new(),
        icloud_start: String::new(),
        google_end: String::new(),
        icloud_end: String::new(),
        google_status: String::new(),
        icloud_status: String::new(),
        diff_fields: diff.to_string(),
    }
}

fn personal_pair_config() -> SyncPairConfig {
    SyncPairConfig {
        id: "personal".to_string(),
        enabled: true,
        direction: SyncDirection::TwoWay,
        google_calendar_id: "primary".to_string(),
        icloud_calendar_id: "https://caldav.example/cal".to_string(),
    }
}

#[test]
fn dry_run_event_requests_sync_effect() {
    let mut model = empty_model();

    let effects = model.update(AppEvent::StartDryRun);

    assert_eq!(model.status, AppStatus::Syncing);
    assert_eq!(model.view, AppView::Reports);
    assert_eq!(effects, vec![AppEffect::RunDrySync]);
}

#[test]
fn lib_dry_run_event_requests_sync_effect() {
    let mut model = empty_model();

    let effects = model.update(AppEvent::StartDryRun);

    assert_eq!(model.status, AppStatus::Syncing);
    assert_eq!(effects, vec![AppEffect::RunDrySync]);
}

#[test]
fn pair_navigation_wraps() {
    let mut model = empty_model();
    model.selected_pair_id = Some("a".to_string());
    model.pairs = vec![
        pair("a", true, SyncDirection::TwoWay, "ga", "ia"),
        pair("b", false, SyncDirection::LeftToRight, "gb", "ib"),
    ];

    model.select_previous_pair();
    assert_eq!(model.selected_pair_id.as_deref(), Some("b"));
    model.select_next_pair();
    assert_eq!(model.selected_pair_id.as_deref(), Some("a"));
}

#[test]
fn lib_pair_navigation_wraps() {
    let mut model = empty_model();
    model.selected_pair_id = Some("a".to_string());
    model.pairs = vec![
        pair("a", true, SyncDirection::TwoWay, "ga", "ia"),
        pair("b", false, SyncDirection::LeftToRight, "gb", "ib"),
    ];

    model.select_previous_pair();
    assert_eq!(model.selected_pair_id.as_deref(), Some("b"));
    model.select_next_pair();
    assert_eq!(model.selected_pair_id.as_deref(), Some("a"));
}

#[test]
fn runtime_snapshot_updates_dashboard_state() {
    let mut model = empty_model();

    model.apply_runtime_snapshot(AppRuntimeSnapshot {
        conflict_count: 3,
        last_run_at: Some("2026-06-02 12:00:00".to_string()),
        last_run_status: Some("failed".to_string()),
        next_run_at: Some("2026-06-02 12:05:00".to_string()),
        recent_error: Some("auth failed".to_string()),
        pairs: Vec::new(),
        runs: Vec::new(),
        report_rows: Vec::new(),
        plan: None,
        conflict_summaries: Vec::new(),
        conflict_details: Vec::new(),
    });

    assert_eq!(model.conflict_count, 3);
    assert_eq!(model.last_run_status.as_deref(), Some("failed"));
    assert_eq!(model.next_run_at.as_deref(), Some("2026-06-02 12:05:00"));
    assert_eq!(model.recent_error.as_deref(), Some("auth failed"));
}

#[test]
fn lib_runtime_snapshot_updates_dashboard_state() {
    let mut model = empty_model();

    model.apply_runtime_snapshot(AppRuntimeSnapshot {
        conflict_count: 3,
        last_run_at: Some("2026-06-02 12:00:00".to_string()),
        last_run_status: Some("failed".to_string()),
        recent_error: Some("auth failed".to_string()),
        ..AppRuntimeSnapshot::default()
    });

    assert_eq!(model.conflict_count, 3);
    assert_eq!(model.last_run_status.as_deref(), Some("failed"));
    assert_eq!(model.recent_error.as_deref(), Some("auth failed"));
}

#[test]
fn runtime_snapshot_updates_pair_metadata() {
    let mut model = empty_model();
    model.selected_pair_id = Some("a".to_string());
    model.pairs = vec![pair("a", true, SyncDirection::TwoWay, "ga", "ia")];

    model.apply_runtime_snapshot(AppRuntimeSnapshot {
        pairs: vec![AppPairRuntimeSnapshot {
            pair_id: "a".to_string(),
            google_calendar_name: Some("Work".to_string()),
            icloud_calendar_name: Some("Home".to_string()),
            google_account_label: Some("me@example.com".to_string()),
            icloud_account_label: Some("me@icloud.com".to_string()),
            google_last_sync_at: Some("2026-06-02 12:00:00".to_string()),
            icloud_last_sync_at: Some("2026-06-02 12:01:00".to_string()),
        }],
        runs: Vec::new(),
        report_rows: Vec::new(),
        plan: None,
        conflict_summaries: Vec::new(),
        conflict_details: Vec::new(),
        ..AppRuntimeSnapshot::default()
    });

    let pair = model.selected_pair().unwrap();
    assert_eq!(pair.google_calendar_name.as_deref(), Some("Work"));
    assert_eq!(pair.icloud_last_sync_at.as_deref(), Some("2026-06-02 12:01:00"));
}

#[test]
fn run_view_filters_and_selects_runs() {
    let mut model = empty_model();

    model.apply_runtime_snapshot(AppRuntimeSnapshot {
        runs: vec![
            AppRun {
                id: "failed".to_string(),
                pair_id: Some("personal".to_string()),
                status: "failed".to_string(),
                started_at: "2026-06-02 12:00:00".to_string(),
                finished_at: Some("2026-06-02 12:01:00".to_string()),
                error: Some("auth failed".to_string()),
            },
            AppRun {
                id: "completed".to_string(),
                pair_id: Some("personal".to_string()),
                status: "completed".to_string(),
                started_at: "2026-06-02 11:00:00".to_string(),
                finished_at: Some("2026-06-02 11:01:00".to_string()),
                error: None,
            },
        ],
        ..AppRuntimeSnapshot::default()
    });

    model.update(AppEvent::ShowRuns);
    assert_eq!(model.view, AppView::Runs);
    assert_eq!(model.selected_run_id.as_deref(), Some("failed"));

    model.update(AppEvent::CycleRunFilter);
    assert_eq!(model.run_filter, AppRunFilter::Failed);
    assert_eq!(model.visible_runs().len(), 1);

    model.update(AppEvent::CycleRunFilter);
    model.update(AppEvent::CycleRunFilter);
    assert_eq!(model.run_filter, AppRunFilter::Completed);
    assert_eq!(model.selected_run_id.as_deref(), Some("completed"));
}

#[test]
fn report_view_filters_sorts_and_selects_rows() {
    let mut model = AppModel::from_config(&ServiceConfig::default());

    model.apply_runtime_snapshot(AppRuntimeSnapshot {
        report_rows: vec![
            report_row("work", "update_google", "google_changed", "apply", "Budget review", "uid-work", "yes", "Budget review", "title,start"),
            report_row("personal", "create_icloud", "missing_icloud", "apply", "Dentist", "uid-dentist", "no", "", ""),
            report_row("personal", "manual_conflict", "both_sides_changed", "manual", "Planning", "uid-planning", "yes", "Planning", "title"),
        ],
        ..AppRuntimeSnapshot::default()
    });

    model.update(AppEvent::ShowReports);
    assert_eq!(model.view, AppView::Reports);
    assert_eq!(model.selected_report_row().unwrap().pair_id, "personal");

    model.update(AppEvent::CycleReportFilter);
    assert_eq!(model.report_filter, AppReportFilter::Creates);
    assert_eq!(model.visible_report_rows().len(), 1);
    assert_eq!(model.selected_report_row().unwrap().title, "Dentist");

    model.update(AppEvent::CycleReportFilter);
    assert_eq!(model.report_filter, AppReportFilter::Updates);
    assert_eq!(model.selected_report_row().unwrap().title, "Budget review");

    model.update(AppEvent::CycleReportSort);
    assert_eq!(model.report_sort, AppReportSort::Action);
    model.update(AppEvent::SelectNextReportRow);
    assert_eq!(model.selected_report_index, Some(0));
}

fn conflict_detail(id: &str, pair_id: &str, uid: &str, reason: &str, policy: &str, diff: &str, created: &str, full: bool) -> AppConflictDetail {
    AppConflictDetail {
        id: id.to_string(),
        pair_id: pair_id.to_string(),
        event_link_id: if full { Some("link-a".to_string()) } else { None },
        canonical_uid: Some(uid.to_string()),
        reason: reason.to_string(),
        resolution_policy: policy.to_string(),
        google_title: if full { Some("Google title".to_string()) } else { None },
        icloud_title: if full { Some("iCloud title".to_string()) } else { None },
        google_start: if full { Some("2026-06-02T12:00:00Z".to_string()) } else { None },
        icloud_start: if full { Some("2026-06-02T13:00:00Z".to_string()) } else { None },
        google_status: if full { Some("confirmed".to_string()) } else { None },
        icloud_status: if full { Some("tentative".to_string()) } else { None },
        google_event_id: if full { Some("google-a".to_string()) } else { None },
        icloud_href: if full { Some("/icloud-a.ics".to_string()) } else { None },
        diff_fields: diff.to_string(),
        created_at: created.to_string(),
        queued_resolution: None,
    }
}

#[test]
fn conflict_view_selects_groups_and_filters_details() {
    let mut model = empty_model();

    model.apply_runtime_snapshot(AppRuntimeSnapshot {
        conflict_count: 3,
        conflict_summaries: vec![
            AppConflictSummary {
                pair_id: "personal".to_string(),
                reason: "both_sides_changed".to_string(),
                count: 2,
                first_seen_at: "2026-06-02 12:00:00".to_string(),
                last_seen_at: "2026-06-02 12:01:00".to_string(),
            },
            AppConflictSummary {
                pair_id: "work".to_string(),
                reason: "icloud_uid_exists".to_string(),
                count: 1,
                first_seen_at: "2026-06-02 13:00:00".to_string(),
                last_seen_at: "2026-06-02 13:00:00".to_string(),
            },
        ],
        conflict_details: vec![
            conflict_detail("a", "personal", "uid-a", "both_sides_changed", "manual review", "title|start|status", "2026-06-02 12:01:00", true),
            conflict_detail("b", "work", "uid-b", "icloud_uid_exists", "ignore known collision or choose manual", "metadata", "2026-06-02 13:00:00", false),
        ],
        ..AppRuntimeSnapshot::default()
    });

    model.update(AppEvent::ShowConflicts);
    assert_eq!(model.view, AppView::Conflicts);
    assert_eq!(model.selected_conflict_index, Some(0));
    assert_eq!(model.selected_conflict_details().len(), 1);
    assert_eq!(model.selected_conflict_details()[0].canonical_uid.as_deref(), Some("uid-a"));

    model.update(AppEvent::SelectNextConflict);
    assert_eq!(model.selected_conflict_summary().unwrap().pair_id, "work");

    let effects = model.update(AppEvent::ResolveSelectedConflict(AppResolution::GoogleWins));
    assert_eq!(
        effects,
        vec![AppEffect::ResolveConflict {
            conflict_ids: vec!["b".to_string()],
            resolution: AppResolution::GoogleWins,
        }]
    );
}

#[test]
fn command_palette_selects_and_executes_actions() {
    let mut model = empty_model();

    model.update(AppEvent::OpenCommandPalette);
    assert!(model.command_palette_open);
    assert_eq!(model.selected_command(), AppCommand::DryRun);

    model.update(AppEvent::SelectPreviousCommand);
    assert_eq!(model.selected_command(), AppCommand::Quit);
    let effects = model.update(AppEvent::ExecuteSelectedCommand);

    assert!(!model.command_palette_open);
    assert_eq!(effects, vec![AppEffect::Quit]);

    model.update(AppEvent::OpenCommandPalette);
    model.selected_command_index = 6;
    let effects = model.update(AppEvent::ExecuteSelectedCommand);

    assert_eq!(model.view, AppView::Runs);
    assert_eq!(effects, Vec::<AppEffect>::new());
}

#[test]
fn background_pause_command_toggles_scheduler_and_shell_action() {
    let mut model = AppModel::from_config(&ServiceConfig::default());

    let action = model
        .shell_snapshot()
        .actions
        .into_iter()
        .find(|action| action.command == AppCommand::ToggleBackgroundPause)
        .unwrap();
    assert_eq!(action.label, "Pause background");
    assert_eq!(action.description, "Pause the background scheduler");
    assert!(action.enabled);

    let effects = model.update(AppEvent::ExecuteCommand(AppCommand::ToggleBackgroundPause));
    assert_eq!(effects, vec![AppEffect::StopBackgroundScheduler]);
    assert!(model.background_paused);

    let snapshot = model.shell_snapshot();
    assert!(snapshot.background_paused);
    let action = snapshot
        .actions
        .iter()
        .find(|action| action.command == AppCommand::ToggleBackgroundPause)
        .unwrap();
    assert_eq!(action.label, "Resume background");
    assert_eq!(action.description, "Resume the background scheduler");
    assert!(snapshot
        .notifications
        .iter()
        .any(|notification| notification.message == "Background sync is paused"));

    let effects = model.update(AppEvent::ExecuteCommand(AppCommand::ToggleBackgroundPause));
    assert_eq!(effects, vec![AppEffect::StartBackgroundScheduler]);
    assert!(!model.background_paused);
}

#[test]
fn shell_snapshot_exposes_actions_status_and_notifications() {
    let mut model = empty_model();
    model.conflict_count = 2;
    model.last_message = Some("ready".to_string());
    model.last_run_at = Some("2026-06-02 12:00:00".to_string());
    model.last_run_status = Some("failed".to_string());
    model.next_run_at = Some("2026-06-02 12:05:00".to_string());
    model.recent_error = Some("auth failed".to_string());

    let snapshot = model.shell_snapshot();

    assert_eq!(snapshot.status, AppStatus::Idle);
    assert_eq!(snapshot.conflict_count, 2);
    assert_eq!(snapshot.enabled_pair_count, 0);
    assert_eq!(snapshot.last_message.as_deref(), Some("ready"));
    let dry_run = snapshot.actions.iter().find(|action| action.command == AppCommand::DryRun).unwrap();
    assert!(!dry_run.enabled);
    let apply = snapshot.actions.iter().find(|action| action.command == AppCommand::ApplyRun).unwrap();
    assert!(apply.destructive);
    let setup = snapshot.actions.iter().find(|action| action.command == AppCommand::OpenSetup).unwrap();
    assert!(setup.enabled);
    assert_eq!(
        snapshot.notifications.iter().map(|notification| notification.severity).collect::<Vec<_>>(),
        vec![AppNotificationSeverity::Error, AppNotificationSeverity::Warning, AppNotificationSeverity::Info]
    );
    assert_eq!(
        snapshot.notifications.iter().map(|notification| notification.message.as_str()).collect::<Vec<_>>(),
        vec!["auth failed", "2 unresolved conflict(s)", "No calendar pairs configured"]
    );

    let effects = model.update(AppEvent::ExecuteCommand(AppCommand::DryRun));
    assert!(effects.is_empty());
    assert_eq!(model.status, AppStatus::Idle);

    let effects = model.update(AppEvent::ExecuteCommand(AppCommand::OpenSetup));
    assert_eq!(effects, Vec::<AppEffect>::new());
    assert_eq!(model.view, AppView::Setup);
}

#[test]
fn apply_command_opens_confirmation_then_runs() {
    let mut config = ServiceConfig::default();
    config.sync.pairs = vec![personal_pair_config()];
    let mut model = AppModel::from_config(&config);

    let effects = model.update(AppEvent::ExecuteCommand(AppCommand::ApplyRun));
    assert!(effects.is_empty());
    assert!(model.confirm_apply);
    assert_eq!(model.status, AppStatus::Idle);

    model.update(AppEvent::CancelApplyRun);
    assert!(!model.confirm_apply);
    assert_eq!(model.status, AppStatus::Idle);

    model.update(AppEvent::ExecuteCommand(AppCommand::ApplyRun));
    let effects = model.update(AppEvent::ConfirmApplyRun);
    assert!(!model.confirm_apply);
    assert_eq!(model.status, AppStatus::Syncing);
    assert_eq!(effects, vec![AppEffect::RunApplySync]);
}

#[test]
fn setup_steps_surface_readiness_and_next_actions() {
    let mut config = ServiceConfig::default();
    config.secret_store = SecretStoreKind::Os;
    config.google.client_id = Some("client-id".to_string());
    config.icloud.username = Some("me@icloud.com".to_string());
    config.sync.pairs = vec![personal_pair_config()];
    let mut model = AppModel::from_config(&config);

    let steps = model.setup_steps();
    assert_eq!(steps.len(), 6);
    assert_eq!(steps[0].status, AppSetupStepStatus::Complete);
    assert_eq!(steps[1].status, AppSetupStepStatus::Complete);
    assert_eq!(steps[2].status, AppSetupStepStatus::Complete);
    assert_eq!(steps[3].status, AppSetupStepStatus::Attention);
    assert_eq!(steps[4].status, AppSetupStepStatus::Complete);
    assert_eq!(steps[5].status, AppSetupStepStatus::Missing);

    model.pairs[0].google_calendar_name = Some("Primary".to_string());
    model.pairs[0].icloud_calendar_name = Some("Home".to_string());
    model.last_run_status = Some("completed".to_string());
    let steps = model.setup_steps();
    assert_eq!(steps[3].status, AppSetupStepStatus::Complete);
    assert_eq!(steps[5].status, AppSetupStepStatus::Complete);
    assert_eq!(model.setup_ready_count(), 6);
}

// ---------------------------------------------------------------- further cases

#[test]
fn from_config_selects_first_pair_on_dashboard() {
    let mut config = ServiceConfig::default();
    config.sync.pairs = vec![personal_pair_config()];
    let model = AppModel::from_config(&config);
    assert_eq!(model.view, AppView::Dashboard);
    assert_eq!(model.selected_pair_id.as_deref(), Some("personal"));
    assert_eq!(model.pairs.len(), 1);
    assert_eq!(model.pairs[0].google_calendar_id, "primary");
    assert!(model.pairs[0].google_calendar_name.is_none());
    assert_eq!(model.setup.secret_store, "none");
    assert_eq!(model.setup.poll_interval_seconds, 300);
}

#[test]
fn navigation_on_empty_lists_clears_selection() {
    let mut model = empty_model();
    model.selected_pair_id = Some("gone".to_string());
    model.select_next_pair();
    assert_eq!(model.selected_pair_id, None);
    model.selected_conflict_index = Some(4);
    model.select_next_conflict();
    assert_eq!(model.selected_conflict_index, None);
    model.update(AppEvent::ShowReports);
    assert_eq!(model.selected_report_index, None);
}

#[test]
fn next_then_previous_pair_returns_to_selection() {
    let mut model = empty_model();
    model.pairs = vec![
        pair("a", true, SyncDirection::TwoWay, "ga", "ia"),
        pair("b", true, SyncDirection::TwoWay, "gb", "ib"),
        pair("c", true, SyncDirection::TwoWay, "gc", "ic"),
    ];
    model.selected_pair_id = Some("b".to_string());
    model.select_next_pair();
    assert_eq!(model.selected_pair_id.as_deref(), Some("c"));
    model.select_previous_pair();
    assert_eq!(model.selected_pair_id.as_deref(), Some("b"));
    model.selected_pair_id = Some("c".to_string());
    model.select_next_pair();
    assert_eq!(model.selected_pair_id.as_deref(), Some("a"));
}

#[test]
fn cancel_after_request_restores_model_flag() {
    let mut config = ServiceConfig::default();
    config.sync.pairs = vec![personal_pair_config()];
    let mut model = AppModel::from_config(&config);
    model.update(AppEvent::RequestApplyRun);
    assert!(model.confirm_apply);
    let effects = model.update(AppEvent::CancelApplyRun);
    assert!(effects.is_empty());
    assert!(!model.confirm_apply);
    assert_eq!(model.view, AppView::Dashboard);
}

#[test]
fn engine_failure_sets_error_and_first_notification() {
    let mut model = empty_model();
    model.update(AppEvent::EngineFailed { message: "network down".to_string() });
    assert_eq!(model.status, AppStatus::Error);
    assert_eq!(model.recent_error.as_deref(), Some("network down"));
    assert_eq!(model.last_message.as_deref(), Some("network down"));
    let snapshot = model.shell_snapshot();
    assert_eq!(snapshot.notifications[0].severity, AppNotificationSeverity::Error);
    assert_eq!(snapshot.notifications[0].message, "network down");

    model.update(AppEvent::EngineFinished { message: "done".to_string() });
    assert_eq!(model.status, AppStatus::Idle);
    assert_eq!(model.last_message.as_deref(), Some("done"));
}

#[test]
fn empty_error_is_not_a_notification() {
    let mut model = empty_model();
    model.recent_error = Some(String::new());
    model.pairs = vec![pair("a", true, SyncDirection::TwoWay, "ga", "ia")];
    assert!(model.shell_snapshot().notifications.is_empty());
}

#[test]
fn filters_and_sorts_cycle_back() {
    let mut model = empty_model();
    for _ in 0..4 {
        model.update(AppEvent::CycleRunFilter);
    }
    assert_eq!(model.run_filter, AppRunFilter::All);
    for _ in 0..5 {
        model.update(AppEvent::CycleReportFilter);
    }
    assert_eq!(model.report_filter, AppReportFilter::All);
    for _ in 0..3 {
        model.update(AppEvent::CycleReportSort);
    }
    assert_eq!(model.report_sort, AppReportSort::Pair);
}

#[test]
fn resolving_without_selection_asks_nothing() {
    let mut model = empty_model();
    let effects = model.update(AppEvent::ResolveSelectedConflict(AppResolution::DeleteWins));
    assert!(effects.is_empty());
}

#[test]
fn command_index_past_the_end_reads_as_dry_run() {
    let mut model = empty_model();
    model.selected_command_index = 40;
    assert_eq!(model.selected_command(), AppCommand::DryRun);
    model.update(AppEvent::SelectNextCommand);
    assert_eq!(model.selected_command_index, 8);
}

#[test]
fn unknown_pair_snapshot_changes_nothing() {
    let mut model = empty_model();
    model.pairs = vec![pair("a", true, SyncDirection::TwoWay, "ga", "ia")];
    model.apply_runtime_snapshot(AppRuntimeSnapshot {
        pairs: vec![AppPairRuntimeSnapshot {
            pair_id: "zzz".to_string(),
            google_calendar_name: Some("Work".to_string()),
            icloud_calendar_name: None,
            google_account_label: None,
            icloud_account_label: None,
            google_last_sync_at: None,
            icloud_last_sync_at: None,
        }],
        ..AppRuntimeSnapshot::default()
    });
    assert!(model.pairs[0].google_calendar_name.is_none());
    assert_eq!(model.pairs[0].id, "a");
}

#[test]
fn labels_of_resolutions_and_commands() {
    assert_eq!(AppResolution::IcloudWins.label(), "iCloud wins");
    assert_eq!(AppCommand::ShowReports.label(), "Show dry-run report");
    assert_eq!(AppCommand::all().len(), 11);
    assert_eq!(AppRunFilter::Completed.label(), "completed");
}

#[test]
fn events_keep_selections_in_range() {
    let mut model = AppModel::from_config(&ServiceConfig::default());
    model.apply_runtime_snapshot(AppRuntimeSnapshot {
        report_rows: vec![
            report_row("work", "update_google", "google_changed", "apply", "Budget review", "uid-work", "yes", "Budget review", "title,start"),
            report_row("personal", "create_icloud", "missing_icloud", "apply", "Dentist", "uid-dentist", "no", "", ""),
        ],
        ..AppRuntimeSnapshot::default()
    });
    let events = vec![
        AppEvent::ShowReports,
        AppEvent::SelectNextReportRow,
        AppEvent::CycleReportFilter,
        AppEvent::SelectPreviousReportRow,
        AppEvent::CycleReportFilter,
        AppEvent::CycleReportSort,
        AppEvent::SelectPreviousCommand,
        AppEvent::SelectNextCommand,
        AppEvent::SelectPreviousCommand,
        AppEvent::ShowConflicts,
        AppEvent::SelectNextConflict,
        AppEvent::ExecuteSelectedCommand,
    ];
    for event in events {
        model.update(event);
        assert!(model.selected_command_index < AppCommand::all().len());
        if let Some(k) = model.selected_report_index {
            assert!(k < model.visible_report_rows().len());
        }
        if let Some(k) = model.selected_conflict_index {
            assert!(k < model.conflict_summaries.len());
        }
    }
    assert_eq!(model.selected_command_index, AppCommand::all().len() - 1);
}

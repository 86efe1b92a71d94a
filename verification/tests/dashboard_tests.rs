use insync::app::{
    AppCommand, AppConflictDetail, AppConflictSummary, AppModel, AppNotificationSeverity, AppPair, AppReportFilter,
    AppReportRow, AppReportSort, AppRun, AppRunFilter, AppSetupState, AppSetupStep, AppSetupStepStatus,
    AppShellAction, AppStatus, AppView,
};
use insync::dashboard::Tone;
use insync::dashboard_rows::{
    command_tone, conflict_detail_cells, conflict_summary_cells, last_run_tone, notification_tone, pair_gauge_tone,
    pair_row_cells, palette_entry, report_action_tone, report_row_cells, run_row_cells, run_status_tone,
    setup_status_tone, setup_step_lines, status_tone,
};
use insync::policy::SyncDirection;

fn model() -> AppModel {
    AppModel {
        status: AppStatus::Idle,
        view: AppView::Dashboard,
        command_palette_open: false,
        confirm_apply: false,
        selected_command_index: 0,
        selected_pair_id: None,
        selected_run_id: None,
        selected_conflict_index: None,
        run_filter: AppRunFilter::All,
        setup: AppSetupState::default(),
        report_filter: AppReportFilter::All,
        report_sort: AppReportSort::Pair,
        selected_report_index: None,
        background_paused: false,
        conflict_count: 0,
        last_message: None,
        last_run_at: None,
        last_run_status: None,
        next_run_at: None,
        recent_error: None,
        pairs: Vec::new(),
        runs: Vec::new(),
        report_rows: Vec::new(),
        plan: None,
        conflict_summaries: Vec::new(),
        conflict_details: Vec::new(),
    }
}

fn pair(id: &str, enabled: bool) -> AppPair {
    AppPair {
        id: id.to_string(),
        enabled,
        direction: SyncDirection::TwoWay,
        google_calendar_id: "primary".to_string(),
        icloud_calendar_id: "https://caldav.icloud.com/123456789/calendars/home/".to_string(),
        google_calendar_name: Some("Work".to_string()),
        icloud_calendar_name: None,
        google_account_label: Some("me@example.com".to_string()),
        icloud_account_label: None,
        google_last_sync_at: None,
        icloud_last_sync_at: None,
    }
}

#[test]
fn pair_rows_show_marker_state_direction_and_calendars() {
    let mut m = model();
    m.selected_pair_id = Some("personal".to_string());
    assert_eq!(pair_row_cells(&pair("personal", true), &m, true), vec![">", "personal", "on", "two-way"]);
    assert_eq!(
        pair_row_cells(&pair("work", false), &m, false),
        vec![" ", "work", "off", "two-way", "Work [me@example.com]", "...123456789/calendars/home/"]
    );
}

#[test]
fn run_rows_fill_missing_values_with_dashes() {
    let run = AppRun {
        id: "run-1".to_string(),
        pair_id: None,
        status: "failed".to_string(),
        started_at: "2026-06-02T12:00:00Z".to_string(),
        finished_at: None,
        error: Some("auth failed".to_string()),
    };
    let mut m = model();
    m.selected_run_id = Some("run-1".to_string());
    assert_eq!(run_row_cells(&run, &m, true), vec![">", "failed", "-", "...06-02T12:00:00Z"]);
    assert_eq!(
        run_row_cells(&run, &model(), false),
        vec![" ", "failed", "-", "2026-06-02T12:00:00Z", "-", "auth failed"]
    );
}

#[test]
fn report_and_conflict_rows() {
    let row = AppReportRow {
        pair_id: "work".to_string(),
        action: "update_google".to_string(),
        reason: "google_changed".to_string(),
        resolution: "apply".to_string(),
        title: "Budget review".to_string(),
        canonical_uid: "uid-work".to_string(),
        google_present: "yes".to_string(),
        icloud_present: "yes".to_string(),
        google_title: String::new(),
        icloud_title: String::new(),
        google_start: String::new(),
        icloud_start: String::new(),
        google_end: String::new(),
        icloud_end: String::new(),
        google_status: String::new(),
        icloud_status: String::new(),
        diff_fields: "title,start".to_string(),
    };
    let mut m = model();
    m.selected_report_index = Some(2);
    assert_eq!(report_row_cells(2, &row, &m, true), vec![">", "work", "update_google", "Budget review"]);
    assert_eq!(
        report_row_cells(0, &row, &m, false),
        vec![" ", "work", "update_google", "Budget review", "google_changed", "apply"]
    );

    let summary = AppConflictSummary {
        pair_id: "personal".to_string(),
        reason: "both_sides_changed".to_string(),
        count: 12,
        first_seen_at: "a".to_string(),
        last_seen_at: "2026-06-02 12:01:00".to_string(),
    };
    m.selected_conflict_index = Some(0);
    assert_eq!(
        conflict_summary_cells(0, &summary, &m, false),
        vec![">", "personal", "12", "both_sides_changed", "2026-06-02 12:01:00"]
    );
    assert_eq!(conflict_summary_cells(1, &summary, &m, true), vec![" ", "personal", "12", "both_sides_changed"]);

    let detail = AppConflictDetail {
        id: "c".to_string(),
        pair_id: "personal".to_string(),
        event_link_id: None,
        canonical_uid: Some("uid-1".to_string()),
        reason: "both_sides_changed".to_string(),
        resolution_policy: String::new(),
        google_title: Some("Planning Google".to_string()),
        icloud_title: None,
        google_start: None,
        icloud_start: None,
        google_status: None,
        icloud_status: None,
        google_event_id: None,
        icloud_href: None,
        diff_fields: "title|start|status".to_string(),
        created_at: "2026-06-02 12:01:00".to_string(),
        queued_resolution: None,
    };
    assert_eq!(conflict_detail_cells(&detail, true), vec!["uid-1", "title|start|status", "2026-06-02 12:01:00"]);
    assert_eq!(
        conflict_detail_cells(&detail, false),
        vec![">", "uid-1", "Planning Google", "-", "2026-06-02 12:01:00"]
    );
}

#[test]
fn palette_entries_and_setup_panels() {
    let action = AppShellAction {
        command: AppCommand::ApplyRun,
        label: "Apply sync".to_string(),
        description: "Write planned changes".to_string(),
        enabled: true,
        destructive: true,
    };
    let entry = palette_entry(0, &action, &model());
    assert_eq!(entry.marker, ">");
    assert_eq!(entry.label, "Apply sync");
    assert_eq!(entry.tone, Tone::Danger);
    let disabled = AppShellAction { enabled: false, ..action };
    assert_eq!(palette_entry(1, &disabled, &model()).tone, Tone::Muted);

    let step = AppSetupStep {
        label: "Discovery".to_string(),
        status: AppSetupStepStatus::Attention,
        detail: "x".repeat(80),
        next_action: "Run insync setup --discover".to_string(),
    };
    let lines = setup_step_lines("Next", &step, 40);
    assert_eq!(lines[0], "Next: Discovery");
    assert_eq!(lines[1], "Status: Check");
    assert_eq!(lines[2], format!("Detail: ...{}", "x".repeat(23)));
    assert_eq!(lines[3], "Action: ...insync setup --discover");
}

#[test]
fn tones_follow_status() {
    assert_eq!(status_tone(AppStatus::Error), Tone::Danger);
    assert_eq!(status_tone(AppStatus::Checking), Tone::Checking);
    assert_eq!(run_status_tone("completed"), Tone::Success);
    assert_eq!(run_status_tone("queued"), Tone::Neutral);
    assert_eq!(report_action_tone("delete_google"), Tone::Danger);
    assert_eq!(report_action_tone("manual_conflict"), Tone::Warning);
    assert_eq!(report_action_tone("create_icloud"), Tone::Success);
    assert_eq!(report_action_tone("update_icloud"), Tone::Running);
    assert_eq!(report_action_tone("snapshot"), Tone::Plain);
    assert_eq!(command_tone(AppCommand::ShowPairs), Tone::Plain);
    assert_eq!(setup_status_tone(AppSetupStepStatus::Missing), Tone::Danger);
    assert_eq!(notification_tone(AppNotificationSeverity::Info), Tone::Checking);

    let mut m = model();
    assert_eq!(pair_gauge_tone(&m), Tone::Muted);
    assert_eq!(last_run_tone(&m), Tone::Muted);
    m.pairs = vec![pair("a", true), pair("b", false)];
    assert_eq!(pair_gauge_tone(&m), Tone::Warning);
    m.pairs = vec![pair("a", true)];
    assert_eq!(pair_gauge_tone(&m), Tone::Success);
    m.last_run_status = Some("failed".to_string());
    assert_eq!(last_run_tone(&m), Tone::Danger);
}

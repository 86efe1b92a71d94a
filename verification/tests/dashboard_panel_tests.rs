use insync::app::{
    AppConflictDetail, AppConflictSummary, AppModel, AppReportRow, AppRun, AppSetupState, AppSetupStep,
    AppSetupStepStatus,
};
use insync::config::ServiceConfig;
use insync::dashboard::Tone;
use insync::dashboard_panels::{
    activity_lines, conflict_comparison_lines, next_setup_step, report_detail_lines, run_detail_lines,
    setup_guidance_lines,
};

fn run() -> AppRun {
    AppRun {
        id: "run-1".to_string(),
        pair_id: Some("personal".to_string()),
        status: "failed".to_string(),
        started_at: "2026-06-01T12:00:00Z".to_string(),
        finished_at: None,
        error: Some("boom".to_string()),
    }
}

fn report_row(title: &str) -> AppReportRow {
    AppReportRow {
        pair_id: "personal".to_string(),
        action: "update_icloud".to_string(),
        reason: "google_changed".to_string(),
        resolution: String::new(),
        title: title.to_string(),
        canonical_uid: "uid-1".to_string(),
        google_present: "yes".to_string(),
        icloud_present: String::new(),
        google_title: title.to_string(),
        icloud_title: String::new(),
        google_start: String::new(),
        icloud_start: String::new(),
        google_end: String::new(),
        icloud_end: String::new(),
        google_status: String::new(),
        icloud_status: String::new(),
        diff_fields: String::new(),
    }
}

fn step(label: &str, status: AppSetupStepStatus) -> AppSetupStep {
    AppSetupStep {
        label: label.to_string(),
        status,
        detail: "detail".to_string(),
        next_action: "act".to_string(),
    }
}

#[test]
fn run_detail_panel_has_a_short_and_a_full_form() {
    assert_eq!(
        run_detail_lines(&run(), 12, 80),
        vec![
            "failed",
            "Run ID: run-1",
            "Pair: personal",
            "Started: 2026-06-01T12:00:00Z",
            "Finished: -",
            "Error: boom"
        ]
    );
    assert_eq!(
        run_detail_lines(&run(), 5, 80),
        vec!["failed", "Run: run-1", "Pair: personal", "At: 2026-06-01T12:00:00Z -> -", "Error: boom"]
    );
}

#[test]
fn report_detail_panel_dashes_empty_values_and_compacts_long_ones() {
    assert_eq!(
        report_detail_lines(&report_row("Lunch"), 60),
        vec![
            "update_icloud",
            "Pair: personal",
            "Title: Lunch",
            "Reason: google_changed",
            "Resolution: ",
            "Present: Google yes / iCloud -",
            "Diff: -"
        ]
    );
    let lines = report_detail_lines(&report_row("abcdefghijklmnopqrst"), 30);
    assert_eq!(lines[2], "Title: ...hijklmnopqrst");
}

#[test]
fn conflict_comparison_panel_shows_both_sides_and_the_audit_trail() {
    let detail = AppConflictDetail {
        id: "c-1".to_string(),
        pair_id: "personal".to_string(),
        event_link_id: None,
        canonical_uid: Some("uid-1".to_string()),
        reason: "both_sides_changed".to_string(),
        resolution_policy: "manual".to_string(),
        google_title: Some("Lunch".to_string()),
        icloud_title: None,
        google_start: Some("2026-06-01 12:00".to_string()),
        icloud_start: None,
        google_status: Some("confirmed".to_string()),
        icloud_status: None,
        google_event_id: Some("g-1".to_string()),
        icloud_href: None,
        diff_fields: "title".to_string(),
        created_at: "2026-06-02".to_string(),
        queued_resolution: None,
    };
    let summary = AppConflictSummary {
        pair_id: "personal".to_string(),
        reason: "both_sides_changed".to_string(),
        count: 2,
        first_seen_at: "2026-01-01".to_string(),
        last_seen_at: "2026-02-01".to_string(),
    };
    assert_eq!(
        conflict_comparison_lines(&detail, Some(&summary), 80),
        vec![
            "Policy: manual",
            "Reason: both_sides_changed",
            "UID: uid-1",
            "Diff: title",
            "Google: Lunch | 2026-06-01 12:00 | confirmed",
            "iCloud: - | - | -",
            "Audit: unresolved since 2026-06-02; group first 2026-01-01 last 2026-02-01; link -",
            "Provider IDs: G g-1 / I -"
        ]
    );
    let lines = conflict_comparison_lines(&detail, None, 80);
    assert_eq!(lines[6], "Audit: unresolved since 2026-06-02; group first - last -; link -");
}

#[test]
fn next_setup_step_is_the_first_open_one() {
    let steps = vec![
        step("Config", AppSetupStepStatus::Complete),
        step("Google", AppSetupStepStatus::Missing),
        step("iCloud", AppSetupStepStatus::Attention),
    ];
    assert_eq!(next_setup_step(&steps), Some(1));
    assert_eq!(next_setup_step(&vec![step("Config", AppSetupStepStatus::Complete)]), None);
    assert_eq!(next_setup_step(&Vec::new()), None);
}

#[test]
fn setup_guidance_without_open_steps_or_pair() {
    assert_eq!(
        setup_guidance_lines(None, None, &AppSetupState::default(), 80),
        vec![
            "Ready for repeated dry-runs.",
            "Run insync sync --report .insync/reports/dry-run.csv",
            "",
            "Selected Pair",
            "No pair selected.",
            "Use setup pair commands after discovery.",
            "",
            "Config: db .insync/insync.db / secrets none / poll 300s"
        ]
    );
    let open = step("Google", AppSetupStepStatus::Missing);
    let lines = setup_guidance_lines(Some(&open), None, &AppSetupState::default(), 80);
    assert_eq!(lines[0], "Next: Google");
    assert_eq!(lines[4], "");
    assert_eq!(lines[5], "Selected Pair");
}

#[test]
fn activity_list_of_a_fresh_model() {
    let model = AppModel::from_config(&ServiceConfig::default());
    let lines = activity_lines(&model);
    let texts: Vec<&str> = lines.iter().map(|(text, _)| text.as_str()).collect();
    assert_eq!(
        texts,
        vec![
            "Status: idle",
            "Unresolved conflicts: 0",
            "Last run: No runs yet",
            "Next run: not scheduled",
            "Recent error: -",
            "App message: -"
        ]
    );
    assert_eq!(lines[1].1, Tone::Success);
    assert_eq!(lines[4].1, Tone::Muted);
}

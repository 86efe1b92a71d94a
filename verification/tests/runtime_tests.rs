use insync::config::SyncPairConfig;
use insync::engine::{DoctorSummary, SyncRunSummary};
use insync::policy::SyncDirection;
use insync::runtime::{
    app_run, calendar_last_sync_at, calendar_name, conflict_detail_snapshot, conflict_diff_fields,
    conflict_summary_snapshot, next_run_at, next_run_at_checked, non_empty_text, pair_runtime_snapshot,
    runtime_snapshot_from_doctor, snapshot_date, ConflictSnapshot, StoredConflictRow,
};
use insync::store::{CalendarRow, ManualConflictResolution, SyncRun, SyncRunStatus, UnresolvedConflictSummary};

fn snapshot(title: &str, start: String, status: &str) -> ConflictSnapshot {
    ConflictSnapshot {
        title: non_empty_text(Some(title)),
        start: Some(start),
        status: non_empty_text(Some(status)),
        location: None,
        description: None,
        google_event_id: None,
        icloud_href: None,
    }
}

fn calendar(id: &str, name: Option<&str>, email: &str) -> CalendarRow {
    CalendarRow {
        id: id.to_string(),
        account_id: "account".to_string(),
        provider: "google".to_string(),
        account_email: email.to_string(),
        provider_calendar_id: "primary".to_string(),
        name: name.map(|n| n.to_string()),
        color: None,
        timezone: None,
        writable: true,
        raw_json: None,
        provider_sync_token: None,
        last_full_sync_at: Some("2026-06-02 11:00:00".to_string()),
        last_incremental_sync_at: None,
        sync_state_updated_at: None,
        created_at: "2026-06-01 00:00:00".to_string(),
        updated_at: "2026-06-01 00:00:00".to_string(),
    }
}

fn doctor(latest: Option<SyncRunSummary>, conflicts: i64) -> DoctorSummary {
    DoctorSummary {
        db_path: ".insync/insync.db".to_string(),
        configured_pair_count: 1,
        enabled_pair_count: 1,
        unresolved_conflict_count: conflicts,
        google_credentials_configured: true,
        icloud_credentials_configured: true,
        latest_run: latest,
    }
}

fn run_summary(finished_at: Option<&str>) -> SyncRunSummary {
    SyncRunSummary {
        id: "run-1".to_string(),
        sync_pair_id: None,
        status: "failed".to_string(),
        started_at: "2026-06-02T11:55:00Z".to_string(),
        finished_at: finished_at.map(|f| f.to_string()),
        error: Some("auth failed".to_string()),
    }
}

#[test]
fn conflict_snapshot_mapper_extracts_comparison_fields() {
    let mut google = snapshot(
        "Google title",
        snapshot_date(Some("dateTime"), "2026-06-02T12:00:00Z", Some("Europe/Berlin")),
        "confirmed",
    );
    google.google_event_id = non_empty_text(Some("google-1"));
    let mut icloud = snapshot("iCloud title", snapshot_date(Some("date"), "2026-06-03", None), "tentative");
    icloud.icloud_href = non_empty_text(Some("/cal/icloud-1.ics"));

    let detail = conflict_detail_snapshot(StoredConflictRow {
        id: "conflict-1".to_string(),
        sync_pair_id: "personal".to_string(),
        event_link_id: Some("link-1".to_string()),
        canonical_uid: Some("uid-1".to_string()),
        reason: "both_sides_changed".to_string(),
        manual_resolution: None,
        google: Some(google),
        icloud: Some(icloud),
        created_at: "2026-06-02 12:01:00".to_string(),
    });

    assert_eq!(detail.google_title.as_deref(), Some("Google title"));
    assert_eq!(detail.icloud_title.as_deref(), Some("iCloud title"));
    assert_eq!(detail.google_start.as_deref(), Some("2026-06-02T12:00:00Z [Europe/Berlin]"));
    assert_eq!(detail.icloud_start.as_deref(), Some("2026-06-03"));
    assert_eq!(detail.google_event_id.as_deref(), Some("google-1"));
    assert_eq!(detail.icloud_href.as_deref(), Some("/cal/icloud-1.ics"));
    assert_eq!(detail.diff_fields, "title|start|status");
    assert!(detail.resolution_policy.contains("manual review"));
}

#[test]
fn conflict_detail_carries_row_and_queued_resolution() {
    let same = snapshot("Same", "2026-06-03".to_string(), "confirmed");
    let detail = conflict_detail_snapshot(StoredConflictRow {
        id: "c".to_string(),
        sync_pair_id: "work".to_string(),
        event_link_id: None,
        canonical_uid: None,
        reason: "icloud_uid_exists_in_different_calendar".to_string(),
        manual_resolution: Some(ManualConflictResolution::GoogleWins),
        google: Some(same.clone()),
        icloud: Some(same),
        created_at: "t".to_string(),
    });
    assert_eq!(detail.diff_fields, "metadata");
    assert_eq!(detail.queued_resolution.as_deref(), Some("google_wins"));
    assert_eq!(detail.pair_id, "work");
    assert_eq!(detail.resolution_policy, "manual review");
}

#[test]
fn diff_fields_name_a_missing_side() {
    let one = snapshot("A", "2026-06-03".to_string(), "confirmed");
    assert_eq!(conflict_diff_fields(None, Some(&one)), "google_missing");
    assert_eq!(conflict_diff_fields(Some(&one), None), "icloud_missing");
    let mut other = one.clone();
    other.location = Some("Room 1".to_string());
    other.description = Some("notes".to_string());
    assert_eq!(conflict_diff_fields(Some(&one), Some(&other)), "location|description");
}

#[test]
fn snapshot_text_is_trimmed_and_dates_carry_their_zone() {
    assert_eq!(non_empty_text(Some("  Title ")), Some("Title".to_string()));
    assert_eq!(non_empty_text(Some("   ")), None);
    assert_eq!(non_empty_text(None), None);
    assert_eq!(snapshot_date(Some("dateTime"), "2026-06-02T12:00:00Z", Some(" ")), "2026-06-02T12:00:00Z");
    assert_eq!(snapshot_date(None, "2026-06-02", Some("UTC")), "2026-06-02");
    assert_eq!(snapshot_date(Some("dateTime"), "x", Some("UTC")), "x [UTC]");
}

#[test]
fn pair_snapshot_reads_cached_calendars() {
    let pair = SyncPairConfig {
        id: "personal".to_string(),
        enabled: true,
        direction: SyncDirection::TwoWay,
        google_calendar_id: "primary".to_string(),
        icloud_calendar_id: "https://caldav.example/cal".to_string(),
    };
    let mut newer = calendar("g", Some("Work"), "me@example.com");
    newer.last_incremental_sync_at = Some("2026-06-02 12:00:00".to_string());
    let rows = vec![
        calendar("g", Some("Old"), "old@example.com"),
        newer,
        calendar("i", Some("https://caldav.example/cal"), "me@icloud.com"),
    ];
    let snapshot = pair_runtime_snapshot(&pair, "g", "i", &rows);
    assert_eq!(snapshot.pair_id, "personal");
    assert_eq!(snapshot.google_calendar_name.as_deref(), Some("Work"));
    assert_eq!(snapshot.icloud_calendar_name, None);
    assert_eq!(snapshot.google_account_label.as_deref(), Some("me@example.com"));
    assert_eq!(snapshot.icloud_account_label.as_deref(), Some("me@icloud.com"));
    assert_eq!(snapshot.google_last_sync_at.as_deref(), Some("2026-06-02 12:00:00"));
    assert_eq!(snapshot.icloud_last_sync_at.as_deref(), Some("2026-06-02 11:00:00"));

    assert_eq!(calendar_name(Some(&calendar("x", Some("  "), "e")), "primary"), None);
    assert_eq!(calendar_name(None, "primary"), None);
    assert_eq!(calendar_last_sync_at(None), None);

    let missing = pair_runtime_snapshot(&pair, "nope", "nope", &rows);
    assert_eq!(missing.google_account_label, None);
}

#[test]
fn runs_and_conflict_groups_map_for_the_dashboard() {
    let run = app_run(SyncRun {
        id: "run-1".to_string(),
        sync_pair_id: Some("personal".to_string()),
        status: SyncRunStatus::Completed,
        started_at: "s".to_string(),
        finished_at: None,
        error: None,
    });
    assert_eq!(run.status, "completed");
    assert_eq!(run.pair_id.as_deref(), Some("personal"));

    let group = conflict_summary_snapshot(UnresolvedConflictSummary {
        sync_pair_id: "personal".to_string(),
        reason: "both_sides_changed".to_string(),
        count: 4,
        first_seen_at: "a".to_string(),
        last_seen_at: "b".to_string(),
    });
    assert_eq!(group.count, 4);
    let negative = conflict_summary_snapshot(UnresolvedConflictSummary {
        sync_pair_id: "personal".to_string(),
        reason: "r".to_string(),
        count: -1,
        first_seen_at: "a".to_string(),
        last_seen_at: "b".to_string(),
    });
    assert_eq!(negative.count, usize::MAX);
}

#[test]
fn next_run_adds_the_poll_interval_to_the_latest_run() {
    let finished = doctor(Some(run_summary(Some("2026-06-02T12:00:00Z"))), 0);
    assert_eq!(next_run_at(&finished, 300).as_deref(), Some("2026-06-02T12:05:00+00:00"));
    let started = doctor(Some(run_summary(None)), 0);
    assert_eq!(next_run_at(&started, 600).as_deref(), Some("2026-06-02T12:05:00+00:00"));
    assert_eq!(next_run_at(&doctor(None, 0), 300), None);
    let unreadable = doctor(Some(run_summary(Some("2026-06-02 12:00:00"))), 0);
    assert_eq!(next_run_at(&unreadable, 300), None);
    assert_eq!(next_run_at(&finished, u64::MAX), None);
    assert_eq!(next_run_at_checked(&finished, 300).as_deref(), Some("2026-06-02T12:05:00+00:00"));
    assert_eq!(next_run_at_checked(&finished, i64::MAX as u64), None);
}

#[test]
fn runtime_snapshot_takes_the_doctor_report() {
    let summary = doctor(Some(run_summary(Some("2026-06-02T12:01:00Z"))), 3);
    let snapshot =
        runtime_snapshot_from_doctor(&summary, Some("next".to_string()), Vec::new(), Vec::new(), Vec::new(), Vec::new());
    assert_eq!(snapshot.conflict_count, 3);
    assert_eq!(snapshot.last_run_at.as_deref(), Some("2026-06-02T12:01:00Z"));
    assert_eq!(snapshot.last_run_status.as_deref(), Some("failed"));
    assert_eq!(snapshot.recent_error.as_deref(), Some("auth failed"));
    assert_eq!(snapshot.next_run_at.as_deref(), Some("next"));
    assert!(snapshot.report_rows.is_empty());
    assert!(snapshot.plan.is_none());
}

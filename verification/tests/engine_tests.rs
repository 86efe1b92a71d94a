use chrono::TimeZone;
use insync::config::{
    GoogleConfig, IcloudConfig, ResolvedCredentials, ResolvedGoogleCredentials, ResolvedIcloudCredentials,
    ServiceConfig, SyncConfig, SyncPairConfig,
};
use insync::engine::{
    action_name, count_actions, enabled_pair_count, merge_counts, planner_conflict_policies, resolve_db_path,
    should_include_report_action, store_dir, sync_run_summary, total_conflicts, EngineError, ReportMode, RunMode,
    SyncEngine,
};
use insync::engine_apply::{
    active_manual_conflicts, apply_step, event_link_upsert, pair_writes, records_sync_run, first_cursor, full_sync_cursor, link_after_delete,
    link_after_google_write, link_after_icloud_write, retry_with_full_sync, synced_hash, ApplyStep,
};
use insync::engine_plan::PlanTotals;
use insync::engine_report::{
    action_to_report_row, csv_escape, diff_event_fields, dry_run_report_text, format_event_date, report_date_key,
    report_row_to_csv, status_name,
};
use insync::event::{
    CalendarDate, CanonicalEvent, EventDateTime, EventStatus, EventVisibility, Instant, ProviderEventMeta,
    ProviderName,
};
use insync::event_hash::hash_canonical_event;
use insync::planner::{plan_two_way_actions, EventLink, PlanTwoWayInput, PlannedAction, PlannerConflictPolicies};
use insync::policy::{ConflictPolicy, SyncDirection};
use insync::providers::ProviderError;
use insync::store::{stale_conflict_ids, StoredConflict, SyncRun, SyncRunStatus};

fn utc(y: i32, mo: u32, d: u32, h: u32) -> Instant {
    let dt = chrono::Utc.with_ymd_and_hms(y, mo, d, h, 0, 0).unwrap();
    Instant { seconds: dt.timestamp(), nanos: 0 }
}

fn event(uid: &str, title: &str, provider: ProviderName) -> CanonicalEvent {
    CanonicalEvent {
        canonical_uid: uid.to_string(),
        title: title.to_string(),
        description: None,
        location: None,
        status: EventStatus::Confirmed,
        visibility: EventVisibility::Default,
        start: EventDateTime::DateTime { value: utc(2026, 6, 1, 12), timezone: Some("UTC".to_string()) },
        end: EventDateTime::DateTime { value: utc(2026, 6, 1, 13), timezone: Some("UTC".to_string()) },
        recurrence: None,
        attendees: Vec::new(),
        reminders: Vec::new(),
        provider_meta: ProviderEventMeta {
            provider,
            calendar_id: "calendar".to_string(),
            event_id: Some(uid.to_string()),
            href: None,
            etag: None,
            ical_uid: Some(uid.to_string()),
            updated_at: None,
            deleted: false,
        },
        raw: "{}".to_string(),
    }
}

fn meta(provider: ProviderName, calendar_id: &str, event: &CanonicalEvent) -> ProviderEventMeta {
    ProviderEventMeta {
        provider,
        calendar_id: calendar_id.to_string(),
        event_id: if provider == ProviderName::Google { Some(event.canonical_uid.clone()) } else { None },
        href: if provider == ProviderName::Icloud {
            Some(format!("{calendar_id}/{}.ics", event.canonical_uid))
        } else {
            None
        },
        etag: None,
        ical_uid: Some(event.canonical_uid.clone()),
        updated_at: None,
        deleted: false,
    }
}

fn pair() -> SyncPairConfig {
    SyncPairConfig {
        id: "personal".to_string(),
        enabled: true,
        direction: SyncDirection::TwoWay,
        google_calendar_id: "primary".to_string(),
        icloud_calendar_id: "https://caldav.example/cal".to_string(),
    }
}

fn config_with_db(db_path: &str) -> ServiceConfig {
    ServiceConfig {
        db_path: db_path.to_string(),
        google: GoogleConfig { account_label: "personal".to_string(), ..GoogleConfig::default() },
        icloud: IcloudConfig { account_label: "personal".to_string(), ..IcloudConfig::default() },
        sync: SyncConfig { pairs: vec![pair()], ..SyncConfig::default() },
        ..ServiceConfig::default()
    }
}

fn plan(links: &[EventLink], google: &[CanonicalEvent], icloud: &[CanonicalEvent]) -> Vec<PlannedAction> {
    plan_two_way_actions(PlanTwoWayInput {
        links,
        google_events: google,
        icloud_events: icloud,
        known_icloud_uid_collisions: Vec::new(),
        direction: SyncDirection::TwoWay,
        conflict_policy: PlannerConflictPolicies::default(),
    })
}

fn plan_summary(
    config: &ServiceConfig,
    links: &[EventLink],
    google: &[CanonicalEvent],
    icloud: &[CanonicalEvent],
    mode: RunMode,
    report: ReportMode,
) -> insync::engine::PlannedSyncSummary {
    let actions = plan(links, google, icloud);
    let mut totals = PlanTotals::new();
    totals.add_pair("personal", google.len(), icloud.len(), &actions, report);
    totals.finish(".state/insync.db".to_string(), config, mode)
}

fn count(entries: &[(String, usize)], name: &str) -> Option<usize> {
    entries.iter().find(|(n, _)| n == name).map(|(_, c)| *c)
}

fn linked(uid: &str, hash: &str) -> EventLink {
    EventLink {
        id: format!("link-{uid}"),
        sync_pair_id: "personal".to_string(),
        canonical_uid: uid.to_string(),
        google_event_id: Some(uid.to_string()),
        google_ical_uid: Some(uid.to_string()),
        google_etag: Some("g-etag".to_string()),
        icloud_href: Some(format!("{uid}.ics")),
        icloud_uid: Some(uid.to_string()),
        icloud_etag: Some("i-etag".to_string()),
        google_hash: Some(hash.to_string()),
        icloud_hash: Some(hash.to_string()),
        last_synced_hash: Some(hash.to_string()),
        deleted_google_at: None,
        deleted_icloud_at: None,
    }
}

fn mutating(action: &PlannedAction) -> &insync::planner::MutatingAction {
    match action {
        PlannedAction::CreateGoogle(m)
        | PlannedAction::CreateIcloud(m)
        | PlannedAction::UpdateGoogle(m)
        | PlannedAction::UpdateIcloud(m)
        | PlannedAction::DeleteGoogle(m)
        | PlannedAction::DeleteIcloud(m) => m,
        other => panic!("not a provider write: {other:?}"),
    }
}

#[test]
fn provider_planning_creates_missing_icloud_event() {
    let config = config_with_db(".state/insync.db");
    let summary = plan_summary(
        &config,
        &[],
        &[event("uid-1", "Planning", ProviderName::Google)],
        &[],
        RunMode::DryRun,
        ReportMode::ActionsOnly,
    );

    assert_eq!(summary.enabled_pair_count, 1);
    assert_eq!(summary.pair_summaries[0].google_events, 1);
    assert_eq!(summary.pair_summaries[0].icloud_events, 0);
    assert_eq!(count(&summary.action_counts, "create_icloud"), Some(1));
    assert_eq!(summary.report_rows.len(), 1);
    assert_eq!(summary.report_rows[0].pair_id, "personal");
    assert_eq!(summary.report_rows[0].action, "create_icloud");
    assert_eq!(summary.report_rows[0].canonical_uid, "uid-1");
    assert_eq!(summary.report_rows[0].google_present, "yes");
    assert_eq!(summary.report_rows[0].icloud_present, "no");
}

#[test]
fn writes_dry_run_report_csv() {
    let config = config_with_db(".state/insync.db");
    let summary = plan_summary(
        &config,
        &[],
        &[event("uid-1", "Planning, with comma", ProviderName::Google)],
        &[],
        RunMode::DryRun,
        ReportMode::ActionsOnly,
    );
    let body = dry_run_report_text(&summary.report_rows);

    assert!(body.starts_with("pair_id,action,canonical_uid"));
    assert!(body.contains("create_icloud"));
    assert!(body.contains("\"Planning, with comma\""));
}

#[test]
fn snapshots_are_reported_only_when_requested() {
    let config = config_with_db(".state/insync.db");
    let google_event = event("uid-1", "Planning", ProviderName::Google);
    let icloud_event = event("uid-1", "Planning", ProviderName::Icloud);
    let event_hash = hash_canonical_event(&google_event);
    let links = vec![linked("uid-1", &event_hash)];

    let default_summary = plan_summary(
        &config,
        &links,
        &[google_event.clone()],
        &[icloud_event.clone()],
        RunMode::DryRun,
        ReportMode::ActionsOnly,
    );
    let full_summary =
        plan_summary(&config, &links, &[google_event], &[icloud_event], RunMode::DryRun, ReportMode::AllActions);

    assert_eq!(count(&default_summary.action_counts, "snapshot"), Some(1));
    assert!(default_summary.report_rows.is_empty());
    assert_eq!(full_summary.report_rows.len(), 1);
    assert_eq!(full_summary.report_rows[0].action, "snapshot");
}

#[test]
fn provider_apply_creates_missing_icloud_event_and_records_link() {
    let config = config_with_db(".state/insync.db");
    let google_event = event("uid-1", "Apply", ProviderName::Google);
    let actions = plan(&[], &[google_event.clone()], &[]);
    let summary = plan_summary(&config, &[], &[google_event], &[], RunMode::Apply, ReportMode::ActionsOnly);

    let step = apply_step(&pair(), &actions[0]).unwrap();
    let calendar_id = match step {
        ApplyStep::Create { provider: ProviderName::Icloud, calendar_id } => calendar_id,
        other => panic!("unexpected step: {other:?}"),
    };
    let action = mutating(&actions[0]);
    let created = meta(ProviderName::Icloud, &calendar_id, &action.event);
    let link = link_after_icloud_write("personal", action, created);
    let latest_run = sync_run_summary(SyncRun {
        id: "run-1".to_string(),
        sync_pair_id: None,
        status: SyncRunStatus::Completed,
        started_at: "2026-06-02 12:00:00".to_string(),
        finished_at: Some("2026-06-02 12:00:01".to_string()),
        error: None,
    });

    assert_eq!(count(&summary.action_counts, "create_icloud"), Some(1));
    assert_eq!(summary.mode, RunMode::Apply);
    assert_eq!(link.google_event_id.as_deref(), Some("uid-1"));
    assert_eq!(link.icloud_href.as_deref(), Some("https://caldav.example/cal/uid-1.ics"));
    assert!(link.last_synced_hash.is_some());
    assert_eq!(latest_run.status, "completed");
}

#[test]
fn provider_apply_records_manual_conflicts() {
    let config = config_with_db(".state/insync.db");
    let google = [event("uid-1", "Google title", ProviderName::Google)];
    let icloud = [event("uid-1", "iCloud title", ProviderName::Icloud)];
    let actions = plan(&[], &google, &icloud);
    let summary = plan_summary(&config, &[], &google, &icloud, RunMode::Apply, ReportMode::ActionsOnly);
    let conflicts = active_manual_conflicts(&actions);

    assert_eq!(count(&summary.action_counts, "conflict"), Some(1));
    assert_eq!(conflicts.len(), 1);
    assert!(matches!(apply_step(&pair(), &actions[0]), Ok(ApplyStep::RecordConflict { event_link_id: None })));
    assert_eq!(conflicts[0].reason, "unlinked_events_have_same_uid_but_differ");
}

#[test]
fn provider_apply_resolves_stale_conflicts() {
    let config = config_with_db(".state/insync.db");
    let stored = vec![StoredConflict {
        id: "conflict-1".to_string(),
        canonical_uid: Some("uid-1".to_string()),
        reason: "unlinked_events_have_same_uid_but_differ".to_string(),
    }];
    let google = [event("uid-1", "Same title", ProviderName::Google)];
    let icloud = [event("uid-1", "Same title", ProviderName::Icloud)];
    let actions = plan(&[], &google, &icloud);
    let summary = plan_summary(&config, &[], &google, &icloud, RunMode::Apply, ReportMode::ActionsOnly);
    let resolved = stale_conflict_ids(&stored, &active_manual_conflicts(&actions));
    let conflicts: Vec<&StoredConflict> = stored.iter().filter(|c| !resolved.contains(&c.id)).collect();

    assert_eq!(count(&summary.action_counts, "snapshot"), Some(1));
    assert!(conflicts.is_empty());
}

#[test]
fn provider_planning_uses_stored_sync_tokens() {
    let google_cursors = vec![first_cursor(Some("google-token-1".to_string()))];
    let icloud_cursors = vec![first_cursor(Some("icloud-token-1".to_string()))];
    assert_eq!(google_cursors.len(), 1);
    assert_eq!(google_cursors[0].sync_token.as_deref(), Some("google-token-1"));
    assert!(!google_cursors[0].full_sync);
    assert_eq!(icloud_cursors.len(), 1);
    assert_eq!(icloud_cursors[0].sync_token.as_deref(), Some("icloud-token-1"));
    assert!(!icloud_cursors[0].full_sync);
}

#[test]
fn provider_planning_recovers_from_expired_sync_token() {
    let mut cursors = vec![first_cursor(Some("google-token-1".to_string()))];
    let error = ProviderError::SyncTokenExpired(ProviderName::Google);
    if retry_with_full_sync(&error, cursors[0].sync_token.is_some()) {
        cursors.push(full_sync_cursor());
    }
    assert_eq!(cursors.len(), 2);
    assert_eq!(cursors[0].sync_token.as_deref(), Some("google-token-1"));
    assert!(!cursors[0].full_sync);
    assert_eq!(cursors[1].sync_token, None);
    assert!(cursors[1].full_sync);
}

#[test]
fn cursors_without_token_read_in_full_and_other_failures_stand() {
    let first = first_cursor(None);
    assert!(first.full_sync);
    assert!(!retry_with_full_sync(&ProviderError::SyncTokenExpired(ProviderName::Icloud), false));
    assert!(!retry_with_full_sync(&ProviderError::Request("boom".to_string()), true));
}

#[test]
fn csv_fields_are_quoted_only_when_needed() {
    assert_eq!(csv_escape("plain"), "plain");
    assert_eq!(csv_escape("a,b"), "\"a,b\"");
    assert_eq!(csv_escape("say \"hi\""), "\"say \"\"hi\"\"\"");
    assert_eq!(csv_escape("line\nbreak"), "\"line\nbreak\"");
    assert_eq!(csv_escape(""), "");
}

#[test]
fn report_row_has_twenty_columns_in_order() {
    let google = event("uid-1", "Lunch", ProviderName::Google);
    let mut icloud = event("uid-1", "Lunch moved", ProviderName::Icloud);
    icloud.status = EventStatus::Tentative;
    icloud.start = EventDateTime::Date { value: CalendarDate { year: 2026, month: 6, day: 1 } };
    let actions = plan(&[], &[google.clone()], &[icloud.clone()]);
    let row = action_to_report_row("personal", &actions[0]);
    assert_eq!(row.action, "conflict");
    assert_eq!(row.reason, "unlinked_events_have_same_uid_but_differ");
    assert_eq!(row.resolution, "manual");
    assert_eq!(row.google_start, "2026-06-01T12:00:00+00:00 [UTC]");
    assert_eq!(row.icloud_start, "2026-06-01");
    assert_eq!(row.google_status, "confirmed");
    assert_eq!(row.icloud_status, "tentative");
    assert_eq!(row.google_hash, hash_canonical_event(&google));
    assert_eq!(row.icloud_hash, hash_canonical_event(&icloud));
    assert_eq!(row.diff_fields, "title|status|start");
    let line = report_row_to_csv(&row);
    assert_eq!(line.split(',').count(), 20);
    assert!(line.starts_with("personal,conflict,uid-1,unlinked_events_have_same_uid_but_differ,manual,,Lunch,yes,yes,"));
    let text = dry_run_report_text(&[row]);
    assert_eq!(text.lines().count(), 2);
    assert!(text.ends_with('\n'));
    assert_eq!(dry_run_report_text(&[]).lines().count(), 1);
}

#[test]
fn report_dates_and_fields() {
    let at_noon = EventDateTime::DateTime { value: utc(2026, 6, 1, 12), timezone: None };
    assert_eq!(format_event_date(&at_noon), "2026-06-01T12:00:00+00:00");
    assert_eq!(report_date_key(&at_noon), "dateTime:2026-06-01T12:00:00+00:00");
    let day = EventDateTime::Date { value: CalendarDate { year: 2026, month: 2, day: 3 } };
    assert_eq!(report_date_key(&day), "date:2026-02-03");
    assert_eq!(status_name(EventStatus::Cancelled), "cancelled");

    let a = event("u", "Title", ProviderName::Google);
    let mut b = event("u", " Title ", ProviderName::Icloud);
    assert!(diff_event_fields(&a, &b).is_empty());
    b.location = Some("Room 1\\nFloor 2".to_string());
    b.description = Some("x".to_string());
    b.end = EventDateTime::DateTime { value: utc(2026, 6, 1, 14), timezone: Some("UTC".to_string()) };
    assert_eq!(diff_event_fields(&a, &b), vec!["description", "location", "end"]);
}

#[test]
fn synced_hash_needs_agreement() {
    assert_eq!(synced_hash(Some("h"), Some("h")), Some("h".to_string()));
    assert_eq!(synced_hash(Some("h"), Some("other")), None);
    assert_eq!(synced_hash(Some("g"), None), Some("g".to_string()));
    assert_eq!(synced_hash(None, Some("i")), Some("i".to_string()));
    assert_eq!(synced_hash(None, None), None);
}

#[test]
fn link_upsert_prefers_new_metadata_and_keeps_stored_values() {
    let existing = linked("uid-1", "old-hash");
    let google_meta = ProviderEventMeta {
        provider: ProviderName::Google,
        calendar_id: "primary".to_string(),
        event_id: Some("new-google-id".to_string()),
        href: None,
        etag: None,
        ical_uid: None,
        updated_at: None,
        deleted: false,
    };
    let wrong_side = ProviderEventMeta { provider: ProviderName::Google, ..google_meta.clone() };
    let upsert = event_link_upsert(
        "personal",
        "uid-1",
        Some(&existing),
        Some(&google_meta),
        Some(&wrong_side),
        Some("new-google-hash".to_string()),
        None,
        None,
        Some("2026-06-02T00:00:00Z".to_string()),
        None,
    );
    assert_eq!(upsert.google_event_id.as_deref(), Some("new-google-id"));
    assert_eq!(upsert.google_ical_uid.as_deref(), Some("uid-1"));
    assert_eq!(upsert.google_etag.as_deref(), Some("g-etag"));
    assert_eq!(upsert.icloud_href.as_deref(), Some("uid-1.ics"));
    assert_eq!(upsert.google_hash.as_deref(), Some("new-google-hash"));
    assert_eq!(upsert.icloud_hash.as_deref(), Some("old-hash"));
    assert_eq!(upsert.last_synced_hash.as_deref(), Some("old-hash"));
    assert_eq!(upsert.deleted_google_at.as_deref(), Some("2026-06-02T00:00:00Z"));
    assert_eq!(upsert.deleted_icloud_at, None);

    let fresh = event_link_upsert("personal", "uid-2", None, None, None, None, None, None, None, None);
    assert_eq!(fresh.canonical_uid, "uid-2");
    assert_eq!(fresh.google_event_id, None);
}

#[test]
fn links_after_writes_and_deletes() {
    let google_event = event("uid-1", "Lunch", ProviderName::Google);
    let hash = hash_canonical_event(&google_event);
    let actions = plan(&[], &[], &[event("uid-1", "Lunch", ProviderName::Icloud)]);
    let action = mutating(&actions[0]);
    assert_eq!(action_name(&actions[0]), "create_google");

    let written = link_after_google_write("personal", action, meta(ProviderName::Google, "primary", &action.event));
    assert_eq!(written.google_event_id.as_deref(), Some("uid-1"));
    assert_eq!(written.google_hash.as_deref(), Some(hash.as_str()));
    assert_eq!(written.last_synced_hash.as_deref(), Some(hash.as_str()));
    assert_eq!(written.icloud_href, None);

    let deleted = link_after_delete("personal", action, false, "2026-06-02T00:00:00Z".to_string());
    assert_eq!(deleted.deleted_icloud_at.as_deref(), Some("2026-06-02T00:00:00Z"));
    assert_eq!(deleted.deleted_google_at, None);
    assert_eq!(deleted.last_synced_hash, None);
}

#[test]
fn apply_steps_address_remote_events() {
    let base = event("uid-1", "Lunch", ProviderName::Google);
    let hash = hash_canonical_event(&base);
    let link = linked("uid-1", &hash);
    let mut changed = base.clone();
    changed.title = "Lunch moved".to_string();
    let icloud = event("uid-1", "Lunch", ProviderName::Icloud);
    let actions = plan(&[link.clone()], &[changed.clone()], &[icloud.clone()]);
    match apply_step(&pair(), &actions[0]).unwrap() {
        ApplyStep::Update { provider, calendar_id, remote_event_id, etag } => {
            assert_eq!(provider, ProviderName::Icloud);
            assert_eq!(calendar_id, "https://caldav.example/cal");
            assert_eq!(remote_event_id, "uid-1.ics");
            assert_eq!(etag.as_deref(), Some("i-etag"));
        }
        other => panic!("unexpected step: {other:?}"),
    }

    let no_href = EventLink { icloud_href: None, ..link };
    let actions = plan(&[no_href], &[changed], &[icloud]);
    match apply_step(&pair(), &actions[0]) {
        Err(EngineError::MissingApplyMetadata { action, canonical_uid, field }) => {
            assert_eq!(action, "update_icloud");
            assert_eq!(canonical_uid, "uid-1");
            assert_eq!(field, "icloud_href");
        }
        other => panic!("unexpected step: {other:?}"),
    }
}

#[test]
fn action_counts_and_merging() {
    let actions = plan(
        &[],
        &[event("a", "A", ProviderName::Google), event("b", "B", ProviderName::Google)],
        &[event("c", "C", ProviderName::Icloud)],
    );
    let counts = count_actions(&actions);
    assert_eq!(counts.iter().sum::<usize>(), 3);
    let mut total = vec![0usize; counts.len()];
    merge_counts(&mut total, &counts);
    merge_counts(&mut total, &counts);
    assert_eq!(total.iter().sum::<usize>(), 6);
    assert!(should_include_report_action(&actions[0], ReportMode::ActionsOnly));
    assert_eq!(total_conflicts(&[1, 2, 3]), 6);
    assert_eq!(total_conflicts(&[]), 0);
}

#[test]
fn engine_reports_configuration_and_store() {
    let mut config = config_with_db("/var/lib/insync.db");
    config.sync.pairs.push(SyncPairConfig { id: "off".to_string(), enabled: false, ..pair() });
    config.sync.conflicts.default = ConflictPolicy::GoogleWins;
    config.sync.conflicts.unlinked_same_uid = ConflictPolicy::IcloudWins;
    assert_eq!(enabled_pair_count(&config), 1);
    let policies = planner_conflict_policies(&config);
    assert_eq!(policies.both_sides_changed, ConflictPolicy::GoogleWins);
    assert_eq!(policies.unlinked_same_uid, ConflictPolicy::IcloudWins);

    let engine = SyncEngine::new(config.clone());
    assert_eq!(engine.db_path(), "/var/lib/insync.db");
    assert_eq!(engine.config_path(), None);
    let creds = ResolvedCredentials {
        google: ResolvedGoogleCredentials {
            client_id: Some("id".to_string()),
            client_secret: Some("secret".to_string()),
            refresh_token: None,
        },
        icloud: ResolvedIcloudCredentials {
            username: Some("me@icloud.com".to_string()),
            app_specific_password: Some("pw".to_string()),
            caldav_url: "https://caldav.icloud.com".to_string(),
        },
    };
    let doctor = engine.doctor(&[2, 1], &creds, None);
    assert_eq!(doctor.configured_pair_count, 2);
    assert_eq!(doctor.enabled_pair_count, 1);
    assert_eq!(doctor.unresolved_conflict_count, 3);
    assert!(!doctor.google_credentials_configured);
    assert!(doctor.icloud_credentials_configured);
    assert!(doctor.latest_run.is_none());

    assert_eq!(resolve_db_path(".insync/insync.db", None), ".insync/insync.db");
    assert_eq!(store_dir(true, Some("/etc".to_string())), None);
    assert_eq!(store_dir(false, Some(String::new())), None);
    assert_eq!(store_dir(false, Some("/etc".to_string())), Some("/etc".to_string()));
    let with_path = SyncEngine::with_config_path(config, "/home/me/.config/insync/insync.json");
    assert_eq!(with_path.config_path(), Some("/home/me/.config/insync/insync.json"));
}

#[test]
fn dry_run_writes_nothing_and_apply_writes_each_step() {
    let actions = plan(
        &[],
        &[event("a", "A", ProviderName::Google), event("b", "B", ProviderName::Google)],
        &[],
    );
    let dry = pair_writes(RunMode::DryRun, &pair(), &actions);
    assert!(dry.steps.is_empty());
    assert!(dry.failure.is_none());
    assert!(!dry.resolve_stale);
    assert!(!dry.advance_sync_tokens);
    assert!(!records_sync_run(RunMode::DryRun));

    let apply = pair_writes(RunMode::Apply, &pair(), &actions);
    assert_eq!(apply.steps.len(), 2);
    assert!(apply.steps.iter().all(|s| matches!(s, ApplyStep::Create { provider: ProviderName::Icloud, .. })));
    assert!(apply.failure.is_none());
    assert!(apply.resolve_stale && apply.advance_sync_tokens);
    assert!(records_sync_run(RunMode::Apply));
}

#[test]
fn apply_pass_stops_at_the_first_unaddressable_action() {
    let base = event("uid-1", "Lunch", ProviderName::Google);
    let hash = hash_canonical_event(&base);
    let no_href = EventLink { icloud_href: None, ..linked("uid-1", &hash) };
    let mut changed = base.clone();
    changed.title = "Lunch moved".to_string();
    let icloud = event("uid-1", "Lunch", ProviderName::Icloud);
    let actions = plan(&[no_href], &[changed], &[icloud]);
    let writes = pair_writes(RunMode::Apply, &pair(), &actions);
    assert!(writes.steps.is_empty());
    assert!(matches!(writes.failure, Some(EngineError::MissingApplyMetadata { .. })));
    assert!(!writes.resolve_stale);
    assert!(!writes.advance_sync_tokens);
}

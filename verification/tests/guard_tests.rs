use insync::config::{store_google_client_secret, store_icloud_app_password, SecretStoreKind, ServiceConfig};
use insync::daemon::{after_tick, failures_after, jitter_millis, next_tick_delay};
use insync::engine::{conflict_counts_fit, EngineError};
use insync::engine_apply::is_applicable;
use insync::engine_plan::{actions_reportable, PlanTotals};
use insync::engine_report::action_reportable;
use insync::engine::ReportMode;
use insync::event::{
    CanonicalEvent, EventDateTime, EventStatus, EventVisibility, Instant, ProviderEventMeta, ProviderName,
    RecurrenceData,
};
use insync::event_hash::{is_hashable, recurrence_id_is_cuttable};
use insync::planner::{events_hashable, PlannedAction};
use insync::providers::ProviderError;

fn event(uid: &str, recurrence_id: Option<&str>) -> CanonicalEvent {
    CanonicalEvent {
        canonical_uid: uid.to_string(),
        title: "Planning".to_string(),
        description: None,
        location: None,
        status: EventStatus::Confirmed,
        visibility: EventVisibility::Default,
        start: EventDateTime::DateTime { value: Instant { seconds: 1_780_315_200, nanos: 0 }, timezone: None },
        end: EventDateTime::DateTime { value: Instant { seconds: 1_780_318_800, nanos: 0 }, timezone: None },
        recurrence: recurrence_id.map(|id| RecurrenceData {
            recurrence_id: Some(id.to_string()),
            ..RecurrenceData::default()
        }),
        attendees: Vec::new(),
        reminders: Vec::new(),
        provider_meta: ProviderEventMeta {
            provider: ProviderName::Google,
            calendar_id: "primary".to_string(),
            event_id: Some(uid.to_string()),
            href: None,
            etag: None,
            ical_uid: Some(uid.to_string()),
            updated_at: None,
            deleted: false,
        },
        raw: "{}".to_string(),
    }
}

fn snapshot(google: Option<CanonicalEvent>, google_hash: Option<String>) -> PlannedAction {
    PlannedAction::Snapshot {
        canonical_uid: "uid-1".to_string(),
        link: None,
        google: google.map(Box::new),
        icloud: None,
        google_hash,
        icloud_hash: None,
        resolution: None,
    }
}

// A date-like recurrence id whose tenth byte falls inside a two-byte character.
const SPLIT_DATE: &str = "2026-06-0\u{e9}x";

#[test]
fn recurrence_ids_are_cut_only_on_character_boundaries() {
    assert!(recurrence_id_is_cuttable("2026-06-01T09:00:00Z"));
    assert!(recurrence_id_is_cuttable("2026-06-01"));
    assert!(recurrence_id_is_cuttable("20260601T090000Z"));
    assert!(recurrence_id_is_cuttable(""));
    assert!(!recurrence_id_is_cuttable(SPLIT_DATE));
    assert!(!recurrence_id_is_cuttable("2026-06-01T09:00:0\u{e9}"));
}

#[test]
fn events_are_hashable_unless_their_recurrence_id_cannot_be_cut() {
    assert!(is_hashable(&event("a", None)));
    assert!(is_hashable(&event("b", Some("2026-06-01"))));
    assert!(!is_hashable(&event("c", Some(SPLIT_DATE))));
    assert!(events_hashable(&[]));
    assert!(events_hashable(&[event("a", None), event("b", Some("2026-06-01"))]));
    assert!(!events_hashable(&[event("a", None), event("c", Some(SPLIT_DATE))]));
}

#[test]
fn snapshots_need_a_hash_or_a_hashable_event() {
    assert!(is_applicable(&snapshot(Some(event("a", None)), None)));
    assert!(!is_applicable(&snapshot(Some(event("c", Some(SPLIT_DATE))), None)));
    assert!(is_applicable(&snapshot(Some(event("c", Some(SPLIT_DATE))), Some("known".to_string()))));
    assert!(is_applicable(&PlannedAction::Noop { canonical_uid: "x".to_string(), reason: "same".to_string() }));
}

#[test]
fn report_rows_need_hashable_sides() {
    let good = snapshot(Some(event("a", None)), None);
    let bad = snapshot(Some(event("c", Some(SPLIT_DATE))), Some("known".to_string()));
    assert!(action_reportable(&good));
    assert!(!action_reportable(&bad));
    assert!(actions_reportable(&[], ReportMode::AllActions));
    assert!(actions_reportable(&[good.clone()], ReportMode::AllActions));
    assert!(!actions_reportable(&[good, bad], ReportMode::AllActions));
}

#[test]
fn checked_pair_totals_refuse_unreportable_or_overflowing_plans() {
    let good = snapshot(Some(event("a", None)), None);
    let bad = snapshot(Some(event("c", Some(SPLIT_DATE))), None);

    let mut totals = PlanTotals::new();
    assert!(!totals.add_pair_checked("personal", 1, 0, &[bad], ReportMode::AllActions));
    assert!(totals.pair_summaries.is_empty());
    assert!(totals.report_rows.is_empty());

    assert!(totals.add_pair_checked("personal", 1, 0, &[good.clone()], ReportMode::AllActions));
    assert_eq!(totals.pair_summaries.len(), 1);
    assert_eq!(totals.pair_summaries[0].pair_id, "personal");
    assert_eq!(totals.pair_summaries[0].actions, 1);

    for count in totals.action_counts.iter_mut() {
        *count = usize::MAX;
    }
    assert!(!totals.add_pair_checked("work", 1, 0, &[good], ReportMode::AllActions));
    assert_eq!(totals.pair_summaries.len(), 1);
}

#[test]
fn conflict_count_sums_must_fit_in_i64() {
    assert!(conflict_counts_fit(&[]));
    assert!(conflict_counts_fit(&[3, 4, 5]));
    assert!(conflict_counts_fit(&[i64::MAX, -1, 1]));
    assert!(!conflict_counts_fit(&[i64::MAX, 1]));
    assert!(!conflict_counts_fit(&[i64::MIN, -1]));
}

#[test]
fn provider_error_messages_follow_their_variants() {
    assert_eq!(
        ProviderError::NotConfigured(ProviderName::Google).message(),
        "provider is not configured: google"
    );
    assert_eq!(
        ProviderError::http(ProviderName::Icloud, 401, "nope").message(),
        "icloud authentication failed with 401: nope"
    );
    assert_eq!(ProviderError::SyncTokenExpired(ProviderName::Google).message(), "google sync token expired");
    assert_eq!(ProviderError::PreconditionFailed(ProviderName::Icloud).message(), "icloud precondition failed");
    assert_eq!(
        ProviderError::http(ProviderName::Google, 500, "boom").message(),
        "google request failed with 500: boom"
    );
    assert_eq!(
        ProviderError::UidCollision {
            provider: ProviderName::Icloud,
            calendar_id: "home".to_string(),
            uid: "u-1".to_string(),
        }
        .message(),
        "icloud UID collision for u-1 in home"
    );
    assert_eq!(
        ProviderError::network(ProviderName::Google, "timed out").message(),
        "google network request failed: timed out"
    );
    assert_eq!(ProviderError::Request("bad".to_string()).message(), "provider request failed: bad");
    assert_eq!(ProviderError::Mapping("odd".to_string()).message(), "mapping failed: odd");
}

#[test]
fn engine_error_messages_follow_their_variants() {
    assert_eq!(EngineError::Db("locked".to_string()).message(), "database error: locked");
    assert_eq!(EngineError::Config("bad".to_string()).message(), "config error: bad");
    assert_eq!(
        EngineError::Provider(ProviderError::SyncTokenExpired(ProviderName::Google)).message(),
        "provider error: google sync token expired"
    );
    assert_eq!(
        EngineError::ReportWrite { path: "out.csv".to_string(), message: "denied".to_string() }.message(),
        "failed to write report out.csv: denied"
    );
    assert_eq!(
        EngineError::LockAlreadyHeld("db.lock".to_string()).message(),
        "sync lock is already held: db.lock"
    );
    assert_eq!(
        EngineError::LockCreate { path: "db.lock".to_string(), message: "denied".to_string() }.message(),
        "failed to create sync lock db.lock: denied"
    );
    assert_eq!(
        EngineError::MissingApplyMetadata {
            action: "update_google".to_string(),
            canonical_uid: "u-1".to_string(),
            field: "google_event_id".to_string(),
        }
        .message(),
        "cannot apply update_google for u-1: missing google_event_id"
    );
}

#[test]
fn client_secret_and_app_password_follow_the_secret_store() {
    let mut inline = ServiceConfig { secret_store: SecretStoreKind::Inline, ..ServiceConfig::default() };
    assert!(store_google_client_secret(&mut inline, "s3").is_none());
    assert_eq!(inline.google.client_secret.as_deref(), Some("s3"));
    assert!(store_icloud_app_password(&mut inline, "pw").is_none());
    assert_eq!(inline.icloud.app_specific_password.as_deref(), Some("pw"));

    let mut os = ServiceConfig { secret_store: SecretStoreKind::Os, ..ServiceConfig::default() };
    os.google.client_secret = Some("old".to_string());
    let write = store_google_client_secret(&mut os, "s3").expect("a write to the store");
    assert_eq!(write.key, "google:personal:client-secret");
    assert_eq!(write.value, "s3");
    assert!(os.google.client_secret.is_none());
    let write = store_icloud_app_password(&mut os, "pw").expect("a write to the store");
    assert_eq!(write.key, "icloud:personal:app-specific-password");
    assert_eq!(write.value, "pw");
    assert!(os.icloud.app_specific_password.is_none());
}

#[test]
fn daemon_backoff_doubles_up_to_the_cap() {
    assert_eq!(next_tick_delay(300, 0), 300);
    assert_eq!(next_tick_delay(300, 1), 600);
    assert_eq!(next_tick_delay(300, 3), 2400);
    assert_eq!(next_tick_delay(300, 4), 3600);
    assert_eq!(next_tick_delay(300, 40), 3600);
    assert_eq!(next_tick_delay(7200, 5), 7200);
    assert_eq!(next_tick_delay(u64::MAX, 3), u64::MAX);
}

#[test]
fn daemon_counts_failures_and_resets_after_a_clean_tick() {
    assert_eq!(failures_after(0, false), 1);
    assert_eq!(failures_after(4, false), 5);
    assert_eq!(failures_after(u32::MAX, false), u32::MAX);
    assert_eq!(failures_after(7, true), 0);
}

#[test]
fn daemon_jitter_is_at_most_a_tenth_of_the_wait() {
    assert_eq!(jitter_millis(0, 123_456_789), 0);
    assert_eq!(jitter_millis(300, 123_456_789), 123_456_789 % 30_001);
    assert_eq!(jitter_millis(300, 12_345), 12_345);
    assert_eq!(jitter_millis(u64::MAX, 999_999_999), 999_999_999);
    assert!(jitter_millis(1, 999_999_999) <= 100);
}

#[test]
fn daemon_keeps_ticking_after_failures() {
    let next = after_tick(300, 0, false, 500);
    assert_eq!(next.failures, 1);
    assert_eq!(next.delay_seconds, 600);
    assert_eq!(next.jitter_millis, 500);
    let next = after_tick(300, next.failures, false, 70_000);
    assert_eq!(next.failures, 2);
    assert_eq!(next.delay_seconds, 1200);
    assert_eq!(next.jitter_millis, 70_000);
    let next = after_tick(300, next.failures, true, 40_000);
    assert_eq!(next.failures, 0);
    assert_eq!(next.delay_seconds, 300);
    assert_eq!(next.jitter_millis, 40_000 % 30_001);
}

use chrono::TimeZone;
use insync::event::{
    CanonicalEvent, EventAttendee, EventDateTime, EventReminder, EventStatus, EventVisibility, Instant,
    ProviderEventMeta, ProviderName, RecurrenceData,
};
use insync::event_hash::{comparable_text, hash_canonical_event};
use insync::planner::{
    plan_initial_actions, plan_two_way_actions, AutoResolution, ConflictResolution, EventLink, PlanTwoWayInput,
    PlannedAction, PlannerConflictPolicies,
};
use insync::policy::{ConflictPolicy, DeleteConflictPolicy, SyncDirection, UidCollisionPolicy};

fn utc(y: i32, mo: u32, d: u32, h: u32, mi: u32, s: u32) -> Instant {
    let dt = chrono::Utc.with_ymd_and_hms(y, mo, d, h, mi, s).unwrap();
    Instant { seconds: dt.timestamp(), nanos: dt.timestamp_subsec_nanos() }
}

fn rfc3339(text: &str) -> Instant {
    let dt = chrono::DateTime::parse_from_rfc3339(text).unwrap();
    Instant { seconds: dt.timestamp(), nanos: dt.timestamp_subsec_nanos() }
}

fn event(uid: &str, title: &str) -> CanonicalEvent {
    CanonicalEvent {
        canonical_uid: uid.to_string(),
        title: title.to_string(),
        description: None,
        location: None,
        status: EventStatus::Confirmed,
        visibility: EventVisibility::Default,
        start: EventDateTime::DateTime { value: utc(2026, 6, 1, 12, 0, 0), timezone: Some("UTC".to_string()) },
        end: EventDateTime::DateTime { value: utc(2026, 6, 1, 13, 0, 0), timezone: Some("UTC".to_string()) },
        recurrence: None,
        attendees: Vec::new(),
        reminders: Vec::new(),
        provider_meta: ProviderEventMeta {
            provider: ProviderName::Google,
            calendar_id: "primary".to_string(),
            event_id: Some(uid.to_string()),
            href: None,
            etag: Some("etag".to_string()),
            ical_uid: Some(uid.to_string()),
            updated_at: None,
            deleted: false,
        },
        raw: "{}".to_string(),
    }
}

fn link(uid: &str) -> EventLink {
    EventLink {
        id: format!("link-{uid}"),
        sync_pair_id: "personal".to_string(),
        canonical_uid: uid.to_string(),
        google_event_id: Some(uid.to_string()),
        google_ical_uid: Some(uid.to_string()),
        google_etag: Some("old-google-etag".to_string()),
        icloud_href: Some(format!("https://caldav.icloud.com/calendars/example/{uid}.ics")),
        icloud_uid: Some(uid.to_string()),
        icloud_etag: Some("old-icloud-etag".to_string()),
        google_hash: Some("old-google-hash".to_string()),
        icloud_hash: Some("old-icloud-hash".to_string()),
        last_synced_hash: Some("old-hash".to_string()),
        deleted_google_at: None,
        deleted_icloud_at: None,
    }
}

fn link_with_hashes(uid: &str, google_hash: Option<String>, icloud_hash: Option<String>) -> EventLink {
    EventLink { google_hash, icloud_hash, ..link(uid) }
}

fn action_resolution(action: &PlannedAction) -> Option<&AutoResolution> {
    match action {
        PlannedAction::CreateGoogle(action)
        | PlannedAction::CreateIcloud(action)
        | PlannedAction::UpdateGoogle(action)
        | PlannedAction::UpdateIcloud(action)
        | PlannedAction::DeleteGoogle(action)
        | PlannedAction::DeleteIcloud(action) => action.resolution.as_ref(),
        _ => None,
    }
}

fn plan(links: &[EventLink], google: &[CanonicalEvent], icloud: &[CanonicalEvent], known: Vec<String>, direction: SyncDirection, policies: PlannerConflictPolicies) -> Vec<PlannedAction> {
    plan_two_way_actions(PlanTwoWayInput {
        links,
        google_events: google,
        icloud_events: icloud,
        known_icloud_uid_collisions: known,
        direction,
        conflict_policy: policies,
    })
}

#[test]
fn initial_sync_creates_missing_sides() {
    let google = event("shared-uid", "Lunch");
    let icloud = event("icloud-only", "Dentist");

    let actions = plan_initial_actions(&[google], &[icloud]);

    assert!(matches!(actions[0], PlannedAction::CreateIcloud(_)));
    assert!(matches!(actions[1], PlannedAction::CreateGoogle(_)));
}

#[test]
fn initial_sync_noops_when_present_on_both_sides() {
    let google = event("shared-uid", "Lunch");
    let icloud = event("shared-uid", "Lunch");

    let actions = plan_initial_actions(&[google], &[icloud]);

    assert!(matches!(actions[0], PlannedAction::Noop { .. }));
}

#[test]
fn hash_ignores_provider_metadata() {
    let base = event("shared-uid", "Lunch");
    let mut moved_provider_meta = base.clone();
    moved_provider_meta.provider_meta.etag = Some("changed".to_string());

    assert_eq!(hash_canonical_event(&base), hash_canonical_event(&moved_provider_meta));
}

#[test]
fn hash_treats_equivalent_instants_as_equal() {
    let mut google = event("shared-uid", "Lunch");
    google.start = EventDateTime::DateTime { value: rfc3339("2026-06-06T12:00:00+02:00"), timezone: Some("Europe/Berlin".to_string()) };
    google.end = EventDateTime::DateTime { value: rfc3339("2026-06-06T13:00:00+02:00"), timezone: Some("Europe/Berlin".to_string()) };
    google.recurrence = Some(RecurrenceData { sequence: Some(1), ..RecurrenceData::default() });

    let mut icloud = event("shared-uid", "Lunch");
    icloud.start = EventDateTime::DateTime { value: rfc3339("2026-06-06T10:00:00.000Z"), timezone: Some("Europe/Berlin".to_string()) };
    icloud.end = EventDateTime::DateTime { value: rfc3339("2026-06-06T11:00:00.000Z"), timezone: Some("Europe/Berlin".to_string()) };
    icloud.recurrence = Some(RecurrenceData { sequence: Some(5), ..RecurrenceData::default() });

    assert_eq!(hash_canonical_event(&google), hash_canonical_event(&icloud));
}

#[test]
fn hash_ignores_harmless_text_differences() {
    let mut google = event("shared-uid", "Lunch");
    google.description = Some("Bring notes\r\n".to_string());
    google.location = Some("Room 1\\nFloor 2".to_string());

    let mut icloud = event("shared-uid", "Lunch");
    icloud.description = Some("Bring notes".to_string());
    icloud.location = Some("Room 1\nFloor 2".to_string());

    assert_eq!(hash_canonical_event(&google), hash_canonical_event(&icloud));
}

#[test]
fn hash_ignores_provider_only_fields() {
    let mut google = event("shared-uid", "Lunch");
    google.visibility = EventVisibility::Public;
    google.reminders = vec![EventReminder { method: "email".to_string(), minutes_before_start: 10 }];

    let mut icloud = event("shared-uid", "Lunch");
    icloud.visibility = EventVisibility::Default;
    icloud.attendees = vec![EventAttendee {
        email: "/apple-principal/".to_string(),
        name: Some("Apple Principal".to_string()),
        response_status: Some("accepted".to_string()),
        optional: false,
    }];

    assert_eq!(hash_canonical_event(&google), hash_canonical_event(&icloud));
}

#[test]
fn hash_ignores_timezone_labels_when_instants_match() {
    let mut google = event("shared-uid", "Flight");
    google.start = EventDateTime::DateTime { value: rfc3339("2025-03-19T16:55:00.000Z"), timezone: Some("UTC".to_string()) };
    google.end = EventDateTime::DateTime { value: rfc3339("2025-03-19T19:20:00.000Z"), timezone: Some("UTC".to_string()) };

    let mut icloud = event("shared-uid", "Flight");
    icloud.start = EventDateTime::DateTime { value: rfc3339("2025-03-19T17:55:00+01:00"), timezone: Some("GMT+0100".to_string()) };
    icloud.end = EventDateTime::DateTime { value: rfc3339("2025-03-19T20:20:00+01:00"), timezone: Some("GMT+0100".to_string()) };

    assert_eq!(hash_canonical_event(&google), hash_canonical_event(&icloud));
}

#[test]
fn auto_resolves_both_side_changes_with_newest_updated_wins() {
    let mut google = event("shared-uid", "New Google Title");
    google.provider_meta.updated_at = Some(utc(2026, 6, 2, 10, 0, 0));
    let mut icloud = event("shared-uid", "Old iCloud Title");
    icloud.provider_meta.updated_at = Some(utc(2026, 6, 2, 9, 0, 0));

    let actions = plan(&[link("shared-uid")], &[google], &[icloud], Vec::new(), SyncDirection::TwoWay, PlannerConflictPolicies {
        both_sides_changed: ConflictPolicy::NewestUpdatedWins,
        ..PlannerConflictPolicies::default()
    });

    match &actions[0] {
        PlannedAction::UpdateIcloud(action) => {
            let resolution = action.resolution.as_ref().unwrap();
            assert_eq!(resolution.reason, "both_sides_changed");
            assert_eq!(resolution.policy, "newest_updated_wins");
        }
        action => panic!("unexpected action: {action:?}"),
    }
}

#[test]
fn auto_resolves_delete_update_with_update_wins() {
    let google = event("shared-uid", "Changed on Google");
    let actions = plan(&[link("shared-uid")], &[google], &[], Vec::new(), SyncDirection::TwoWay, PlannerConflictPolicies {
        delete_vs_update: DeleteConflictPolicy::UpdateWins,
        ..PlannerConflictPolicies::default()
    });

    match &actions[0] {
        PlannedAction::CreateIcloud(action) => {
            let resolution = action.resolution.as_ref().unwrap();
            assert_eq!(resolution.reason, "google_changed_while_icloud_deleted");
            assert_eq!(resolution.policy, "update_wins");
        }
        action => panic!("unexpected action: {action:?}"),
    }
}

#[test]
fn linked_google_change_updates_icloud() {
    let google = event("shared-uid", "Changed on Google");
    let icloud = event("shared-uid", "Old Title");
    let link = link_with_hashes("shared-uid", Some("old-google-hash".to_string()), Some(hash_canonical_event(&icloud)));

    let actions = plan(&[link], &[google], &[icloud], Vec::new(), SyncDirection::TwoWay, PlannerConflictPolicies::default());

    assert!(matches!(actions[0], PlannedAction::UpdateIcloud(_)));
}

#[test]
fn linked_icloud_change_updates_google() {
    let google = event("shared-uid", "Old Title");
    let icloud = event("shared-uid", "Changed on iCloud");
    let link = link_with_hashes("shared-uid", Some(hash_canonical_event(&google)), Some("old-icloud-hash".to_string()));

    let actions = plan(&[link], &[google], &[icloud], Vec::new(), SyncDirection::TwoWay, PlannerConflictPolicies::default());

    assert!(matches!(actions[0], PlannedAction::UpdateGoogle(_)));
}

#[test]
fn linked_equal_events_snapshot() {
    let google = event("shared-uid", "Lunch");
    let icloud = event("shared-uid", "Lunch");
    let hash = hash_canonical_event(&google);
    let link = link_with_hashes("shared-uid", Some(hash.clone()), Some(hash));

    let actions = plan(&[link], &[google], &[icloud], Vec::new(), SyncDirection::TwoWay, PlannerConflictPolicies::default());

    assert!(matches!(actions[0], PlannedAction::Snapshot { .. }));
}

#[test]
fn both_side_changes_are_manual_by_default() {
    let google = event("shared-uid", "Changed on Google");
    let icloud = event("shared-uid", "Changed on iCloud");

    let actions = plan(&[link("shared-uid")], &[google], &[icloud], Vec::new(), SyncDirection::TwoWay, PlannerConflictPolicies::default());

    match &actions[0] {
        PlannedAction::Conflict { reason, resolution, .. } => {
            assert_eq!(reason, "both_sides_changed");
            assert_eq!(*resolution, ConflictResolution::Manual);
        }
        action => panic!("unexpected action: {action:?}"),
    }
}

#[test]
fn provider_winner_policies_resolve_both_side_changes() {
    let google = event("shared-uid", "Changed on Google");
    let icloud = event("shared-uid", "Changed on iCloud");

    let google_wins = plan(&[link("shared-uid")], std::slice::from_ref(&google), std::slice::from_ref(&icloud), Vec::new(), SyncDirection::TwoWay, PlannerConflictPolicies {
        both_sides_changed: ConflictPolicy::GoogleWins,
        ..PlannerConflictPolicies::default()
    });

    assert!(matches!(google_wins[0], PlannedAction::UpdateIcloud(_)));
    assert_eq!(action_resolution(&google_wins[0]).unwrap().policy, "google_wins");

    let icloud_wins = plan(&[link("shared-uid")], &[google], &[icloud], Vec::new(), SyncDirection::TwoWay, PlannerConflictPolicies {
        both_sides_changed: ConflictPolicy::IcloudWins,
        ..PlannerConflictPolicies::default()
    });

    assert!(matches!(icloud_wins[0], PlannedAction::UpdateGoogle(_)));
    assert_eq!(action_resolution(&icloud_wins[0]).unwrap().policy, "icloud_wins");
}

#[test]
fn unlinked_same_uid_differing_events_can_auto_resolve() {
    let google = event("shared-uid", "Google Title");
    let icloud = event("shared-uid", "iCloud Title");

    let actions = plan(&[], &[google], &[icloud], Vec::new(), SyncDirection::TwoWay, PlannerConflictPolicies {
        unlinked_same_uid: ConflictPolicy::GoogleWins,
        ..PlannerConflictPolicies::default()
    });

    match &actions[0] {
        PlannedAction::UpdateIcloud(action) => {
            let resolution = action.resolution.as_ref().unwrap();
            assert_eq!(resolution.reason, "unlinked_events_have_same_uid_but_differ");
            assert_eq!(resolution.policy, "google_wins");
        }
        action => panic!("unexpected action: {action:?}"),
    }
}

#[test]
fn delete_wins_removes_changed_remaining_side() {
    let google = event("shared-uid", "Changed on Google");

    let actions = plan(&[link("shared-uid")], &[google], &[], Vec::new(), SyncDirection::TwoWay, PlannerConflictPolicies {
        delete_vs_update: DeleteConflictPolicy::DeleteWins,
        ..PlannerConflictPolicies::default()
    });

    match &actions[0] {
        PlannedAction::DeleteGoogle(action) => {
            let resolution = action.resolution.as_ref().unwrap();
            assert_eq!(resolution.reason, "google_changed_while_icloud_deleted");
            assert_eq!(resolution.policy, "delete_wins");
        }
        action => panic!("unexpected action: {action:?}"),
    }
}

#[test]
fn direction_prevents_backfill_against_configured_flow() {
    let icloud = event("icloud-only", "Dentist");

    let actions = plan(&[], &[], &[icloud], Vec::new(), SyncDirection::LeftToRight, PlannerConflictPolicies::default());

    assert!(matches!(actions[0], PlannedAction::Snapshot { .. }));
}

#[test]
fn known_icloud_uid_collision_can_be_ignored_or_manual() {
    let google = event("shared-uid", "Google Title");
    let known = vec!["shared-uid".to_string()];

    let ignored = plan(&[], std::slice::from_ref(&google), &[], known.clone(), SyncDirection::TwoWay, PlannerConflictPolicies {
        icloud_uid_collision: UidCollisionPolicy::IgnoreKnown,
        ..PlannerConflictPolicies::default()
    });

    match &ignored[0] {
        PlannedAction::Conflict { reason, resolution, .. } => {
            assert_eq!(reason, "icloud_uid_exists_in_different_calendar");
            assert_eq!(*resolution, ConflictResolution::Ignored);
        }
        action => panic!("unexpected action: {action:?}"),
    }

    let manual = plan(&[], &[google], &[], known, SyncDirection::TwoWay, PlannerConflictPolicies {
        icloud_uid_collision: UidCollisionPolicy::Manual,
        ..PlannerConflictPolicies::default()
    });

    match &manual[0] {
        PlannedAction::Conflict { resolution, .. } => assert_eq!(*resolution, ConflictResolution::Manual),
        action => panic!("unexpected action: {action:?}"),
    }
}

// ---------------------------------------------------------------- further cases

#[test]
fn hash_is_sixty_four_hex_digits_and_changes_with_title() {
    let a = hash_canonical_event(&event("uid", "Lunch"));
    let b = hash_canonical_event(&event("uid", "Dinner"));
    assert_eq!(a.len(), 64);
    assert!(a.chars().all(|c| c.is_ascii_hexdigit() && !c.is_ascii_uppercase()));
    assert_ne!(a, b);
}

#[test]
fn every_uid_is_planned_once() {
    let actions = plan(
        &[link("linked")],
        &[event("g-only", "A"), event("linked", "B")],
        &[event("i-only", "C")],
        Vec::new(),
        SyncDirection::TwoWay,
        PlannerConflictPolicies::default(),
    );
    assert_eq!(actions.len(), 3);
}

#[test]
fn right_to_left_never_writes_icloud() {
    let actions = plan(&[], &[event("g-only", "A")], &[], Vec::new(), SyncDirection::RightToLeft, PlannerConflictPolicies::default());
    assert!(!matches!(actions[0], PlannedAction::CreateIcloud(_)));
}

#[test]
fn deleted_events_are_not_current() {
    let mut google = event("uid", "Gone");
    google.provider_meta.deleted = true;
    let actions = plan_initial_actions(&[google], &[]);
    assert!(actions.is_empty());
}

#[test]
fn comparable_text_escapes_strings_as_json() {
    let e = event("uid-escape", "a\"b\\c\td\u{1}e\u{e9}");
    let text = comparable_text(&e);
    assert!(text.contains("\"title\":\"a\\\"b\\\\c\\td\\u0001e\u{e9}\""), "{text}");
}

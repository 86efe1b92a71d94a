use insync::config::{ServiceConfig, SyncPairConfig};
use insync::policy::{ConflictPolicy, SyncDirection};
use insync::store::{
    duplicate_conflict_ids, ConflictRecord, conflict_policy_name, configured_calendar_ids, direction_name, event_link_id, hex_decode, hex_encode,
    provider_name, stable_id, stale_conflict_ids, ActiveConflict, ManualConflictResolution, StoredConflict,
    SyncRunStatus,
};
use insync::event::ProviderName;

fn stored(id: &str, uid: Option<&str>, reason: &str) -> StoredConflict {
    StoredConflict { id: id.to_string(), canonical_uid: uid.map(|u| u.to_string()), reason: reason.to_string() }
}

fn active(uid: &str, reason: &str) -> ActiveConflict {
    ActiveConflict { canonical_uid: uid.to_string(), reason: reason.to_string() }
}

#[test]
fn sync_conflicts_resolves_stale_conflicts() {
    let rows = vec![
        stored("conflict-uid-1", Some("uid-1"), "both_sides_changed"),
        stored("conflict-uid-2", Some("uid-2"), "both_sides_changed"),
    ];
    let resolved = stale_conflict_ids(&rows, &[active("uid-1", "both_sides_changed")]);

    assert_eq!(resolved.len(), 1);
    let remaining: Vec<&StoredConflict> = rows.iter().filter(|row| !resolved.contains(&row.id)).collect();
    assert_eq!(remaining.len(), 1);
    assert_eq!(remaining[0].canonical_uid.as_deref(), Some("uid-1"));
}

#[test]
fn stale_conflicts_match_uid_and_reason_together() {
    let rows = vec![
        stored("a", Some("uid-1"), "both_sides_changed"),
        stored("b", Some("uid-1"), "icloud_uid_exists_in_different_calendar"),
        stored("c", None, "both_sides_changed"),
        stored("d", Some("uid-2"), "both_sides_changed"),
    ];
    let active = vec![active("uid-1", "both_sides_changed"), active("uid-2", "both_sides_changed")];
    assert_eq!(stale_conflict_ids(&rows, &active), vec!["b".to_string(), "c".to_string()]);
    assert!(stale_conflict_ids(&rows[..1], &active).is_empty());
    assert_eq!(stale_conflict_ids(&rows, &[]), vec!["a", "b", "c", "d"]);
}

#[test]
fn stable_ids_are_sha256_prefixes_of_the_joined_parts() {
    assert_eq!(stable_id(&["a"]), "ca978112ca1bbdcafac231b3");
    assert_eq!(stable_id(&["event-link", "personal", "uid-1"]), "bc768c3b8f1578dda9fcae1a");
    assert_eq!(event_link_id("personal", "uid-1"), "bc768c3b8f1578dda9fcae1a");
    assert_eq!(stable_id(&["x", "y"]).len(), 24);
    assert_ne!(stable_id(&["ab", "c"]), stable_id(&["a", "bc"]));
}

#[test]
fn configured_calendar_ids_are_scoped_by_provider_and_account() {
    let config = ServiceConfig::default();
    let pair = SyncPairConfig {
        id: "personal".to_string(),
        enabled: true,
        direction: SyncDirection::TwoWay,
        google_calendar_id: "primary".to_string(),
        icloud_calendar_id: "https://caldav.example/cal".to_string(),
    };
    let ids = configured_calendar_ids(&config, &pair);
    assert_eq!(ids.google_account_id, "33106deea71143b8468e1507");
    assert_eq!(ids.google_calendar_id, "8f240017a781b04f4fcb0c41");
    assert_ne!(ids.google_account_id, ids.icloud_account_id);
    assert_eq!(ids.icloud_calendar_id, stable_id(&["calendar", "icloud", "personal", "https://caldav.example/cal"]));
    for id in [&ids.google_account_id, &ids.icloud_account_id, &ids.google_calendar_id, &ids.icloud_calendar_id] {
        assert_eq!(id.len(), 24);
        assert!(id.chars().all(|c| c.is_ascii_digit() || ('a'..='f').contains(&c)));
    }
}

#[test]
fn hex_text_round_trips_bytes() {
    assert_eq!(hex_encode(&[0x00, 0x0f, 0xa5, 0xff]), "000fa5ff");
    assert_eq!(hex_encode(&[]), "");
    assert_eq!(hex_decode("000fa5ff"), vec![0x00, 0x0f, 0xa5, 0xff]);
    assert_eq!(hex_decode(&hex_encode(b"insync")), b"insync".to_vec());
}

#[test]
fn hex_decode_skips_chunks_that_are_not_hex() {
    assert_eq!(hex_decode("0A"), vec![10]);
    assert_eq!(hex_decode("zz01"), vec![1]);
    assert_eq!(hex_decode("+a"), vec![10]);
    assert_eq!(hex_decode("-a"), Vec::<u8>::new());
    assert_eq!(hex_decode("abc"), vec![0xab, 0x0c]);
    assert_eq!(hex_decode("é1"), vec![1]);
    assert_eq!(hex_decode(""), Vec::<u8>::new());
}

#[test]
fn stored_names_read_back() {
    assert_eq!(provider_name(ProviderName::Google), "google");
    assert_eq!(provider_name(ProviderName::Icloud), "icloud");
    assert_eq!(direction_name(SyncDirection::TwoWay), "two_way");
    assert_eq!(conflict_policy_name(ConflictPolicy::NewestUpdatedWins), "newest_updated_wins");
    assert_eq!(SyncRunStatus::parse("completed"), Some(SyncRunStatus::Completed));
    assert_eq!(SyncRunStatus::parse("done"), None);
    assert_eq!(SyncRunStatus::Failed.as_str(), "failed");
    assert_eq!(ManualConflictResolution::from_str("delete_wins"), Some(ManualConflictResolution::DeleteWins));
    assert_eq!(ManualConflictResolution::from_str("whatever"), None);
    assert_eq!(ManualConflictResolution::stored_or_default(Some("google_wins")), ManualConflictResolution::GoogleWins);
    assert_eq!(ManualConflictResolution::stored_or_default(Some("bogus")), ManualConflictResolution::UpdateWins);
    assert_eq!(ManualConflictResolution::stored_or_default(None), ManualConflictResolution::UpdateWins);
}

fn record(id: &str, pair: &str, uid: Option<&str>, created_at: &str) -> ConflictRecord {
    ConflictRecord {
        id: id.to_string(),
        sync_pair_id: pair.to_string(),
        canonical_uid: uid.map(|u| u.to_string()),
        reason: "both_sides_changed".to_string(),
        created_at: created_at.to_string(),
    }
}

#[test]
fn dedupe_keeps_the_first_recorded_conflict_of_each_group() {
    let rows = vec![
        record("a", "personal", Some("uid-1"), "2026-06-02 12:00:00"),
        record("z", "personal", Some("uid-1"), "2026-06-02 11:00:00"),
        record("y", "personal", Some("uid-1"), "2026-06-02 11:00:00"),
        record("d", "personal", Some("uid-2"), "2026-06-02 10:00:00"),
        record("e", "work", Some("uid-1"), "2026-06-02 09:00:00"),
        record("f", "personal", None, "2026-06-02 09:00:00"),
        record("g", "personal", None, "2026-06-02 09:30:00"),
    ];
    assert_eq!(duplicate_conflict_ids(&rows), vec!["a", "z", "g"]);
    assert!(duplicate_conflict_ids(&rows[3..5]).is_empty());
    assert!(duplicate_conflict_ids(&[]).is_empty());
}

use insync::engine::DoctorSummary;
use insync::event::ProviderName;
use insync::exports::{
    calendar_discovery_csv, calendar_discovery_lines, conflict_detail_lines, conflict_details_csv,
    conflict_summary_csv, conflict_summary_lines, discovered_calendar, doctor_lines, sort_discovered,
    ConflictListing, DiscoveredCalendar,
};
use insync::prompts::{
    calendar_choice, calendar_choice_lines, parse_usize, read_yes_no, secret_prompt_label, text_prompt_answer,
    text_prompt_label, yes_no_prompt_label,
};
use insync::providers::ProviderCalendar;
use insync::store::{ManualConflictResolution, UnresolvedConflictSummary};

fn cal(provider: ProviderName, id: &str, name: &str, writable: bool) -> DiscoveredCalendar {
    discovered_calendar(
        provider,
        ProviderCalendar {
            id: id.to_string(),
            name: name.to_string(),
            timezone: if writable { Some("UTC".to_string()) } else { None },
            writable,
            raw: "{}".to_string(),
        },
    )
}

#[test]
fn discovered_calendars_sort_by_provider_name_and_id() {
    let rows = vec![
        cal(ProviderName::Icloud, "i2", "home", true),
        cal(ProviderName::Google, "g2", "Work", true),
        cal(ProviderName::Google, "g1", "work", false),
        cal(ProviderName::Google, "g3", "Birthdays", false),
        cal(ProviderName::Icloud, "i1", "Home", true),
    ];
    let sorted = sort_discovered(&rows);
    let ids: Vec<&str> = sorted.iter().map(|c| c.id.as_str()).collect();
    assert_eq!(ids, vec!["g3", "g1", "g2", "i1", "i2"]);
    assert_eq!(rows[2].timezone, "");
}

#[test]
fn discovery_listing_and_export() {
    let rows = vec![cal(ProviderName::Google, "primary", "Work, main", true)];
    assert_eq!(
        calendar_discovery_lines(&rows),
        vec!["provider\twritable\tname\ttimezone\tid", "google\tyes\tWork, main\tUTC\tprimary"]
    );
    assert_eq!(
        calendar_discovery_csv(&rows),
        "provider,writable,name,timezone,id\ngoogle,yes,\"Work, main\",UTC,primary\n"
    );
    assert_eq!(calendar_discovery_csv(&Vec::new()), "provider,writable,name,timezone,id\n");
}

#[test]
fn conflict_listings_and_exports() {
    let summaries = vec![UnresolvedConflictSummary {
        sync_pair_id: "personal".to_string(),
        reason: "both_sides_changed".to_string(),
        count: 2,
        first_seen_at: "2026-06-02 12:00:00".to_string(),
        last_seen_at: "2026-06-02 12:01:00".to_string(),
    }];
    assert_eq!(
        conflict_summary_lines(&summaries)[1],
        "personal\tboth_sides_changed\t2\t2026-06-02 12:00:00\t2026-06-02 12:01:00"
    );
    assert_eq!(
        conflict_summary_csv(&summaries),
        "sync_pair_id,reason,count,first_seen_at,last_seen_at\npersonal,both_sides_changed,2,2026-06-02 12:00:00,2026-06-02 12:01:00\n"
    );
    let details = vec![ConflictListing {
        id: "c1".to_string(),
        sync_pair_id: "personal".to_string(),
        canonical_uid: None,
        reason: "both_sides_changed".to_string(),
        manual_resolution: Some(ManualConflictResolution::IcloudWins),
        resolution_requested_at: Some("2026-06-03".to_string()),
        created_at: "2026-06-02".to_string(),
    }];
    assert_eq!(conflict_detail_lines(&details)[1], "c1\tpersonal\t\tboth_sides_changed\ticloud_wins\t2026-06-02");
    assert_eq!(
        conflict_details_csv(&details),
        "id,sync_pair_id,canonical_uid,reason,manual_resolution,resolution_requested_at,created_at\nc1,personal,,both_sides_changed,icloud_wins,2026-06-03,2026-06-02\n"
    );
}

#[test]
fn doctor_lines_report_credentials() {
    let summary = DoctorSummary {
        db_path: "/tmp/insync.db".to_string(),
        configured_pair_count: 2,
        enabled_pair_count: 1,
        unresolved_conflict_count: 0,
        google_credentials_configured: true,
        icloud_credentials_configured: false,
        latest_run: None,
    };
    assert_eq!(
        doctor_lines(&summary),
        vec![
            "doctor:",
            "  db: /tmp/insync.db",
            "  configured pairs: 2",
            "  enabled pairs: 1",
            "  google credentials: configured",
            "  icloud credentials: missing",
        ]
    );
}

#[test]
fn prompts_and_answers() {
    assert_eq!(text_prompt_label("Sync pair ID", Some("personal")), "Sync pair ID [personal]: ");
    assert_eq!(text_prompt_label("Google client ID", Some("")), "Google client ID: ");
    assert_eq!(text_prompt_label("Google client ID", None), "Google client ID: ");
    assert_eq!(text_prompt_answer("  \n", Some("personal")), "personal");
    assert_eq!(text_prompt_answer(" work \n", Some("personal")), "work");
    assert_eq!(text_prompt_answer("\n", None), "");
    assert_eq!(secret_prompt_label("Google client secret", true), "Google client secret [stored; leave blank to keep]: ");
    assert_eq!(secret_prompt_label("iCloud app-specific password", false), "iCloud app-specific password [leave blank to skip]: ");
    assert_eq!(yes_no_prompt_label("Run now?", false), "Run now? [y/N]: ");
    assert!(read_yes_no(" YES\n", false));
    assert!(read_yes_no("1", false));
    assert!(!read_yes_no("nope", true));
    assert!(read_yes_no("\n", true));
}

#[test]
fn calendar_choices_read_listed_indexes() {
    let rows = vec![cal(ProviderName::Google, "primary", "Work", true), cal(ProviderName::Google, "b", "Birthdays", false)];
    assert_eq!(
        calendar_choice_lines("Google calendar", &rows),
        vec!["Google calendars:", "  0: Work (primary)", "  1: Birthdays [read-only] (b)"]
    );
    assert_eq!(calendar_choice("1", &rows), Some("b".to_string()));
    assert_eq!(calendar_choice("+0", &rows), Some("primary".to_string()));
    assert_eq!(calendar_choice("2", &rows), None);
    assert_eq!(calendar_choice("one", &rows), None);
    assert_eq!(parse_usize("18446744073709551615"), Some(usize::MAX));
    assert_eq!(parse_usize("18446744073709551616"), None);
    assert_eq!(parse_usize("+"), None);
    assert_eq!(parse_usize("-1"), None);
    assert_eq!(parse_usize(""), None);
    assert_eq!(parse_usize("007"), Some(7));
}

use insync::db_export::{
    check_export, delete_sql, export_table_specs, insert_sql, select_sql, ExportProblem, ExportTable, EXPORT_FORMAT,
};

fn table(name: &str, rows: &[&[&str]]) -> ExportTable {
    ExportTable {
        name: name.to_string(),
        rows: rows.iter().map(|row| row.iter().map(|k| k.to_string()).collect()).collect(),
    }
}

#[test]
fn export_lists_tables_parents_first() {
    let specs = export_table_specs();
    let names: Vec<&str> = specs.iter().map(|t| t.name).collect();
    assert_eq!(
        names,
        vec![
            "schema_migrations",
            "accounts",
            "calendars",
            "sync_pairs",
            "sync_state",
            "event_links",
            "sync_runs",
            "sync_conflicts"
        ]
    );
    assert_eq!(specs[0].columns, vec!["id", "name", "applied_at"]);
    assert_eq!(specs[5].columns.len(), 16);
    assert_eq!(specs[7].columns.last(), Some(&"created_at"));
}

#[test]
fn export_sql_reads_and_refills_each_table() {
    let specs = export_table_specs();
    assert_eq!(select_sql(&specs[0]), "SELECT id, name, applied_at FROM schema_migrations ORDER BY id");
    assert_eq!(
        insert_sql(&specs[0]),
        "INSERT INTO schema_migrations (id, name, applied_at) VALUES (?, ?, ?)"
    );
    assert_eq!(delete_sql(&specs[4]), "DELETE FROM sync_state");
    assert_eq!(
        select_sql(&specs[4]),
        "SELECT calendar_id, provider_sync_token, last_full_sync_at, last_incremental_sync_at, updated_at FROM sync_state ORDER BY calendar_id"
    );
}

#[test]
fn import_check_accepts_known_tables_and_columns() {
    let specs = export_table_specs();
    let tables = vec![
        table("accounts", &[&["email", "id", "provider"]]),
        table("sync_runs", &[&["id", "status"], &[]]),
    ];
    assert!(check_export(&specs, EXPORT_FORMAT, &tables).is_ok());
    assert!(check_export(&specs, EXPORT_FORMAT, &Vec::new()).is_ok());
}

#[test]
fn import_check_refuses_another_format() {
    let specs = export_table_specs();
    match check_export(&specs, "insync.sqlite.export.v0", &vec![table("nope", &[])]) {
        Err(ExportProblem::UnsupportedFormat(format)) => assert_eq!(format, "insync.sqlite.export.v0"),
        other => panic!("unexpected {other:?}"),
    }
}

#[test]
fn import_check_names_the_first_unknown_table() {
    let specs = export_table_specs();
    let tables = vec![table("accounts", &[&["bogus"]]), table("extra", &[]), table("more", &[])];
    match check_export(&specs, EXPORT_FORMAT, &tables) {
        Err(ExportProblem::UnsupportedTable(name)) => assert_eq!(name, "extra"),
        other => panic!("unexpected {other:?}"),
    }
}

#[test]
fn import_check_names_the_first_unknown_column_in_table_order() {
    let specs = export_table_specs();
    let tables = vec![
        table("sync_runs", &[&["id", "later"]]),
        table("accounts", &[&["id"], &["id", "nickname", "zzz"]]),
    ];
    match check_export(&specs, EXPORT_FORMAT, &tables) {
        Err(ExportProblem::UnsupportedTable(name)) => assert_eq!(name, "accounts.nickname"),
        other => panic!("unexpected {other:?}"),
    }
}

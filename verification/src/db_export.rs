//! The JSON export of the state store: the tables and columns it holds, the
//! SQL that reads and refills them, and the check an import must pass before
//! anything is written.
use crate::engine_report::{join, join_strs};
use crate::text::{append_str, owned, str_eq};
use vstd::prelude::*;

verus! {

/// The format tag an export file carries.
pub const EXPORT_FORMAT: &'static str = "insync.sqlite.export.v1";

/// A table of the export and its columns, in order.
#[derive(Debug, Clone)]
pub struct TableSpec {
    pub name: &'static str,
    pub columns: Vec<&'static str>,
}

pub struct TableView {
    pub name: Seq<char>,
    pub columns: Seq<Seq<char>>,
}

pub open spec fn table_view(t: TableSpec) -> TableView {
    TableView { name: t.name@, columns: t.columns@.map_values(|c: &str| c@) }
}

pub open spec fn table_views(specs: Seq<TableSpec>) -> Seq<TableView> {
    specs.map_values(|t: TableSpec| table_view(t))
}

pub open spec fn tv(name: Seq<char>, columns: Seq<Seq<char>>) -> TableView {
    TableView { name, columns }
}

/// The exported tables, parents before children.
pub open spec fn export_tables() -> Seq<TableView> {
    seq![
        tv("schema_migrations"@, seq!["id"@, "name"@, "applied_at"@]),
        tv("accounts"@, seq!["id"@, "provider"@, "email"@, "auth_json"@, "created_at"@, "updated_at"@]),
        tv(
            "calendars"@,
            seq![
                "id"@,
                "account_id"@,
                "provider_calendar_id"@,
                "name"@,
                "color"@,
                "timezone"@,
                "writable"@,
                "raw_json"@,
                "created_at"@,
                "updated_at"@,
            ],
        ),
        tv(
            "sync_pairs"@,
            seq![
                "id"@,
                "left_calendar_id"@,
                "right_calendar_id"@,
                "direction"@,
                "enabled"@,
                "conflict_policy"@,
                "created_at"@,
                "updated_at"@,
            ],
        ),
        tv(
            "sync_state"@,
            seq![
                "calendar_id"@,
                "provider_sync_token"@,
                "last_full_sync_at"@,
                "last_incremental_sync_at"@,
                "updated_at"@,
            ],
        ),
        tv(
            "event_links"@,
            seq![
                "id"@,
                "sync_pair_id"@,
                "canonical_uid"@,
                "google_event_id"@,
                "google_ical_uid"@,
                "google_etag"@,
                "icloud_href"@,
                "icloud_uid"@,
                "icloud_etag"@,
                "google_hash"@,
                "icloud_hash"@,
                "last_synced_hash"@,
                "deleted_google_at"@,
                "deleted_icloud_at"@,
                "created_at"@,
                "updated_at"@,
            ],
        ),
        tv("sync_runs"@, seq!["id"@, "sync_pair_id"@, "status"@, "started_at"@, "finished_at"@, "error"@]),
        tv(
            "sync_conflicts"@,
            seq![
                "id"@,
                "sync_pair_id"@,
                "event_link_id"@,
                "canonical_uid"@,
                "reason"@,
                "google_snapshot"@,
                "icloud_snapshot"@,
                "resolved_at"@,
                "created_at"@,
            ],
        ),
    ]
}

fn table(name: &'static str, columns: Vec<&'static str>) -> (r: TableSpec)
    ensures
        r.name == name,
        r.columns == columns,
{
    TableSpec { name, columns }
}

/// The tables an export holds (`export_tables`).
pub fn export_table_specs() -> (r: Vec<TableSpec>)
    ensures
        table_views(r@) == export_tables(),
{
    let c0 = vec!["id", "name", "applied_at"];
    assert(c0@.map_values(|c: &str| c@) =~= export_tables()[0].columns);
    let c1 = vec!["id", "provider", "email", "auth_json", "created_at", "updated_at"];
    assert(c1@.map_values(|c: &str| c@) =~= export_tables()[1].columns);
    let c2 = vec![
        "id",
        "account_id",
        "provider_calendar_id",
        "name",
        "color",
        "timezone",
        "writable",
        "raw_json",
        "created_at",
        "updated_at",
    ];
    assert(c2@.map_values(|c: &str| c@) =~= export_tables()[2].columns);
    let c3 = vec![
        "id",
        "left_calendar_id",
        "right_calendar_id",
        "direction",
        "enabled",
        "conflict_policy",
        "created_at",
        "updated_at",
    ];
    assert(c3@.map_values(|c: &str| c@) =~= export_tables()[3].columns);
    let c4 = vec!["calendar_id", "provider_sync_token", "last_full_sync_at", "last_incremental_sync_at", "updated_at"];
    assert(c4@.map_values(|c: &str| c@) =~= export_tables()[4].columns);
    let c5 = vec![
        "id",
        "sync_pair_id",
        "canonical_uid",
        "google_event_id",
        "google_ical_uid",
        "google_etag",
        "icloud_href",
        "icloud_uid",
        "icloud_etag",
        "google_hash",
        "icloud_hash",
        "last_synced_hash",
        "deleted_google_at",
        "deleted_icloud_at",
        "created_at",
        "updated_at",
    ];
    assert(c5@.map_values(|c: &str| c@) =~= export_tables()[5].columns);
    let c6 = vec!["id", "sync_pair_id", "status", "started_at", "finished_at", "error"];
    assert(c6@.map_values(|c: &str| c@) =~= export_tables()[6].columns);
    let c7 = vec![
        "id",
        "sync_pair_id",
        "event_link_id",
        "canonical_uid",
        "reason",
        "google_snapshot",
        "icloud_snapshot",
        "resolved_at",
        "created_at",
    ];
    assert(c7@.map_values(|c: &str| c@) =~= export_tables()[7].columns);
    let t0 = table("schema_migrations", c0);
    assert(table_view(t0) == export_tables()[0]);
    let t1 = table("accounts", c1);
    assert(table_view(t1) == export_tables()[1]);
    let t2 = table("calendars", c2);
    assert(table_view(t2) == export_tables()[2]);
    let t3 = table("sync_pairs", c3);
    assert(table_view(t3) == export_tables()[3]);
    let t4 = table("sync_state", c4);
    assert(table_view(t4) == export_tables()[4]);
    let t5 = table("event_links", c5);
    assert(table_view(t5) == export_tables()[5]);
    let t6 = table("sync_runs", c6);
    assert(table_view(t6) == export_tables()[6]);
    let t7 = table("sync_conflicts", c7);
    assert(table_view(t7) == export_tables()[7]);
    let v = vec![t0, t1, t2, t3, t4, t5, t6, t7];
    assert(table_views(v@) =~= export_tables());
    v
}

// ---------------------------------------------------------------- SQL
/// `SELECT <columns> FROM <table> ORDER BY <first column>`
pub open spec fn select_sql_text(t: TableView) -> Seq<char> {
    "SELECT "@ + join(t.columns, ", "@) + " FROM "@ + t.name + " ORDER BY "@ + t.columns[0]
}

/// `INSERT INTO <table> (<columns>) VALUES (?, ?, ...)`, one `?` per column.
pub open spec fn insert_sql_text(t: TableView) -> Seq<char> {
    "INSERT INTO "@ + t.name + " ("@ + join(t.columns, ", "@) + ") VALUES ("@ + join(
        Seq::new(t.columns.len(), |i: int| "?"@),
        ", "@,
    ) + ")"@
}

/// `DELETE FROM <table>`
pub open spec fn delete_sql_text(t: TableView) -> Seq<char> {
    "DELETE FROM "@ + t.name
}

pub fn select_sql(t: &TableSpec) -> (r: String)
    requires
        t.columns@.len() > 0,
    ensures
        r@ == select_sql_text(table_view(*t)),
{
    let mut out = owned("SELECT ");
    let cols = join_strs(&t.columns, ", ");
    append_str(&mut out, cols.as_str());
    append_str(&mut out, " FROM ");
    append_str(&mut out, t.name);
    append_str(&mut out, " ORDER BY ");
    append_str(&mut out, t.columns[0]);
    out
}

pub fn insert_sql(t: &TableSpec) -> (r: String)
    ensures
        r@ == insert_sql_text(table_view(*t)),
{
    let mut marks: Vec<&str> = Vec::new();
    let mut i: usize = 0;
    while i < t.columns.len()
        invariant
            i <= t.columns@.len(),
            marks@.len() == i,
            marks@.map_values(|s: &str| s@) == Seq::new(i as nat, |k: int| "?"@),
        decreases t.columns@.len() - i,
    {
        let ghost before = marks@;
        marks.push("?");
        proof {
            assert forall|k: int| #![trigger marks@[k]] 0 <= k < i + 1 implies marks@.map_values(|s: &str| s@)[k]
                == "?"@ by {
                if k < i {
                    assert(marks@[k] == before[k]);
                    assert(before.map_values(|s: &str| s@)[k] == Seq::new(i as nat, |k: int| "?"@)[k]);
                }
            }
        }
        i = i + 1;
        assert(marks@.map_values(|s: &str| s@) =~= Seq::new(i as nat, |k: int| "?"@));
    }
    let mut out = owned("INSERT INTO ");
    append_str(&mut out, t.name);
    append_str(&mut out, " (");
    let cols = join_strs(&t.columns, ", ");
    append_str(&mut out, cols.as_str());
    append_str(&mut out, ") VALUES (");
    let qs = join_strs(&marks, ", ");
    append_str(&mut out, qs.as_str());
    append_str(&mut out, ")");
    out
}

pub fn delete_sql(t: &TableSpec) -> (r: String)
    ensures
        r@ == delete_sql_text(table_view(*t)),
{
    let mut out = owned("DELETE FROM ");
    append_str(&mut out, t.name);
    out
}

// ---------------------------------------------------------------- import check
/// One table of an export file: its name and, for each row, the row's
/// column names in the order the file lists them.
#[derive(Debug, Clone)]
pub struct ExportTable {
    pub name: String,
    pub rows: Vec<Vec<String>>,
}

/// Why an export file cannot be imported.
#[derive(Debug, Clone)]
pub enum ExportProblem {
    /// The format tag is not `EXPORT_FORMAT`.
    UnsupportedFormat(String),
    /// A table the export does not know, or `table.column` for a column the
    /// table does not have.
    UnsupportedTable(String),
}

pub open spec fn known_table(specs: Seq<TableView>, name: Seq<char>) -> bool {
    exists|i: int| 0 <= i < specs.len() && specs[i].name == name
}

/// The names of the file's tables that the export does not know, in order.
pub open spec fn unknown_tables(specs: Seq<TableView>, tables: Seq<ExportTable>) -> Seq<Seq<char>>
    decreases tables.len(),
{
    if tables.len() == 0 {
        Seq::empty()
    } else {
        let rest = unknown_tables(specs, tables.drop_last());
        if known_table(specs, tables.last().name@) {
            rest
        } else {
            rest.push(tables.last().name@)
        }
    }
}

/// The rows the file gives for a table: those of its first table of that
/// name, none when it has none.
pub open spec fn rows_of(tables: Seq<ExportTable>, name: Seq<char>) -> Seq<Vec<String>>
    decreases tables.len(),
{
    if tables.len() == 0 {
        Seq::empty()
    } else if tables[0].name@ == name {
        tables[0].rows@
    } else {
        rows_of(tables.drop_first(), name)
    }
}

pub open spec fn keys_view(row: Vec<String>) -> Seq<Seq<char>> {
    row@.map_values(|k: String| k@)
}

/// `table.column` for each of a row's columns that the table lacks.
pub open spec fn bad_in_row(t: TableView, keys: Seq<Seq<char>>) -> Seq<Seq<char>>
    decreases keys.len(),
{
    if keys.len() == 0 {
        Seq::empty()
    } else {
        let rest = bad_in_row(t, keys.drop_last());
        if t.columns.contains(keys.last()) {
            rest
        } else {
            rest.push(t.name + "."@ + keys.last())
        }
    }
}

pub open spec fn bad_in_rows(t: TableView, rows: Seq<Vec<String>>) -> Seq<Seq<char>>
    decreases rows.len(),
{
    if rows.len() == 0 {
        Seq::empty()
    } else {
        bad_in_rows(t, rows.drop_last()) + bad_in_row(t, keys_view(rows.last()))
    }
}

/// Every unknown `table.column`, table by table in export order, row by row,
/// column by column.
pub open spec fn bad_columns(specs: Seq<TableView>, tables: Seq<ExportTable>) -> Seq<Seq<char>>
    decreases specs.len(),
{
    if specs.len() == 0 {
        Seq::empty()
    } else {
        bad_columns(specs.drop_last(), tables) + bad_in_rows(specs.last(), rows_of(tables, specs.last().name))
    }
}

fn has_column(t: &TableSpec, key: &str) -> (r: bool)
    ensures
        r == table_view(*t).columns.contains(key@),
{
    let ghost cols = table_view(*t).columns;
    let mut i: usize = 0;
    while i < t.columns.len()
        invariant
            i <= t.columns@.len(),
            cols == table_view(*t).columns,
            forall|j: int| 0 <= j < i ==> cols[j] != key@,
        decreases t.columns@.len() - i,
    {
        if str_eq(t.columns[i], key) {
            assert(cols[i as int] == key@);
            return true;
        }
        i = i + 1;
    }
    false
}

fn is_known_table(specs: &Vec<TableSpec>, name: &str) -> (r: bool)
    ensures
        r == known_table(table_views(specs@), name@),
{
    let ghost sv = table_views(specs@);
    let mut i: usize = 0;
    while i < specs.len()
        invariant
            i <= specs@.len(),
            sv == table_views(specs@),
            forall|j: int| 0 <= j < i ==> sv[j].name != name@,
        decreases specs@.len() - i,
    {
        if str_eq(specs[i].name, name) {
            assert(sv[i as int].name == name@);
            return true;
        }
        i = i + 1;
    }
    false
}

proof fn lemma_rows_of_skip(tables: Seq<ExportTable>, i: int, name: Seq<char>)
    requires
        0 <= i < tables.len(),
        tables[i].name@ != name,
    ensures
        rows_of(tables.subrange(i, tables.len() as int), name) == rows_of(
            tables.subrange(i + 1, tables.len() as int),
            name,
        ),
{
    assert(tables.subrange(i, tables.len() as int).drop_first() =~= tables.subrange(i + 1, tables.len() as int));
}

/// The index of the file's first table with this name.
fn table_index(tables: &Vec<ExportTable>, name: &str) -> (r: Option<usize>)
    ensures
        match r {
            Some(i) => i < tables@.len() && rows_of(tables@, name@) == tables@[i as int].rows@,
            None => rows_of(tables@, name@) == Seq::<Vec<String>>::empty(),
        },
{
    let mut i: usize = 0;
    assert(tables@.subrange(0, tables@.len() as int) =~= tables@);
    while i < tables.len()
        invariant
            i <= tables@.len(),
            rows_of(tables@, name@) == rows_of(tables@.subrange(i as int, tables@.len() as int), name@),
        decreases tables@.len() - i,
    {
        if str_eq(tables[i].name.as_str(), name) {
            assert(tables@.subrange(i as int, tables@.len() as int)[0] == tables@[i as int]);
            return Some(i);
        }
        proof {
            lemma_rows_of_skip(tables@, i as int, name@);
        }
        i = i + 1;
    }
    None
}

fn qualified(table: &str, key: &str) -> (r: String)
    ensures
        r@ == table@ + "."@ + key@,
{
    let mut out = owned(table);
    append_str(&mut out, ".");
    append_str(&mut out, key);
    out
}

spec fn strings_view(v: Seq<String>) -> Seq<Seq<char>> {
    v.map_values(|s: String| s@)
}

/// The unknown columns of one table's rows, appended to `out`.
fn collect_bad_in_rows(t: &TableSpec, rows: &Vec<Vec<String>>, out: &mut Vec<String>)
    ensures
        strings_view(final(out)@) == strings_view(old(out)@) + bad_in_rows(table_view(*t), rows@),
{
    let ghost tvw = table_view(*t);
    let ghost start = strings_view(out@);
    let mut j: usize = 0;
    while j < rows.len()
        invariant
            j <= rows@.len(),
            tvw == table_view(*t),
            strings_view(out@) == start + bad_in_rows(tvw, rows@.take(j as int)),
        decreases rows@.len() - j,
    {
        let row = &rows[j];
        let ghost before = strings_view(out@);
        let mut k: usize = 0;
        while k < row.len()
            invariant
                k <= row@.len(),
                tvw == table_view(*t),
                strings_view(out@) == before + bad_in_row(tvw, keys_view(*row).take(k as int)),
            decreases row@.len() - k,
        {
            assert(keys_view(*row).take(k + 1).drop_last() =~= keys_view(*row).take(k as int));
            let known = has_column(t, row[k].as_str());
            assert(keys_view(*row).take(k + 1).last() == row@[k as int]@);
            if !known {
                let q = qualified(t.name, row[k].as_str());
                let ghost prior = out@;
                out.push(q);
                assert(strings_view(out@) =~= strings_view(prior).push(q@));
                assert(strings_view(out@) =~= before + bad_in_row(tvw, keys_view(*row).take(k + 1)));
            }
            k = k + 1;
        }
        assert(keys_view(*row).take(row@.len() as int) =~= keys_view(*row));
        assert(rows@.take(j + 1).drop_last() =~= rows@.take(j as int));
        assert(strings_view(out@) =~= start + bad_in_rows(tvw, rows@.take(j + 1)));
        j = j + 1;
    }
    assert(rows@.take(rows@.len() as int) =~= rows@);
}

/// Checks an export file before it is imported: the format tag first, then
/// that every table is known, then that every row's columns belong to its
/// table; the first problem found is reported.
pub fn check_export(specs: &Vec<TableSpec>, format: &str, tables: &Vec<ExportTable>) -> (r: Result<
    (),
    ExportProblem,
>)
    ensures
        match r {
            Ok(()) => format@ == EXPORT_FORMAT@ && unknown_tables(table_views(specs@), tables@).len() == 0
                && bad_columns(table_views(specs@), tables@).len() == 0,
            Err(ExportProblem::UnsupportedFormat(f)) => format@ != EXPORT_FORMAT@ && f@ == format@,
            Err(ExportProblem::UnsupportedTable(n)) => format@ == EXPORT_FORMAT@ && if unknown_tables(
                table_views(specs@),
                tables@,
            ).len() > 0 {
                n@ == unknown_tables(table_views(specs@), tables@)[0]
            } else {
                bad_columns(table_views(specs@), tables@).len() > 0 && n@ == bad_columns(
                    table_views(specs@),
                    tables@,
                )[0]
            },
        },
{
    if !str_eq(format, EXPORT_FORMAT) {
        return Err(ExportProblem::UnsupportedFormat(owned(format)));
    }
    let ghost sv = table_views(specs@);
    let mut unknown: Vec<String> = Vec::new();
    let mut i: usize = 0;
    while i < tables.len()
        invariant
            i <= tables@.len(),
            sv == table_views(specs@),
            strings_view(unknown@) == unknown_tables(sv, tables@.take(i as int)),
        decreases tables@.len() - i,
    {
        assert(tables@.take(i + 1).drop_last() =~= tables@.take(i as int));
        if !is_known_table(specs, tables[i].name.as_str()) {
            unknown.push(tables[i].name.clone());
        }
        assert(strings_view(unknown@) =~= unknown_tables(sv, tables@.take(i + 1)));
        i = i + 1;
    }
    assert(tables@.take(tables@.len() as int) =~= tables@);
    if unknown.len() > 0 {
        let first = unknown[0].clone();
        assert(first@ == strings_view(unknown@)[0]);
        return Err(ExportProblem::UnsupportedTable(first));
    }
    let mut bad: Vec<String> = Vec::new();
    let mut s: usize = 0;
    while s < specs.len()
        invariant
            s <= specs@.len(),
            sv == table_views(specs@),
            strings_view(bad@) == bad_columns(sv.take(s as int), tables@),
        decreases specs@.len() - s,
    {
        assert(sv.take(s + 1).drop_last() =~= sv.take(s as int));
        assert(sv.take(s + 1).last() == table_view(specs@[s as int]));
        let idx = table_index(tables, specs[s].name);
        match idx {
            Some(k) => collect_bad_in_rows(&specs[s], &tables[k].rows, &mut bad),
            None => {
                let empty: Vec<Vec<String>> = Vec::new();
                assert(empty@ =~= Seq::<Vec<String>>::empty());
                collect_bad_in_rows(&specs[s], &empty, &mut bad);
            },
        }
        s = s + 1;
    }
    assert(sv.take(specs@.len() as int) =~= sv);
    if bad.len() > 0 {
        let first = bad[0].clone();
        assert(first@ == strings_view(bad@)[0]);
        return Err(ExportProblem::UnsupportedTable(first));
    }
    Ok(())
}

// ---------------------------------------------------------------- laws
proof fn lemma_row_keys_known(t: TableView, keys: Seq<Seq<char>>)
    requires
        forall|k: int| 0 <= k < keys.len() ==> t.columns.contains(#[trigger] keys[k]),
    ensures
        bad_in_row(t, keys) == Seq::<Seq<char>>::empty(),
    decreases keys.len(),
{
    if keys.len() > 0 {
        lemma_row_keys_known(t, keys.drop_last());
        assert(t.columns.contains(keys[keys.len() - 1]));
    }
}

proof fn lemma_rows_known(t: TableView, rows: Seq<Vec<String>>)
    requires
        forall|r: int, k: int|
            0 <= r < rows.len() && 0 <= k < rows[r]@.len() ==> t.columns.contains(#[trigger] rows[r]@[k]@),
    ensures
        bad_in_rows(t, rows) == Seq::<Seq<char>>::empty(),
    decreases rows.len(),
{
    if rows.len() > 0 {
        lemma_rows_known(t, rows.drop_last());
        let last = rows[rows.len() - 1];
        assert forall|k: int| 0 <= k < keys_view(last).len() implies t.columns.contains(#[trigger] keys_view(last)[k]) by {
            assert(keys_view(last)[k] == rows[rows.len() - 1]@[k]@);
        }
        lemma_row_keys_known(t, keys_view(last));
        assert(Seq::<Seq<char>>::empty() + Seq::<Seq<char>>::empty() =~= Seq::<Seq<char>>::empty());
    }
}

proof fn lemma_rows_of_position(tables: Seq<ExportTable>, i: int)
    requires
        0 <= i < tables.len(),
        forall|j: int| 0 <= j < i ==> #[trigger] tables[j].name@ != tables[i].name@,
    ensures
        rows_of(tables, tables[i].name@) == tables[i].rows@,
    decreases i,
{
    if i > 0 {
        let rest = tables.drop_first();
        assert forall|j: int| 0 <= j < i - 1 implies #[trigger] rest[j].name@ != rest[i - 1].name@ by {
            assert(rest[j] == tables[j + 1]);
        }
        lemma_rows_of_position(rest, i - 1);
        assert(tables[0].name@ != tables[i].name@);
    }
}

proof fn lemma_all_known(specs: Seq<TableView>, tables: Seq<ExportTable>)
    requires
        forall|i: int| 0 <= i < tables.len() ==> known_table(specs, #[trigger] tables[i].name@),
    ensures
        unknown_tables(specs, tables) == Seq::<Seq<char>>::empty(),
    decreases tables.len(),
{
    if tables.len() > 0 {
        lemma_all_known(specs, tables.drop_last());
        assert(known_table(specs, tables[tables.len() - 1].name@));
    }
}

/// An export holding, for each table of the export in order, rows whose
/// columns all belong to that table is accepted by the import check
/// (`check_export` then answers `Ok` for the export's format): what an export
/// writes, an import takes back.
pub proof fn law_export_is_importable(specs: Seq<TableView>, tables: Seq<ExportTable>)
    requires
        tables.len() == specs.len(),
        forall|i: int, j: int| 0 <= i < j < specs.len() ==> specs[i].name != specs[j].name,
        forall|i: int| 0 <= i < tables.len() ==> #[trigger] tables[i].name@ == specs[i].name,
        forall|i: int, r: int, k: int|
            0 <= i < tables.len() && 0 <= r < tables[i].rows@.len() && 0 <= k < tables[i].rows@[r]@.len()
                ==> specs[i].columns.contains(#[trigger] tables[i].rows@[r]@[k]@),
    ensures
        unknown_tables(specs, tables) == Seq::<Seq<char>>::empty(),
        bad_columns(specs, tables) == Seq::<Seq<char>>::empty(),
{
    assert forall|i: int| 0 <= i < tables.len() implies known_table(specs, #[trigger] tables[i].name@) by {
        assert(specs[i].name == tables[i].name@);
    }
    lemma_all_known(specs, tables);
    lemma_bad_columns_empty(specs, tables, specs.len() as int);
    assert(specs.take(specs.len() as int) =~= specs);
}

proof fn lemma_bad_columns_empty(specs: Seq<TableView>, tables: Seq<ExportTable>, n: int)
    requires
        0 <= n <= specs.len(),
        tables.len() == specs.len(),
        forall|i: int, j: int| 0 <= i < j < specs.len() ==> specs[i].name != specs[j].name,
        forall|i: int| 0 <= i < tables.len() ==> #[trigger] tables[i].name@ == specs[i].name,
        forall|i: int, r: int, k: int|
            0 <= i < tables.len() && 0 <= r < tables[i].rows@.len() && 0 <= k < tables[i].rows@[r]@.len()
                ==> specs[i].columns.contains(#[trigger] tables[i].rows@[r]@[k]@),
    ensures
        bad_columns(specs.take(n), tables) == Seq::<Seq<char>>::empty(),
    decreases n,
{
    if n > 0 {
        lemma_bad_columns_empty(specs, tables, n - 1);
        let pre = specs.take(n);
        assert(pre.drop_last() =~= specs.take(n - 1));
        let i = n - 1;
        assert(pre.last() == specs[i]);
        assert forall|j: int| 0 <= j < i implies #[trigger] tables[j].name@ != tables[i].name@ by {
            assert(tables[j].name@ == specs[j].name);
            assert(tables[i].name@ == specs[i].name);
        }
        lemma_rows_of_position(tables, i);
        assert(rows_of(tables, specs[i].name) == tables[i].rows@);
        let t = specs[i];
        let rows = tables[i].rows@;
        assert forall|r: int, k: int| 0 <= r < rows.len() && 0 <= k < rows[r]@.len() implies t.columns.contains(
            #[trigger] rows[r]@[k]@,
        ) by {
            assert(specs[i].columns.contains(tables[i].rows@[r]@[k]@));
        }
        lemma_rows_known(t, rows);
        assert(Seq::<Seq<char>>::empty() + Seq::<Seq<char>>::empty() =~= Seq::<Seq<char>>::empty());
    }
}

} // verus!

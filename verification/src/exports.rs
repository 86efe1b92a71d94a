//! The text the command line prints and exports: discovered calendars in
//! their listing order, unresolved conflicts as tab-separated lines and CSV
//! files, and the setup doctor's lines.
use crate::engine::DoctorSummary;
use crate::engine_report::{csv_escape, csv_field, csv_line, join, join_strs};
use crate::event::ProviderName;
use crate::numtext::{decimal, decimal_string, push_signed_decimal, signed_decimal};
use crate::providers::ProviderCalendar;
use crate::store::{provider_name, provider_text, ManualConflictResolution, UnresolvedConflictSummary};
use crate::text::{append_str, owned, seq_lt, str_eq, str_lt};
use vstd::prelude::*;

verus! {

// ---------------------------------------------------------------- trusted
/// `str::to_lowercase`: the Unicode lower-case mapping of each character.
pub uninterp spec fn lowercased(s: Seq<char>) -> Seq<char>;

/// `str::to_lowercase`.
#[verifier::external_body]
pub(crate) fn to_lowercase(s: &str) -> (r: String)
    ensures
        r@ == lowercased(s@),
{
    s.to_lowercase()
}

// ---------------------------------------------------------------- documents
pub open spec fn row_texts(rows: Seq<Vec<String>>) -> Seq<Seq<Seq<char>>> {
    rows.map_values(|r: Vec<String>| r@.map_values(|s: String| s@))
}

/// A CSV file: the header line, then one line per row with each field
/// quoted where needed, every line ended by a line feed.
pub open spec fn csv_document_text(header: Seq<char>, rows: Seq<Seq<Seq<char>>>) -> Seq<char> {
    join(seq![header] + rows.map_values(|r: Seq<Seq<char>>| csv_line(r)), "\n"@) + "\n"@
}

fn csv_row(fields: &Vec<String>) -> (r: String)
    ensures
        r@ == csv_line(fields@.map_values(|s: String| s@)),
{
    let mut escaped: Vec<String> = Vec::new();
    let mut i: usize = 0;
    while i < fields.len()
        invariant
            i <= fields@.len(),
            escaped@.len() == i,
            forall|k: int| 0 <= k < i ==> #[trigger] escaped@[k]@ == csv_field(fields@[k]@),
        decreases fields@.len() - i,
    {
        escaped.push(csv_escape(fields[i].as_str()));
        i = i + 1;
    }
    let mut parts: Vec<&str> = Vec::new();
    let mut k: usize = 0;
    while k < escaped.len()
        invariant
            k <= escaped@.len(),
            parts@.len() == k,
            forall|j: int| 0 <= j < k ==> #[trigger] parts@[j]@ == escaped@[j]@,
        decreases escaped@.len() - k,
    {
        parts.push(escaped[k].as_str());
        k = k + 1;
    }
    assert(parts@.map_values(|s: &str| s@) =~= fields@.map_values(|s: String| s@).map_values(
        |f: Seq<char>| csv_field(f),
    ));
    join_strs(&parts, ",")
}

pub fn csv_document(header: &str, rows: &Vec<Vec<String>>) -> (r: String)
    ensures
        r@ == csv_document_text(header@, row_texts(rows@)),
{
    let mut out = owned(header);
    let ghost lines = seq![header@] + row_texts(rows@).map_values(|r: Seq<Seq<char>>| csv_line(r));
    let mut i: usize = 0;
    assert(lines.take(1) =~= seq![header@]);
    while i < rows.len()
        invariant
            i <= rows@.len(),
            lines == seq![header@] + row_texts(rows@).map_values(|r: Seq<Seq<char>>| csv_line(r)),
            lines.len() == rows@.len() + 1,
            out@ == join(lines.take(i + 1), "\n"@),
        decreases rows@.len() - i,
    {
        let line = csv_row(&rows[i]);
        append_str(&mut out, "\n");
        append_str(&mut out, line.as_str());
        proof {
            assert(lines.take(i + 2).drop_last() =~= lines.take(i + 1));
            assert(lines[i + 1] == line@);
        }
        i = i + 1;
    }
    assert(lines.take(rows@.len() + 1int) =~= lines);
    append_str(&mut out, "\n");
    out
}

/// Fields joined by tabs.
pub fn tab_line(fields: &Vec<String>) -> (r: String)
    ensures
        r@ == join(fields@.map_values(|s: String| s@), "\t"@),
{
    let mut parts: Vec<&str> = Vec::new();
    let mut k: usize = 0;
    while k < fields.len()
        invariant
            k <= fields@.len(),
            parts@.len() == k,
            forall|j: int| 0 <= j < k ==> #[trigger] parts@[j]@ == fields@[j]@,
        decreases fields@.len() - k,
    {
        parts.push(fields[k].as_str());
        k = k + 1;
    }
    assert(parts@.map_values(|s: &str| s@) =~= fields@.map_values(|s: String| s@));
    join_strs(&parts, "\t")
}

// ---------------------------------------------------------------- calendars
/// A calendar found at a provider, as setup lists it.
#[derive(Debug, Clone)]
pub struct DiscoveredCalendar {
    pub provider: ProviderName,
    pub id: String,
    pub name: String,
    pub timezone: String,
    pub writable: bool,
}

pub fn discovered_calendar(provider: ProviderName, calendar: ProviderCalendar) -> (r: DiscoveredCalendar)
    ensures
        r.provider == provider,
        r.id == calendar.id,
        r.name == calendar.name,
        r.timezone@ == (match calendar.timezone {
            Some(t) => t@,
            None => Seq::<char>::empty(),
        }),
        r.writable == calendar.writable,
{
    DiscoveredCalendar {
        provider,
        id: calendar.id,
        name: calendar.name,
        timezone: match calendar.timezone {
            Some(t) => t,
            None => String::new(),
        },
        writable: calendar.writable,
    }
}

/// The listing order: provider name, then the lower-cased name, then id.
pub open spec fn calendar_before(a: DiscoveredCalendar, b: DiscoveredCalendar) -> bool {
    let pa = provider_text(a.provider);
    let pb = provider_text(b.provider);
    let na = lowercased(a.name@);
    let nb = lowercased(b.name@);
    seq_lt(pa, pb) || (pa == pb && (seq_lt(na, nb) || (na == nb && seq_lt(a.id@, b.id@))))
}

/// `x` placed before the first calendar it precedes, after every one it
/// does not: the step of a stable sort.
pub open spec fn insert_calendar(sorted: Seq<DiscoveredCalendar>, x: DiscoveredCalendar) -> Seq<DiscoveredCalendar>
    decreases sorted.len(),
{
    if sorted.len() == 0 {
        seq![x]
    } else if calendar_before(x, sorted[0]) {
        seq![x] + sorted
    } else {
        seq![sorted[0]] + insert_calendar(sorted.drop_first(), x)
    }
}

/// The calendars stably sorted into listing order.
pub open spec fn sorted_calendars(rows: Seq<DiscoveredCalendar>) -> Seq<DiscoveredCalendar>
    decreases rows.len(),
{
    if rows.len() == 0 {
        Seq::empty()
    } else {
        insert_calendar(sorted_calendars(rows.drop_last()), rows.last())
    }
}

fn before(a: &DiscoveredCalendar, b: &DiscoveredCalendar) -> (r: bool)
    ensures
        r == calendar_before(*a, *b),
{
    let pa = provider_name(a.provider);
    let pb = provider_name(b.provider);
    if str_lt(pa, pb) {
        return true;
    }
    if !str_eq(pa, pb) {
        return false;
    }
    let na = to_lowercase(a.name.as_str());
    let nb = to_lowercase(b.name.as_str());
    str_lt(na.as_str(), nb.as_str()) || (str_eq(na.as_str(), nb.as_str()) && str_lt(a.id.as_str(), b.id.as_str()))
}

proof fn lemma_insert_at(s: Seq<DiscoveredCalendar>, x: DiscoveredCalendar, i: int)
    requires
        0 <= i <= s.len(),
        forall|j: int| 0 <= j < i ==> !calendar_before(x, #[trigger] s[j]),
        i == s.len() || calendar_before(x, s[i]),
    ensures
        insert_calendar(s, x) == s.insert(i, x),
    decreases s.len(),
{
    if s.len() == 0 {
        assert(s.insert(i, x) =~= seq![x]);
    } else if i == 0 {
        assert(s.insert(0, x) =~= seq![x] + s);
    } else {
        let t = s.drop_first();
        assert forall|j: int| 0 <= j < i - 1 implies !calendar_before(x, #[trigger] t[j]) by {
            assert(t[j] == s[j + 1]);
        }
        if i < s.len() {
            assert(t[i - 1] == s[i]);
        }
        lemma_insert_at(t, x, i - 1);
        assert(s.insert(i, x) =~= seq![s[0]] + t.insert(i - 1, x));
    }
}

fn copy_calendar(c: &DiscoveredCalendar) -> (r: DiscoveredCalendar)
    ensures
        r == *c,
{
    DiscoveredCalendar {
        provider: c.provider,
        id: c.id.clone(),
        name: c.name.clone(),
        timezone: c.timezone.clone(),
        writable: c.writable,
    }
}

/// The calendars in listing order, equal ones in their found order.
pub fn sort_discovered(rows: &Vec<DiscoveredCalendar>) -> (r: Vec<DiscoveredCalendar>)
    ensures
        r@ == sorted_calendars(rows@),
{
    let mut out: Vec<DiscoveredCalendar> = Vec::new();
    let mut i: usize = 0;
    while i < rows.len()
        invariant
            i <= rows@.len(),
            out@ == sorted_calendars(rows@.take(i as int)),
        decreases rows@.len() - i,
    {
        proof {
            assert(rows@.take(i + 1).drop_last() =~= rows@.take(i as int));
        }
        let x = copy_calendar(&rows[i]);
        let mut k: usize = 0;
        while k < out.len() && !before(&x, &out[k])
            invariant
                k <= out@.len(),
                forall|j: int| 0 <= j < k ==> !calendar_before(x, #[trigger] out@[j]),
            decreases out@.len() - k,
        {
            k = k + 1;
        }
        proof {
            lemma_insert_at(out@, x, k as int);
        }
        out.insert(k, x);
        i = i + 1;
    }
    assert(rows@.take(rows@.len() as int) =~= rows@);
    out
}

pub open spec fn yes_no(b: bool) -> Seq<char> {
    if b {
        "yes"@
    } else {
        "no"@
    }
}

pub open spec fn calendar_fields(c: DiscoveredCalendar) -> Seq<Seq<char>> {
    seq![provider_text(c.provider), yes_no(c.writable), c.name@, c.timezone@, c.id@]
}

fn calendar_row(c: &DiscoveredCalendar) -> (r: Vec<String>)
    ensures
        r@.map_values(|s: String| s@) == calendar_fields(*c),
{
    let v = vec![
        owned(provider_name(c.provider)),
        owned(if c.writable { "yes" } else { "no" }),
        c.name.clone(),
        c.timezone.clone(),
        c.id.clone(),
    ];
    assert(v@.map_values(|s: String| s@) =~= calendar_fields(*c));
    v
}

/// The discovery listing: a header and one tab-separated line per calendar.
pub open spec fn discovery_lines_text(rows: Seq<DiscoveredCalendar>) -> Seq<Seq<char>> {
    seq!["provider\twritable\tname\ttimezone\tid"@] + rows.map_values(
        |c: DiscoveredCalendar| join(calendar_fields(c), "\t"@),
    )
}

pub fn calendar_discovery_lines(rows: &Vec<DiscoveredCalendar>) -> (r: Vec<String>)
    ensures
        r@.map_values(|s: String| s@) == discovery_lines_text(rows@),
{
    let mut out: Vec<String> = vec![owned("provider\twritable\tname\ttimezone\tid")];
    let mut i: usize = 0;
    while i < rows.len()
        invariant
            i <= rows@.len(),
            out@.len() == i + 1,
            out@[0]@ == "provider\twritable\tname\ttimezone\tid"@,
            forall|k: int| 1 <= k <= i ==> #[trigger] out@[k]@ == join(calendar_fields(rows@[k - 1]), "\t"@),
        decreases rows@.len() - i,
    {
        let ghost before = out@;
        let fields = calendar_row(&rows[i]);
        let line = tab_line(&fields);
        out.push(line);
        i = i + 1;
    }
    assert(out@.map_values(|s: String| s@) =~= discovery_lines_text(rows@));
    out
}

pub open spec fn discovery_csv_text(rows: Seq<DiscoveredCalendar>) -> Seq<char> {
    csv_document_text(
        "provider,writable,name,timezone,id"@,
        rows.map_values(|c: DiscoveredCalendar| calendar_fields(c)),
    )
}

/// The discovery export file.
pub fn calendar_discovery_csv(rows: &Vec<DiscoveredCalendar>) -> (r: String)
    ensures
        r@ == discovery_csv_text(rows@),
{
    let mut table: Vec<Vec<String>> = Vec::new();
    let mut i: usize = 0;
    while i < rows.len()
        invariant
            i <= rows@.len(),
            table@.len() == i,
            forall|k: int| 0 <= k < i ==> (#[trigger] table@[k])@.map_values(|s: String| s@) == calendar_fields(rows@[k]),
        decreases rows@.len() - i,
    {
        table.push(calendar_row(&rows[i]));
        i = i + 1;
    }
    assert(row_texts(table@) =~= rows@.map_values(|c: DiscoveredCalendar| calendar_fields(c)));
    csv_document("provider,writable,name,timezone,id", &table)
}

// ---------------------------------------------------------------- conflicts
pub open spec fn summary_fields(s: UnresolvedConflictSummary) -> Seq<Seq<char>> {
    seq![s.sync_pair_id@, s.reason@, signed_decimal(s.count as int), s.first_seen_at@, s.last_seen_at@]
}

fn summary_row(s: &UnresolvedConflictSummary) -> (r: Vec<String>)
    ensures
        r@.map_values(|x: String| x@) == summary_fields(*s),
{
    let mut count = String::new();
    push_signed_decimal(&mut count, s.count);
    let v = vec![s.sync_pair_id.clone(), s.reason.clone(), count, s.first_seen_at.clone(), s.last_seen_at.clone()];
    assert(v@.map_values(|x: String| x@) =~= summary_fields(*s));
    v
}

pub open spec fn summary_lines_text(rows: Seq<UnresolvedConflictSummary>) -> Seq<Seq<char>> {
    seq!["sync_pair_id\treason\tcount\tfirst_seen_at\tlast_seen_at"@] + rows.map_values(
        |s: UnresolvedConflictSummary| join(summary_fields(s), "\t"@),
    )
}

/// The conflict groups as printed: a header and one line per group.
pub fn conflict_summary_lines(rows: &Vec<UnresolvedConflictSummary>) -> (r: Vec<String>)
    ensures
        r@.map_values(|s: String| s@) == summary_lines_text(rows@),
{
    let mut out: Vec<String> = vec![owned("sync_pair_id\treason\tcount\tfirst_seen_at\tlast_seen_at")];
    let mut i: usize = 0;
    while i < rows.len()
        invariant
            i <= rows@.len(),
            out@.len() == i + 1,
            out@[0]@ == "sync_pair_id\treason\tcount\tfirst_seen_at\tlast_seen_at"@,
            forall|k: int| 1 <= k <= i ==> #[trigger] out@[k]@ == join(summary_fields(rows@[k - 1]), "\t"@),
        decreases rows@.len() - i,
    {
        let fields = summary_row(&rows[i]);
        out.push(tab_line(&fields));
        i = i + 1;
    }
    assert(out@.map_values(|s: String| s@) =~= summary_lines_text(rows@));
    out
}

pub open spec fn summary_csv_text(rows: Seq<UnresolvedConflictSummary>) -> Seq<char> {
    csv_document_text(
        "sync_pair_id,reason,count,first_seen_at,last_seen_at"@,
        rows.map_values(|s: UnresolvedConflictSummary| summary_fields(s)),
    )
}

/// The conflict groups' export file.
pub fn conflict_summary_csv(rows: &Vec<UnresolvedConflictSummary>) -> (r: String)
    ensures
        r@ == summary_csv_text(rows@),
{
    let mut table: Vec<Vec<String>> = Vec::new();
    let mut i: usize = 0;
    while i < rows.len()
        invariant
            i <= rows@.len(),
            table@.len() == i,
            forall|k: int| 0 <= k < i ==> (#[trigger] table@[k])@.map_values(|s: String| s@) == summary_fields(rows@[k]),
        decreases rows@.len() - i,
    {
        table.push(summary_row(&rows[i]));
        i = i + 1;
    }
    assert(row_texts(table@) =~= rows@.map_values(|s: UnresolvedConflictSummary| summary_fields(s)));
    csv_document("sync_pair_id,reason,count,first_seen_at,last_seen_at", &table)
}

/// One unresolved conflict as the detail listing and export read it.
#[derive(Debug, Clone)]
pub struct ConflictListing {
    pub id: String,
    pub sync_pair_id: String,
    pub canonical_uid: Option<String>,
    pub reason: String,
    pub manual_resolution: Option<ManualConflictResolution>,
    pub resolution_requested_at: Option<String>,
    pub created_at: String,
}

pub open spec fn or_empty(v: Option<String>) -> Seq<char> {
    match v {
        Some(s) => s@,
        None => Seq::empty(),
    }
}

pub open spec fn resolution_or_empty(m: Option<ManualConflictResolution>) -> Seq<char> {
    match m {
        Some(r) => r.spec_text(),
        None => Seq::empty(),
    }
}

fn text_or_empty(v: &Option<String>) -> (r: String)
    ensures
        r@ == or_empty(*v),
{
    match v {
        Some(s) => s.clone(),
        None => String::new(),
    }
}

fn resolution_text(m: Option<ManualConflictResolution>) -> (r: String)
    ensures
        r@ == resolution_or_empty(m),
{
    match m {
        Some(r) => owned(r.as_str()),
        None => String::new(),
    }
}

/// The printed fields: no request time.
pub open spec fn listing_print_fields(c: ConflictListing) -> Seq<Seq<char>> {
    seq![
        c.id@,
        c.sync_pair_id@,
        or_empty(c.canonical_uid),
        c.reason@,
        resolution_or_empty(c.manual_resolution),
        c.created_at@,
    ]
}

/// The exported fields: the request time before the creation time.
pub open spec fn listing_export_fields(c: ConflictListing) -> Seq<Seq<char>> {
    seq![
        c.id@,
        c.sync_pair_id@,
        or_empty(c.canonical_uid),
        c.reason@,
        resolution_or_empty(c.manual_resolution),
        or_empty(c.resolution_requested_at),
        c.created_at@,
    ]
}

pub open spec fn detail_lines_text(rows: Seq<ConflictListing>) -> Seq<Seq<char>> {
    seq!["id\tsync_pair_id\tcanonical_uid\treason\tmanual_resolution\tcreated_at"@] + rows.map_values(
        |c: ConflictListing| join(listing_print_fields(c), "\t"@),
    )
}

/// The unresolved conflicts as printed: a header and one line each.
pub fn conflict_detail_lines(rows: &Vec<ConflictListing>) -> (r: Vec<String>)
    ensures
        r@.map_values(|s: String| s@) == detail_lines_text(rows@),
{
    let mut out: Vec<String> = vec![owned("id\tsync_pair_id\tcanonical_uid\treason\tmanual_resolution\tcreated_at")];
    let mut i: usize = 0;
    while i < rows.len()
        invariant
            i <= rows@.len(),
            out@.len() == i + 1,
            out@[0]@ == "id\tsync_pair_id\tcanonical_uid\treason\tmanual_resolution\tcreated_at"@,
            forall|k: int| 1 <= k <= i ==> #[trigger] out@[k]@ == join(listing_print_fields(rows@[k - 1]), "\t"@),
        decreases rows@.len() - i,
    {
        let c = &rows[i];
        let fields = vec![
            c.id.clone(),
            c.sync_pair_id.clone(),
            text_or_empty(&c.canonical_uid),
            c.reason.clone(),
            resolution_text(c.manual_resolution),
            c.created_at.clone(),
        ];
        assert(fields@.map_values(|s: String| s@) =~= listing_print_fields(*c));
        out.push(tab_line(&fields));
        i = i + 1;
    }
    assert(out@.map_values(|s: String| s@) =~= detail_lines_text(rows@));
    out
}

pub open spec fn detail_csv_text(rows: Seq<ConflictListing>) -> Seq<char> {
    csv_document_text(
        "id,sync_pair_id,canonical_uid,reason,manual_resolution,resolution_requested_at,created_at"@,
        rows.map_values(|c: ConflictListing| listing_export_fields(c)),
    )
}

/// The unresolved conflicts' export file.
pub fn conflict_details_csv(rows: &Vec<ConflictListing>) -> (r: String)
    ensures
        r@ == detail_csv_text(rows@),
{
    let mut table: Vec<Vec<String>> = Vec::new();
    let mut i: usize = 0;
    while i < rows.len()
        invariant
            i <= rows@.len(),
            table@.len() == i,
            forall|k: int| 0 <= k < i ==> (#[trigger] table@[k])@.map_values(|s: String| s@) == listing_export_fields(rows@[k]),
        decreases rows@.len() - i,
    {
        let c = &rows[i];
        let fields = vec![
            c.id.clone(),
            c.sync_pair_id.clone(),
            text_or_empty(&c.canonical_uid),
            c.reason.clone(),
            resolution_text(c.manual_resolution),
            text_or_empty(&c.resolution_requested_at),
            c.created_at.clone(),
        ];
        assert(fields@.map_values(|s: String| s@) =~= listing_export_fields(*c));
        table.push(fields);
        i = i + 1;
    }
    assert(row_texts(table@) =~= rows@.map_values(|c: ConflictListing| listing_export_fields(c)));
    csv_document("id,sync_pair_id,canonical_uid,reason,manual_resolution,resolution_requested_at,created_at", &table)
}

// ---------------------------------------------------------------- doctor
pub open spec fn configured_text(b: bool) -> Seq<char> {
    if b {
        "configured"@
    } else {
        "missing"@
    }
}

/// The setup doctor's report.
pub open spec fn doctor_lines_text(s: DoctorSummary) -> Seq<Seq<char>> {
    seq![
        "doctor:"@,
        "  db: "@ + s.db_path@,
        "  configured pairs: "@ + decimal(s.configured_pair_count as nat),
        "  enabled pairs: "@ + decimal(s.enabled_pair_count as nat),
        "  google credentials: "@ + configured_text(s.google_credentials_configured),
        "  icloud credentials: "@ + configured_text(s.icloud_credentials_configured),
    ]
}

fn labelled(label: &str, value: &str) -> (r: String)
    ensures
        r@ == label@ + value@,
{
    let mut out = owned(label);
    append_str(&mut out, value);
    out
}

pub fn doctor_lines(summary: &DoctorSummary) -> (r: Vec<String>)
    ensures
        r@.map_values(|s: String| s@) == doctor_lines_text(*summary),
{
    let pairs = decimal_string(summary.configured_pair_count as u64);
    let enabled = decimal_string(summary.enabled_pair_count as u64);
    let v = vec![
        owned("doctor:"),
        labelled("  db: ", summary.db_path.as_str()),
        labelled("  configured pairs: ", pairs.as_str()),
        labelled("  enabled pairs: ", enabled.as_str()),
        labelled(
            "  google credentials: ",
            if summary.google_credentials_configured {
                "configured"
            } else {
                "missing"
            },
        ),
        labelled(
            "  icloud credentials: ",
            if summary.icloud_credentials_configured {
                "configured"
            } else {
                "missing"
            },
        ),
    ];
    assert(v@.map_values(|s: String| s@) =~= doctor_lines_text(*summary));
    v
}

} // verus!

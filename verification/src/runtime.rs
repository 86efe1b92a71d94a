//! Building the dashboard's runtime snapshot from what the engine and the
//! store report: pair metadata from cached calendars, run history, conflict
//! groups and conflict details with the fields in which the two sides
//! differ.
use crate::app::{
    AppConflictDetail, AppConflictSummary, AppPairRuntimeSnapshot, AppRun, AppRuntimeSnapshot,
};
use crate::config::{ServiceConfig, SyncPairConfig};
use crate::engine::{DoctorSummary, SyncRunSummary};
use crate::engine_report::{instant_rfc3339, join, join_strs};
use crate::event_hash::opt_view;
use crate::store::{CalendarRow, ManualConflictResolution, SyncRun, UnresolvedConflictSummary};
use crate::text::{append_str, chars_of, clone_opt, owned, str_eq, string_from_chars, trim, trim_chars};
use vstd::prelude::*;

verus! {

// ---------------------------------------------------------------- trusted
/// The UTC seconds and nanoseconds of an RFC 3339 time
/// (`DateTime::parse_from_rfc3339`), or `None` where it does not parse.
pub uninterp spec fn rfc3339_instant(text: Seq<char>) -> Option<(i64, u32)>;

/// `DateTime::parse_from_rfc3339`, read as UTC seconds and nanoseconds.
#[verifier::external_body]
fn parse_rfc3339(text: &str) -> (r: Option<(i64, u32)>)
    ensures
        r == rfc3339_instant(text@),
{
    chrono::DateTime::parse_from_rfc3339(text).ok().map(|d| (d.timestamp(), d.timestamp_subsec_nanos()))
}

/// `DateTime::from_timestamp` followed by `to_rfc3339` (the same outside
/// calls as the report's date column).
#[verifier::external_body]
fn rfc3339_of(seconds: i64, nanos: u32) -> (r: Option<String>)
    ensures
        match r {
            Some(s) => instant_rfc3339(seconds, nanos) == Some(s@),
            None => instant_rfc3339(seconds, nanos) is None,
        },
{
    chrono::DateTime::from_timestamp(seconds, nanos).map(|d| d.to_rfc3339())
}

// ---------------------------------------------------------------- calendars
/// The cached calendar with this id; the last one when the id repeats.
pub open spec fn calendar_with(rows: Seq<CalendarRow>, id: Seq<char>) -> Option<CalendarRow>
    decreases rows.len(),
{
    if rows.len() == 0 {
        None
    } else if rows.last().id@ == id {
        Some(rows.last())
    } else {
        calendar_with(rows.drop_last(), id)
    }
}

pub fn find_calendar<'a>(rows: &'a [CalendarRow], id: &str) -> (r: Option<&'a CalendarRow>)
    ensures
        match r {
            Some(c) => calendar_with(rows@, id@) == Some(*c),
            None => calendar_with(rows@, id@) is None,
        },
{
    let mut i = rows.len();
    assert(rows@.take(rows@.len() as int) =~= rows@);
    while i > 0
        invariant
            i <= rows@.len(),
            calendar_with(rows@, id@) == calendar_with(rows@.take(i as int), id@),
        decreases i,
    {
        proof {
            assert(rows@.take(i as int).drop_last() =~= rows@.take(i - 1));
            assert(rows@.take(i as int).last() == rows@[i - 1]);
        }
        if str_eq(rows[i - 1].id.as_str(), id) {
            return Some(&rows[i - 1]);
        }
        i = i - 1;
    }
    None
}

/// A calendar's name for the dashboard: present, not blank, and not just
/// its provider id.
pub open spec fn calendar_name_of(c: Option<CalendarRow>, fallback: Seq<char>) -> Option<Seq<char>> {
    match c {
        Some(row) => match row.name {
            Some(n) => if trim(n@).len() > 0 && n@ != fallback {
                Some(n@)
            } else {
                None
            },
            None => None,
        },
        None => None,
    }
}

pub open spec fn unref_row(c: Option<&CalendarRow>) -> Option<CalendarRow> {
    match c {
        Some(x) => Some(*x),
        None => None,
    }
}

pub fn calendar_name(calendar: Option<&CalendarRow>, fallback_id: &str) -> (r: Option<String>)
    ensures
        opt_view(r) == calendar_name_of(unref_row(calendar), fallback_id@),
{
    match calendar {
        Some(c) => match &c.name {
            Some(n) => {
                let cs = chars_of(n.as_str());
                let t = trim_chars(&cs);
                if t.len() > 0 && !str_eq(n.as_str(), fallback_id) {
                    Some(n.clone())
                } else {
                    None
                }
            },
            None => None,
        },
        None => None,
    }
}

/// The last sync of a calendar: incremental, else full.
pub open spec fn last_sync_of(c: Option<CalendarRow>) -> Option<String> {
    match c {
        Some(row) => match row.last_incremental_sync_at {
            Some(s) => Some(s),
            None => row.last_full_sync_at,
        },
        None => None,
    }
}

pub fn calendar_last_sync_at(calendar: Option<&CalendarRow>) -> (r: Option<String>)
    ensures
        r == last_sync_of(unref_row(calendar)),
{
    match calendar {
        Some(c) => match &c.last_incremental_sync_at {
            Some(s) => Some(s.clone()),
            None => clone_opt(&c.last_full_sync_at),
        },
        None => None,
    }
}

pub open spec fn account_of(c: Option<CalendarRow>) -> Option<String> {
    match c {
        Some(row) => Some(row.account_email),
        None => None,
    }
}

/// The dashboard metadata of one configured pair, from the cached calendars
/// under the pair's store ids.
pub fn pair_runtime_snapshot(
    pair: &SyncPairConfig,
    google_store_id: &str,
    icloud_store_id: &str,
    calendars: &[CalendarRow],
) -> (r: AppPairRuntimeSnapshot)
    ensures
        r.pair_id == pair.id,
        opt_view(r.google_calendar_name) == calendar_name_of(
            calendar_with(calendars@, google_store_id@),
            pair.google_calendar_id@,
        ),
        opt_view(r.icloud_calendar_name) == calendar_name_of(
            calendar_with(calendars@, icloud_store_id@),
            pair.icloud_calendar_id@,
        ),
        r.google_account_label == account_of(calendar_with(calendars@, google_store_id@)),
        r.icloud_account_label == account_of(calendar_with(calendars@, icloud_store_id@)),
        r.google_last_sync_at == last_sync_of(calendar_with(calendars@, google_store_id@)),
        r.icloud_last_sync_at == last_sync_of(calendar_with(calendars@, icloud_store_id@)),
{
    let google = find_calendar(calendars, google_store_id);
    let icloud = find_calendar(calendars, icloud_store_id);
    AppPairRuntimeSnapshot {
        pair_id: pair.id.clone(),
        google_calendar_name: calendar_name(google, pair.google_calendar_id.as_str()),
        icloud_calendar_name: calendar_name(icloud, pair.icloud_calendar_id.as_str()),
        google_account_label: match google {
            Some(c) => Some(c.account_email.clone()),
            None => None,
        },
        icloud_account_label: match icloud {
            Some(c) => Some(c.account_email.clone()),
            None => None,
        },
        google_last_sync_at: calendar_last_sync_at(google),
        icloud_last_sync_at: calendar_last_sync_at(icloud),
    }
}

// ---------------------------------------------------------------- runs and conflicts
/// A stored run as the dashboard lists it.
pub fn app_run(run: SyncRun) -> (r: AppRun)
    ensures
        r.id == run.id,
        r.pair_id == run.sync_pair_id,
        r.status@ == run.status.spec_text(),
        r.started_at == run.started_at,
        r.finished_at == run.finished_at,
        r.error == run.error,
{
    AppRun {
        id: run.id,
        pair_id: run.sync_pair_id,
        status: owned(run.status.as_str()),
        started_at: run.started_at,
        finished_at: run.finished_at,
        error: run.error,
    }
}

/// A count as the dashboard holds it: negative counts cannot be held and
/// read as the largest count.
pub open spec fn held_count(c: i64) -> usize {
    if 0 <= c <= usize::MAX {
        c as usize
    } else {
        usize::MAX
    }
}

fn to_held(c: i64) -> (r: usize)
    ensures
        r == held_count(c),
{
    if c < 0 {
        usize::MAX
    } else if (c as u64) <= (usize::MAX as u64) {
        c as usize
    } else {
        usize::MAX
    }
}

pub fn conflict_summary_snapshot(row: UnresolvedConflictSummary) -> (r: AppConflictSummary)
    ensures
        r.pair_id == row.sync_pair_id,
        r.reason == row.reason,
        r.count == held_count(row.count),
        r.first_seen_at == row.first_seen_at,
        r.last_seen_at == row.last_seen_at,
{
    AppConflictSummary {
        pair_id: row.sync_pair_id,
        reason: row.reason,
        count: to_held(row.count),
        first_seen_at: row.first_seen_at,
        last_seen_at: row.last_seen_at,
    }
}

/// The fields the dashboard compares in a stored conflict's snapshot of one
/// side, each already trimmed and left out when blank.
#[derive(Debug, Clone)]
pub struct ConflictSnapshot {
    pub title: Option<String>,
    pub start: Option<String>,
    pub status: Option<String>,
    pub location: Option<String>,
    pub description: Option<String>,
    pub google_event_id: Option<String>,
    pub icloud_href: Option<String>,
}

/// A snapshot's text value, trimmed, when not blank.
pub open spec fn non_empty_trimmed(v: Option<Seq<char>>) -> Option<Seq<char>> {
    match v {
        Some(s) => if trim(s).len() > 0 {
            Some(trim(s))
        } else {
            None
        },
        None => None,
    }
}

pub fn non_empty_text(value: Option<&str>) -> (r: Option<String>)
    ensures
        opt_view(r) == non_empty_trimmed(match value {
            Some(s) => Some(s@),
            None => None,
        }),
{
    match value {
        Some(s) => {
            let cs = chars_of(s);
            let t = trim_chars(&cs);
            if t.len() > 0 {
                Some(string_from_chars(t.as_slice()))
            } else {
                None
            }
        },
        None => None,
    }
}

/// A snapshot's start as the dashboard shows it: a date time with a
/// non-blank time zone gets the zone in brackets after it.
pub open spec fn snapshot_date_text(kind: Option<Seq<char>>, value: Seq<char>, timezone: Option<Seq<char>>) -> Seq<char> {
    if kind == Some("dateTime"@) {
        match timezone {
            Some(tz) => if trim(tz).len() > 0 {
                value + " ["@ + tz + "]"@
            } else {
                value
            },
            None => value,
        }
    } else {
        value
    }
}

pub fn snapshot_date(kind: Option<&str>, value: &str, timezone: Option<&str>) -> (r: String)
    ensures
        r@ == snapshot_date_text(
            match kind {
                Some(k) => Some(k@),
                None => None,
            },
            value@,
            match timezone {
                Some(t) => Some(t@),
                None => None,
            },
        ),
{
    let is_date_time = match kind {
        Some(k) => str_eq(k, "dateTime"),
        None => false,
    };
    let mut out = owned(value);
    if is_date_time {
        match timezone {
            Some(tz) => {
                let cs = chars_of(tz);
                let t = trim_chars(&cs);
                if t.len() > 0 {
                    append_str(&mut out, " [");
                    append_str(&mut out, tz);
                    append_str(&mut out, "]");
                }
            },
            None => {},
        }
    }
    out
}

pub open spec fn snap_fields(s: ConflictSnapshot) -> Seq<Option<Seq<char>>> {
    seq![opt_view(s.title), opt_view(s.start), opt_view(s.status), opt_view(s.location), opt_view(s.description)]
}

/// The compared fields on which the snapshots differ, joined by `|`:
/// `metadata` when none differs, and the missing side's name when a side is
/// missing.
pub open spec fn diff_text(google: Option<ConflictSnapshot>, icloud: Option<ConflictSnapshot>) -> Seq<char> {
    match (google, icloud) {
        (None, _) => "google_missing"@,
        (Some(_), None) => "icloud_missing"@,
        (Some(g), Some(i)) => {
            let names = seq!["title"@, "start"@, "status"@, "location"@, "description"@];
            let differing = differing_names(names, snap_fields(g), snap_fields(i));
            if differing.len() == 0 {
                "metadata"@
            } else {
                join(differing, "|"@)
            }
        },
    }
}

pub open spec fn differing_names(names: Seq<Seq<char>>, a: Seq<Option<Seq<char>>>, b: Seq<Option<Seq<char>>>) -> Seq<Seq<char>>
    decreases names.len(),
{
    if names.len() == 0 || a.len() == 0 || b.len() == 0 {
        Seq::empty()
    } else if a.last() != b.last() {
        differing_names(names.drop_last(), a.drop_last(), b.drop_last()).push(names.last())
    } else {
        differing_names(names.drop_last(), a.drop_last(), b.drop_last())
    }
}

fn opt_eq(a: &Option<String>, b: &Option<String>) -> (r: bool)
    ensures
        r == (opt_view(*a) == opt_view(*b)),
{
    match (a, b) {
        (Some(x), Some(y)) => str_eq(x.as_str(), y.as_str()),
        (None, None) => true,
        _ => false,
    }
}

pub fn conflict_diff_fields(google: Option<&ConflictSnapshot>, icloud: Option<&ConflictSnapshot>) -> (r: String)
    ensures
        r@ == diff_text(
            match google {
                Some(g) => Some(*g),
                None => None,
            },
            match icloud {
                Some(i) => Some(*i),
                None => None,
            },
        ),
{
    let g = match google {
        Some(g) => g,
        None => return owned("google_missing"),
    };
    let i = match icloud {
        Some(i) => i,
        None => return owned("icloud_missing"),
    };
    let ghost names = seq!["title"@, "start"@, "status"@, "location"@, "description"@];
    let ghost fa = snap_fields(*g);
    let ghost fb = snap_fields(*i);
    let mut diff: Vec<&str> = Vec::new();
    assert(diff@.map_values(|s: &str| s@) =~= differing_names(names.take(0), fa.take(0), fb.take(0)));
    if !opt_eq(&g.title, &i.title) {
        diff.push("title");
    }
    proof {
        assert(names.take(1).drop_last() =~= names.take(0));
        assert(fa.take(1).drop_last() =~= fa.take(0));
        assert(fb.take(1).drop_last() =~= fb.take(0));
    }
    assert(diff@.map_values(|s: &str| s@) =~= differing_names(names.take(1), fa.take(1), fb.take(1)));
    if !opt_eq(&g.start, &i.start) {
        diff.push("start");
    }
    proof {
        assert(names.take(2).drop_last() =~= names.take(1));
        assert(fa.take(2).drop_last() =~= fa.take(1));
        assert(fb.take(2).drop_last() =~= fb.take(1));
    }
    assert(diff@.map_values(|s: &str| s@) =~= differing_names(names.take(2), fa.take(2), fb.take(2)));
    if !opt_eq(&g.status, &i.status) {
        diff.push("status");
    }
    proof {
        assert(names.take(3).drop_last() =~= names.take(2));
        assert(fa.take(3).drop_last() =~= fa.take(2));
        assert(fb.take(3).drop_last() =~= fb.take(2));
    }
    assert(diff@.map_values(|s: &str| s@) =~= differing_names(names.take(3), fa.take(3), fb.take(3)));
    if !opt_eq(&g.location, &i.location) {
        diff.push("location");
    }
    proof {
        assert(names.take(4).drop_last() =~= names.take(3));
        assert(fa.take(4).drop_last() =~= fa.take(3));
        assert(fb.take(4).drop_last() =~= fb.take(3));
    }
    assert(diff@.map_values(|s: &str| s@) =~= differing_names(names.take(4), fa.take(4), fb.take(4)));
    if !opt_eq(&g.description, &i.description) {
        diff.push("description");
    }
    proof {
        assert(names.take(5).drop_last() =~= names.take(4));
        assert(fa.take(5).drop_last() =~= fa.take(4));
        assert(fb.take(5).drop_last() =~= fb.take(4));
        assert(names.take(5) =~= names);
        assert(fa.take(5) =~= fa);
        assert(fb.take(5) =~= fb);
    }
    assert(diff@.map_values(|s: &str| s@) =~= differing_names(names, fa, fb));
    if diff.len() == 0 {
        owned("metadata")
    } else {
        join_strs(&diff, "|")
    }
}

/// A stored unresolved conflict with its snapshots already read.
#[derive(Debug, Clone)]
pub struct StoredConflictRow {
    pub id: String,
    pub sync_pair_id: String,
    pub event_link_id: Option<String>,
    pub canonical_uid: Option<String>,
    pub reason: String,
    pub manual_resolution: Option<ManualConflictResolution>,
    pub google: Option<ConflictSnapshot>,
    pub icloud: Option<ConflictSnapshot>,
    pub created_at: String,
}

pub open spec fn snap_field(s: Option<ConflictSnapshot>, pick: spec_fn(ConflictSnapshot) -> Option<String>) -> Option<String> {
    match s {
        Some(x) => pick(x),
        None => None,
    }
}

fn title_of(s: &Option<ConflictSnapshot>) -> (r: Option<String>)
    ensures
        r == snap_field(*s, |x: ConflictSnapshot| x.title),
{
    match s {
        Some(x) => clone_opt(&x.title),
        None => None,
    }
}

fn start_of(s: &Option<ConflictSnapshot>) -> (r: Option<String>)
    ensures
        r == snap_field(*s, |x: ConflictSnapshot| x.start),
{
    match s {
        Some(x) => clone_opt(&x.start),
        None => None,
    }
}

fn status_of(s: &Option<ConflictSnapshot>) -> (r: Option<String>)
    ensures
        r == snap_field(*s, |x: ConflictSnapshot| x.status),
{
    match s {
        Some(x) => clone_opt(&x.status),
        None => None,
    }
}

/// A stored conflict as the dashboard's conflict detail.
pub fn conflict_detail_snapshot(row: StoredConflictRow) -> (r: AppConflictDetail)
    ensures
        r.id == row.id,
        r.pair_id == row.sync_pair_id,
        r.event_link_id == row.event_link_id,
        r.canonical_uid == row.canonical_uid,
        r.reason == row.reason,
        r.resolution_policy@ == crate::dashboard::policy_hint(row.reason@),
        r.diff_fields@ == diff_text(row.google, row.icloud),
        r.google_title == snap_field(row.google, |x: ConflictSnapshot| x.title),
        r.icloud_title == snap_field(row.icloud, |x: ConflictSnapshot| x.title),
        r.google_start == snap_field(row.google, |x: ConflictSnapshot| x.start),
        r.icloud_start == snap_field(row.icloud, |x: ConflictSnapshot| x.start),
        r.google_status == snap_field(row.google, |x: ConflictSnapshot| x.status),
        r.icloud_status == snap_field(row.icloud, |x: ConflictSnapshot| x.status),
        r.google_event_id == snap_field(row.google, |x: ConflictSnapshot| x.google_event_id),
        r.icloud_href == snap_field(row.icloud, |x: ConflictSnapshot| x.icloud_href),
        r.created_at == row.created_at,
        opt_view(r.queued_resolution) == (match row.manual_resolution {
            Some(m) => Some(m.spec_text()),
            None => None,
        }),
{
    let diff = conflict_diff_fields(row.google.as_ref(), row.icloud.as_ref());
    let policy = crate::dashboard::conflict_resolution_policy(row.reason.as_str());
    let google_event_id = match &row.google {
        Some(x) => clone_opt(&x.google_event_id),
        None => None,
    };
    let icloud_href = match &row.icloud {
        Some(x) => clone_opt(&x.icloud_href),
        None => None,
    };
    AppConflictDetail {
        id: row.id,
        pair_id: row.sync_pair_id,
        event_link_id: row.event_link_id,
        canonical_uid: row.canonical_uid,
        resolution_policy: policy,
        diff_fields: diff,
        google_title: title_of(&row.google),
        icloud_title: title_of(&row.icloud),
        google_start: start_of(&row.google),
        icloud_start: start_of(&row.icloud),
        google_status: status_of(&row.google),
        icloud_status: status_of(&row.icloud),
        google_event_id,
        icloud_href,
        reason: row.reason,
        created_at: row.created_at,
        queued_resolution: match row.manual_resolution {
            Some(m) => Some(owned(m.as_str())),
            None => None,
        },
    }
}

// ---------------------------------------------------------------- next run
/// The time the scheduler runs next: the latest run's finish (else start)
/// plus the poll interval, in RFC 3339; `None` with no run, an unreadable
/// time, or an interval past `i64`.
pub open spec fn next_run_text(latest: Option<SyncRunSummary>, poll: u64) -> Option<Seq<char>> {
    match latest {
        None => None,
        Some(run) => {
            let stamp = match run.finished_at {
                Some(f) => f@,
                None => run.started_at@,
            };
            match rfc3339_instant(stamp) {
                None => None,
                Some((secs, nanos)) => if poll > i64::MAX {
                    None
                } else {
                    instant_rfc3339((secs + poll) as i64, nanos)
                },
            }
        },
    }
}

/// The next run stays within chrono's dates: adding the interval to the
/// latest run's time neither passes `i64` nor leaves the range that
/// `DateTime` can hold (where the addition panics).
pub open spec fn next_run_representable(latest: Option<SyncRunSummary>, poll: u64) -> bool {
    match latest {
        None => true,
        Some(run) => {
            let stamp = match run.finished_at {
                Some(f) => f@,
                None => run.started_at@,
            };
            match rfc3339_instant(stamp) {
                None => true,
                Some((secs, nanos)) => poll > i64::MAX || (secs + poll <= i64::MAX && instant_rfc3339(
                    (secs + poll) as i64,
                    nanos,
                ) is Some),
            }
        },
    }
}

fn run_stamp(run: &SyncRunSummary) -> (r: &str)
    ensures
        r@ == (match run.finished_at {
            Some(f) => f@,
            None => run.started_at@,
        }),
{
    match &run.finished_at {
        Some(f) => f.as_str(),
        None => run.started_at.as_str(),
    }
}

pub fn next_run_at(summary: &DoctorSummary, poll_interval_seconds: u64) -> (r: Option<String>)
    requires
        next_run_representable(summary.latest_run, poll_interval_seconds),
    ensures
        opt_view(r) == next_run_text(summary.latest_run, poll_interval_seconds),
{
    let run = match &summary.latest_run {
        Some(run) => run,
        None => return None,
    };
    let parsed = match parse_rfc3339(run_stamp(run)) {
        Some(p) => p,
        None => return None,
    };
    if poll_interval_seconds > (i64::MAX as u64) {
        return None;
    }
    let secs = parsed.0 + (poll_interval_seconds as i64);
    rfc3339_of(secs, parsed.1)
}

/// The next run where it can be computed without the addition failing;
/// `None` where the sum leaves the representable range.
pub fn next_run_at_checked(summary: &DoctorSummary, poll_interval_seconds: u64) -> (r: Option<String>)
    ensures
        next_run_representable(summary.latest_run, poll_interval_seconds) ==> opt_view(r) == next_run_text(
            summary.latest_run,
            poll_interval_seconds,
        ),
        !next_run_representable(summary.latest_run, poll_interval_seconds) ==> r is None,
{
    let run = match &summary.latest_run {
        Some(run) => run,
        None => return None,
    };
    let parsed = match parse_rfc3339(run_stamp(run)) {
        Some(p) => p,
        None => return None,
    };
    if poll_interval_seconds > (i64::MAX as u64) {
        return None;
    }
    let secs = match parsed.0.checked_add(poll_interval_seconds as i64) {
        Some(s) => s,
        None => return None,
    };
    match rfc3339_of(secs, parsed.1) {
        Some(t) => {
            proof {
                assert(next_run_representable(summary.latest_run, poll_interval_seconds));
            }
            next_run_at(summary, poll_interval_seconds)
        },
        None => None,
    }
}

// ---------------------------------------------------------------- the snapshot
/// The dashboard's runtime snapshot from the doctor report and the lists
/// read for it: the latest run's time (finish, else start), status and
/// error; the conflict total as a held count; no report rows or plan.
pub fn runtime_snapshot_from_doctor(
    summary: &DoctorSummary,
    next_run_at: Option<String>,
    pairs: Vec<AppPairRuntimeSnapshot>,
    runs: Vec<AppRun>,
    conflict_summaries: Vec<AppConflictSummary>,
    conflict_details: Vec<AppConflictDetail>,
) -> (r: AppRuntimeSnapshot)
    ensures
        r.conflict_count == held_count(summary.unresolved_conflict_count),
        r.last_run_at == (match summary.latest_run {
            Some(run) => Some(match run.finished_at {
                Some(f) => f,
                None => run.started_at,
            }),
            None => None,
        }),
        r.last_run_status == (match summary.latest_run {
            Some(run) => Some(run.status),
            None => None,
        }),
        r.recent_error == (match summary.latest_run {
            Some(run) => run.error,
            None => None,
        }),
        r.next_run_at == next_run_at,
        r.pairs == pairs,
        r.runs == runs,
        r.report_rows@.len() == 0,
        r.plan is None,
        r.conflict_summaries == conflict_summaries,
        r.conflict_details == conflict_details,
{
    let (last_run_at, last_run_status, recent_error) = match &summary.latest_run {
        Some(run) => (
            Some(
                match &run.finished_at {
                    Some(f) => f.clone(),
                    None => run.started_at.clone(),
                },
            ),
            Some(run.status.clone()),
            clone_opt(&run.error),
        ),
        None => (None, None, None),
    };
    AppRuntimeSnapshot {
        conflict_count: to_held(summary.unresolved_conflict_count),
        last_run_at,
        last_run_status,
        next_run_at,
        recent_error,
        pairs,
        runs,
        report_rows: Vec::new(),
        plan: None,
        conflict_summaries,
        conflict_details,
    }
}

} // verus!

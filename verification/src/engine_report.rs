//! The dry-run report: one row per planned action, and its CSV text.
use crate::engine::{action_name, action_name_text, ReportRow};
use crate::engine_apply::{action_uid_of, side_hash, side_hashable};
use crate::event::{CanonicalEvent, EventDateTime, EventStatus, EventView, Instant, RecurrenceData, RecurrenceView};
use crate::event_hash::{
    calendar_date_text, date_text, event_hash, hash_canonical_event, is_hashable, normalize_location, normalize_text,
    normalized_location, normalized_text, opt_text, opt_view,
};
use crate::planner::{ConflictResolution, PlannedAction};
use crate::text::{append_str, chars_of, contains_any, contains_any_chars, owned, str_eq, string_from_chars};
use vstd::prelude::*;

verus! {

// ---------------------------------------------------------------- trusted
/// chrono's `to_rfc3339()` of the UTC instant with these seconds and
/// nanoseconds, or `None` where `DateTime::from_timestamp` rejects them.
pub uninterp spec fn instant_rfc3339(seconds: i64, nanos: u32) -> Option<Seq<char>>;

/// `DateTime::from_timestamp` followed by `to_rfc3339`.
#[verifier::external_body]
fn instant_rfc3339_text(value: &Instant) -> (r: Option<String>)
    ensures
        match r {
            Some(s) => instant_rfc3339(value.seconds, value.nanos) == Some(s@),
            None => instant_rfc3339(value.seconds, value.nanos) is None,
        },
{
    chrono::DateTime::from_timestamp(value.seconds, value.nanos).map(|d| d.to_rfc3339())
}

// ---------------------------------------------------------------- the parts of an action
pub open spec fn unbox(e: Option<Box<CanonicalEvent>>) -> Option<CanonicalEvent> {
    match e {
        Some(b) => Some(*b),
        None => None,
    }
}

/// The event an action writes.
pub open spec fn written_event(a: PlannedAction) -> Option<CanonicalEvent> {
    match a {
        PlannedAction::CreateGoogle(m) | PlannedAction::CreateIcloud(m) | PlannedAction::UpdateGoogle(m)
        | PlannedAction::UpdateIcloud(m) | PlannedAction::DeleteGoogle(m) | PlannedAction::DeleteIcloud(
            m,
        ) => Some(*m.event),
        _ => None,
    }
}

pub open spec fn google_side(a: PlannedAction) -> Option<Box<CanonicalEvent>> {
    match a {
        PlannedAction::Snapshot { google, .. } => google,
        PlannedAction::Conflict { google, .. } => google,
        PlannedAction::CreateGoogle(m) | PlannedAction::CreateIcloud(m) | PlannedAction::UpdateGoogle(m)
        | PlannedAction::UpdateIcloud(m) | PlannedAction::DeleteGoogle(m) | PlannedAction::DeleteIcloud(
            m,
        ) => m.google,
        _ => None,
    }
}

pub open spec fn icloud_side(a: PlannedAction) -> Option<Box<CanonicalEvent>> {
    match a {
        PlannedAction::Snapshot { icloud, .. } => icloud,
        PlannedAction::Conflict { icloud, .. } => icloud,
        PlannedAction::CreateGoogle(m) | PlannedAction::CreateIcloud(m) | PlannedAction::UpdateGoogle(m)
        | PlannedAction::UpdateIcloud(m) | PlannedAction::DeleteGoogle(m) | PlannedAction::DeleteIcloud(
            m,
        ) => m.icloud,
        _ => None,
    }
}

pub fn action_uid(a: &PlannedAction) -> (r: &str)
    ensures
        r@ == action_uid_of(*a),
{
    match a {
        PlannedAction::Snapshot { canonical_uid, .. } => canonical_uid.as_str(),
        PlannedAction::Noop { canonical_uid, .. } => canonical_uid.as_str(),
        PlannedAction::Conflict { canonical_uid, .. } => canonical_uid.as_str(),
        PlannedAction::CreateGoogle(m) | PlannedAction::CreateIcloud(m) | PlannedAction::UpdateGoogle(m)
        | PlannedAction::UpdateIcloud(m) | PlannedAction::DeleteGoogle(m) | PlannedAction::DeleteIcloud(
            m,
        ) => m.canonical_uid.as_str(),
    }
}

pub fn action_event(a: &PlannedAction) -> (r: Option<&CanonicalEvent>)
    ensures
        match r {
            Some(e) => written_event(*a) == Some(*e),
            None => written_event(*a) is None,
        },
{
    match a {
        PlannedAction::CreateGoogle(m) | PlannedAction::CreateIcloud(m) | PlannedAction::UpdateGoogle(m)
        | PlannedAction::UpdateIcloud(m) | PlannedAction::DeleteGoogle(m) | PlannedAction::DeleteIcloud(
            m,
        ) => Some(&m.event),
        _ => None,
    }
}

fn deref_side(e: &Option<Box<CanonicalEvent>>) -> (r: Option<&CanonicalEvent>)
    ensures
        match r {
            Some(x) => unbox(*e) == Some(*x),
            None => *e is None,
        },
{
    match e {
        Some(b) => Some(&**b),
        None => None,
    }
}

pub fn action_google(a: &PlannedAction) -> (r: Option<&CanonicalEvent>)
    ensures
        match r {
            Some(e) => unbox(google_side(*a)) == Some(*e),
            None => google_side(*a) is None,
        },
{
    match a {
        PlannedAction::Snapshot { google, .. } => deref_side(google),
        PlannedAction::Conflict { google, .. } => deref_side(google),
        PlannedAction::CreateGoogle(m) | PlannedAction::CreateIcloud(m) | PlannedAction::UpdateGoogle(m)
        | PlannedAction::UpdateIcloud(m) | PlannedAction::DeleteGoogle(m) | PlannedAction::DeleteIcloud(
            m,
        ) => deref_side(&m.google),
        _ => None,
    }
}

pub fn action_icloud(a: &PlannedAction) -> (r: Option<&CanonicalEvent>)
    ensures
        match r {
            Some(e) => unbox(icloud_side(*a)) == Some(*e),
            None => icloud_side(*a) is None,
        },
{
    match a {
        PlannedAction::Snapshot { icloud, .. } => deref_side(icloud),
        PlannedAction::Conflict { icloud, .. } => deref_side(icloud),
        PlannedAction::CreateGoogle(m) | PlannedAction::CreateIcloud(m) | PlannedAction::UpdateGoogle(m)
        | PlannedAction::UpdateIcloud(m) | PlannedAction::DeleteGoogle(m) | PlannedAction::DeleteIcloud(
            m,
        ) => deref_side(&m.icloud),
        _ => None,
    }
}

/// Reason, resolution and policy of an action, for the report.
pub open spec fn resolution_columns(a: PlannedAction) -> (Seq<char>, Seq<char>, Seq<char>) {
    match a {
        PlannedAction::Conflict { reason, resolution, .. } => (
            reason@,
            match resolution {
                ConflictResolution::Manual => "manual"@,
                ConflictResolution::Ignored => "ignored"@,
            },
            Seq::empty(),
        ),
        PlannedAction::CreateGoogle(m) | PlannedAction::CreateIcloud(m) | PlannedAction::UpdateGoogle(m)
        | PlannedAction::UpdateIcloud(m) | PlannedAction::DeleteGoogle(m) | PlannedAction::DeleteIcloud(
            m,
        ) => match m.resolution {
            Some(r) => (r.reason@, "auto_resolved"@, r.policy@),
            None => (Seq::empty(), Seq::empty(), Seq::empty()),
        },
        _ => (Seq::empty(), Seq::empty(), Seq::empty()),
    }
}

pub fn report_resolution(a: &PlannedAction) -> (r: (String, String, String))
    ensures
        (r.0@, r.1@, r.2@) == resolution_columns(*a),
{
    match a {
        PlannedAction::Conflict { reason, resolution, .. } => (
            reason.clone(),
            match resolution {
                ConflictResolution::Manual => owned("manual"),
                ConflictResolution::Ignored => owned("ignored"),
            },
            String::new(),
        ),
        PlannedAction::CreateGoogle(m) | PlannedAction::CreateIcloud(m) | PlannedAction::UpdateGoogle(m)
        | PlannedAction::UpdateIcloud(m) | PlannedAction::DeleteGoogle(m) | PlannedAction::DeleteIcloud(
            m,
        ) => match &m.resolution {
            Some(r) => (r.reason.clone(), owned("auto_resolved"), r.policy.clone()),
            None => (String::new(), String::new(), String::new()),
        },
        _ => (String::new(), String::new(), String::new()),
    }
}

// ---------------------------------------------------------------- columns
pub open spec fn present_text(e: Option<CanonicalEvent>) -> Seq<char> {
    if e is Some {
        "yes"@
    } else {
        "no"@
    }
}

pub fn present_value(e: Option<&CanonicalEvent>) -> (r: String)
    ensures
        r@ == (if e is Some {
            "yes"@
        } else {
            "no"@
        }),
{
    if e.is_some() {
        owned("yes")
    } else {
        owned("no")
    }
}

/// A date as the report shows it: `YYYY-MM-DD`, or the instant in RFC 3339
/// with the time zone name in brackets after it when there is one.
pub open spec fn date_column(d: EventDateTime) -> Seq<char> {
    match d {
        EventDateTime::Date { value } => opt_text(calendar_date_text(value.year, value.month, value.day)),
        EventDateTime::DateTime { value, timezone } => {
            let instant = opt_text(instant_rfc3339(value.seconds, value.nanos));
            match timezone {
                Some(tz) => instant + " ["@ + tz@ + "]"@,
                None => instant,
            }
        },
    }
}

fn text_or_empty(t: Option<String>) -> (r: String)
    ensures
        r@ == opt_text(opt_view(t)),
{
    match t {
        Some(s) => s,
        None => String::new(),
    }
}

pub fn format_event_date(d: &EventDateTime) -> (r: String)
    ensures
        r@ == date_column(*d),
{
    match d {
        EventDateTime::Date { value } => {
            let t = date_text(value);
            assert(opt_view(t) == calendar_date_text(value.year, value.month, value.day));
            text_or_empty(t)
        },
        EventDateTime::DateTime { value, timezone } => {
            let t = instant_rfc3339_text(value);
            assert(opt_view(t) == instant_rfc3339(value.seconds, value.nanos));
            let mut out = text_or_empty(t);
            match timezone {
                Some(tz) => {
                    append_str(&mut out, " [");
                    append_str(&mut out, tz.as_str());
                    append_str(&mut out, "]");
                },
                None => {},
            }
            out
        },
    }
}

pub open spec fn status_text(s: EventStatus) -> Seq<char> {
    match s {
        EventStatus::Confirmed => "confirmed"@,
        EventStatus::Tentative => "tentative"@,
        EventStatus::Cancelled => "cancelled"@,
    }
}

pub fn status_name(s: EventStatus) -> (r: &'static str)
    ensures
        r@ == status_text(s),
{
    match s {
        EventStatus::Confirmed => "confirmed",
        EventStatus::Tentative => "tentative",
        EventStatus::Cancelled => "cancelled",
    }
}

/// The key by which the report compares two dates.
pub open spec fn date_key(d: EventDateTime) -> Seq<char> {
    match d {
        EventDateTime::Date { value } => "date:"@ + opt_text(calendar_date_text(value.year, value.month, value.day)),
        EventDateTime::DateTime { value, .. } => "dateTime:"@ + opt_text(instant_rfc3339(value.seconds, value.nanos)),
    }
}

pub fn report_date_key(d: &EventDateTime) -> (r: String)
    ensures
        r@ == date_key(*d),
{
    match d {
        EventDateTime::Date { value } => {
            let t = date_text(value);
            assert(opt_view(t) == calendar_date_text(value.year, value.month, value.day));
            let mut out = owned("date:");
            let v = text_or_empty(t);
            append_str(&mut out, v.as_str());
            out
        },
        EventDateTime::DateTime { value, .. } => {
            let t = instant_rfc3339_text(value);
            assert(opt_view(t) == instant_rfc3339(value.seconds, value.nanos));
            let mut out = owned("dateTime:");
            let v = text_or_empty(t);
            append_str(&mut out, v.as_str());
            out
        },
    }
}

/// A recurrence as plain values, compared field by field.
pub open spec fn recurrence_text(r: Option<RecurrenceData>) -> Option<(Option<Seq<char>>, Seq<Seq<char>>, Option<Seq<char>>, Option<i64>)> {
    match r {
        Some(d) => Some((opt_view(d.rrule), d.exdates@.map_values(|s: String| s@), opt_view(d.recurrence_id), d.sequence)),
        None => None,
    }
}

fn opt_text_eq(a: &Option<String>, b: &Option<String>) -> (r: bool)
    ensures
        r == (opt_view(*a) == opt_view(*b)),
{
    match (a, b) {
        (Some(x), Some(y)) => str_eq(x.as_str(), y.as_str()),
        (None, None) => true,
        _ => false,
    }
}

fn texts_eq(a: &Vec<String>, b: &Vec<String>) -> (r: bool)
    ensures
        r == (a@.map_values(|s: String| s@) == b@.map_values(|s: String| s@)),
{
    if a.len() != b.len() {
        proof {
            assert(a@.map_values(|s: String| s@).len() != b@.map_values(|s: String| s@).len());
        }
        return false;
    }
    let mut i: usize = 0;
    while i < a.len()
        invariant
            i <= a@.len(),
            a@.len() == b@.len(),
            forall|k: int| 0 <= k < i ==> a@[k]@ == b@[k]@,
        decreases a@.len() - i,
    {
        if !str_eq(a[i].as_str(), b[i].as_str()) {
            proof {
                assert(a@.map_values(|s: String| s@)[i as int] != b@.map_values(|s: String| s@)[i as int]);
            }
            return false;
        }
        i = i + 1;
    }
    assert(a@.map_values(|s: String| s@) =~= b@.map_values(|s: String| s@));
    true
}

fn recurrence_equal(a: &Option<RecurrenceData>, b: &Option<RecurrenceData>) -> (r: bool)
    ensures
        r == (recurrence_text(*a) == recurrence_text(*b)),
{
    match (a, b) {
        (Some(x), Some(y)) => opt_text_eq(&x.rrule, &y.rrule) && texts_eq(&x.exdates, &y.exdates) && opt_text_eq(
            &x.recurrence_id,
            &y.recurrence_id,
        ) && x.sequence == y.sequence,
        (None, None) => true,
        _ => false,
    }
}

/// The fields on which the two sides differ, in report order.
pub open spec fn differing_fields(g: CanonicalEvent, i: CanonicalEvent) -> Seq<Seq<char>> {
    (if normalized_text(Some(g.title@)) != normalized_text(Some(i.title@)) {
        seq!["title"@]
    } else {
        Seq::empty()
    }) + (if normalized_text(opt_view(g.description)) != normalized_text(opt_view(i.description)) {
        seq!["description"@]
    } else {
        Seq::empty()
    }) + (if normalized_location(opt_view(g.location)) != normalized_location(opt_view(i.location)) {
        seq!["location"@]
    } else {
        Seq::empty()
    }) + (if g.status != i.status {
        seq!["status"@]
    } else {
        Seq::empty()
    }) + (if date_key(g.start) != date_key(i.start) {
        seq!["start"@]
    } else {
        Seq::empty()
    }) + (if date_key(g.end) != date_key(i.end) {
        seq!["end"@]
    } else {
        Seq::empty()
    }) + (if recurrence_text(g.recurrence) != recurrence_text(i.recurrence) {
        seq!["recurrence"@]
    } else {
        Seq::empty()
    })
}

fn push_if(out: &mut Vec<&'static str>, cond: bool, name: &'static str)
    ensures
        final(out)@.map_values(|s: &str| s@) == old(out)@.map_values(|s: &str| s@) + (if cond {
            seq![name@]
        } else {
            Seq::empty()
        }),
{
    let ghost before = out@;
    if cond {
        out.push(name);
    }
    assert(out@.map_values(|s: &str| s@) =~= before.map_values(|s: &str| s@) + (if cond {
        seq![name@]
    } else {
        Seq::<Seq<char>>::empty()
    }));
}

pub fn diff_event_fields(google: &CanonicalEvent, icloud: &CanonicalEvent) -> (r: Vec<&'static str>)
    ensures
        r@.map_values(|s: &str| s@) == differing_fields(*google, *icloud),
{
    let mut fields: Vec<&'static str> = Vec::new();
    assert(fields@.map_values(|s: &str| s@) =~= Seq::<Seq<char>>::empty());
    let a = normalize_text(Some(&google.title));
    let b = normalize_text(Some(&icloud.title));
    push_if(&mut fields, !str_eq(a.as_str(), b.as_str()), "title");
    let gd = google.description.as_ref();
    let id = icloud.description.as_ref();
    let a = normalize_text(gd);
    let b = normalize_text(id);
    proof {
        assert(match gd {
            Some(s) => Some(s@),
            None => None,
        } == opt_view(google.description));
        assert(match id {
            Some(s) => Some(s@),
            None => None,
        } == opt_view(icloud.description));
    }
    push_if(&mut fields, !str_eq(a.as_str(), b.as_str()), "description");
    let gl = google.location.as_ref();
    let il = icloud.location.as_ref();
    let a = normalize_location(gl);
    let b = normalize_location(il);
    proof {
        assert(match gl {
            Some(s) => Some(s@),
            None => None,
        } == opt_view(google.location));
        assert(match il {
            Some(s) => Some(s@),
            None => None,
        } == opt_view(icloud.location));
    }
    push_if(&mut fields, !str_eq(a.as_str(), b.as_str()), "location");
    push_if(&mut fields, google.status != icloud.status, "status");
    let a = report_date_key(&google.start);
    let b = report_date_key(&icloud.start);
    push_if(&mut fields, !str_eq(a.as_str(), b.as_str()), "start");
    let a = report_date_key(&google.end);
    let b = report_date_key(&icloud.end);
    push_if(&mut fields, !str_eq(a.as_str(), b.as_str()), "end");
    push_if(&mut fields, !recurrence_equal(&google.recurrence, &icloud.recurrence), "recurrence");
    assert(fields@.map_values(|s: &str| s@) =~= differing_fields(*google, *icloud));
    fields
}

/// The parts joined with the separator.
pub open spec fn join(parts: Seq<Seq<char>>, sep: Seq<char>) -> Seq<char>
    decreases parts.len(),
{
    if parts.len() == 0 {
        Seq::empty()
    } else if parts.len() == 1 {
        parts[0]
    } else {
        join(parts.drop_last(), sep) + sep + parts.last()
    }
}

pub fn join_strs(parts: &Vec<&str>, sep: &str) -> (r: String)
    ensures
        r@ == join(parts@.map_values(|s: &str| s@), sep@),
{
    let mut out = String::new();
    let mut i: usize = 0;
    while i < parts.len()
        invariant
            i <= parts@.len(),
            out@ == join(parts@.take(i as int).map_values(|s: &str| s@), sep@),
        decreases parts@.len() - i,
    {
        proof {
            assert(parts@.take(i + 1).map_values(|s: &str| s@).drop_last() =~= parts@.take(i as int).map_values(
                |s: &str| s@,
            ));
        }
        if i > 0 {
            append_str(&mut out, sep);
        }
        append_str(&mut out, parts[i]);
        i = i + 1;
        proof {
            if i == 1 {
                assert(out@ =~= join(parts@.take(i as int).map_values(|s: &str| s@), sep@));
            }
        }
    }
    assert(parts@.take(parts@.len() as int) =~= parts@);
    out
}

// ---------------------------------------------------------------- rows
pub open spec fn side_event(e: Option<Box<CanonicalEvent>>) -> Option<CanonicalEvent> {
    unbox(e)
}

pub open spec fn column_of(e: Option<CanonicalEvent>, f: spec_fn(CanonicalEvent) -> Seq<char>) -> Seq<char> {
    match e {
        Some(x) => f(x),
        None => Seq::empty(),
    }
}

/// The report row of an action, as its twenty columns in CSV order.
pub open spec fn report_columns(pair_id: Seq<char>, a: PlannedAction) -> Seq<Seq<char>> {
    let g = side_event(google_side(a));
    let i = side_event(icloud_side(a));
    let shown = match written_event(a) {
        Some(e) => Some(e),
        None => match g {
            Some(e) => Some(e),
            None => i,
        },
    };
    let (reason, resolution, policy) = resolution_columns(a);
    seq![
        pair_id,
        action_name_text(a),
        action_uid_of(a),
        reason,
        resolution,
        policy,
        column_of(shown, |e: CanonicalEvent| e.title@),
        present_text(g),
        present_text(i),
        column_of(g, |e: CanonicalEvent| e.title@),
        column_of(i, |e: CanonicalEvent| e.title@),
        column_of(g, |e: CanonicalEvent| date_column(e.start)),
        column_of(i, |e: CanonicalEvent| date_column(e.start)),
        column_of(g, |e: CanonicalEvent| date_column(e.end)),
        column_of(i, |e: CanonicalEvent| date_column(e.end)),
        column_of(g, |e: CanonicalEvent| status_text(e.status)),
        column_of(i, |e: CanonicalEvent| status_text(e.status)),
        opt_text(side_hash(google_side(a))),
        opt_text(side_hash(icloud_side(a))),
        match (g, i) {
            (Some(x), Some(y)) => join(differing_fields(x, y), "|"@),
            _ => Seq::empty(),
        },
    ]
}

pub open spec fn row_columns(r: ReportRow) -> Seq<Seq<char>> {
    seq![
        r.pair_id@,
        r.action@,
        r.canonical_uid@,
        r.reason@,
        r.resolution@,
        r.conflict_policy@,
        r.title@,
        r.google_present@,
        r.icloud_present@,
        r.google_title@,
        r.icloud_title@,
        r.google_start@,
        r.icloud_start@,
        r.google_end@,
        r.icloud_end@,
        r.google_status@,
        r.icloud_status@,
        r.google_hash@,
        r.icloud_hash@,
        r.diff_fields@,
    ]
}

/// Both sides of an action can be hashed.
pub open spec fn reportable(a: PlannedAction) -> bool {
    side_hashable(google_side(a)) && side_hashable(icloud_side(a))
}

fn google_side_box(a: &PlannedAction) -> (r: &Option<Box<CanonicalEvent>>)
    ensures
        *r == google_side(*a),
{
    match a {
        PlannedAction::Snapshot { google, .. } => google,
        PlannedAction::Conflict { google, .. } => google,
        PlannedAction::CreateGoogle(m) | PlannedAction::CreateIcloud(m) | PlannedAction::UpdateGoogle(m)
        | PlannedAction::UpdateIcloud(m) | PlannedAction::DeleteGoogle(m) | PlannedAction::DeleteIcloud(
            m,
        ) => &m.google,
        PlannedAction::Noop { .. } => &NO_EVENT,
    }
}

fn icloud_side_box(a: &PlannedAction) -> (r: &Option<Box<CanonicalEvent>>)
    ensures
        *r == icloud_side(*a),
{
    match a {
        PlannedAction::Snapshot { icloud, .. } => icloud,
        PlannedAction::Conflict { icloud, .. } => icloud,
        PlannedAction::CreateGoogle(m) | PlannedAction::CreateIcloud(m) | PlannedAction::UpdateGoogle(m)
        | PlannedAction::UpdateIcloud(m) | PlannedAction::DeleteGoogle(m) | PlannedAction::DeleteIcloud(
            m,
        ) => &m.icloud,
        PlannedAction::Noop { .. } => &NO_EVENT,
    }
}

const NO_EVENT: Option<Box<CanonicalEvent>> = None;

fn side_can_hash(e: &Option<Box<CanonicalEvent>>) -> (r: bool)
    ensures
        r == side_hashable(*e),
{
    match e {
        Some(b) => is_hashable(b),
        None => true,
    }
}

/// Whether an action's row can be written (`reportable`).
pub fn action_reportable(action: &PlannedAction) -> (r: bool)
    ensures
        r == reportable(*action),
{
    side_can_hash(google_side_box(action)) && side_can_hash(icloud_side_box(action))
}



fn side_hash_text(e: &Option<Box<CanonicalEvent>>) -> (r: String)
    requires
        side_hashable(*e),
    ensures
        r@ == opt_text(side_hash(*e)),
{
    match e {
        Some(b) => hash_canonical_event(b),
        None => String::new(),
    }
}

fn title_of(e: Option<&CanonicalEvent>) -> (r: String)
    ensures
        r@ == (match e {
            Some(x) => x.title@,
            None => Seq::empty(),
        }),
{
    match e {
        Some(x) => x.title.clone(),
        None => String::new(),
    }
}

fn start_of(e: Option<&CanonicalEvent>) -> (r: String)
    ensures
        r@ == (match e {
            Some(x) => date_column(x.start),
            None => Seq::empty(),
        }),
{
    match e {
        Some(x) => format_event_date(&x.start),
        None => String::new(),
    }
}

fn end_of(e: Option<&CanonicalEvent>) -> (r: String)
    ensures
        r@ == (match e {
            Some(x) => date_column(x.end),
            None => Seq::empty(),
        }),
{
    match e {
        Some(x) => format_event_date(&x.end),
        None => String::new(),
    }
}

fn status_of(e: Option<&CanonicalEvent>) -> (r: String)
    ensures
        r@ == (match e {
            Some(x) => status_text(x.status),
            None => Seq::empty(),
        }),
{
    match e {
        Some(x) => owned(status_name(x.status)),
        None => String::new(),
    }
}

/// The report row of one action of a pair.
pub fn action_to_report_row(pair_id: &str, action: &PlannedAction) -> (r: ReportRow)
    requires
        reportable(*action),
    ensures
        row_columns(r) == report_columns(pair_id@, *action),
        r.google_start@ == column_of(side_event(google_side(*action)), |e: CanonicalEvent| date_column(e.start)),
        r.google_end@ == column_of(side_event(google_side(*action)), |e: CanonicalEvent| date_column(e.end)),
        r.icloud_start@ == column_of(side_event(icloud_side(*action)), |e: CanonicalEvent| date_column(e.start)),
        r.icloud_end@ == column_of(side_event(icloud_side(*action)), |e: CanonicalEvent| date_column(e.end)),
{
    let google = action_google(action);
    let icloud = action_icloud(action);
    let event = match action_event(action) {
        Some(e) => Some(e),
        None => match google {
            Some(g) => Some(g),
            None => icloud,
        },
    };
    let (reason, resolution, conflict_policy) = report_resolution(action);
    let diff = match (google, icloud) {
        (Some(g), Some(i)) => {
            let fields = diff_event_fields(g, i);
            join_strs(&fields, "|")
        },
        _ => String::new(),
    };
    let r = ReportRow {
        pair_id: owned(pair_id),
        action: owned(action_name(action)),
        canonical_uid: owned(action_uid(action)),
        reason,
        resolution,
        conflict_policy,
        title: title_of(event),
        google_present: present_value(google),
        icloud_present: present_value(icloud),
        google_title: title_of(google),
        icloud_title: title_of(icloud),
        google_start: start_of(google),
        icloud_start: start_of(icloud),
        google_end: end_of(google),
        icloud_end: end_of(icloud),
        google_status: status_of(google),
        icloud_status: status_of(icloud),
        google_hash: side_hash_text(google_side_box(action)),
        icloud_hash: side_hash_text(icloud_side_box(action)),
        diff_fields: diff,
    };
    assert(row_columns(r) =~= report_columns(pair_id@, *action));
    r
}

// ---------------------------------------------------------------- csv
/// A CSV field: quoted, with quotes doubled, when it holds a comma, a quote
/// or a line break.
pub open spec fn csv_field(v: Seq<char>) -> Seq<char> {
    if contains_any(v, seq![',', '"', '\n', '\r']) {
        seq!['"'] + doubled_quotes(v) + seq!['"']
    } else {
        v
    }
}

pub open spec fn doubled_quotes(v: Seq<char>) -> Seq<char>
    decreases v.len(),
{
    if v.len() == 0 {
        v
    } else {
        doubled_quotes(v.drop_last()) + if v.last() == '"' {
            seq!['"', '"']
        } else {
            seq![v.last()]
        }
    }
}

pub fn csv_escape(value: &str) -> (r: String)
    ensures
        r@ == csv_field(value@),
{
    let cs = chars_of(value);
    let special: Vec<char> = vec![',', '"', '\n', '\r'];
    assert(special@ =~= seq![',', '"', '\n', '\r']);
    if !contains_any_chars(&cs, &special) {
        return owned(value);
    }
    let mut out: Vec<char> = Vec::new();
    out.push('"');
    let mut i: usize = 0;
    while i < cs.len()
        invariant
            i <= cs@.len(),
            out@ == seq!['"'] + doubled_quotes(cs@.take(i as int)),
        decreases cs@.len() - i,
    {
        proof {
            assert(cs@.take(i + 1).drop_last() =~= cs@.take(i as int));
        }
        if cs[i] == '"' {
            out.push('"');
            out.push('"');
        } else {
            out.push(cs[i]);
        }
        i = i + 1;
        assert(out@ =~= seq!['"'] + doubled_quotes(cs@.take(i as int)));
    }
    out.push('"');
    assert(cs@.take(cs@.len() as int) =~= cs@);
    assert(out@ =~= seq!['"'] + doubled_quotes(cs@) + seq!['"']);
    string_from_chars(out.as_slice())
}

pub open spec fn csv_line(fields: Seq<Seq<char>>) -> Seq<char> {
    join(fields.map_values(|f: Seq<char>| csv_field(f)), ","@)
}

pub fn report_row_to_csv(row: &ReportRow) -> (r: String)
    ensures
        r@ == csv_line(row_columns(*row)),
{
    let fields: Vec<&str> = vec![
        row.pair_id.as_str(),
        row.action.as_str(),
        row.canonical_uid.as_str(),
        row.reason.as_str(),
        row.resolution.as_str(),
        row.conflict_policy.as_str(),
        row.title.as_str(),
        row.google_present.as_str(),
        row.icloud_present.as_str(),
        row.google_title.as_str(),
        row.icloud_title.as_str(),
        row.google_start.as_str(),
        row.icloud_start.as_str(),
        row.google_end.as_str(),
        row.icloud_end.as_str(),
        row.google_status.as_str(),
        row.icloud_status.as_str(),
        row.google_hash.as_str(),
        row.icloud_hash.as_str(),
        row.diff_fields.as_str(),
    ];
    assert(fields@.map_values(|s: &str| s@) =~= row_columns(*row));
    let mut escaped: Vec<String> = Vec::new();
    let mut i: usize = 0;
    while i < fields.len()
        invariant
            i <= fields@.len(),
            escaped@.len() == i,
            forall|k: int| 0 <= k < i ==> #[trigger] escaped@[k]@ == csv_field(fields@[k]@),
        decreases fields@.len() - i,
    {
        escaped.push(csv_escape(fields[i]));
        i = i + 1;
    }
    let mut parts: Vec<&str> = Vec::new();
    let mut k: usize = 0;
    while k < escaped.len()
        invariant
            k <= escaped@.len(),
            parts@.len() == k,
            forall|j: int| 0 <= j < k ==> #[trigger] parts@[j]@ == escaped@[j]@,
        decreases escaped@.len() - k,
    {
        parts.push(escaped[k].as_str());
        k = k + 1;
    }
    assert(parts@.map_values(|s: &str| s@) =~= row_columns(*row).map_values(|f: Seq<char>| csv_field(f)));
    join_strs(&parts, ",")
}

/// The report's header line, column names in CSV order.
pub open spec fn report_header() -> Seq<char> {
    "pair_id,action,canonical_uid,reason,resolution,conflict_policy,title,google_present,icloud_present,google_title,icloud_title,google_start,icloud_start,google_end,icloud_end,google_status,icloud_status,google_hash,icloud_hash,diff_fields"@
}

pub open spec fn report_lines(rows: Seq<ReportRow>) -> Seq<Seq<char>> {
    seq![report_header()] + rows.map_values(|r: ReportRow| csv_line(row_columns(r)))
}

/// The whole dry-run report file: the header, one line per row, each line
/// ended by a line feed.
pub fn dry_run_report_text(rows: &[ReportRow]) -> (r: String)
    ensures
        r@ == join(report_lines(rows@), "\n"@) + "\n"@,
{
    let mut out = owned(
        "pair_id,action,canonical_uid,reason,resolution,conflict_policy,title,google_present,icloud_present,google_title,icloud_title,google_start,icloud_start,google_end,icloud_end,google_status,icloud_status,google_hash,icloud_hash,diff_fields",
    );
    let mut i: usize = 0;
    proof {
        assert(report_lines(rows@.take(0)) =~= seq![report_header()]);
    }
    while i < rows.len()
        invariant
            i <= rows@.len(),
            out@ == join(report_lines(rows@.take(i as int)), "\n"@),
        decreases rows@.len() - i,
    {
        let line = report_row_to_csv(&rows[i]);
        append_str(&mut out, "\n");
        append_str(&mut out, line.as_str());
        proof {
            assert(report_lines(rows@.take(i + 1)).drop_last() =~= report_lines(rows@.take(i as int)));
            assert(report_lines(rows@.take(i + 1)).len() >= 2);
        }
        i = i + 1;
    }
    append_str(&mut out, "\n");
    assert(rows@.take(rows@.len() as int) =~= rows@);
    out
}

} // verus!

//! The provider-neutral calendar event that the planner works on.
use crate::text::{clone_opt, clone_strings};
use vstd::prelude::*;

verus! {

#[derive(Debug, Clone, Copy, PartialEq, Eq, Structural)]
pub enum ProviderName {
    Google,
    Icloud,
}

impl ProviderName {
    pub open spec fn spec_name(self) -> Seq<char> {
        match self {
            ProviderName::Google => "google"@,
            ProviderName::Icloud => "icloud"@,
        }
    }

    /// The provider's lower-case name.
    pub fn to_string(&self) -> (r: String)
        ensures
            r@ == self.spec_name(),
    {
        match self {
            ProviderName::Google => String::from_str("google"),
            ProviderName::Icloud => String::from_str("icloud"),
        }
    }
}

#[derive(Debug, Clone, Copy, PartialEq, Eq, Structural)]
pub enum EventStatus {
    Confirmed,
    Tentative,
    Cancelled,
}

#[derive(Debug, Clone, Copy, PartialEq, Eq, Structural)]
pub enum EventVisibility {
    Default,
    Public,
    Private,
    Confidential,
}

/// A UTC instant: seconds since the Unix epoch and the nanoseconds within
/// that second, the two numbers by which chrono's `DateTime<Utc>` orders.
#[derive(Debug, Clone, Copy, PartialEq, Eq, Structural)]
pub struct Instant {
    pub seconds: i64,
    pub nanos: u32,
}

impl Instant {
    pub open spec fn later_than(self, other: Instant) -> bool {
        self.seconds > other.seconds || (self.seconds == other.seconds && self.nanos
            > other.nanos)
    }

    pub fn is_later_than(&self, other: &Instant) -> (r: bool)
        ensures
            r == self.later_than(*other),
    {
        self.seconds > other.seconds || (self.seconds == other.seconds && self.nanos
            > other.nanos)
    }
}

/// A calendar date (proleptic Gregorian year, month, day).
#[derive(Debug, Clone, Copy, PartialEq, Eq, Structural)]
pub struct CalendarDate {
    pub year: i32,
    pub month: u32,
    pub day: u32,
}

#[derive(Debug, Clone)]
pub enum EventDateTime {
    DateTime { value: Instant, timezone: Option<String> },
    Date { value: CalendarDate },
}

impl EventDateTime {
    pub fn duplicate(&self) -> (r: EventDateTime)
        ensures
            r == *self,
    {
        match self {
            EventDateTime::DateTime { value, timezone } => EventDateTime::DateTime {
                value: *value,
                timezone: clone_opt(timezone),
            },
            EventDateTime::Date { value } => EventDateTime::Date { value: *value },
        }
    }
}

#[derive(Debug, Clone)]
pub struct RecurrenceData {
    pub rrule: Option<String>,
    pub exdates: Vec<String>,
    pub recurrence_id: Option<String>,
    pub sequence: Option<i64>,
}

pub struct RecurrenceView {
    pub rrule: Option<String>,
    pub exdates: Seq<String>,
    pub recurrence_id: Option<String>,
    pub sequence: Option<i64>,
}

impl View for RecurrenceData {
    type V = RecurrenceView;

    open spec fn view(&self) -> RecurrenceView {
        RecurrenceView {
            rrule: self.rrule,
            exdates: self.exdates@,
            recurrence_id: self.recurrence_id,
            sequence: self.sequence,
        }
    }
}

impl RecurrenceData {
    pub fn duplicate(&self) -> (r: RecurrenceData)
        ensures
            r@ == self@,
    {
        RecurrenceData {
            rrule: clone_opt(&self.rrule),
            exdates: clone_strings(&self.exdates),
            recurrence_id: clone_opt(&self.recurrence_id),
            sequence: self.sequence,
        }
    }
}

impl Default for RecurrenceData {
    fn default() -> (r: Self)
        ensures
            r.rrule is None,
            r.exdates@.len() == 0,
            r.recurrence_id is None,
            r.sequence is None,
    {
        RecurrenceData { rrule: None, exdates: Vec::new(), recurrence_id: None, sequence: None }
    }
}

#[derive(Debug, Clone)]
pub struct EventAttendee {
    pub email: String,
    pub name: Option<String>,
    pub response_status: Option<String>,
    pub optional: bool,
}

impl EventAttendee {
    pub fn duplicate(&self) -> (r: EventAttendee)
        ensures
            r == *self,
    {
        EventAttendee {
            email: self.email.clone(),
            name: clone_opt(&self.name),
            response_status: clone_opt(&self.response_status),
            optional: self.optional,
        }
    }
}

#[derive(Debug, Clone)]
pub struct EventReminder {
    pub method: String,
    pub minutes_before_start: i64,
}

#[derive(Debug, Clone)]
pub struct ProviderEventMeta {
    pub provider: ProviderName,
    pub calendar_id: String,
    pub event_id: Option<String>,
    pub href: Option<String>,
    pub etag: Option<String>,
    pub ical_uid: Option<String>,
    pub updated_at: Option<Instant>,
    pub deleted: bool,
}

impl ProviderEventMeta {
    pub fn duplicate(&self) -> (r: ProviderEventMeta)
        ensures
            r == *self,
    {
        ProviderEventMeta {
            provider: self.provider,
            calendar_id: self.calendar_id.clone(),
            event_id: clone_opt(&self.event_id),
            href: clone_opt(&self.href),
            etag: clone_opt(&self.etag),
            ical_uid: clone_opt(&self.ical_uid),
            updated_at: self.updated_at,
            deleted: self.deleted,
        }
    }
}

/// An event as both providers are mapped to. `raw` holds the provider's
/// JSON payload, unchanged, as text.
#[derive(Debug, Clone)]
pub struct CanonicalEvent {
    pub canonical_uid: String,
    pub title: String,
    pub description: Option<String>,
    pub location: Option<String>,
    pub status: EventStatus,
    pub visibility: EventVisibility,
    pub start: EventDateTime,
    pub end: EventDateTime,
    pub recurrence: Option<RecurrenceData>,
    pub attendees: Vec<EventAttendee>,
    pub reminders: Vec<EventReminder>,
    pub provider_meta: ProviderEventMeta,
    pub raw: String,
}

pub struct EventView {
    pub canonical_uid: String,
    pub title: String,
    pub description: Option<String>,
    pub location: Option<String>,
    pub status: EventStatus,
    pub visibility: EventVisibility,
    pub start: EventDateTime,
    pub end: EventDateTime,
    pub recurrence: Option<RecurrenceView>,
    pub attendees: Seq<EventAttendee>,
    pub reminders: Seq<EventReminder>,
    pub provider_meta: ProviderEventMeta,
    pub raw: String,
}

pub open spec fn recurrence_view(r: Option<RecurrenceData>) -> Option<RecurrenceView> {
    match r {
        Some(d) => Some(d@),
        None => None,
    }
}

impl View for CanonicalEvent {
    type V = EventView;

    open spec fn view(&self) -> EventView {
        EventView {
            canonical_uid: self.canonical_uid,
            title: self.title,
            description: self.description,
            location: self.location,
            status: self.status,
            visibility: self.visibility,
            start: self.start,
            end: self.end,
            recurrence: recurrence_view(self.recurrence),
            attendees: self.attendees@,
            reminders: self.reminders@,
            provider_meta: self.provider_meta,
            raw: self.raw,
        }
    }
}

fn copy_attendees(v: &Vec<EventAttendee>) -> (r: Vec<EventAttendee>)
    ensures
        r@ == v@,
{
    let mut out: Vec<EventAttendee> = Vec::new();
    let mut i: usize = 0;
    while i < v.len()
        invariant
            i <= v@.len(),
            out@ == v@.subrange(0, i as int),
        decreases v@.len() - i,
    {
        out.push(v[i].duplicate());
        i = i + 1;
        assert(out@ =~= v@.subrange(0, i as int));
    }
    assert(out@ =~= v@);
    out
}

fn copy_reminders(v: &Vec<EventReminder>) -> (r: Vec<EventReminder>)
    ensures
        r@ == v@,
{
    let mut out: Vec<EventReminder> = Vec::new();
    let mut i: usize = 0;
    while i < v.len()
        invariant
            i <= v@.len(),
            out@ == v@.subrange(0, i as int),
        decreases v@.len() - i,
    {
        out.push(EventReminder {
            method: v[i].method.clone(),
            minutes_before_start: v[i].minutes_before_start,
        });
        i = i + 1;
        assert(out@ =~= v@.subrange(0, i as int));
    }
    assert(out@ =~= v@);
    out
}

impl CanonicalEvent {
    /// A copy with the same view.
    pub fn duplicate(&self) -> (r: CanonicalEvent)
        ensures
            r@ == self@,
    {
        let recurrence = match &self.recurrence {
            Some(d) => Some(d.duplicate()),
            None => None,
        };
        CanonicalEvent {
            canonical_uid: self.canonical_uid.clone(),
            title: self.title.clone(),
            description: clone_opt(&self.description),
            location: clone_opt(&self.location),
            status: self.status,
            visibility: self.visibility,
            start: self.start.duplicate(),
            end: self.end.duplicate(),
            recurrence,
            attendees: copy_attendees(&self.attendees),
            reminders: copy_reminders(&self.reminders),
            provider_meta: self.provider_meta.duplicate(),
            raw: self.raw.clone(),
        }
    }
}

} // verus!

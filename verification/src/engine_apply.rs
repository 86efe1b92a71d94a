//! Applying a plan: what each planned action asks of the providers and of
//! the store, and how the stored link is rebuilt after a provider write.
//! The shell performs each step and hands the provider's answer back.
use crate::config::SyncPairConfig;
use crate::engine::{EngineError, RunMode};
use crate::event::{CanonicalEvent, ProviderEventMeta, ProviderName};
use crate::event_hash::{event_hash, hash_canonical_event, hashable, is_hashable, opt_view};
use crate::planner::{ConflictResolution, EventLink, MutatingAction, PlannedAction};
use crate::providers::{ProviderError, ProviderSyncCursor};
use crate::store::{ActiveConflict, EventLinkUpsert};
use crate::text::{clone_opt, owned, str_eq};
use vstd::prelude::*;

verus! {

// ---------------------------------------------------------------- link values
/// A link upsert as plain values.
pub struct LinkView {
    pub sync_pair_id: Seq<char>,
    pub canonical_uid: Seq<char>,
    pub google_event_id: Option<Seq<char>>,
    pub google_ical_uid: Option<Seq<char>>,
    pub google_etag: Option<Seq<char>>,
    pub icloud_href: Option<Seq<char>>,
    pub icloud_uid: Option<Seq<char>>,
    pub icloud_etag: Option<Seq<char>>,
    pub google_hash: Option<Seq<char>>,
    pub icloud_hash: Option<Seq<char>>,
    pub last_synced_hash: Option<Seq<char>>,
    pub deleted_google_at: Option<Seq<char>>,
    pub deleted_icloud_at: Option<Seq<char>>,
}

pub open spec fn link_view(u: EventLinkUpsert) -> LinkView {
    LinkView {
        sync_pair_id: u.sync_pair_id@,
        canonical_uid: u.canonical_uid@,
        google_event_id: opt_view(u.google_event_id),
        google_ical_uid: opt_view(u.google_ical_uid),
        google_etag: opt_view(u.google_etag),
        icloud_href: opt_view(u.icloud_href),
        icloud_uid: opt_view(u.icloud_uid),
        icloud_etag: opt_view(u.icloud_etag),
        google_hash: opt_view(u.google_hash),
        icloud_hash: opt_view(u.icloud_hash),
        last_synced_hash: opt_view(u.last_synced_hash),
        deleted_google_at: opt_view(u.deleted_google_at),
        deleted_icloud_at: opt_view(u.deleted_icloud_at),
    }
}

/// What an existing link contributes where nothing newer is known.
pub open spec fn stored_view(e: Option<EventLink>) -> LinkView {
    match e {
        Some(l) => LinkView {
            sync_pair_id: l.sync_pair_id@,
            canonical_uid: l.canonical_uid@,
            google_event_id: opt_view(l.google_event_id),
            google_ical_uid: opt_view(l.google_ical_uid),
            google_etag: opt_view(l.google_etag),
            icloud_href: opt_view(l.icloud_href),
            icloud_uid: opt_view(l.icloud_uid),
            icloud_etag: opt_view(l.icloud_etag),
            google_hash: opt_view(l.google_hash),
            icloud_hash: opt_view(l.icloud_hash),
            last_synced_hash: opt_view(l.last_synced_hash),
            deleted_google_at: opt_view(l.deleted_google_at),
            deleted_icloud_at: opt_view(l.deleted_icloud_at),
        },
        None => LinkView {
            sync_pair_id: Seq::empty(),
            canonical_uid: Seq::empty(),
            google_event_id: None,
            google_ical_uid: None,
            google_etag: None,
            icloud_href: None,
            icloud_uid: None,
            icloud_etag: None,
            google_hash: None,
            icloud_hash: None,
            last_synced_hash: None,
            deleted_google_at: None,
            deleted_icloud_at: None,
        },
    }
}

pub open spec fn first_of(a: Option<Seq<char>>, b: Option<Seq<char>>) -> Option<Seq<char>> {
    if a is Some {
        a
    } else {
        b
    }
}

/// The metadata, when it comes from the named provider.
pub open spec fn meta_from(m: Option<ProviderEventMeta>, p: ProviderName) -> Option<ProviderEventMeta> {
    match m {
        Some(x) => if x.provider == p {
            Some(x)
        } else {
            None
        },
        None => None,
    }
}

pub open spec fn meta_event_id(m: Option<ProviderEventMeta>) -> Option<Seq<char>> {
    match m {
        Some(x) => opt_view(x.event_id),
        None => None,
    }
}

pub open spec fn meta_ical_uid(m: Option<ProviderEventMeta>) -> Option<Seq<char>> {
    match m {
        Some(x) => opt_view(x.ical_uid),
        None => None,
    }
}

pub open spec fn meta_etag(m: Option<ProviderEventMeta>) -> Option<Seq<char>> {
    match m {
        Some(x) => opt_view(x.etag),
        None => None,
    }
}

pub open spec fn meta_href(m: Option<ProviderEventMeta>) -> Option<Seq<char>> {
    match m {
        Some(x) => opt_view(x.href),
        None => None,
    }
}

/// The link to store: the provider metadata of the matching side first, the
/// existing link's values after; hashes given first, the stored ones after;
/// deletion stamps exactly as given.
pub open spec fn upsert_spec(
    pair_id: Seq<char>,
    uid: Seq<char>,
    existing: Option<EventLink>,
    google_meta: Option<ProviderEventMeta>,
    icloud_meta: Option<ProviderEventMeta>,
    google_hash: Option<Seq<char>>,
    icloud_hash: Option<Seq<char>>,
    last_synced_hash: Option<Seq<char>>,
    deleted_google_at: Option<Seq<char>>,
    deleted_icloud_at: Option<Seq<char>>,
) -> LinkView {
    let s = stored_view(existing);
    let g = meta_from(google_meta, ProviderName::Google);
    let i = meta_from(icloud_meta, ProviderName::Icloud);
    LinkView {
        sync_pair_id: pair_id,
        canonical_uid: uid,
        google_event_id: first_of(meta_event_id(g), s.google_event_id),
        google_ical_uid: first_of(meta_ical_uid(g), s.google_ical_uid),
        google_etag: first_of(meta_etag(g), s.google_etag),
        icloud_href: first_of(meta_href(i), s.icloud_href),
        icloud_uid: first_of(meta_ical_uid(i), s.icloud_uid),
        icloud_etag: first_of(meta_etag(i), s.icloud_etag),
        google_hash: first_of(google_hash, s.google_hash),
        icloud_hash: first_of(icloud_hash, s.icloud_hash),
        last_synced_hash: first_of(last_synced_hash, s.last_synced_hash),
        deleted_google_at,
        deleted_icloud_at,
    }
}

pub open spec fn unref<T>(o: Option<&T>) -> Option<T> {
    match o {
        Some(x) => Some(*x),
        None => None,
    }
}

fn pick(primary: Option<String>, fallback: Option<&String>) -> (r: Option<String>)
    ensures
        opt_view(r) == first_of(opt_view(primary), opt_view(unref(fallback))),
{
    match primary {
        Some(p) => Some(p),
        None => match fallback {
            Some(f) => Some(f.clone()),
            None => None,
        },
    }
}

/// The link to store for an action, from what the providers last reported
/// and what is already stored.
pub fn event_link_upsert(
    pair_id: &str,
    canonical_uid: &str,
    existing: Option<&EventLink>,
    google_meta: Option<&ProviderEventMeta>,
    icloud_meta: Option<&ProviderEventMeta>,
    google_hash: Option<String>,
    icloud_hash: Option<String>,
    last_synced_hash: Option<String>,
    deleted_google_at: Option<String>,
    deleted_icloud_at: Option<String>,
) -> (r: EventLinkUpsert)
    ensures
        link_view(r) == upsert_spec(
            pair_id@,
            canonical_uid@,
            unref(existing),
            unref(google_meta),
            unref(icloud_meta),
            opt_view(google_hash),
            opt_view(icloud_hash),
            opt_view(last_synced_hash),
            opt_view(deleted_google_at),
            opt_view(deleted_icloud_at),
        ),
{
    let (gid, guid, getag) = match google_meta {
        Some(m) => if m.provider == ProviderName::Google {
            (clone_opt(&m.event_id), clone_opt(&m.ical_uid), clone_opt(&m.etag))
        } else {
            (None, None, None)
        },
        None => (None, None, None),
    };
    let (href, iuid, ietag) = match icloud_meta {
        Some(m) => if m.provider == ProviderName::Icloud {
            (clone_opt(&m.href), clone_opt(&m.ical_uid), clone_opt(&m.etag))
        } else {
            (None, None, None)
        },
        None => (None, None, None),
    };
    let r = match existing {
        Some(l) => EventLinkUpsert {
            sync_pair_id: owned(pair_id),
            canonical_uid: owned(canonical_uid),
            google_event_id: pick(gid, l.google_event_id.as_ref()),
            google_ical_uid: pick(guid, l.google_ical_uid.as_ref()),
            google_etag: pick(getag, l.google_etag.as_ref()),
            icloud_href: pick(href, l.icloud_href.as_ref()),
            icloud_uid: pick(iuid, l.icloud_uid.as_ref()),
            icloud_etag: pick(ietag, l.icloud_etag.as_ref()),
            google_hash: pick(google_hash, l.google_hash.as_ref()),
            icloud_hash: pick(icloud_hash, l.icloud_hash.as_ref()),
            last_synced_hash: pick(last_synced_hash, l.last_synced_hash.as_ref()),
            deleted_google_at,
            deleted_icloud_at,
        },
        None => EventLinkUpsert {
            sync_pair_id: owned(pair_id),
            canonical_uid: owned(canonical_uid),
            google_event_id: gid,
            google_ical_uid: guid,
            google_etag: getag,
            icloud_href: href,
            icloud_uid: iuid,
            icloud_etag: ietag,
            google_hash,
            icloud_hash,
            last_synced_hash,
            deleted_google_at,
            deleted_icloud_at,
        },
    };
    r
}

/// The hash both sides agree on: both equal, or only one known.
pub open spec fn synced_hash_spec(g: Option<Seq<char>>, i: Option<Seq<char>>) -> Option<Seq<char>> {
    match (g, i) {
        (Some(a), Some(b)) => if a == b {
            Some(a)
        } else {
            None
        },
        (Some(a), None) => Some(a),
        (None, Some(b)) => Some(b),
        (None, None) => None,
    }
}

pub fn synced_hash(google_hash: Option<&str>, icloud_hash: Option<&str>) -> (r: Option<String>)
    ensures
        opt_view(r) == synced_hash_spec(
            match google_hash {
                Some(s) => Some(s@),
                None => None,
            },
            match icloud_hash {
                Some(s) => Some(s@),
                None => None,
            },
        ),
{
    match (google_hash, icloud_hash) {
        (Some(g), Some(i)) => if str_eq(g, i) {
            Some(owned(g))
        } else {
            None
        },
        (Some(g), None) => Some(owned(g)),
        (None, Some(i)) => Some(owned(i)),
        (None, None) => None,
    }
}

fn opt_str(o: &Option<String>) -> (r: Option<&str>)
    ensures
        match r {
            Some(s) => *o matches Some(x) && s@ == x@,
            None => *o is None,
        },
{
    match o {
        Some(s) => Some(s.as_str()),
        None => None,
    }
}

fn event_meta(e: &Option<Box<CanonicalEvent>>) -> (r: Option<&ProviderEventMeta>)
    ensures
        unref(r) == side_meta(*e),
{
    match e {
        Some(b) => Some(&b.provider_meta),
        None => None,
    }
}

pub open spec fn side_meta(e: Option<Box<CanonicalEvent>>) -> Option<ProviderEventMeta> {
    match e {
        Some(b) => Some(b.provider_meta),
        None => None,
    }
}

pub open spec fn side_hash(e: Option<Box<CanonicalEvent>>) -> Option<Seq<char>> {
    match e {
        Some(b) => Some(event_hash(b@)),
        None => None,
    }
}

pub open spec fn side_hashable(e: Option<Box<CanonicalEvent>>) -> bool {
    match e {
        Some(b) => hashable(b@),
        None => true,
    }
}

fn hash_side(e: &Option<Box<CanonicalEvent>>) -> (r: Option<String>)
    requires
        side_hashable(*e),
    ensures
        opt_view(r) == side_hash(*e),
{
    match e {
        Some(b) => Some(hash_canonical_event(b)),
        None => None,
    }
}

fn or_hash(given: &Option<String>, e: &Option<Box<CanonicalEvent>>) -> (r: Option<String>)
    requires
        given is None ==> side_hashable(*e),
    ensures
        opt_view(r) == first_of(opt_view(*given), side_hash(*e)),
{
    match given {
        Some(h) => Some(h.clone()),
        None => hash_side(e),
    }
}

// ---------------------------------------------------------------- after provider writes
/// The link after the Google side was written: Google's new metadata, the
/// written event's hash for Google, for the sync point, and for iCloud when
/// iCloud had none.
pub fn link_after_google_write(pair_id: &str, action: &MutatingAction, meta: ProviderEventMeta) -> (r:
    EventLinkUpsert)
    requires
        hashable(action.event@),
    ensures
        link_view(r) == upsert_spec(
            pair_id@,
            action.canonical_uid@,
            action.link,
            Some(meta),
            side_meta(action.icloud),
            Some(event_hash(action.event@)),
            first_of(opt_view(action.icloud_hash), Some(event_hash(action.event@))),
            Some(event_hash(action.event@)),
            None,
            None,
        ),
{
    let h = hash_canonical_event(&action.event);
    let ih = match &action.icloud_hash {
        Some(x) => x.clone(),
        None => h.clone(),
    };
    event_link_upsert(
        pair_id,
        action.canonical_uid.as_str(),
        action.link.as_ref(),
        Some(&meta),
        event_meta(&action.icloud),
        Some(h.clone()),
        Some(ih),
        Some(h),
        None,
        None,
    )
}

/// The link after the iCloud side was written.
pub fn link_after_icloud_write(pair_id: &str, action: &MutatingAction, meta: ProviderEventMeta) -> (r:
    EventLinkUpsert)
    requires
        hashable(action.event@),
    ensures
        link_view(r) == upsert_spec(
            pair_id@,
            action.canonical_uid@,
            action.link,
            side_meta(action.google),
            Some(meta),
            first_of(opt_view(action.google_hash), Some(event_hash(action.event@))),
            Some(event_hash(action.event@)),
            Some(event_hash(action.event@)),
            None,
            None,
        ),
{
    let h = hash_canonical_event(&action.event);
    let gh = match &action.google_hash {
        Some(x) => x.clone(),
        None => h.clone(),
    };
    event_link_upsert(
        pair_id,
        action.canonical_uid.as_str(),
        action.link.as_ref(),
        event_meta(&action.google),
        Some(&meta),
        Some(gh),
        Some(h.clone()),
        Some(h),
        None,
        None,
    )
}

/// The link after one side's event was deleted at `now`.
pub fn link_after_delete(pair_id: &str, action: &MutatingAction, google_side: bool, now: String) -> (r:
    EventLinkUpsert)
    ensures
        link_view(r) == upsert_spec(
            pair_id@,
            action.canonical_uid@,
            action.link,
            side_meta(action.google),
            side_meta(action.icloud),
            opt_view(action.google_hash),
            opt_view(action.icloud_hash),
            None,
            if google_side {
                Some(now@)
            } else {
                None
            },
            if google_side {
                None
            } else {
                Some(now@)
            },
        ),
{
    let (dg, di) = if google_side {
        (Some(now), None)
    } else {
        (None, Some(now))
    };
    event_link_upsert(
        pair_id,
        action.canonical_uid.as_str(),
        action.link.as_ref(),
        event_meta(&action.google),
        event_meta(&action.icloud),
        clone_opt(&action.google_hash),
        clone_opt(&action.icloud_hash),
        None,
        dg,
        di,
    )
}

// ---------------------------------------------------------------- remote ids
pub open spec fn link_google_event_id(l: Option<EventLink>) -> Option<Seq<char>> {
    stored_view(l).google_event_id
}

pub open spec fn link_icloud_href(l: Option<EventLink>) -> Option<Seq<char>> {
    stored_view(l).icloud_href
}

/// Google's id for the event: the link's, else the one the Google copy
/// carries.
pub open spec fn google_remote_id(a: MutatingAction) -> Option<Seq<char>> {
    first_of(link_google_event_id(a.link), meta_event_id(side_meta(a.google)))
}

pub open spec fn icloud_remote_id(a: MutatingAction) -> Option<Seq<char>> {
    first_of(link_icloud_href(a.link), meta_href(side_meta(a.icloud)))
}

pub open spec fn missing_metadata(e: EngineError, action: Seq<char>, uid: Seq<char>, field: Seq<char>) -> bool {
    e matches EngineError::MissingApplyMetadata { action: a, canonical_uid: u, field: f } && a@ == action
        && u@ == uid && f@ == field
}

pub fn google_remote_event_id(action: &MutatingAction, action_name: &str) -> (r: Result<String, EngineError>)
    ensures
        match r {
            Ok(id) => google_remote_id(*action) == Some(id@),
            Err(e) => google_remote_id(*action) is None && missing_metadata(
                e,
                action_name@,
                action.canonical_uid@,
                "google_event_id"@,
            ),
        },
{
    match &action.link {
        Some(l) => match &l.google_event_id {
            Some(id) => return Ok(id.clone()),
            None => {},
        },
        None => {},
    }
    match &action.google {
        Some(g) => match &g.provider_meta.event_id {
            Some(id) => return Ok(id.clone()),
            None => {},
        },
        None => {},
    }
    Err(
        EngineError::MissingApplyMetadata {
            action: owned(action_name),
            canonical_uid: action.canonical_uid.clone(),
            field: owned("google_event_id"),
        },
    )
}

pub fn icloud_remote_event_id(action: &MutatingAction, action_name: &str) -> (r: Result<String, EngineError>)
    ensures
        match r {
            Ok(id) => icloud_remote_id(*action) == Some(id@),
            Err(e) => icloud_remote_id(*action) is None && missing_metadata(
                e,
                action_name@,
                action.canonical_uid@,
                "icloud_href"@,
            ),
        },
{
    match &action.link {
        Some(l) => match &l.icloud_href {
            Some(id) => return Ok(id.clone()),
            None => {},
        },
        None => {},
    }
    match &action.icloud {
        Some(i) => match &i.provider_meta.href {
            Some(id) => return Ok(id.clone()),
            None => {},
        },
        None => {},
    }
    Err(
        EngineError::MissingApplyMetadata {
            action: owned(action_name),
            canonical_uid: action.canonical_uid.clone(),
            field: owned("icloud_href"),
        },
    )
}

// ---------------------------------------------------------------- steps
/// What one planned action asks for.
#[derive(Debug)]
pub enum ApplyStep {
    /// Store this link; nothing is written to a provider.
    RecordLink(EventLinkUpsert),
    /// Nothing to do.
    Skip,
    /// Create the action's event in the calendar, then store
    /// `link_after_google_write` or `link_after_icloud_write` of the reply.
    Create { provider: ProviderName, calendar_id: String },
    /// Update the remote event, sending the stored etag, then store the link
    /// as after a create.
    Update { provider: ProviderName, calendar_id: String, remote_event_id: String, etag: Option<String> },
    /// Delete the remote event, then store `link_after_delete`.
    Delete { provider: ProviderName, calendar_id: String, remote_event_id: String, etag: Option<String> },
    /// Record a conflict for manual review, with the link's id and both
    /// sides' events as snapshots.
    RecordConflict { event_link_id: Option<String> },
}

pub enum StepView {
    RecordLink(LinkView),
    Skip,
    Create { provider: ProviderName, calendar_id: Seq<char> },
    Update { provider: ProviderName, calendar_id: Seq<char>, remote_event_id: Seq<char>, etag: Option<Seq<char>> },
    Delete { provider: ProviderName, calendar_id: Seq<char>, remote_event_id: Seq<char>, etag: Option<Seq<char>> },
    RecordConflict { event_link_id: Option<Seq<char>> },
}

pub open spec fn step_view(s: ApplyStep) -> StepView {
    match s {
        ApplyStep::RecordLink(u) => StepView::RecordLink(link_view(u)),
        ApplyStep::Skip => StepView::Skip,
        ApplyStep::Create { provider, calendar_id } => StepView::Create { provider, calendar_id: calendar_id@ },
        ApplyStep::Update { provider, calendar_id, remote_event_id, etag } => StepView::Update {
            provider,
            calendar_id: calendar_id@,
            remote_event_id: remote_event_id@,
            etag: opt_view(etag),
        },
        ApplyStep::Delete { provider, calendar_id, remote_event_id, etag } => StepView::Delete {
            provider,
            calendar_id: calendar_id@,
            remote_event_id: remote_event_id@,
            etag: opt_view(etag),
        },
        ApplyStep::RecordConflict { event_link_id } => StepView::RecordConflict { event_link_id: opt_view(event_link_id) },
    }
}

/// An action can be applied without a panic: a snapshot's events can be
/// hashed where no hash was given.
pub open spec fn applicable(a: PlannedAction) -> bool {
    match a {
        PlannedAction::Snapshot { google, icloud, google_hash, icloud_hash, .. } => (google_hash is None
            ==> side_hashable(google)) && (icloud_hash is None ==> side_hashable(icloud)),
        _ => true,
    }
}

/// The step for a remote write that needs the remote id.
pub open spec fn remote_step(
    delete: bool,
    provider: ProviderName,
    calendar_id: Seq<char>,
    id: Option<Seq<char>>,
    etag: Option<Seq<char>>,
) -> Option<StepView> {
    match id {
        Some(rid) => Some(
            if delete {
                StepView::Delete { provider, calendar_id, remote_event_id: rid, etag }
            } else {
                StepView::Update { provider, calendar_id, remote_event_id: rid, etag }
            },
        ),
        None => None,
    }
}

fn side_is_hashable(e: &Option<Box<CanonicalEvent>>) -> (r: bool)
    ensures
        r == side_hashable(*e),
{
    match e {
        Some(b) => is_hashable(b),
        None => true,
    }
}

/// Whether an action can be applied (`applicable`).
pub fn is_applicable(action: &PlannedAction) -> (r: bool)
    ensures
        r == applicable(*action),
{
    match action {
        PlannedAction::Snapshot { google, icloud, google_hash, icloud_hash, .. } => (google_hash.is_some()
            || side_is_hashable(google)) && (icloud_hash.is_some() || side_is_hashable(icloud)),
        _ => true,
    }
}

/// The step of each action; `None` where the remote id is missing.
pub open spec fn planned_step(pair: SyncPairConfig, a: PlannedAction) -> Option<StepView> {
    match a {
        PlannedAction::Snapshot { canonical_uid, link, google, icloud, google_hash, icloud_hash, .. } => Some(
            StepView::RecordLink(
                upsert_spec(
                    pair.id@,
                    canonical_uid@,
                    link,
                    side_meta(google),
                    side_meta(icloud),
                    first_of(opt_view(google_hash), side_hash(google)),
                    first_of(opt_view(icloud_hash), side_hash(icloud)),
                    synced_hash_spec(opt_view(google_hash), opt_view(icloud_hash)),
                    None,
                    None,
                ),
            ),
        ),
        PlannedAction::Noop { .. } => Some(StepView::Skip),
        PlannedAction::CreateGoogle(_) => Some(
            StepView::Create { provider: ProviderName::Google, calendar_id: pair.google_calendar_id@ },
        ),
        PlannedAction::CreateIcloud(_) => Some(
            StepView::Create { provider: ProviderName::Icloud, calendar_id: pair.icloud_calendar_id@ },
        ),
        PlannedAction::UpdateGoogle(m) => remote_step(
            false,
            ProviderName::Google,
            pair.google_calendar_id@,
            google_remote_id(m),
            stored_view(m.link).google_etag,
        ),
        PlannedAction::UpdateIcloud(m) => remote_step(
            false,
            ProviderName::Icloud,
            pair.icloud_calendar_id@,
            icloud_remote_id(m),
            stored_view(m.link).icloud_etag,
        ),
        PlannedAction::DeleteGoogle(m) => remote_step(
            true,
            ProviderName::Google,
            pair.google_calendar_id@,
            google_remote_id(m),
            stored_view(m.link).google_etag,
        ),
        PlannedAction::DeleteIcloud(m) => remote_step(
            true,
            ProviderName::Icloud,
            pair.icloud_calendar_id@,
            icloud_remote_id(m),
            stored_view(m.link).icloud_etag,
        ),
        PlannedAction::Conflict { resolution, link, .. } => Some(
            if resolution == ConflictResolution::Manual {
                StepView::RecordConflict {
                    event_link_id: match link {
                        Some(l) => Some(l.id@),
                        None => None,
                    },
                }
            } else {
                StepView::Skip
            },
        ),
    }
}

/// The name and field reported when an action's remote id is missing.
pub open spec fn missing_field(a: PlannedAction) -> (Seq<char>, Seq<char>) {
    match a {
        PlannedAction::UpdateGoogle(_) => ("update_google"@, "google_event_id"@),
        PlannedAction::DeleteGoogle(_) => ("delete_google"@, "google_event_id"@),
        PlannedAction::UpdateIcloud(_) => ("update_icloud"@, "icloud_href"@),
        _ => ("delete_icloud"@, "icloud_href"@),
    }
}

pub open spec fn action_uid_of(a: PlannedAction) -> Seq<char> {
    match a {
        PlannedAction::Snapshot { canonical_uid, .. } => canonical_uid@,
        PlannedAction::Noop { canonical_uid, .. } => canonical_uid@,
        PlannedAction::Conflict { canonical_uid, .. } => canonical_uid@,
        PlannedAction::CreateGoogle(m) | PlannedAction::CreateIcloud(m) | PlannedAction::UpdateGoogle(m)
        | PlannedAction::UpdateIcloud(m) | PlannedAction::DeleteGoogle(m) | PlannedAction::DeleteIcloud(
            m,
        ) => m.canonical_uid@,
    }
}

fn link_etag(link: &Option<EventLink>, google: bool) -> (r: Option<String>)
    ensures
        opt_view(r) == (if google {
            stored_view(*link).google_etag
        } else {
            stored_view(*link).icloud_etag
        }),
{
    match link {
        Some(l) => if google {
            clone_opt(&l.google_etag)
        } else {
            clone_opt(&l.icloud_etag)
        },
        None => None,
    }
}

/// The pair's calendar on a provider.
pub open spec fn pair_calendar(pair: SyncPairConfig, provider: ProviderName) -> Seq<char> {
    match provider {
        ProviderName::Google => pair.google_calendar_id@,
        ProviderName::Icloud => pair.icloud_calendar_id@,
    }
}

/// The step for one planned action of a pair: an error where an update or
/// delete has no remote id to address.
pub fn apply_step(pair: &SyncPairConfig, action: &PlannedAction) -> (r: Result<ApplyStep, EngineError>)
    requires
        applicable(*action),
    ensures
        match r {
            Ok(ApplyStep::Create { provider, calendar_id }) => calendar_id@ == pair_calendar(*pair, provider),
            Ok(ApplyStep::Update { provider, calendar_id, .. }) => calendar_id@ == pair_calendar(*pair, provider),
            Ok(ApplyStep::Delete { provider, calendar_id, .. }) => calendar_id@ == pair_calendar(*pair, provider),
            _ => true,
        },
        match r {
            Ok(s) => planned_step(*pair, *action) == Some(step_view(s)),
            Err(e) => planned_step(*pair, *action) is None && missing_metadata(
                e,
                missing_field(*action).0,
                action_uid_of(*action),
                missing_field(*action).1,
            ),
        },
{
    match action {
        PlannedAction::Snapshot { canonical_uid, link, google, icloud, google_hash, icloud_hash, .. } => {
            let gh = or_hash(google_hash, google);
            let ih = or_hash(icloud_hash, icloud);
            let gs = opt_str(google_hash);
            let is = opt_str(icloud_hash);
            let synced = synced_hash(gs, is);
            let u = event_link_upsert(
                pair.id.as_str(),
                canonical_uid.as_str(),
                link.as_ref(),
                event_meta(google),
                event_meta(icloud),
                gh,
                ih,
                synced,
                None,
                None,
            );
            Ok(ApplyStep::RecordLink(u))
        },
        PlannedAction::Noop { .. } => Ok(ApplyStep::Skip),
        PlannedAction::CreateGoogle(_) => Ok(
            ApplyStep::Create { provider: ProviderName::Google, calendar_id: pair.google_calendar_id.clone() },
        ),
        PlannedAction::CreateIcloud(_) => Ok(
            ApplyStep::Create { provider: ProviderName::Icloud, calendar_id: pair.icloud_calendar_id.clone() },
        ),
        PlannedAction::UpdateGoogle(m) => {
            let id = google_remote_event_id(m, "update_google")?;
            Ok(
                ApplyStep::Update {
                    provider: ProviderName::Google,
                    calendar_id: pair.google_calendar_id.clone(),
                    remote_event_id: id,
                    etag: link_etag(&m.link, true),
                },
            )
        },
        PlannedAction::UpdateIcloud(m) => {
            let id = icloud_remote_event_id(m, "update_icloud")?;
            Ok(
                ApplyStep::Update {
                    provider: ProviderName::Icloud,
                    calendar_id: pair.icloud_calendar_id.clone(),
                    remote_event_id: id,
                    etag: link_etag(&m.link, false),
                },
            )
        },
        PlannedAction::DeleteGoogle(m) => {
            let id = google_remote_event_id(m, "delete_google")?;
            Ok(
                ApplyStep::Delete {
                    provider: ProviderName::Google,
                    calendar_id: pair.google_calendar_id.clone(),
                    remote_event_id: id,
                    etag: link_etag(&m.link, true),
                },
            )
        },
        PlannedAction::DeleteIcloud(m) => {
            let id = icloud_remote_event_id(m, "delete_icloud")?;
            Ok(
                ApplyStep::Delete {
                    provider: ProviderName::Icloud,
                    calendar_id: pair.icloud_calendar_id.clone(),
                    remote_event_id: id,
                    etag: link_etag(&m.link, false),
                },
            )
        },
        PlannedAction::Conflict { resolution, link, .. } => {
            if *resolution == ConflictResolution::Manual {
                let id = match link {
                    Some(l) => Some(l.id.clone()),
                    None => None,
                };
                Ok(ApplyStep::RecordConflict { event_link_id: id })
            } else {
                Ok(ApplyStep::Skip)
            }
        },
    }
}

/// Whether a pass records itself as a sync run in the store: only an apply
/// run does; a dry run leaves the run history as it was.
pub fn records_sync_run(mode: RunMode) -> (r: bool)
    ensures
        r == (mode == RunMode::Apply),
{
    match mode {
        RunMode::Apply => true,
        RunMode::DryRun => false,
    }
}

/// What one pair's pass writes, decided from the run mode and the plan: the
/// steps to carry out, in the order of the actions; the error that stops the
/// pass after them, if any; and whether the pass then resolves the pair's
/// stale conflicts and stores the providers' new sync tokens.
pub struct PairWrites {
    pub steps: Vec<ApplyStep>,
    pub failure: Option<EngineError>,
    pub resolve_stale: bool,
    pub advance_sync_tokens: bool,
}

/// A pair's writes: a dry run writes nothing, neither to the providers nor
/// to the store. An apply run takes the step of each action in order up to
/// the first action that cannot be addressed, whose error ends the pass; a
/// pass that got through every action then resolves stale conflicts and
/// stores the new sync tokens.
pub fn pair_writes(mode: RunMode, pair: &SyncPairConfig, actions: &[PlannedAction]) -> (r: PairWrites)
    requires
        mode == RunMode::Apply ==> forall|i: int| 0 <= i < actions@.len() ==> applicable(#[trigger] actions@[i]),
    ensures
        mode == RunMode::DryRun ==> {
            &&& r.steps@.len() == 0
            &&& r.failure is None
            &&& !r.resolve_stale
            &&& !r.advance_sync_tokens
        },
        mode == RunMode::Apply ==> {
            &&& r.steps@.len() <= actions@.len()
            &&& forall|i: int|
                0 <= i < r.steps@.len() ==> planned_step(*pair, actions@[i]) == Some(
                    step_view(#[trigger] r.steps@[i]),
                )
            &&& match r.failure {
                None => r.steps@.len() == actions@.len(),
                Some(e) => {
                    let a = actions@[r.steps@.len() as int];
                    &&& r.steps@.len() < actions@.len()
                    &&& planned_step(*pair, a) is None
                    &&& missing_metadata(e, missing_field(a).0, action_uid_of(a), missing_field(a).1)
                },
            }
            &&& r.resolve_stale == (r.failure is None)
            &&& r.advance_sync_tokens == (r.failure is None)
        },
{
    let mut steps: Vec<ApplyStep> = Vec::new();
    match mode {
        RunMode::DryRun => {
            return PairWrites { steps, failure: None, resolve_stale: false, advance_sync_tokens: false };
        },
        RunMode::Apply => {},
    }
    let mut i: usize = 0;
    while i < actions.len()
        invariant
            mode == RunMode::Apply,
            i <= actions@.len(),
            steps@.len() == i,
            forall|j: int| 0 <= j < actions@.len() ==> applicable(#[trigger] actions@[j]),
            forall|j: int|
                0 <= j < steps@.len() ==> planned_step(*pair, actions@[j]) == Some(step_view(#[trigger] steps@[j])),
        decreases actions@.len() - i,
    {
        match apply_step(pair, &actions[i]) {
            Ok(step) => steps.push(step),
            Err(e) => {
                return PairWrites { steps, failure: Some(e), resolve_stale: false, advance_sync_tokens: false };
            },
        }
        i = i + 1;
    }
    PairWrites { steps, failure: None, resolve_stale: true, advance_sync_tokens: true }
}

// ---------------------------------------------------------------- conflicts and tokens
/// The conflicts the plan keeps open: its manual conflicts, by uid and
/// reason, in order.
pub open spec fn manual_conflicts(actions: Seq<PlannedAction>) -> Seq<(Seq<char>, Seq<char>)>
    decreases actions.len(),
{
    if actions.len() == 0 {
        Seq::empty()
    } else {
        match actions.last() {
            PlannedAction::Conflict { canonical_uid, reason, resolution: ConflictResolution::Manual, .. } =>
                manual_conflicts(actions.drop_last()).push((canonical_uid@, reason@)),
            _ => manual_conflicts(actions.drop_last()),
        }
    }
}

pub fn active_manual_conflicts(actions: &[PlannedAction]) -> (r: Vec<ActiveConflict>)
    ensures
        r@.map_values(|c: ActiveConflict| (c.canonical_uid@, c.reason@)) == manual_conflicts(actions@),
{
    let mut out: Vec<ActiveConflict> = Vec::new();
    let mut i: usize = 0;
    while i < actions.len()
        invariant
            i <= actions@.len(),
            out@.map_values(|c: ActiveConflict| (c.canonical_uid@, c.reason@)) == manual_conflicts(
                actions@.take(i as int),
            ),
        decreases actions@.len() - i,
    {
        proof {
            assert(actions@.take(i + 1).drop_last() =~= actions@.take(i as int));
        }
        match &actions[i] {
            PlannedAction::Conflict { canonical_uid, reason, resolution, .. } => {
                if *resolution == ConflictResolution::Manual {
                    let ghost before = out@;
                    let c = ActiveConflict { canonical_uid: canonical_uid.clone(), reason: reason.clone() };
                    out.push(c);
                    assert(out@.map_values(|c: ActiveConflict| (c.canonical_uid@, c.reason@)) =~= before.map_values(
                        |c: ActiveConflict| (c.canonical_uid@, c.reason@),
                    ).push((canonical_uid@, reason@)));
                }
            },
            _ => {},
        }
        i = i + 1;
    }
    assert(actions@.take(actions@.len() as int) =~= actions@);
    out
}

/// The cursor of a first read: incremental from the stored token, or a
/// full read where there is none.
pub fn first_cursor(sync_token: Option<String>) -> (r: ProviderSyncCursor)
    ensures
        r.full_sync == sync_token is None,
        r.sync_token == sync_token,
{
    let full = sync_token.is_none();
    ProviderSyncCursor { full_sync: full, sync_token }
}

/// The cursor of a full read.
pub fn full_sync_cursor() -> (r: ProviderSyncCursor)
    ensures
        r.full_sync,
        r.sync_token is None,
{
    ProviderSyncCursor { full_sync: true, sync_token: None }
}

/// After a failed first read: an expired token that was sent is cleared and
/// the read is retried in full; any other failure stands.
pub fn retry_with_full_sync(error: &ProviderError, sent_token: bool) -> (r: bool)
    ensures
        r == (*error is SyncTokenExpired && sent_token),
{
    match error {
        ProviderError::SyncTokenExpired(_) => sent_token,
        _ => false,
    }
}

} // verus!

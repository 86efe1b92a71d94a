//! The sync planner: for every event UID seen on either provider or in the
//! link table, one action that brings the two calendars together, or records
//! why it does not.
use crate::event::{CanonicalEvent, EventView, ProviderName};
use crate::event_hash::{event_hash, hash_canonical_event, hashable, is_hashable, opt_view};
use crate::policy::{ConflictPolicy, DeleteConflictPolicy, SyncDirection, UidCollisionPolicy};
use crate::text::{clone_opt, str_eq};
use vstd::prelude::*;

verus! {

// ---------------------------------------------------------------- types
/// What the database remembers about one synced event.
#[derive(Debug, Clone)]
pub struct EventLink {
    pub id: String,
    pub sync_pair_id: String,
    pub canonical_uid: String,
    pub google_event_id: Option<String>,
    pub google_ical_uid: Option<String>,
    pub google_etag: Option<String>,
    pub icloud_href: Option<String>,
    pub icloud_uid: Option<String>,
    pub icloud_etag: Option<String>,
    pub google_hash: Option<String>,
    pub icloud_hash: Option<String>,
    pub last_synced_hash: Option<String>,
    pub deleted_google_at: Option<String>,
    pub deleted_icloud_at: Option<String>,
}

impl EventLink {
    pub fn duplicate(&self) -> (r: EventLink)
        ensures
            r == *self,
    {
        EventLink {
            id: self.id.clone(),
            sync_pair_id: self.sync_pair_id.clone(),
            canonical_uid: self.canonical_uid.clone(),
            google_event_id: clone_opt(&self.google_event_id),
            google_ical_uid: clone_opt(&self.google_ical_uid),
            google_etag: clone_opt(&self.google_etag),
            icloud_href: clone_opt(&self.icloud_href),
            icloud_uid: clone_opt(&self.icloud_uid),
            icloud_etag: clone_opt(&self.icloud_etag),
            google_hash: clone_opt(&self.google_hash),
            icloud_hash: clone_opt(&self.icloud_hash),
            last_synced_hash: clone_opt(&self.last_synced_hash),
            deleted_google_at: clone_opt(&self.deleted_google_at),
            deleted_icloud_at: clone_opt(&self.deleted_icloud_at),
        }
    }
}

impl Default for EventLink {
    fn default() -> (r: Self)
        ensures
            r.id@.len() == 0,
            r.sync_pair_id@.len() == 0,
            r.canonical_uid@.len() == 0,
            r.google_event_id is None,
            r.google_ical_uid is None,
            r.google_etag is None,
            r.icloud_href is None,
            r.icloud_uid is None,
            r.icloud_etag is None,
            r.google_hash is None,
            r.icloud_hash is None,
            r.last_synced_hash is None,
            r.deleted_google_at is None,
            r.deleted_icloud_at is None,
    {
        EventLink {
            id: String::new(),
            sync_pair_id: String::new(),
            canonical_uid: String::new(),
            google_event_id: None,
            google_ical_uid: None,
            google_etag: None,
            icloud_href: None,
            icloud_uid: None,
            icloud_etag: None,
            google_hash: None,
            icloud_hash: None,
            last_synced_hash: None,
            deleted_google_at: None,
            deleted_icloud_at: None,
        }
    }
}

/// The conflict policies the planner applies.
#[derive(Debug, Clone, Copy, PartialEq, Eq, Structural)]
pub struct PlannerConflictPolicies {
    pub both_sides_changed: ConflictPolicy,
    pub unlinked_same_uid: ConflictPolicy,
    pub delete_vs_update: DeleteConflictPolicy,
    pub icloud_uid_collision: UidCollisionPolicy,
}

impl Default for PlannerConflictPolicies {
    fn default() -> (r: Self)
        ensures
            r == (PlannerConflictPolicies {
                both_sides_changed: ConflictPolicy::Manual,
                unlinked_same_uid: ConflictPolicy::Manual,
                delete_vs_update: DeleteConflictPolicy::UpdateWins,
                icloud_uid_collision: UidCollisionPolicy::IgnoreKnown,
            }),
    {
        PlannerConflictPolicies {
            both_sides_changed: ConflictPolicy::Manual,
            unlinked_same_uid: ConflictPolicy::Manual,
            delete_vs_update: DeleteConflictPolicy::UpdateWins,
            icloud_uid_collision: UidCollisionPolicy::IgnoreKnown,
        }
    }
}

/// Why a write settled a conflict by itself, and under which policy.
#[derive(Debug, Clone)]
pub struct AutoResolution {
    pub reason: String,
    pub policy: String,
}

#[derive(Debug, Clone, Copy, PartialEq, Eq, Structural)]
pub enum ConflictResolution {
    Manual,
    Ignored,
}

/// A planned provider write with the state it was planned from.
#[derive(Debug, Clone)]
pub struct MutatingAction {
    pub canonical_uid: String,
    pub event: Box<CanonicalEvent>,
    pub link: Option<EventLink>,
    pub google: Option<Box<CanonicalEvent>>,
    pub icloud: Option<Box<CanonicalEvent>>,
    pub google_hash: Option<String>,
    pub icloud_hash: Option<String>,
    pub resolution: Option<AutoResolution>,
}

#[derive(Debug, Clone)]
pub enum PlannedAction {
    Snapshot {
        canonical_uid: String,
        link: Option<EventLink>,
        google: Option<Box<CanonicalEvent>>,
        icloud: Option<Box<CanonicalEvent>>,
        google_hash: Option<String>,
        icloud_hash: Option<String>,
        resolution: Option<AutoResolution>,
    },
    Noop { canonical_uid: String, reason: String },
    CreateGoogle(MutatingAction),
    CreateIcloud(MutatingAction),
    UpdateGoogle(MutatingAction),
    UpdateIcloud(MutatingAction),
    DeleteGoogle(MutatingAction),
    DeleteIcloud(MutatingAction),
    Conflict {
        canonical_uid: String,
        reason: String,
        resolution: ConflictResolution,
        link: Option<EventLink>,
        google: Option<Box<CanonicalEvent>>,
        icloud: Option<Box<CanonicalEvent>>,
    },
}

/// The planner's input for one calendar pair. The known iCloud UID
/// collisions are a list; only membership is read.
pub struct PlanTwoWayInput<'a> {
    pub links: &'a [EventLink],
    pub google_events: &'a [CanonicalEvent],
    pub icloud_events: &'a [CanonicalEvent],
    pub known_icloud_uid_collisions: Vec<String>,
    pub direction: SyncDirection,
    pub conflict_policy: PlannerConflictPolicies,
}

// ---------------------------------------------------------------- views
pub open spec fn opt_event(o: Option<Box<CanonicalEvent>>) -> Option<EventView> {
    match o {
        Some(b) => Some(b@),
        None => None,
    }
}

pub open spec fn resolution_view(r: Option<AutoResolution>) -> Option<(Seq<char>, Seq<char>)> {
    match r {
        Some(a) => Some((a.reason@, a.policy@)),
        None => None,
    }
}

pub struct MutatingView {
    pub canonical_uid: Seq<char>,
    pub event: EventView,
    pub link: Option<EventLink>,
    pub google: Option<EventView>,
    pub icloud: Option<EventView>,
    pub google_hash: Option<Seq<char>>,
    pub icloud_hash: Option<Seq<char>>,
    pub resolution: Option<(Seq<char>, Seq<char>)>,
}

impl View for MutatingAction {
    type V = MutatingView;

    open spec fn view(&self) -> MutatingView {
        MutatingView {
            canonical_uid: self.canonical_uid@,
            event: self.event@,
            link: self.link,
            google: opt_event(self.google),
            icloud: opt_event(self.icloud),
            google_hash: opt_view(self.google_hash),
            icloud_hash: opt_view(self.icloud_hash),
            resolution: resolution_view(self.resolution),
        }
    }
}

pub enum ActionView {
    Snapshot {
        canonical_uid: Seq<char>,
        link: Option<EventLink>,
        google: Option<EventView>,
        icloud: Option<EventView>,
        google_hash: Option<Seq<char>>,
        icloud_hash: Option<Seq<char>>,
        resolution: Option<(Seq<char>, Seq<char>)>,
    },
    Noop { canonical_uid: Seq<char>, reason: Seq<char> },
    CreateGoogle(MutatingView),
    CreateIcloud(MutatingView),
    UpdateGoogle(MutatingView),
    UpdateIcloud(MutatingView),
    DeleteGoogle(MutatingView),
    DeleteIcloud(MutatingView),
    Conflict {
        canonical_uid: Seq<char>,
        reason: Seq<char>,
        resolution: ConflictResolution,
        link: Option<EventLink>,
        google: Option<EventView>,
        icloud: Option<EventView>,
    },
}

impl View for PlannedAction {
    type V = ActionView;

    open spec fn view(&self) -> ActionView {
        match self {
            PlannedAction::Snapshot {
                canonical_uid,
                link,
                google,
                icloud,
                google_hash,
                icloud_hash,
                resolution,
            } => ActionView::Snapshot {
                canonical_uid: canonical_uid@,
                link: *link,
                google: opt_event(*google),
                icloud: opt_event(*icloud),
                google_hash: opt_view(*google_hash),
                icloud_hash: opt_view(*icloud_hash),
                resolution: resolution_view(*resolution),
            },
            PlannedAction::Noop { canonical_uid, reason } => ActionView::Noop {
                canonical_uid: canonical_uid@,
                reason: reason@,
            },
            PlannedAction::CreateGoogle(a) => ActionView::CreateGoogle(a@),
            PlannedAction::CreateIcloud(a) => ActionView::CreateIcloud(a@),
            PlannedAction::UpdateGoogle(a) => ActionView::UpdateGoogle(a@),
            PlannedAction::UpdateIcloud(a) => ActionView::UpdateIcloud(a@),
            PlannedAction::DeleteGoogle(a) => ActionView::DeleteGoogle(a@),
            PlannedAction::DeleteIcloud(a) => ActionView::DeleteIcloud(a@),
            PlannedAction::Conflict { canonical_uid, reason, resolution, link, google, icloud } =>
                ActionView::Conflict {
                canonical_uid: canonical_uid@,
                reason: reason@,
                resolution: *resolution,
                link: *link,
                google: opt_event(*google),
                icloud: opt_event(*icloud),
            },
        }
    }
}

impl ActionView {
    /// The UID the action is about.
    pub open spec fn uid(self) -> Seq<char> {
        match self {
            ActionView::Snapshot { canonical_uid, .. } => canonical_uid,
            ActionView::Noop { canonical_uid, .. } => canonical_uid,
            ActionView::CreateGoogle(m) => m.canonical_uid,
            ActionView::CreateIcloud(m) => m.canonical_uid,
            ActionView::UpdateGoogle(m) => m.canonical_uid,
            ActionView::UpdateIcloud(m) => m.canonical_uid,
            ActionView::DeleteGoogle(m) => m.canonical_uid,
            ActionView::DeleteIcloud(m) => m.canonical_uid,
            ActionView::Conflict { canonical_uid, .. } => canonical_uid,
        }
    }

    /// The action writes to Google.
    pub open spec fn writes_google(self) -> bool {
        self is CreateGoogle || self is UpdateGoogle || self is DeleteGoogle
    }

    /// The action writes to iCloud.
    pub open spec fn writes_icloud(self) -> bool {
        self is CreateIcloud || self is UpdateIcloud || self is DeleteIcloud
    }
}

// ---------------------------------------------------------------- decision
pub open spec fn can_write_google_spec(d: SyncDirection) -> bool {
    d == SyncDirection::TwoWay || d == SyncDirection::RightToLeft
}

pub open spec fn can_write_icloud_spec(d: SyncDirection) -> bool {
    d == SyncDirection::TwoWay || d == SyncDirection::LeftToRight
}

pub fn can_write_google(d: SyncDirection) -> (r: bool)
    ensures
        r == can_write_google_spec(d),
{
    match d {
        SyncDirection::TwoWay | SyncDirection::RightToLeft => true,
        SyncDirection::LeftToRight => false,
    }
}

pub fn can_write_icloud(d: SyncDirection) -> (r: bool)
    ensures
        r == can_write_icloud_spec(d),
{
    match d {
        SyncDirection::TwoWay | SyncDirection::LeftToRight => true,
        SyncDirection::RightToLeft => false,
    }
}

pub open spec fn policy_name_spec(p: ConflictPolicy) -> Seq<char> {
    match p {
        ConflictPolicy::Manual => "manual"@,
        ConflictPolicy::GoogleWins => "google_wins"@,
        ConflictPolicy::IcloudWins => "icloud_wins"@,
        ConflictPolicy::NewestUpdatedWins => "newest_updated_wins"@,
    }
}

pub open spec fn delete_policy_name_spec(p: DeleteConflictPolicy) -> Seq<char> {
    match p {
        DeleteConflictPolicy::Manual => "manual"@,
        DeleteConflictPolicy::DeleteWins => "delete_wins"@,
        DeleteConflictPolicy::UpdateWins => "update_wins"@,
    }
}

pub fn policy_name(p: ConflictPolicy) -> (r: &'static str)
    ensures
        r@ == policy_name_spec(p),
{
    match p {
        ConflictPolicy::Manual => "manual",
        ConflictPolicy::GoogleWins => "google_wins",
        ConflictPolicy::IcloudWins => "icloud_wins",
        ConflictPolicy::NewestUpdatedWins => "newest_updated_wins",
    }
}

pub fn delete_policy_name(p: DeleteConflictPolicy) -> (r: &'static str)
    ensures
        r@ == delete_policy_name_spec(p),
{
    match p {
        DeleteConflictPolicy::Manual => "manual",
        DeleteConflictPolicy::DeleteWins => "delete_wins",
        DeleteConflictPolicy::UpdateWins => "update_wins",
    }
}

pub open spec fn hash_of(e: Option<EventView>) -> Option<Seq<char>> {
    match e {
        Some(x) => Some(event_hash(x)),
        None => None,
    }
}

pub open spec fn mutating_view(
    uid: Seq<char>,
    event: EventView,
    link: Option<EventLink>,
    google: Option<EventView>,
    icloud: Option<EventView>,
    google_hash: Option<Seq<char>>,
    icloud_hash: Option<Seq<char>>,
    resolution: Option<(Seq<char>, Seq<char>)>,
) -> MutatingView {
    MutatingView {
        canonical_uid: uid,
        event,
        link,
        google,
        icloud,
        google_hash,
        icloud_hash,
        resolution,
    }
}

pub open spec fn snapshot_view(
    uid: Seq<char>,
    link: Option<EventLink>,
    google: Option<EventView>,
    icloud: Option<EventView>,
    google_hash: Option<Seq<char>>,
    icloud_hash: Option<Seq<char>>,
) -> ActionView {
    ActionView::Snapshot { canonical_uid: uid, link, google, icloud, google_hash, icloud_hash, resolution: None }
}

pub open spec fn manual_conflict_view(
    uid: Seq<char>,
    reason: Seq<char>,
    link: Option<EventLink>,
    google: Option<EventView>,
    icloud: Option<EventView>,
) -> ActionView {
    ActionView::Conflict {
        canonical_uid: uid,
        reason,
        resolution: ConflictResolution::Manual,
        link,
        google,
        icloud,
    }
}

/// Which side a both-sides-changed policy picks: a fixed provider, the later
/// `updated_at` when both are known and differ, or none.
pub open spec fn winner_spec(g: EventView, i: EventView, p: ConflictPolicy) -> Option<ProviderName> {
    match p {
        ConflictPolicy::GoogleWins => Some(ProviderName::Google),
        ConflictPolicy::IcloudWins => Some(ProviderName::Icloud),
        ConflictPolicy::NewestUpdatedWins => match (
            g.provider_meta.updated_at,
            i.provider_meta.updated_at,
        ) {
            (Some(gu), Some(iu)) => if gu.later_than(iu) {
                Some(ProviderName::Google)
            } else if iu.later_than(gu) {
                Some(ProviderName::Icloud)
            } else {
                None
            },
            _ => None,
        },
        ConflictPolicy::Manual => None,
    }
}

pub open spec fn provider_winner_view(
    uid: Seq<char>,
    reason: Seq<char>,
    link: Option<EventLink>,
    g: EventView,
    i: EventView,
    p: ConflictPolicy,
    d: SyncDirection,
) -> ActionView {
    let res = Some((reason, policy_name_spec(p)));
    let w = winner_spec(g, i, p);
    if w == Some(ProviderName::Google) && can_write_icloud_spec(d) {
        ActionView::UpdateIcloud(
            mutating_view(
                uid,
                g,
                link,
                Some(g),
                Some(i),
                Some(event_hash(g)),
                Some(event_hash(i)),
                res,
            ),
        )
    } else if w == Some(ProviderName::Icloud) && can_write_google_spec(d) {
        ActionView::UpdateGoogle(
            mutating_view(
                uid,
                i,
                link,
                Some(g),
                Some(i),
                Some(event_hash(g)),
                Some(event_hash(i)),
                res,
            ),
        )
    } else {
        manual_conflict_view(uid, reason, link, Some(g), Some(i))
    }
}

/// One side deleted the event while the other changed it. `deleted_google`
/// tells which side is gone; `changed` is the remaining side's event.
pub open spec fn delete_update_view(
    uid: Seq<char>,
    reason: Seq<char>,
    deleted_google: bool,
    changed: EventView,
    link: Option<EventLink>,
    d: SyncDirection,
    p: DeleteConflictPolicy,
) -> ActionView {
    let google = if deleted_google {
        None
    } else {
        Some(changed)
    };
    let icloud = if deleted_google {
        Some(changed)
    } else {
        None
    };
    let h = Some(event_hash(changed));
    let res = Some((reason, delete_policy_name_spec(p)));
    match p {
        DeleteConflictPolicy::Manual => manual_conflict_view(uid, reason, link, google, icloud),
        DeleteConflictPolicy::DeleteWins => if !deleted_google && can_write_google_spec(d) {
            ActionView::DeleteGoogle(
                mutating_view(uid, changed, link, google, icloud, h, None, res),
            )
        } else if deleted_google && can_write_icloud_spec(d) {
            ActionView::DeleteIcloud(
                mutating_view(uid, changed, link, google, icloud, None, h, res),
            )
        } else {
            manual_conflict_view(uid, reason, link, google, icloud)
        },
        DeleteConflictPolicy::UpdateWins => if !deleted_google && can_write_icloud_spec(d) {
            ActionView::CreateIcloud(
                mutating_view(uid, changed, link, google, icloud, h, None, res),
            )
        } else if deleted_google && can_write_google_spec(d) {
            ActionView::CreateGoogle(
                mutating_view(uid, changed, link, google, icloud, None, h, res),
            )
        } else {
            manual_conflict_view(uid, reason, link, google, icloud)
        },
    }
}

/// The action for a UID that has no link yet.
pub open spec fn unlinked_view(
    uid: Seq<char>,
    g: Option<EventView>,
    i: Option<EventView>,
    d: SyncDirection,
    p: ConflictPolicy,
) -> ActionView {
    if g is Some && i is Some {
        let ge = g->0;
        let ie = i->0;
        if event_hash(ge) == event_hash(ie) {
            snapshot_view(uid, None, g, i, Some(event_hash(ge)), Some(event_hash(ie)))
        } else {
            provider_winner_view(
                uid,
                "unlinked_events_have_same_uid_but_differ"@,
                None,
                ge,
                ie,
                p,
                d,
            )
        }
    } else if g is Some && can_write_icloud_spec(d) {
        ActionView::CreateIcloud(
            mutating_view(uid, g->0, None, g, None, Some(event_hash(g->0)), None, None),
        )
    } else if i is Some && can_write_google_spec(d) {
        ActionView::CreateGoogle(
            mutating_view(uid, i->0, None, None, i, None, Some(event_hash(i->0)), None),
        )
    } else {
        snapshot_view(uid, None, g, i, None, None)
    }
}

/// The action for a UID that has a link.
pub open spec fn linked_view(
    uid: Seq<char>,
    link: EventLink,
    g: Option<EventView>,
    i: Option<EventView>,
    d: SyncDirection,
    pol: PlannerConflictPolicies,
) -> ActionView {
    let gh = hash_of(g);
    let ih = hash_of(i);
    let google_changed = gh != opt_view(link.google_hash);
    let icloud_changed = ih != opt_view(link.icloud_hash);
    let google_deleted = g is None && (link.google_event_id is Some || link.google_ical_uid is Some);
    let icloud_deleted = i is None && (link.icloud_href is Some || link.icloud_uid is Some);
    let l = Some(link);
    if g is Some && i is Some {
        let ge = g->0;
        let ie = i->0;
        if gh == ih {
            snapshot_view(uid, l, g, i, gh, ih)
        } else if google_changed && !icloud_changed && can_write_icloud_spec(d) {
            ActionView::UpdateIcloud(mutating_view(uid, ge, l, g, i, gh, ih, None))
        } else if !google_changed && icloud_changed && can_write_google_spec(d) {
            ActionView::UpdateGoogle(mutating_view(uid, ie, l, g, i, gh, ih, None))
        } else if google_changed && icloud_changed {
            provider_winner_view(uid, "both_sides_changed"@, l, ge, ie, pol.both_sides_changed, d)
        } else {
            snapshot_view(uid, l, g, i, gh, ih)
        }
    } else if g is Some && icloud_deleted {
        let ge = g->0;
        if google_changed {
            delete_update_view(
                uid,
                "google_changed_while_icloud_deleted"@,
                false,
                ge,
                l,
                d,
                pol.delete_vs_update,
            )
        } else if can_write_google_spec(d) {
            ActionView::DeleteGoogle(mutating_view(uid, ge, l, g, None, gh, None, None))
        } else if can_write_icloud_spec(d) {
            ActionView::CreateIcloud(mutating_view(uid, ge, l, g, None, gh, None, None))
        } else {
            snapshot_view(uid, l, g, i, gh, ih)
        }
    } else if i is Some && google_deleted {
        let ie = i->0;
        if icloud_changed {
            delete_update_view(
                uid,
                "icloud_changed_while_google_deleted"@,
                true,
                ie,
                l,
                d,
                pol.delete_vs_update,
            )
        } else if can_write_icloud_spec(d) {
            ActionView::DeleteIcloud(mutating_view(uid, ie, l, None, i, None, ih, None))
        } else if can_write_google_spec(d) {
            ActionView::CreateGoogle(mutating_view(uid, ie, l, None, i, None, ih, None))
        } else {
            snapshot_view(uid, l, g, i, gh, ih)
        }
    } else if g is Some && can_write_icloud_spec(d) {
        ActionView::CreateIcloud(mutating_view(uid, g->0, l, g, None, gh, None, None))
    } else if i is Some && can_write_google_spec(d) {
        ActionView::CreateGoogle(mutating_view(uid, i->0, l, None, i, None, ih, None))
    } else {
        snapshot_view(uid, l, g, i, gh, ih)
    }
}

/// The action planned for one UID, given its link, its current event on each
/// side, and whether its iCloud UID is a known collision.
pub open spec fn uid_action(
    uid: Seq<char>,
    link: Option<EventLink>,
    g: Option<EventView>,
    i: Option<EventView>,
    known_collision: bool,
    d: SyncDirection,
    pol: PlannerConflictPolicies,
) -> ActionView {
    if known_collision && g is Some && i is None {
        ActionView::Conflict {
            canonical_uid: uid,
            reason: "icloud_uid_exists_in_different_calendar"@,
            resolution: match pol.icloud_uid_collision {
                UidCollisionPolicy::IgnoreKnown => ConflictResolution::Ignored,
                UidCollisionPolicy::Manual => ConflictResolution::Manual,
            },
            link,
            google: g,
            icloud: None,
        }
    } else if link is None {
        unlinked_view(uid, g, i, d, pol.unlinked_same_uid)
    } else {
        linked_view(uid, link->0, g, i, d, pol)
    }
}

// ---------------------------------------------------------------- lookup
/// The event a provider currently has for a UID: the last one listed with that
/// UID that is not marked deleted.
pub open spec fn current_event(events: Seq<CanonicalEvent>, uid: Seq<char>) -> Option<EventView>
    decreases events.len(),
{
    if events.len() == 0 {
        None
    } else if !events.last().provider_meta.deleted && events.last().canonical_uid@ == uid {
        Some(events.last()@)
    } else {
        current_event(events.drop_last(), uid)
    }
}

/// The link stored for a UID: the last one listed with that UID.
pub open spec fn link_for(links: Seq<EventLink>, uid: Seq<char>) -> Option<EventLink>
    decreases links.len(),
{
    if links.len() == 0 {
        None
    } else if links.last().canonical_uid@ == uid {
        Some(links.last())
    } else {
        link_for(links.drop_last(), uid)
    }
}

pub open spec fn collides(known: Seq<String>, uid: Seq<char>) -> bool {
    exists|k: int| 0 <= k < known.len() && (#[trigger] known[k])@ == uid
}

/// UIDs of the events not marked deleted, in order.
pub open spec fn live_uids(events: Seq<CanonicalEvent>) -> Seq<Seq<char>>
    decreases events.len(),
{
    if events.len() == 0 {
        Seq::<Seq<char>>::empty()
    } else if !events.last().provider_meta.deleted {
        live_uids(events.drop_last()).push(events.last().canonical_uid@)
    } else {
        live_uids(events.drop_last())
    }
}

pub open spec fn link_uids(links: Seq<EventLink>) -> Seq<Seq<char>> {
    links.map_values(|l: EventLink| l.canonical_uid@)
}

/// `acc` followed by each UID of `xs` not seen before, in order.
pub open spec fn add_new(acc: Seq<Seq<char>>, xs: Seq<Seq<char>>) -> Seq<Seq<char>>
    decreases xs.len(),
{
    if xs.len() == 0 {
        acc
    } else {
        let a = add_new(acc, xs.drop_last());
        if a.contains(xs.last()) {
            a
        } else {
            a.push(xs.last())
        }
    }
}

/// The UIDs the two-way plan covers: Google's current UIDs, then iCloud's,
/// then the linked ones, each once, in order of first appearance.
pub open spec fn plan_uids(
    google: Seq<CanonicalEvent>,
    icloud: Seq<CanonicalEvent>,
    links: Seq<EventLink>,
) -> Seq<Seq<char>> {
    add_new(add_new(add_new(Seq::empty(), live_uids(google)), live_uids(icloud)), link_uids(links))
}

/// Every current event of a list can be hashed.
pub open spec fn current_events_hashable(events: Seq<CanonicalEvent>) -> bool {
    forall|k: int|
        0 <= k < events.len() && !events[k].provider_meta.deleted ==> hashable(
            (#[trigger] events[k])@,
        )
}

/// Whether every current (not deleted) event can be hashed, as planning
/// asks of both sides.
pub fn events_hashable(events: &[CanonicalEvent]) -> (r: bool)
    ensures
        r == current_events_hashable(events@),
{
    let mut i: usize = 0;
    while i < events.len()
        invariant
            i <= events@.len(),
            forall|k: int| 0 <= k < i && !events@[k].provider_meta.deleted ==> hashable((#[trigger] events@[k])@),
        decreases events@.len() - i,
    {
        if !events[i].provider_meta.deleted && !is_hashable(&events[i]) {
            return false;
        }
        i = i + 1;
    }
    true
}

proof fn lemma_current_event_from(events: Seq<CanonicalEvent>, uid: Seq<char>)
    requires
        current_events_hashable(events),
    ensures
        current_event(events, uid) matches Some(e) ==> hashable(e),
    decreases events.len(),
{
    if events.len() > 0 {
        let t = events.drop_last();
        assert forall|k: int|
            0 <= k < t.len() && !t[k].provider_meta.deleted implies hashable(
            (#[trigger] t[k])@,
        ) by {
            assert(t[k] == events[k]);
        }
        lemma_current_event_from(t, uid);
    }
}

fn find_current(events: &[CanonicalEvent], uid: &String) -> (r: Option<usize>)
    ensures
        match r {
            Some(k) => k < events@.len() && current_event(events@, uid@) == Some(events@[k as int]@),
            None => current_event(events@, uid@) is None,
        },
{
    let mut j: usize = events.len();
    assert(events@.take(j as int) =~= events@);
    while j > 0
        invariant
            j <= events@.len(),
            current_event(events@, uid@) == current_event(events@.take(j as int), uid@),
        decreases j,
    {
        let e = &events[j - 1];
        let ghost t = events@.take(j as int);
        assert(t.last() == events@[j - 1]);
        assert(t.drop_last() =~= events@.take(j - 1));
        if !e.provider_meta.deleted && str_eq(e.canonical_uid.as_str(), uid.as_str()) {
            return Some(j - 1);
        }
        j = j - 1;
    }
    None
}

fn find_link(links: &[EventLink], uid: &String) -> (r: Option<usize>)
    ensures
        match r {
            Some(k) => k < links@.len() && link_for(links@, uid@) == Some(links@[k as int]),
            None => link_for(links@, uid@) is None,
        },
{
    let mut j: usize = links.len();
    assert(links@.take(j as int) =~= links@);
    while j > 0
        invariant
            j <= links@.len(),
            link_for(links@, uid@) == link_for(links@.take(j as int), uid@),
        decreases j,
    {
        let ghost t = links@.take(j as int);
        assert(t.last() == links@[j - 1]);
        assert(t.drop_last() =~= links@.take(j - 1));
        if str_eq(links[j - 1].canonical_uid.as_str(), uid.as_str()) {
            return Some(j - 1);
        }
        j = j - 1;
    }
    None
}

fn contains_uid(known: &Vec<String>, uid: &String) -> (r: bool)
    ensures
        r == collides(known@, uid@),
{
    let mut k: usize = 0;
    while k < known.len()
        invariant
            k <= known@.len(),
            forall|m: int| 0 <= m < k ==> (#[trigger] known@[m])@ != uid@,
        decreases known@.len() - k,
    {
        if str_eq(known[k].as_str(), uid.as_str()) {
            return true;
        }
        k = k + 1;
    }
    false
}

fn seq_has(v: &Vec<String>, uid: &String) -> (r: bool)
    ensures
        r == v@.map_values(|x: String| x@).contains(uid@),
{
    let ghost s = v@.map_values(|x: String| x@);
    let mut k: usize = 0;
    while k < v.len()
        invariant
            k <= v@.len(),
            s == v@.map_values(|x: String| x@),
            forall|m: int| 0 <= m < k ==> s[m] != uid@,
        decreases v@.len() - k,
    {
        if str_eq(v[k].as_str(), uid.as_str()) {
            assert(s[k as int] == uid@);
            return true;
        }
        k = k + 1;
    }
    false
}

fn push_new(out: &mut Vec<String>, uid: &String)
    ensures
        final(out)@.map_values(|x: String| x@) == (if old(out)@.map_values(|x: String| x@).contains(
            uid@,
        ) {
            old(out)@.map_values(|x: String| x@)
        } else {
            old(out)@.map_values(|x: String| x@).push(uid@)
        }),
{
    if !seq_has(out, uid) {
        let ghost before = out@;
        out.push(uid.clone());
        assert(out@.map_values(|x: String| x@) =~= before.map_values(|x: String| x@).push(uid@));
    }
}

fn add_live_uids(out: &mut Vec<String>, events: &[CanonicalEvent])
    ensures
        final(out)@.map_values(|x: String| x@) == add_new(
            old(out)@.map_values(|x: String| x@),
            live_uids(events@),
        ),
{
    let ghost start = out@.map_values(|x: String| x@);
    let mut i: usize = 0;
    while i < events.len()
        invariant
            i <= events@.len(),
            out@.map_values(|x: String| x@) == add_new(start, live_uids(events@.take(i as int))),
        decreases events@.len() - i,
    {
        let ghost t = events@.take(i + 1);
        assert(t.drop_last() =~= events@.take(i as int));
        assert(t.last() == events@[i as int]);
        if !events[i].provider_meta.deleted {
            push_new(out, &events[i].canonical_uid);
            assert(live_uids(t).drop_last() =~= live_uids(events@.take(i as int)));
        }
        i = i + 1;
    }
    assert(events@.take(events@.len() as int) =~= events@);
}

fn add_link_uids(out: &mut Vec<String>, links: &[EventLink])
    ensures
        final(out)@.map_values(|x: String| x@) == add_new(
            old(out)@.map_values(|x: String| x@),
            link_uids(links@),
        ),
{
    let ghost start = out@.map_values(|x: String| x@);
    let mut i: usize = 0;
    while i < links.len()
        invariant
            i <= links@.len(),
            out@.map_values(|x: String| x@) == add_new(start, link_uids(links@.take(i as int))),
        decreases links@.len() - i,
    {
        let ghost t = link_uids(links@.take(i + 1));
        assert(t.drop_last() =~= link_uids(links@.take(i as int)));
        assert(t.last() == links@[i as int].canonical_uid@);
        push_new(out, &links[i].canonical_uid);
        i = i + 1;
    }
    assert(links@.take(links@.len() as int) =~= links@);
}

// ---------------------------------------------------------------- builders
fn boxed(e: &CanonicalEvent) -> (r: Box<CanonicalEvent>)
    ensures
        r@ == e@,
{
    Box::new(e.duplicate())
}

fn opt_boxed(e: Option<&CanonicalEvent>) -> (r: Option<Box<CanonicalEvent>>)
    ensures
        opt_event(r) == (match e {
            Some(x) => Some(x@),
            None => None,
        }),
{
    match e {
        Some(x) => Some(boxed(x)),
        None => None,
    }
}

fn opt_link(l: Option<&EventLink>) -> (r: Option<EventLink>)
    ensures
        r == (match l {
            Some(x) => Some(*x),
            None => None,
        }),
{
    match l {
        Some(x) => Some(x.duplicate()),
        None => None,
    }
}

pub open spec fn ref_view(e: Option<&CanonicalEvent>) -> Option<EventView> {
    match e {
        Some(x) => Some(x@),
        None => None,
    }
}

pub open spec fn ref_link(l: Option<&EventLink>) -> Option<EventLink> {
    match l {
        Some(x) => Some(*x),
        None => None,
    }
}

fn mutating(
    uid: &String,
    event: &CanonicalEvent,
    link: Option<&EventLink>,
    google: Option<&CanonicalEvent>,
    icloud: Option<&CanonicalEvent>,
    google_hash: Option<String>,
    icloud_hash: Option<String>,
    resolution: Option<AutoResolution>,
) -> (r: MutatingAction)
    ensures
        r@ == mutating_view(
            uid@,
            event@,
            ref_link(link),
            ref_view(google),
            ref_view(icloud),
            opt_view(google_hash),
            opt_view(icloud_hash),
            resolution_view(resolution),
        ),
{
    MutatingAction {
        canonical_uid: uid.clone(),
        event: boxed(event),
        link: opt_link(link),
        google: opt_boxed(google),
        icloud: opt_boxed(icloud),
        google_hash,
        icloud_hash,
        resolution,
    }
}

fn snapshot(
    uid: &String,
    link: Option<&EventLink>,
    google: Option<&CanonicalEvent>,
    icloud: Option<&CanonicalEvent>,
    google_hash: Option<String>,
    icloud_hash: Option<String>,
) -> (r: PlannedAction)
    ensures
        r@ == snapshot_view(
            uid@,
            ref_link(link),
            ref_view(google),
            ref_view(icloud),
            opt_view(google_hash),
            opt_view(icloud_hash),
        ),
{
    PlannedAction::Snapshot {
        canonical_uid: uid.clone(),
        link: opt_link(link),
        google: opt_boxed(google),
        icloud: opt_boxed(icloud),
        google_hash,
        icloud_hash,
        resolution: None,
    }
}

fn manual_conflict(
    uid: &String,
    reason: &str,
    link: Option<&EventLink>,
    google: Option<&CanonicalEvent>,
    icloud: Option<&CanonicalEvent>,
) -> (r: PlannedAction)
    ensures
        r@ == manual_conflict_view(uid@, reason@, ref_link(link), ref_view(google), ref_view(icloud)),
{
    PlannedAction::Conflict {
        canonical_uid: uid.clone(),
        reason: reason.to_owned(),
        resolution: ConflictResolution::Manual,
        link: opt_link(link),
        google: opt_boxed(google),
        icloud: opt_boxed(icloud),
    }
}

fn auto_resolution(reason: &str, policy: &str) -> (r: Option<AutoResolution>)
    ensures
        resolution_view(r) == Some((reason@, policy@)),
{
    Some(AutoResolution { reason: reason.to_owned(), policy: policy.to_owned() })
}

fn hash_opt(e: Option<&CanonicalEvent>) -> (r: Option<String>)
    requires
        e matches Some(x) ==> hashable(x@),
    ensures
        opt_view(r) == hash_of(ref_view(e)),
{
    match e {
        Some(x) => Some(hash_canonical_event(x)),
        None => None,
    }
}

fn opt_text_eq(a: &Option<String>, b: &Option<String>) -> (r: bool)
    ensures
        r == (opt_view(*a) == opt_view(*b)),
{
    match (a, b) {
        (Some(x), Some(y)) => str_eq(x.as_str(), y.as_str()),
        (None, None) => true,
        _ => false,
    }
}

fn select_provider_winner(g: &CanonicalEvent, i: &CanonicalEvent, p: ConflictPolicy) -> (r: Option<
    ProviderName,
>)
    ensures
        r == winner_spec(g@, i@, p),
{
    match p {
        ConflictPolicy::GoogleWins => Some(ProviderName::Google),
        ConflictPolicy::IcloudWins => Some(ProviderName::Icloud),
        ConflictPolicy::NewestUpdatedWins => match (
            &g.provider_meta.updated_at,
            &i.provider_meta.updated_at,
        ) {
            (Some(gu), Some(iu)) => {
                if gu.is_later_than(iu) {
                    Some(ProviderName::Google)
                } else if iu.is_later_than(gu) {
                    Some(ProviderName::Icloud)
                } else {
                    None
                }
            },
            _ => None,
        },
        ConflictPolicy::Manual => None,
    }
}

fn resolve_provider_winner_conflict(
    uid: &String,
    reason: &str,
    link: Option<&EventLink>,
    g: &CanonicalEvent,
    i: &CanonicalEvent,
    p: ConflictPolicy,
    d: SyncDirection,
) -> (r: PlannedAction)
    requires
        hashable(g@),
        hashable(i@),
    ensures
        r@ == provider_winner_view(uid@, reason@, ref_link(link), g@, i@, p, d),
{
    let w = select_provider_winner(g, i, p);
    if w == Some(ProviderName::Google) && can_write_icloud(d) {
        let gh = hash_canonical_event(g);
        let ih = hash_canonical_event(i);
        PlannedAction::UpdateIcloud(
            mutating(
                uid,
                g,
                link,
                Some(g),
                Some(i),
                Some(gh),
                Some(ih),
                auto_resolution(reason, policy_name(p)),
            ),
        )
    } else if w == Some(ProviderName::Icloud) && can_write_google(d) {
        let gh = hash_canonical_event(g);
        let ih = hash_canonical_event(i);
        PlannedAction::UpdateGoogle(
            mutating(
                uid,
                i,
                link,
                Some(g),
                Some(i),
                Some(gh),
                Some(ih),
                auto_resolution(reason, policy_name(p)),
            ),
        )
    } else {
        manual_conflict(uid, reason, link, Some(g), Some(i))
    }
}

fn resolve_delete_update_conflict(
    uid: &String,
    reason: &str,
    deleted_google: bool,
    changed: &CanonicalEvent,
    link: Option<&EventLink>,
    d: SyncDirection,
    p: DeleteConflictPolicy,
) -> (r: PlannedAction)
    requires
        hashable(changed@),
    ensures
        r@ == delete_update_view(uid@, reason@, deleted_google, changed@, ref_link(link), d, p),
{
    let google: Option<&CanonicalEvent> = if deleted_google {
        None
    } else {
        Some(changed)
    };
    let icloud: Option<&CanonicalEvent> = if deleted_google {
        Some(changed)
    } else {
        None
    };
    match p {
        DeleteConflictPolicy::Manual => manual_conflict(uid, reason, link, google, icloud),
        DeleteConflictPolicy::DeleteWins => {
            if !deleted_google && can_write_google(d) {
                let h = hash_canonical_event(changed);
                PlannedAction::DeleteGoogle(
                    mutating(
                        uid,
                        changed,
                        link,
                        google,
                        icloud,
                        Some(h),
                        None,
                        auto_resolution(reason, delete_policy_name(p)),
                    ),
                )
            } else if deleted_google && can_write_icloud(d) {
                let h = hash_canonical_event(changed);
                PlannedAction::DeleteIcloud(
                    mutating(
                        uid,
                        changed,
                        link,
                        google,
                        icloud,
                        None,
                        Some(h),
                        auto_resolution(reason, delete_policy_name(p)),
                    ),
                )
            } else {
                manual_conflict(uid, reason, link, google, icloud)
            }
        },
        DeleteConflictPolicy::UpdateWins => {
            if !deleted_google && can_write_icloud(d) {
                let h = hash_canonical_event(changed);
                PlannedAction::CreateIcloud(
                    mutating(
                        uid,
                        changed,
                        link,
                        google,
                        icloud,
                        Some(h),
                        None,
                        auto_resolution(reason, delete_policy_name(p)),
                    ),
                )
            } else if deleted_google && can_write_google(d) {
                let h = hash_canonical_event(changed);
                PlannedAction::CreateGoogle(
                    mutating(
                        uid,
                        changed,
                        link,
                        google,
                        icloud,
                        None,
                        Some(h),
                        auto_resolution(reason, delete_policy_name(p)),
                    ),
                )
            } else {
                manual_conflict(uid, reason, link, google, icloud)
            }
        },
    }
}

fn plan_unlinked(
    uid: &String,
    g: Option<&CanonicalEvent>,
    i: Option<&CanonicalEvent>,
    d: SyncDirection,
    p: ConflictPolicy,
) -> (r: PlannedAction)
    requires
        g matches Some(x) ==> hashable(x@),
        i matches Some(x) ==> hashable(x@),
    ensures
        r@ == unlinked_view(uid@, ref_view(g), ref_view(i), d, p),
{
    match (g, i) {
        (Some(ge), Some(ie)) => {
            let gh = hash_canonical_event(ge);
            let ih = hash_canonical_event(ie);
            if str_eq(gh.as_str(), ih.as_str()) {
                snapshot(uid, None, g, i, Some(gh), Some(ih))
            } else {
                resolve_provider_winner_conflict(
                    uid,
                    "unlinked_events_have_same_uid_but_differ",
                    None,
                    ge,
                    ie,
                    p,
                    d,
                )
            }
        },
        _ => {
            if g.is_some() && can_write_icloud(d) {
                let ge = g.unwrap();
                let h = hash_canonical_event(ge);
                PlannedAction::CreateIcloud(mutating(uid, ge, None, g, None, Some(h), None, None))
            } else if i.is_some() && can_write_google(d) {
                let ie = i.unwrap();
                let h = hash_canonical_event(ie);
                PlannedAction::CreateGoogle(mutating(uid, ie, None, None, i, None, Some(h), None))
            } else {
                snapshot(uid, None, g, i, None, None)
            }
        },
    }
}

fn plan_linked(
    uid: &String,
    link: &EventLink,
    g: Option<&CanonicalEvent>,
    i: Option<&CanonicalEvent>,
    d: SyncDirection,
    pol: PlannerConflictPolicies,
) -> (r: PlannedAction)
    requires
        g matches Some(x) ==> hashable(x@),
        i matches Some(x) ==> hashable(x@),
    ensures
        r@ == linked_view(uid@, *link, ref_view(g), ref_view(i), d, pol),
{
    let gh = hash_opt(g);
    let ih = hash_opt(i);
    let google_changed = !opt_text_eq(&gh, &link.google_hash);
    let icloud_changed = !opt_text_eq(&ih, &link.icloud_hash);
    let google_deleted = g.is_none() && (link.google_event_id.is_some()
        || link.google_ical_uid.is_some());
    let icloud_deleted = i.is_none() && (link.icloud_href.is_some() || link.icloud_uid.is_some());
    let l = Some(link);
    if g.is_some() && i.is_some() {
        let ge = g.unwrap();
        let ie = i.unwrap();
        if opt_text_eq(&gh, &ih) {
            snapshot(uid, l, g, i, gh, ih)
        } else if google_changed && !icloud_changed && can_write_icloud(d) {
            PlannedAction::UpdateIcloud(mutating(uid, ge, l, g, i, gh, ih, None))
        } else if !google_changed && icloud_changed && can_write_google(d) {
            PlannedAction::UpdateGoogle(mutating(uid, ie, l, g, i, gh, ih, None))
        } else if google_changed && icloud_changed {
            resolve_provider_winner_conflict(
                uid,
                "both_sides_changed",
                l,
                ge,
                ie,
                pol.both_sides_changed,
                d,
            )
        } else {
            snapshot(uid, l, g, i, gh, ih)
        }
    } else if g.is_some() && icloud_deleted {
        let ge = g.unwrap();
        if google_changed {
            resolve_delete_update_conflict(
                uid,
                "google_changed_while_icloud_deleted",
                false,
                ge,
                l,
                d,
                pol.delete_vs_update,
            )
        } else if can_write_google(d) {
            PlannedAction::DeleteGoogle(mutating(uid, ge, l, g, None, gh, None, None))
        } else if can_write_icloud(d) {
            PlannedAction::CreateIcloud(mutating(uid, ge, l, g, None, gh, None, None))
        } else {
            snapshot(uid, l, g, i, gh, ih)
        }
    } else if i.is_some() && google_deleted {
        let ie = i.unwrap();
        if icloud_changed {
            resolve_delete_update_conflict(
                uid,
                "icloud_changed_while_google_deleted",
                true,
                ie,
                l,
                d,
                pol.delete_vs_update,
            )
        } else if can_write_icloud(d) {
            PlannedAction::DeleteIcloud(mutating(uid, ie, l, None, i, None, ih, None))
        } else if can_write_google(d) {
            PlannedAction::CreateGoogle(mutating(uid, ie, l, None, i, None, ih, None))
        } else {
            snapshot(uid, l, g, i, gh, ih)
        }
    } else if g.is_some() && can_write_icloud(d) {
        let ge = g.unwrap();
        PlannedAction::CreateIcloud(mutating(uid, ge, l, g, None, gh, None, None))
    } else if i.is_some() && can_write_google(d) {
        let ie = i.unwrap();
        PlannedAction::CreateGoogle(mutating(uid, ie, l, None, i, None, ih, None))
    } else {
        snapshot(uid, l, g, i, gh, ih)
    }
}

fn plan_uid(
    uid: &String,
    link: Option<&EventLink>,
    g: Option<&CanonicalEvent>,
    i: Option<&CanonicalEvent>,
    known_collision: bool,
    d: SyncDirection,
    pol: PlannerConflictPolicies,
) -> (r: PlannedAction)
    requires
        g matches Some(x) ==> hashable(x@),
        i matches Some(x) ==> hashable(x@),
    ensures
        r@ == uid_action(uid@, ref_link(link), ref_view(g), ref_view(i), known_collision, d, pol),
{
    if known_collision && g.is_some() && i.is_none() {
        PlannedAction::Conflict {
            canonical_uid: uid.clone(),
            reason: "icloud_uid_exists_in_different_calendar".to_owned(),
            resolution: match pol.icloud_uid_collision {
                UidCollisionPolicy::IgnoreKnown => ConflictResolution::Ignored,
                UidCollisionPolicy::Manual => ConflictResolution::Manual,
            },
            link: opt_link(link),
            google: opt_boxed(g),
            icloud: None,
        }
    } else {
        match link {
            None => plan_unlinked(uid, g, i, d, pol.unlinked_same_uid),
            Some(l) => plan_linked(uid, l, g, i, d, pol),
        }
    }
}

// ---------------------------------------------------------------- plans
/// The two-way plan for a calendar pair: one action per UID of
/// `plan_uids`, in that order, each the `uid_action` of that UID.
pub fn plan_two_way_actions(input: PlanTwoWayInput) -> (r: Vec<PlannedAction>)
    requires
        current_events_hashable(input.google_events@),
        current_events_hashable(input.icloud_events@),
    ensures
        r@.len() == plan_uids(input.google_events@, input.icloud_events@, input.links@).len(),
        forall|k: int|
            0 <= k < r@.len() ==> (#[trigger] r@[k])@ == uid_action(
                plan_uids(input.google_events@, input.icloud_events@, input.links@)[k],
                link_for(input.links@, plan_uids(input.google_events@, input.icloud_events@, input.links@)[k]),
                current_event(input.google_events@, plan_uids(input.google_events@, input.icloud_events@, input.links@)[k]),
                current_event(input.icloud_events@, plan_uids(input.google_events@, input.icloud_events@, input.links@)[k]),
                collides(input.known_icloud_uid_collisions@, plan_uids(input.google_events@, input.icloud_events@, input.links@)[k]),
                input.direction,
                input.conflict_policy,
            ),
{
    let ghost uids = plan_uids(input.google_events@, input.icloud_events@, input.links@);
    let mut order: Vec<String> = Vec::new();
    assert(order@.map_values(|x: String| x@) =~= Seq::<Seq<char>>::empty());
    add_live_uids(&mut order, input.google_events);
    add_live_uids(&mut order, input.icloud_events);
    add_link_uids(&mut order, input.links);
    assert(order@.map_values(|x: String| x@) == uids);
    let mut actions: Vec<PlannedAction> = Vec::new();
    let mut k: usize = 0;
    while k < order.len()
        invariant
            k <= order@.len(),
            order@.map_values(|x: String| x@) == uids,
            uids == plan_uids(input.google_events@, input.icloud_events@, input.links@),
            current_events_hashable(input.google_events@),
            current_events_hashable(input.icloud_events@),
            actions@.len() == k,
            forall|m: int|
                0 <= m < k ==> (#[trigger] actions@[m])@ == uid_action(
                    uids[m],
                    link_for(input.links@, uids[m]),
                    current_event(input.google_events@, uids[m]),
                    current_event(input.icloud_events@, uids[m]),
                    collides(input.known_icloud_uid_collisions@, uids[m]),
                    input.direction,
                    input.conflict_policy,
                ),
        decreases order@.len() - k,
    {
        let uid = &order[k];
        assert(uids[k as int] == uid@);
        let li = find_link(input.links, uid);
        let gi = find_current(input.google_events, uid);
        let ii = find_current(input.icloud_events, uid);
        proof {
            lemma_current_event_from(input.google_events@, uid@);
            lemma_current_event_from(input.icloud_events@, uid@);
        }
        let link: Option<&EventLink> = match li {
            Some(x) => Some(&input.links[x]),
            None => None,
        };
        let g: Option<&CanonicalEvent> = match gi {
            Some(x) => Some(&input.google_events[x]),
            None => None,
        };
        let i: Option<&CanonicalEvent> = match ii {
            Some(x) => Some(&input.icloud_events[x]),
            None => None,
        };
        let collision = contains_uid(&input.known_icloud_uid_collisions, uid);
        let a = plan_uid(uid, link, g, i, collision, input.direction, input.conflict_policy);
        actions.push(a);
        k = k + 1;
    }
    actions
}

/// The action of the initial plan for one UID.
pub open spec fn initial_action(uid: Seq<char>, g: Option<EventView>, i: Option<EventView>) -> ActionView {
    if g is Some && i is None {
        ActionView::CreateIcloud(mutating_view(uid, g->0, None, g, None, None, None, None))
    } else if g is None && i is Some {
        ActionView::CreateGoogle(mutating_view(uid, i->0, None, None, i, None, None, None))
    } else {
        ActionView::Noop { canonical_uid: uid, reason: "present_on_both_sides"@ }
    }
}

/// The UIDs of the initial plan: Google's current UIDs, then iCloud's, each
/// once, in order of first appearance.
pub open spec fn initial_uids(google: Seq<CanonicalEvent>, icloud: Seq<CanonicalEvent>) -> Seq<
    Seq<char>,
> {
    add_new(add_new(Seq::empty(), live_uids(google)), live_uids(icloud))
}

/// The first-sync plan: every event on only one side is created on the other;
/// a UID on both sides is left alone.
pub fn plan_initial_actions(google_events: &[CanonicalEvent], icloud_events: &[CanonicalEvent]) -> (r:
    Vec<PlannedAction>)
    ensures
        r@.len() == initial_uids(google_events@, icloud_events@).len(),
        forall|k: int|
            0 <= k < r@.len() ==> (#[trigger] r@[k])@ == initial_action(
                initial_uids(google_events@, icloud_events@)[k],
                current_event(google_events@, initial_uids(google_events@, icloud_events@)[k]),
                current_event(icloud_events@, initial_uids(google_events@, icloud_events@)[k]),
            ),
{
    let ghost uids = initial_uids(google_events@, icloud_events@);
    let mut order: Vec<String> = Vec::new();
    assert(order@.map_values(|x: String| x@) =~= Seq::<Seq<char>>::empty());
    add_live_uids(&mut order, google_events);
    add_live_uids(&mut order, icloud_events);
    let mut actions: Vec<PlannedAction> = Vec::new();
    let mut k: usize = 0;
    while k < order.len()
        invariant
            k <= order@.len(),
            order@.map_values(|x: String| x@) == uids,
            uids == initial_uids(google_events@, icloud_events@),
            actions@.len() == k,
            forall|m: int|
                0 <= m < k ==> (#[trigger] actions@[m])@ == initial_action(
                    uids[m],
                    current_event(google_events@, uids[m]),
                    current_event(icloud_events@, uids[m]),
                ),
        decreases order@.len() - k,
    {
        let uid = &order[k];
        assert(uids[k as int] == uid@);
        let gi = find_current(google_events, uid);
        let ii = find_current(icloud_events, uid);
        let a = match (gi, ii) {
            (Some(x), None) => {
                let g = &google_events[x];
                PlannedAction::CreateIcloud(mutating(uid, g, None, Some(g), None, None, None, None))
            },
            (None, Some(y)) => {
                let i = &icloud_events[y];
                PlannedAction::CreateGoogle(mutating(uid, i, None, None, Some(i), None, None, None))
            },
            _ => PlannedAction::Noop {
                canonical_uid: uid.clone(),
                reason: "present_on_both_sides".to_owned(),
            },
        };
        actions.push(a);
        k = k + 1;
    }
    actions
}

} // verus!

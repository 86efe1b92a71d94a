//! What holds of every plan, whatever the events, links and policies.
use crate::event::{EventDateTime, EventView, Instant};
use crate::event_hash::{
    comparable_json, date_time_json, event_hash, json_string_literal, normalized_location, normalized_text,
    opt_view, recurrence_json, status_json, views,
};
use crate::planner::{
    add_new, delete_update_view, linked_view, provider_winner_view, unlinked_view, can_write_google_spec, can_write_icloud_spec, initial_action, initial_uids, link_uids,
    live_uids, manual_conflict_view, plan_uids, uid_action, ActionView, ConflictResolution, EventLink,
    PlannerConflictPolicies,
};
use crate::policy::{ConflictPolicy, DeleteConflictPolicy, SyncDirection, UidCollisionPolicy};
use vstd::prelude::*;

verus! {

pub open spec fn no_repeats(s: Seq<Seq<char>>) -> bool {
    forall|a: int, b: int| 0 <= a < b < s.len() ==> s[a] != s[b]
}

proof fn lemma_add_new(acc: Seq<Seq<char>>, xs: Seq<Seq<char>>)
    ensures
        forall|u: Seq<char>| #[trigger]
            add_new(acc, xs).contains(u) <==> (acc.contains(u) || xs.contains(u)),
        no_repeats(acc) ==> no_repeats(add_new(acc, xs)),
    decreases xs.len(),
{
    if xs.len() > 0 {
        let p = xs.drop_last();
        lemma_add_new(acc, p);
        let a = add_new(acc, p);
        assert forall|u: Seq<char>| #[trigger]
            add_new(acc, xs).contains(u) <==> (acc.contains(u) || xs.contains(u)) by {
            if xs.contains(u) && !p.contains(u) {
                let k = choose|k: int| 0 <= k < xs.len() && xs[k] == u;
                if k < p.len() {
                    assert(p[k] == u);
                }
                assert(u == xs.last());
            }
            if p.contains(u) {
                let k = choose|k: int| 0 <= k < p.len() && p[k] == u;
                assert(xs[k] == u);
            }
            if !a.contains(xs.last()) {
                assert(a.push(xs.last()).last() == xs.last());
                if a.contains(u) {
                    let k = choose|k: int| 0 <= k < a.len() && a[k] == u;
                    assert(a.push(xs.last())[k] == u);
                }
                if a.push(xs.last()).contains(u) {
                    let k = choose|k: int| 0 <= k < a.len() + 1 && a.push(xs.last())[k] == u;
                    if k < a.len() {
                        assert(a[k] == u);
                    }
                }
            }
        }
        if no_repeats(acc) && !a.contains(xs.last()) {
            let b = a.push(xs.last());
            assert forall|i: int, j: int| 0 <= i < j < b.len() implies b[i] != b[j] by {
                if j == a.len() {
                    assert(b[i] == a[i]);
                    assert(a.contains(a[i]));
                }
            }
        }
    }
}

/// The two-way plan covers each UID exactly once: the UIDs it is built over
/// are distinct and are exactly the UIDs of the current Google events, the
/// current iCloud events and the links.
pub proof fn law_plan_covers_each_uid_once(
    google: Seq<crate::event::CanonicalEvent>,
    icloud: Seq<crate::event::CanonicalEvent>,
    links: Seq<EventLink>,
)
    ensures
        no_repeats(plan_uids(google, icloud, links)),
        forall|u: Seq<char>| #[trigger]
            plan_uids(google, icloud, links).contains(u) <==> (live_uids(google).contains(u)
                || live_uids(icloud).contains(u) || link_uids(links).contains(u)),
{
    let e = Seq::<Seq<char>>::empty();
    lemma_add_new(e, live_uids(google));
    let a = add_new(e, live_uids(google));
    lemma_add_new(a, live_uids(icloud));
    let b = add_new(a, live_uids(icloud));
    lemma_add_new(b, link_uids(links));
}

/// The initial plan covers each current UID exactly once.
pub proof fn law_initial_plan_covers_each_uid_once(
    google: Seq<crate::event::CanonicalEvent>,
    icloud: Seq<crate::event::CanonicalEvent>,
)
    ensures
        no_repeats(initial_uids(google, icloud)),
        forall|u: Seq<char>| #[trigger]
            initial_uids(google, icloud).contains(u) <==> (live_uids(google).contains(u)
                || live_uids(icloud).contains(u)),
{
    let e = Seq::<Seq<char>>::empty();
    lemma_add_new(e, live_uids(google));
    let a = add_new(e, live_uids(google));
    lemma_add_new(a, live_uids(icloud));
}

/// Every planned action is about the UID it was planned for.
pub proof fn law_action_is_about_its_uid(
    uid: Seq<char>,
    link: Option<EventLink>,
    g: Option<EventView>,
    i: Option<EventView>,
    known_collision: bool,
    d: SyncDirection,
    pol: PlannerConflictPolicies,
)
    ensures
        uid_action(uid, link, g, i, known_collision, d, pol).uid() == uid,
        initial_action(uid, g, i).uid() == uid,
{
    lemma_parts(uid, link, g, i, d, pol);
}

proof fn lemma_winner(
    uid: Seq<char>,
    reason: Seq<char>,
    link: Option<EventLink>,
    g: EventView,
    i: EventView,
    p: ConflictPolicy,
    d: SyncDirection,
)
    ensures
        provider_winner_view(uid, reason, link, g, i, p, d).uid() == uid,
        !can_write_google_spec(d) ==> !provider_winner_view(uid, reason, link, g, i, p, d).writes_google(),
        !can_write_icloud_spec(d) ==> !provider_winner_view(uid, reason, link, g, i, p, d).writes_icloud(),
{
}

proof fn lemma_delete_update(
    uid: Seq<char>,
    reason: Seq<char>,
    deleted_google: bool,
    changed: EventView,
    link: Option<EventLink>,
    d: SyncDirection,
    p: DeleteConflictPolicy,
)
    ensures
        delete_update_view(uid, reason, deleted_google, changed, link, d, p).uid() == uid,
        !can_write_google_spec(d) ==> !delete_update_view(uid, reason, deleted_google, changed, link, d, p).writes_google(),
        !can_write_icloud_spec(d) ==> !delete_update_view(uid, reason, deleted_google, changed, link, d, p).writes_icloud(),
{
}

proof fn lemma_parts(
    uid: Seq<char>,
    link: Option<EventLink>,
    g: Option<EventView>,
    i: Option<EventView>,
    d: SyncDirection,
    pol: PlannerConflictPolicies,
)
    ensures
        unlinked_view(uid, g, i, d, pol.unlinked_same_uid).uid() == uid,
        !can_write_google_spec(d) ==> !unlinked_view(uid, g, i, d, pol.unlinked_same_uid).writes_google(),
        !can_write_icloud_spec(d) ==> !unlinked_view(uid, g, i, d, pol.unlinked_same_uid).writes_icloud(),
        link matches Some(l) ==> linked_view(uid, l, g, i, d, pol).uid() == uid,
        link matches Some(l) ==> (!can_write_google_spec(d) ==> !linked_view(uid, l, g, i, d, pol).writes_google()),
        link matches Some(l) ==> (!can_write_icloud_spec(d) ==> !linked_view(uid, l, g, i, d, pol).writes_icloud()),
{
    if g is Some && i is Some {
        lemma_winner(uid, "unlinked_events_have_same_uid_but_differ"@, None, g->0, i->0, pol.unlinked_same_uid, d);
        if link is Some {
            lemma_winner(uid, "both_sides_changed"@, link, g->0, i->0, pol.both_sides_changed, d);
        }
    }
    if link is Some {
        if g is Some {
            lemma_delete_update(uid, "google_changed_while_icloud_deleted"@, false, g->0, link, d, pol.delete_vs_update);
        }
        if i is Some {
            lemma_delete_update(uid, "icloud_changed_while_google_deleted"@, true, i->0, link, d, pol.delete_vs_update);
        }
    }
}

/// A plan never writes to a side that the pair's direction does not allow:
/// nothing is created, updated or deleted on Google under `LeftToRight`, nor
/// on iCloud under `RightToLeft`.
pub proof fn law_direction_is_respected(
    uid: Seq<char>,
    link: Option<EventLink>,
    g: Option<EventView>,
    i: Option<EventView>,
    known_collision: bool,
    d: SyncDirection,
    pol: PlannerConflictPolicies,
)
    ensures
        !can_write_google_spec(d) ==> !uid_action(uid, link, g, i, known_collision, d, pol).writes_google(),
        !can_write_icloud_spec(d) ==> !uid_action(uid, link, g, i, known_collision, d, pol).writes_icloud(),
{
    lemma_parts(uid, link, g, i, d, pol);
}

/// When both sides hold events with the same content hash, nothing is written:
/// the plan takes a snapshot of the pair.
pub proof fn law_equal_sides_are_left_alone(
    uid: Seq<char>,
    link: Option<EventLink>,
    g: EventView,
    i: EventView,
    known_collision: bool,
    d: SyncDirection,
    pol: PlannerConflictPolicies,
)
    requires
        event_hash(g) == event_hash(i),
    ensures
        uid_action(uid, link, Some(g), Some(i), known_collision, d, pol) is Snapshot,
{
}

/// A linked event changed on both sides since the last sync is never
/// overwritten under the manual policy: it becomes a manual conflict.
pub proof fn law_manual_policy_keeps_both_changes(
    uid: Seq<char>,
    link: EventLink,
    g: EventView,
    i: EventView,
    known_collision: bool,
    d: SyncDirection,
    pol: PlannerConflictPolicies,
)
    requires
        pol.both_sides_changed == ConflictPolicy::Manual,
        Some(event_hash(g)) != opt_view(link.google_hash),
        Some(event_hash(i)) != opt_view(link.icloud_hash),
        event_hash(g) != event_hash(i),
    ensures
        uid_action(uid, Some(link), Some(g), Some(i), known_collision, d, pol)
            == manual_conflict_view(uid, "both_sides_changed"@, Some(link), Some(g), Some(i)),
{
}

/// Unlinked events with the same UID but different content are never
/// overwritten under the manual policy.
pub proof fn law_manual_policy_keeps_unlinked_twins(
    uid: Seq<char>,
    g: EventView,
    i: EventView,
    known_collision: bool,
    d: SyncDirection,
    pol: PlannerConflictPolicies,
)
    requires
        pol.unlinked_same_uid == ConflictPolicy::Manual,
        event_hash(g) != event_hash(i),
    ensures
        uid_action(uid, None, Some(g), Some(i), known_collision, d, pol) == manual_conflict_view(
            uid,
            "unlinked_events_have_same_uid_but_differ"@,
            None,
            Some(g),
            Some(i),
        ),
{
}

/// A Google-only event whose UID is a known iCloud collision is never created
/// on iCloud; it is reported as a conflict, ignored exactly when the policy
/// ignores known collisions.
pub proof fn law_known_collision_is_not_created(
    uid: Seq<char>,
    link: Option<EventLink>,
    g: EventView,
    d: SyncDirection,
    pol: PlannerConflictPolicies,
)
    ensures
        uid_action(uid, link, Some(g), None, true, d, pol) is Conflict,
        uid_action(uid, link, Some(g), None, true, d, pol)->Conflict_resolution
            == ConflictResolution::Ignored <==> pol.icloud_uid_collision
            == UidCollisionPolicy::IgnoreKnown,
{
}

/// The initial plan creates an event that exists on one side only on the
/// other side, and writes nothing for an event present on both.
pub proof fn law_initial_plan_fills_the_missing_side(
    uid: Seq<char>,
    g: Option<EventView>,
    i: Option<EventView>,
)
    ensures
        (g is Some && i is None) <==> initial_action(uid, g, i) is CreateIcloud,
        (g is None && i is Some) <==> initial_action(uid, g, i) is CreateGoogle,
        (g is Some && i is Some) ==> initial_action(uid, g, i) is Noop,
        !(initial_action(uid, g, i).writes_google() && initial_action(uid, g, i).writes_icloud()),
{
}

// ---------------------------------------------------------------- hash
/// The same instant or the same date, whatever the time-zone label.
pub open spec fn same_when(a: EventDateTime, b: EventDateTime) -> bool {
    match (a, b) {
        (EventDateTime::DateTime { value: x, .. }, EventDateTime::DateTime { value: y, .. }) => x
            == y,
        (EventDateTime::Date { value: x }, EventDateTime::Date { value: y }) => x == y,
        _ => false,
    }
}

/// Two events agree on everything the hash reads.
pub open spec fn same_compared_content(a: EventView, b: EventView) -> bool {
    &&& a.title@ == b.title@
    &&& opt_view(a.description) == opt_view(b.description)
    &&& opt_view(a.location) == opt_view(b.location)
    &&& a.status == b.status
    &&& same_when(a.start, b.start)
    &&& same_when(a.end, b.end)
    &&& match (a.recurrence, b.recurrence) {
        (None, None) => true,
        (Some(x), Some(y)) => opt_view(x.rrule) == opt_view(y.rrule) && views(x.exdates) == views(
            y.exdates,
        ) && opt_view(x.recurrence_id) == opt_view(y.recurrence_id),
        _ => false,
    }
}

/// The hash ignores provider metadata, visibility, attendees, reminders, the
/// raw payload, the UID, the recurrence sequence number and time-zone labels:
/// events that agree on the compared content hash the same.
pub proof fn law_hash_reads_only_compared_content(a: EventView, b: EventView)
    requires
        same_compared_content(a, b),
    ensures
        event_hash(a) == event_hash(b),
{
    assert(date_time_json(a.start) == date_time_json(b.start));
    assert(date_time_json(a.end) == date_time_json(b.end));
    assert(recurrence_json(a.recurrence) == recurrence_json(b.recurrence));
    assert(comparable_json(a) == comparable_json(b));
}

/// One side's edit is carried to the other: when a linked event changed
/// only on Google since the last sync (its hash differs from the stored
/// Google hash, the iCloud hash is the stored one, and the two differ) and
/// iCloud may be written, the plan updates iCloud with Google's current
/// event; symmetrically an edit made only on iCloud updates Google with
/// iCloud's current event.
pub proof fn law_one_sided_edit_is_propagated(
    uid: Seq<char>,
    link: EventLink,
    g: EventView,
    i: EventView,
    known_collision: bool,
    d: SyncDirection,
    pol: PlannerConflictPolicies,
)
    requires
        event_hash(g) != event_hash(i),
    ensures
        (opt_view(link.google_hash) != Some(event_hash(g)) && opt_view(link.icloud_hash) == Some(
            event_hash(i),
        ) && (d == SyncDirection::TwoWay || d == SyncDirection::LeftToRight)) ==> (uid_action(
            uid,
            Some(link),
            Some(g),
            Some(i),
            known_collision,
            d,
            pol,
        ) matches ActionView::UpdateIcloud(m) && m.event == g && m.canonical_uid == uid),
        (opt_view(link.icloud_hash) != Some(event_hash(i)) && opt_view(link.google_hash) == Some(
            event_hash(g),
        ) && (d == SyncDirection::TwoWay || d == SyncDirection::RightToLeft)) ==> (uid_action(
            uid,
            Some(link),
            Some(g),
            Some(i),
            known_collision,
            d,
            pol,
        ) matches ActionView::UpdateGoogle(m) && m.event == i && m.canonical_uid == uid),
{
}

/// The instant `a` comes strictly after the instant `b`.
pub open spec fn strictly_after(a: Instant, b: Instant) -> bool {
    a.seconds > b.seconds || (a.seconds == b.seconds && a.nanos > b.nanos)
}

/// Under "newest updated wins", when a linked event changed on both sides
/// and both sides' `updated_at` are known and differ, the side edited last
/// wins: the other side is updated with its event, and the resolution names
/// the policy. The same holds of unlinked events with one UID whose contents
/// differ.
pub proof fn law_newest_edit_wins(
    uid: Seq<char>,
    link: EventLink,
    g: EventView,
    i: EventView,
    known_collision: bool,
    pol: PlannerConflictPolicies,
    gu: Instant,
    iu: Instant,
)
    requires
        event_hash(g) != event_hash(i),
        g.provider_meta.updated_at == Some(gu),
        i.provider_meta.updated_at == Some(iu),
    ensures
        (pol.both_sides_changed == ConflictPolicy::NewestUpdatedWins && opt_view(link.google_hash) != Some(
            event_hash(g),
        ) && opt_view(link.icloud_hash) != Some(event_hash(i)) && strictly_after(iu, gu)) ==> (uid_action(
            uid,
            Some(link),
            Some(g),
            Some(i),
            known_collision,
            SyncDirection::TwoWay,
            pol,
        ) matches ActionView::UpdateGoogle(m) && m.event == i && m.resolution == Some(
            ("both_sides_changed"@, "newest_updated_wins"@),
        )),
        (pol.both_sides_changed == ConflictPolicy::NewestUpdatedWins && opt_view(link.google_hash) != Some(
            event_hash(g),
        ) && opt_view(link.icloud_hash) != Some(event_hash(i)) && strictly_after(gu, iu)) ==> (uid_action(
            uid,
            Some(link),
            Some(g),
            Some(i),
            known_collision,
            SyncDirection::TwoWay,
            pol,
        ) matches ActionView::UpdateIcloud(m) && m.event == g && m.resolution == Some(
            ("both_sides_changed"@, "newest_updated_wins"@),
        )),
        (pol.unlinked_same_uid == ConflictPolicy::NewestUpdatedWins && strictly_after(iu, gu)) ==> (uid_action(
            uid,
            None,
            Some(g),
            Some(i),
            known_collision,
            SyncDirection::TwoWay,
            pol,
        ) matches ActionView::UpdateGoogle(m) && m.event == i),
        (pol.unlinked_same_uid == ConflictPolicy::NewestUpdatedWins && strictly_after(gu, iu)) ==> (uid_action(
            uid,
            None,
            Some(g),
            Some(i),
            known_collision,
            SyncDirection::TwoWay,
            pol,
        ) matches ActionView::UpdateIcloud(m) && m.event == g),
{
    reveal_strlit("newest_updated_wins");
}

proof fn lemma_middle_determined(p: Seq<char>, x1: Seq<char>, x2: Seq<char>, s: Seq<char>)
    requires
        p + x1 + s == p + x2 + s,
    ensures
        x1 == x2,
{
    let a = p + x1 + s;
    let b = p + x2 + s;
    assert(a.len() == b.len());
    assert(x1.len() == x2.len());
    assert forall|k: int| 0 <= k < x1.len() implies x1[k] == x2[k] by {
        assert(a[p.len() + k] == x1[k]);
        assert(b[p.len() + k] == x2[k]);
    }
    assert(x1 =~= x2);
}

/// A concatenation of fifteen pieces, regrouped around each of its
/// even-numbered pieces.
proof fn lemma_regroup(
    x1: Seq<char>,
    x2: Seq<char>,
    x3: Seq<char>,
    x4: Seq<char>,
    x5: Seq<char>,
    x6: Seq<char>,
    x7: Seq<char>,
    x8: Seq<char>,
    x9: Seq<char>,
    x10: Seq<char>,
    x11: Seq<char>,
    x12: Seq<char>,
    x13: Seq<char>,
    x14: Seq<char>,
    x15: Seq<char>,
)
    ensures
        x1 + x2 + x3 + x4 + x5 + x6 + x7 + x8 + x9 + x10 + x11 + x12 + x13 + x14 + x15 == (x1) + x2 + (x3 + x4 + x5 + x6 + x7 + x8 + x9 + x10 + x11 + x12 + x13 + x14 + x15),
        x1 + x2 + x3 + x4 + x5 + x6 + x7 + x8 + x9 + x10 + x11 + x12 + x13 + x14 + x15 == (x1 + x2 + x3) + x4 + (x5 + x6 + x7 + x8 + x9 + x10 + x11 + x12 + x13 + x14 + x15),
        x1 + x2 + x3 + x4 + x5 + x6 + x7 + x8 + x9 + x10 + x11 + x12 + x13 + x14 + x15 == (x1 + x2 + x3 + x4 + x5) + x6 + (x7 + x8 + x9 + x10 + x11 + x12 + x13 + x14 + x15),
        x1 + x2 + x3 + x4 + x5 + x6 + x7 + x8 + x9 + x10 + x11 + x12 + x13 + x14 + x15 == (x1 + x2 + x3 + x4 + x5 + x6 + x7) + x8 + (x9 + x10 + x11 + x12 + x13 + x14 + x15),
        x1 + x2 + x3 + x4 + x5 + x6 + x7 + x8 + x9 + x10 + x11 + x12 + x13 + x14 + x15 == (x1 + x2 + x3 + x4 + x5 + x6 + x7 + x8 + x9) + x10 + (x11 + x12 + x13 + x14 + x15),
        x1 + x2 + x3 + x4 + x5 + x6 + x7 + x8 + x9 + x10 + x11 + x12 + x13 + x14 + x15 == (x1 + x2 + x3 + x4 + x5 + x6 + x7 + x8 + x9 + x10 + x11) + x12 + (x13 + x14 + x15),
        x1 + x2 + x3 + x4 + x5 + x6 + x7 + x8 + x9 + x10 + x11 + x12 + x13 + x14 + x15 == (x1 + x2 + x3 + x4 + x5 + x6 + x7 + x8 + x9 + x10 + x11 + x12 + x13) + x14 + (x15),
{
    assert(x1 + x2 + x3 + x4 + x5 + x6 + x7 + x8 + x9 + x10 + x11 + x12 + x13 + x14 + x15 =~= (x1) + x2 + (x3 + x4 + x5 + x6 + x7 + x8 + x9 + x10 + x11 + x12 + x13 + x14 + x15));
    assert(x1 + x2 + x3 + x4 + x5 + x6 + x7 + x8 + x9 + x10 + x11 + x12 + x13 + x14 + x15 =~= (x1 + x2 + x3) + x4 + (x5 + x6 + x7 + x8 + x9 + x10 + x11 + x12 + x13 + x14 + x15));
    assert(x1 + x2 + x3 + x4 + x5 + x6 + x7 + x8 + x9 + x10 + x11 + x12 + x13 + x14 + x15 =~= (x1 + x2 + x3 + x4 + x5) + x6 + (x7 + x8 + x9 + x10 + x11 + x12 + x13 + x14 + x15));
    assert(x1 + x2 + x3 + x4 + x5 + x6 + x7 + x8 + x9 + x10 + x11 + x12 + x13 + x14 + x15 =~= (x1 + x2 + x3 + x4 + x5 + x6 + x7) + x8 + (x9 + x10 + x11 + x12 + x13 + x14 + x15));
    assert(x1 + x2 + x3 + x4 + x5 + x6 + x7 + x8 + x9 + x10 + x11 + x12 + x13 + x14 + x15 =~= (x1 + x2 + x3 + x4 + x5 + x6 + x7 + x8 + x9) + x10 + (x11 + x12 + x13 + x14 + x15));
    assert(x1 + x2 + x3 + x4 + x5 + x6 + x7 + x8 + x9 + x10 + x11 + x12 + x13 + x14 + x15 =~= (x1 + x2 + x3 + x4 + x5 + x6 + x7 + x8 + x9 + x10 + x11) + x12 + (x13 + x14 + x15));
    assert(x1 + x2 + x3 + x4 + x5 + x6 + x7 + x8 + x9 + x10 + x11 + x12 + x13 + x14 + x15 =~= (x1 + x2 + x3 + x4 + x5 + x6 + x7 + x8 + x9 + x10 + x11 + x12 + x13) + x14 + (x15));
}

/// The hash input reads every compared field: two events alike in
/// everything but one of description, end, location, recurrence, start,
/// status and title, where that field is written differently, have
/// different comparable JSON.
#[verifier::spinoff_prover]
pub proof fn law_hash_input_reads_each_field(e1: EventView, e2: EventView)
    ensures
        (e2 == (EventView { description: e2.description, ..e1 }) && json_string_literal(normalized_text(opt_view(e1.description)))
            != json_string_literal(normalized_text(opt_view(e2.description)))) ==> comparable_json(e1) != comparable_json(e2),
        (e2 == (EventView { end: e2.end, ..e1 }) && date_time_json(e1.end)
            != date_time_json(e2.end)) ==> comparable_json(e1) != comparable_json(e2),
        (e2 == (EventView { location: e2.location, ..e1 }) && json_string_literal(normalized_location(opt_view(e1.location)))
            != json_string_literal(normalized_location(opt_view(e2.location)))) ==> comparable_json(e1) != comparable_json(e2),
        (e2 == (EventView { recurrence: e2.recurrence, ..e1 }) && recurrence_json(e1.recurrence)
            != recurrence_json(e2.recurrence)) ==> comparable_json(e1) != comparable_json(e2),
        (e2 == (EventView { start: e2.start, ..e1 }) && date_time_json(e1.start)
            != date_time_json(e2.start)) ==> comparable_json(e1) != comparable_json(e2),
        (e2 == (EventView { status: e2.status, ..e1 }) && status_json(e1.status)
            != status_json(e2.status)) ==> comparable_json(e1) != comparable_json(e2),
        (e2 == (EventView { title: e2.title, ..e1 }) && json_string_literal(normalized_text(Some(e1.title@)))
            != json_string_literal(normalized_text(Some(e2.title@)))) ==> comparable_json(e1) != comparable_json(e2),
{
    let c1 = "{\"description\":"@;
    let c3 = ",\"end\":"@;
    let c5 = ",\"location\":"@;
    let c7 = ",\"recurrence\":"@;
    let c9 = ",\"start\":"@;
    let c11 = ",\"status\":"@;
    let c13 = ",\"title\":"@;
    let c15 = "}"@;
    let desc1 = json_string_literal(normalized_text(opt_view(e1.description)));
    let desc2 = json_string_literal(normalized_text(opt_view(e2.description)));
    let end1 = date_time_json(e1.end);
    let end2 = date_time_json(e2.end);
    let loc1 = json_string_literal(normalized_location(opt_view(e1.location)));
    let loc2 = json_string_literal(normalized_location(opt_view(e2.location)));
    let rec1 = recurrence_json(e1.recurrence);
    let rec2 = recurrence_json(e2.recurrence);
    let start1 = date_time_json(e1.start);
    let start2 = date_time_json(e2.start);
    let status1 = status_json(e1.status);
    let status2 = status_json(e2.status);
    let title1 = json_string_literal(normalized_text(Some(e1.title@)));
    let title2 = json_string_literal(normalized_text(Some(e2.title@)));
    if e2 == (EventView { description: e2.description, ..e1 }) && comparable_json(e1) == comparable_json(e2) {
        lemma_regroup(c1, desc1, c3, end1, c5, loc1, c7, rec1, c9, start1, c11, status1, c13, title1, c15);
        lemma_regroup(c1, desc2, c3, end1, c5, loc1, c7, rec1, c9, start1, c11, status1, c13, title1, c15);
        lemma_middle_determined(c1, desc1, desc2, c3 + end1 + c5 + loc1 + c7 + rec1 + c9 + start1 + c11 + status1 + c13 + title1 + c15);
    }
    if e2 == (EventView { end: e2.end, ..e1 }) && comparable_json(e1) == comparable_json(e2) {
        lemma_regroup(c1, desc1, c3, end1, c5, loc1, c7, rec1, c9, start1, c11, status1, c13, title1, c15);
        lemma_regroup(c1, desc1, c3, end2, c5, loc1, c7, rec1, c9, start1, c11, status1, c13, title1, c15);
        lemma_middle_determined(c1 + desc1 + c3, end1, end2, c5 + loc1 + c7 + rec1 + c9 + start1 + c11 + status1 + c13 + title1 + c15);
    }
    if e2 == (EventView { location: e2.location, ..e1 }) && comparable_json(e1) == comparable_json(e2) {
        lemma_regroup(c1, desc1, c3, end1, c5, loc1, c7, rec1, c9, start1, c11, status1, c13, title1, c15);
        lemma_regroup(c1, desc1, c3, end1, c5, loc2, c7, rec1, c9, start1, c11, status1, c13, title1, c15);
        lemma_middle_determined(c1 + desc1 + c3 + end1 + c5, loc1, loc2, c7 + rec1 + c9 + start1 + c11 + status1 + c13 + title1 + c15);
    }
    if e2 == (EventView { recurrence: e2.recurrence, ..e1 }) && comparable_json(e1) == comparable_json(e2) {
        lemma_regroup(c1, desc1, c3, end1, c5, loc1, c7, rec1, c9, start1, c11, status1, c13, title1, c15);
        lemma_regroup(c1, desc1, c3, end1, c5, loc1, c7, rec2, c9, start1, c11, status1, c13, title1, c15);
        lemma_middle_determined(c1 + desc1 + c3 + end1 + c5 + loc1 + c7, rec1, rec2, c9 + start1 + c11 + status1 + c13 + title1 + c15);
    }
    if e2 == (EventView { start: e2.start, ..e1 }) && comparable_json(e1) == comparable_json(e2) {
        lemma_regroup(c1, desc1, c3, end1, c5, loc1, c7, rec1, c9, start1, c11, status1, c13, title1, c15);
        lemma_regroup(c1, desc1, c3, end1, c5, loc1, c7, rec1, c9, start2, c11, status1, c13, title1, c15);
        lemma_middle_determined(c1 + desc1 + c3 + end1 + c5 + loc1 + c7 + rec1 + c9, start1, start2, c11 + status1 + c13 + title1 + c15);
    }
    if e2 == (EventView { status: e2.status, ..e1 }) && comparable_json(e1) == comparable_json(e2) {
        lemma_regroup(c1, desc1, c3, end1, c5, loc1, c7, rec1, c9, start1, c11, status1, c13, title1, c15);
        lemma_regroup(c1, desc1, c3, end1, c5, loc1, c7, rec1, c9, start1, c11, status2, c13, title1, c15);
        lemma_middle_determined(c1 + desc1 + c3 + end1 + c5 + loc1 + c7 + rec1 + c9 + start1 + c11, status1, status2, c13 + title1 + c15);
    }
    if e2 == (EventView { title: e2.title, ..e1 }) && comparable_json(e1) == comparable_json(e2) {
        lemma_regroup(c1, desc1, c3, end1, c5, loc1, c7, rec1, c9, start1, c11, status1, c13, title1, c15);
        lemma_regroup(c1, desc1, c3, end1, c5, loc1, c7, rec1, c9, start1, c11, status1, c13, title2, c15);
        lemma_middle_determined(c1 + desc1 + c3 + end1 + c5 + loc1 + c7 + rec1 + c9 + start1 + c11 + status1 + c13, title1, title2, c15);
    }
}

/// Each write of the action carries the event of the side it copies from or
/// removes: Google's for a create or update on iCloud and a delete on Google,
/// iCloud's for a create or update on Google and a delete on iCloud.
pub open spec fn carries_source_events(a: ActionView, g: Option<EventView>, i: Option<EventView>) -> bool {
    &&& a matches ActionView::CreateIcloud(m) ==> g == Some(m.event)
    &&& a matches ActionView::UpdateIcloud(m) ==> g == Some(m.event)
    &&& a matches ActionView::DeleteGoogle(m) ==> g == Some(m.event)
    &&& a matches ActionView::CreateGoogle(m) ==> i == Some(m.event)
    &&& a matches ActionView::UpdateGoogle(m) ==> i == Some(m.event)
    &&& a matches ActionView::DeleteIcloud(m) ==> i == Some(m.event)
}

proof fn lemma_winner_carries_sources(
    uid: Seq<char>,
    reason: Seq<char>,
    link: Option<EventLink>,
    ge: EventView,
    ie: EventView,
    p: ConflictPolicy,
    d: SyncDirection,
)
    ensures
        carries_source_events(provider_winner_view(uid, reason, link, ge, ie, p, d), Some(ge), Some(ie)),
{
}

proof fn lemma_delete_update_carries_sources(
    uid: Seq<char>,
    reason: Seq<char>,
    deleted_google: bool,
    changed: EventView,
    link: Option<EventLink>,
    d: SyncDirection,
    p: DeleteConflictPolicy,
)
    ensures
        !deleted_google ==> carries_source_events(
            delete_update_view(uid, reason, deleted_google, changed, link, d, p),
            Some(changed),
            None,
        ),
        deleted_google ==> carries_source_events(
            delete_update_view(uid, reason, deleted_google, changed, link, d, p),
            None,
            Some(changed),
        ),
{
}

proof fn lemma_unlinked_carries_sources(
    uid: Seq<char>,
    g: Option<EventView>,
    i: Option<EventView>,
    d: SyncDirection,
    p: ConflictPolicy,
)
    ensures
        carries_source_events(unlinked_view(uid, g, i, d, p), g, i),
{
    if g is Some && i is Some {
        lemma_winner_carries_sources(uid, "unlinked_events_have_same_uid_but_differ"@, None, g->0, i->0, p, d);
    }
}

#[verifier::spinoff_prover]
proof fn lemma_linked_carries_sources(
    uid: Seq<char>,
    link: EventLink,
    g: Option<EventView>,
    i: Option<EventView>,
    d: SyncDirection,
    pol: PlannerConflictPolicies,
)
    ensures
        carries_source_events(linked_view(uid, link, g, i, d, pol), g, i),
{
    if g is Some && i is Some {
        lemma_winner_carries_sources(uid, "both_sides_changed"@, Some(link), g->0, i->0, pol.both_sides_changed, d);
    } else if g is Some {
        lemma_delete_update_carries_sources(
            uid,
            "google_changed_while_icloud_deleted"@,
            false,
            g->0,
            Some(link),
            d,
            pol.delete_vs_update,
        );
    } else if i is Some {
        lemma_delete_update_carries_sources(
            uid,
            "icloud_changed_while_google_deleted"@,
            true,
            i->0,
            Some(link),
            d,
            pol.delete_vs_update,
        );
    }
}

/// Every write carries the event of the side it copies from or removes:
/// creating or updating on iCloud, and deleting on Google, carry Google's
/// current event; creating or updating on Google, and deleting on iCloud,
/// carry iCloud's current event.
pub proof fn law_writes_carry_the_source_event(
    uid: Seq<char>,
    link: Option<EventLink>,
    g: Option<EventView>,
    i: Option<EventView>,
    known_collision: bool,
    d: SyncDirection,
    pol: PlannerConflictPolicies,
)
    ensures
        carries_source_events(uid_action(uid, link, g, i, known_collision, d, pol), g, i),
{
    match link {
        Some(l) => lemma_linked_carries_sources(uid, l, g, i, d, pol),
        None => lemma_unlinked_carries_sources(uid, g, i, d, pol.unlinked_same_uid),
    }
}

} // verus!

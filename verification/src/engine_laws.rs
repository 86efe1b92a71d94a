//! Properties of the engine's counts, links and report that hold for every
//! plan.
use crate::engine::{action_names, action_texts, occurrences, resolution_names, resolution_texts, tally_of};
use crate::config::SyncPairConfig;
use crate::engine_apply::{first_of, planned_step, synced_hash_spec, upsert_spec, LinkView, StepView};
use crate::engine_plan::{included, included_rows};
use crate::engine_report::{
    csv_field, date_column, doubled_quotes, google_side, icloud_side, report_columns, report_lines, side_event,
};
use crate::event::{ProviderEventMeta, ProviderName};
use crate::engine::ReportMode;
use crate::planner::{EventLink, PlannedAction};
use crate::store::{is_active, is_stale, stale_ids, ActiveConflict, StoredConflict};
use crate::engine::ReportRow;
use crate::text::contains_any;
use vstd::prelude::*;

verus! {

pub open spec fn sum_nats(s: Seq<nat>) -> nat
    decreases s.len(),
{
    if s.len() == 0 {
        0
    } else {
        sum_nats(s.drop_last()) + s.last()
    }
}

proof fn lemma_sum_nats_add(a: Seq<nat>, b: Seq<nat>)
    requires
        a.len() == b.len(),
    ensures
        sum_nats(Seq::new(a.len(), |i: int| a[i] + b[i])) == sum_nats(a) + sum_nats(b),
    decreases a.len(),
{
    let c = Seq::new(a.len(), |i: int| a[i] + b[i]);
    if a.len() > 0 {
        let a0 = a.drop_last();
        let b0 = b.drop_last();
        lemma_sum_nats_add(a0, b0);
        assert(c.drop_last() =~= Seq::new(a0.len(), |i: int| a0[i] + b0[i]));
    }
}

/// Over distinct names, one text counts once when it is among them.
proof fn lemma_indicator_sum(names: Seq<Seq<char>>, t: Seq<char>)
    requires
        forall|i: int, j: int| 0 <= i < j < names.len() ==> names[i] != names[j],
    ensures
        sum_nats(names.map_values(|n: Seq<char>| if t == n { 1nat } else { 0nat })) == if names.contains(t) {
            1nat
        } else {
            0nat
        },
    decreases names.len(),
{
    let f = |n: Seq<char>| if t == n { 1nat } else { 0nat };
    if names.len() > 0 {
        let init = names.drop_last();
        lemma_indicator_sum(init, t);
        assert(names.map_values(f).drop_last() =~= init.map_values(f));
        if names.last() == t {
            assert(!init.contains(t)) by {
                if init.contains(t) {
                    let k = choose|k: int| 0 <= k < init.len() && init[k] == t;
                    assert(names[k] == names[names.len() - 1]);
                }
            }
            assert(names.contains(t)) by {
                assert(names[names.len() - 1] == t);
            }
        } else {
            if init.contains(t) {
                let k = choose|k: int| 0 <= k < init.len() && init[k] == t;
                assert(names[k] == t);
            }
            if names.contains(t) {
                let k = choose|k: int| 0 <= k < names.len() && names[k] == t;
                assert(k < names.len() - 1);
                assert(init[k] == t);
            }
        }
    }
}

proof fn lemma_tally_total(names: Seq<Seq<char>>, texts: Seq<Seq<char>>)
    requires
        forall|i: int, j: int| 0 <= i < j < names.len() ==> names[i] != names[j],
        forall|i: int| 0 <= i < texts.len() ==> names.contains(#[trigger] texts[i]),
    ensures
        sum_nats(tally_of(names, texts)) == texts.len(),
    decreases texts.len(),
{
    if texts.len() == 0 {
        assert forall|k: int| 0 <= k < names.len() implies #[trigger] tally_of(names, texts)[k] == 0 by {}
        lemma_sum_zero(tally_of(names, texts));
    } else {
        let init = texts.drop_last();
        let t = texts.last();
        assert forall|i: int| 0 <= i < init.len() implies names.contains(#[trigger] init[i]) by {
            assert(init[i] == texts[i]);
        }
        lemma_tally_total(names, init);
        let ind = names.map_values(|n: Seq<char>| if t == n { 1nat } else { 0nat });
        lemma_indicator_sum(names, t);
        assert(names.contains(t)) by {
            assert(texts[texts.len() - 1] == t);
        }
        let a = tally_of(names, init);
        assert(tally_of(names, texts) =~= Seq::new(a.len(), |i: int| a[i] + ind[i]));
        lemma_sum_nats_add(a, ind);
    }
}

proof fn lemma_sum_zero(s: Seq<nat>)
    requires
        forall|k: int| 0 <= k < s.len() ==> s[k] == 0,
    ensures
        sum_nats(s) == 0,
    decreases s.len(),
{
    if s.len() > 0 {
        lemma_sum_zero(s.drop_last());
    }
}

/// The per-name action counts of a plan add up to its number of actions.
pub proof fn law_action_counts_add_up(actions: Seq<PlannedAction>)
    ensures
        sum_nats(tally_of(action_names(), action_texts(actions))) == actions.len(),
{
    reveal_strlit("conflict");
    reveal_strlit("create_google");
    reveal_strlit("create_icloud");
    reveal_strlit("delete_google");
    reveal_strlit("delete_icloud");
    reveal_strlit("noop");
    reveal_strlit("snapshot");
    reveal_strlit("update_google");
    reveal_strlit("update_icloud");
    let names = action_names();
    assert forall|i: int, j: int| 0 <= i < j < names.len() implies names[i] != names[j] by {
        if names[i] == names[j] {
            assert(names[i].len() == names[j].len());
            assert(names[i][0] == names[j][0]);
            assert(names[i][names[i].len() - 1] == names[j][names[j].len() - 1]);
            assert(names[i][7] == names[j][7]);
        }
    }
    let texts = action_texts(actions);
    assert forall|i: int| 0 <= i < texts.len() implies names.contains(#[trigger] texts[i]) by {
        let a = actions[i];
        match a {
            PlannedAction::Snapshot { .. } => assert(names[6] == texts[i]),
            PlannedAction::Noop { .. } => assert(names[5] == texts[i]),
            PlannedAction::CreateGoogle(_) => assert(names[1] == texts[i]),
            PlannedAction::CreateIcloud(_) => assert(names[2] == texts[i]),
            PlannedAction::UpdateGoogle(_) => assert(names[7] == texts[i]),
            PlannedAction::UpdateIcloud(_) => assert(names[8] == texts[i]),
            PlannedAction::DeleteGoogle(_) => assert(names[3] == texts[i]),
            PlannedAction::DeleteIcloud(_) => assert(names[4] == texts[i]),
            PlannedAction::Conflict { .. } => assert(names[0] == texts[i]),
        }
    }
    lemma_tally_total(names, texts);
}

/// After an upsert the link keeps every id, etag and hash it already had:
/// a field is only replaced by a newer value, never cleared.
pub proof fn law_upsert_keeps_known_values(
    pair_id: Seq<char>,
    uid: Seq<char>,
    existing: EventLink,
    google_meta: Option<ProviderEventMeta>,
    icloud_meta: Option<ProviderEventMeta>,
    google_hash: Option<Seq<char>>,
    icloud_hash: Option<Seq<char>>,
    last_synced_hash: Option<Seq<char>>,
    deleted_google_at: Option<Seq<char>>,
    deleted_icloud_at: Option<Seq<char>>,
)
    ensures
        ({
            let v = upsert_spec(
                pair_id,
                uid,
                Some(existing),
                google_meta,
                icloud_meta,
                google_hash,
                icloud_hash,
                last_synced_hash,
                deleted_google_at,
                deleted_icloud_at,
            );
            &&& existing.google_event_id is Some ==> v.google_event_id is Some
            &&& existing.google_ical_uid is Some ==> v.google_ical_uid is Some
            &&& existing.google_etag is Some ==> v.google_etag is Some
            &&& existing.icloud_href is Some ==> v.icloud_href is Some
            &&& existing.icloud_uid is Some ==> v.icloud_uid is Some
            &&& existing.icloud_etag is Some ==> v.icloud_etag is Some
            &&& existing.google_hash is Some ==> v.google_hash is Some
            &&& existing.icloud_hash is Some ==> v.icloud_hash is Some
            &&& existing.last_synced_hash is Some ==> v.last_synced_hash is Some
            &&& v.deleted_google_at == deleted_google_at
            &&& v.deleted_icloud_at == deleted_icloud_at
        }),
{
}

/// The agreed hash does not depend on which side is named first.
pub proof fn law_synced_hash_symmetric(g: Option<Seq<char>>, i: Option<Seq<char>>)
    ensures
        synced_hash_spec(g, i) == synced_hash_spec(i, g),
        synced_hash_spec(g, i) is Some ==> (synced_hash_spec(g, i) == g || synced_hash_spec(g, i) == i),
{
}

/// A CSV field without a comma, quote or line break is written as it is;
/// any other is quoted with its quotes doubled.
pub proof fn law_csv_field(v: Seq<char>)
    ensures
        !contains_any(v, seq![',', '"', '\n', '\r']) ==> csv_field(v) == v,
        contains_any(v, seq![',', '"', '\n', '\r']) ==> csv_field(v) == seq!['"'] + doubled_quotes(v)
            + seq!['"'],
{
}

/// The report has its header and one line per row.
pub proof fn law_report_line_per_row(rows: Seq<ReportRow>)
    ensures
        report_lines(rows).len() == rows.len() + 1,
{
}

proof fn lemma_included_len(pair_id: Seq<char>, actions: Seq<PlannedAction>, mode: ReportMode)
    ensures
        included_rows(pair_id, actions, mode).len() <= actions.len(),
        mode == ReportMode::AllActions ==> included_rows(pair_id, actions, mode).len() == actions.len(),
    decreases actions.len(),
{
    if actions.len() > 0 {
        lemma_included_len(pair_id, actions.drop_last(), mode);
    }
}

/// Asking for every action reports every action; otherwise only the
/// snapshots are left out.
pub proof fn law_report_rows_per_mode(pair_id: Seq<char>, actions: Seq<PlannedAction>, a: PlannedAction)
    ensures
        included_rows(pair_id, actions, ReportMode::AllActions).len() == actions.len(),
        included_rows(pair_id, actions, ReportMode::ActionsOnly).len() <= actions.len(),
        included(a, ReportMode::ActionsOnly) == !(a is Snapshot),
{
    lemma_included_len(pair_id, actions, ReportMode::AllActions);
    lemma_included_len(pair_id, actions, ReportMode::ActionsOnly);
}

proof fn lemma_stale_all(rows: Seq<StoredConflict>)
    ensures
        stale_ids(rows, Seq::empty()) == rows.map_values(|r: StoredConflict| r.id@),
    decreases rows.len(),
{
    if rows.len() > 0 {
        lemma_stale_all(rows.drop_last());
        assert(rows.map_values(|r: StoredConflict| r.id@).drop_last() =~= rows.drop_last().map_values(
            |r: StoredConflict| r.id@,
        ));
    }
}

/// Clearing stale conflicts never clears one the plan still reports, always
/// clears one without a uid, and clears everything when the plan reports
/// none.
pub proof fn law_stale_conflicts(rows: Seq<StoredConflict>, active: Seq<ActiveConflict>, row: StoredConflict)
    ensures
        row.canonical_uid matches Some(uid) && is_active(active, crate::store::conflict_key(uid@, row.reason@))
            ==> !is_stale(row, active),
        row.canonical_uid is None ==> is_stale(row, active),
        stale_ids(rows, Seq::empty()) == rows.map_values(|r: StoredConflict| r.id@),
{
    lemma_stale_all(rows);
}

/// A provider write goes to the pair's calendar on that provider: every
/// create, update or delete step planned for a pair addresses
/// `google_calendar_id` when it writes to Google and `icloud_calendar_id`
/// when it writes to iCloud; a create or update step carries the event the
/// action was planned with, on the side the action names.
pub proof fn law_writes_address_the_pairs_calendar(pair: SyncPairConfig, a: PlannedAction)
    ensures
        planned_step(pair, a) matches Some(StepView::Create { provider, calendar_id }) ==> calendar_id == (
        if provider == ProviderName::Google {
            pair.google_calendar_id@
        } else {
            pair.icloud_calendar_id@
        }),
        planned_step(pair, a) matches Some(StepView::Update { provider, calendar_id, .. }) ==> calendar_id == (
        if provider == ProviderName::Google {
            pair.google_calendar_id@
        } else {
            pair.icloud_calendar_id@
        }),
        planned_step(pair, a) matches Some(StepView::Delete { provider, calendar_id, .. }) ==> calendar_id == (
        if provider == ProviderName::Google {
            pair.google_calendar_id@
        } else {
            pair.icloud_calendar_id@
        }),
        (a is CreateGoogle || a is UpdateGoogle || a is DeleteGoogle) ==> (planned_step(pair, a) matches Some(
            st,
        ) ==> (st matches StepView::Create { provider, .. } && provider == ProviderName::Google) || (
        st matches StepView::Update { provider, .. } && provider == ProviderName::Google) || (
        st matches StepView::Delete { provider, .. } && provider == ProviderName::Google)),
        (a is CreateIcloud || a is UpdateIcloud || a is DeleteIcloud) ==> (planned_step(pair, a) matches Some(
            st,
        ) ==> (st matches StepView::Create { provider, .. } && provider == ProviderName::Icloud) || (
        st matches StepView::Update { provider, .. } && provider == ProviderName::Icloud) || (
        st matches StepView::Delete { provider, .. } && provider == ProviderName::Icloud)),
{
}

/// The report's date columns show each side's own start and end: for a side
/// with an event, its start column is that event's formatted start and its
/// end column that event's formatted end; for a side without one both are
/// empty.
pub proof fn law_report_dates_are_each_sides_own(pair_id: Seq<char>, a: PlannedAction)
    ensures
        report_columns(pair_id, a)[11] == (match side_event(google_side(a)) {
            Some(e) => date_column(e.start),
            None => Seq::<char>::empty(),
        }),
        report_columns(pair_id, a)[13] == (match side_event(google_side(a)) {
            Some(e) => date_column(e.end),
            None => Seq::<char>::empty(),
        }),
        report_columns(pair_id, a)[12] == (match side_event(icloud_side(a)) {
            Some(e) => date_column(e.start),
            None => Seq::<char>::empty(),
        }),
        report_columns(pair_id, a)[14] == (match side_event(icloud_side(a)) {
            Some(e) => date_column(e.end),
            None => Seq::<char>::empty(),
        }),
{
}

} // verus!

//! Totals of a planning run over the enabled pairs: per-pair summaries,
//! per-name counts and the report rows, gathered pair by pair as the shell
//! plans each one.
use crate::config::ServiceConfig;
use crate::engine::{
    action_count_entries, action_names, action_texts, count_actions, count_resolutions,
    enabled_pair_count, enabled_pairs_in, entries_of, entry_views, merge_counts, resolution_count_entries,
    resolution_names, resolution_texts, should_include_report_action, tally_of, tally_view, PairPlanSummary,
    PlannedSyncSummary, ReportMode, ReportRow, RunMode,
};
use crate::engine_report::{action_reportable, action_to_report_row, report_columns, reportable, row_columns};
use crate::planner::PlannedAction;
use crate::text::owned;
use vstd::prelude::*;

verus! {

pub open spec fn included(a: PlannedAction, mode: ReportMode) -> bool {
    mode == ReportMode::AllActions || !(a is Snapshot)
}

/// The report columns of the actions the mode keeps, in order.
pub open spec fn included_rows(pair_id: Seq<char>, actions: Seq<PlannedAction>, mode: ReportMode) -> Seq<Seq<Seq<char>>>
    decreases actions.len(),
{
    if actions.len() == 0 {
        Seq::empty()
    } else if included(actions.last(), mode) {
        included_rows(pair_id, actions.drop_last(), mode).push(report_columns(pair_id, actions.last()))
    } else {
        included_rows(pair_id, actions.drop_last(), mode)
    }
}

pub open spec fn rows_view(rows: Seq<ReportRow>) -> Seq<Seq<Seq<char>>> {
    rows.map_values(|r: ReportRow| row_columns(r))
}

pub open spec fn all_reportable(actions: Seq<PlannedAction>, mode: ReportMode) -> bool {
    forall|i: int| 0 <= i < actions.len() && included(actions[i], mode) ==> reportable(#[trigger] actions[i])
}

/// The report rows of a pair's plan.
pub fn report_rows_for(pair_id: &str, actions: &[PlannedAction], mode: ReportMode) -> (r: Vec<ReportRow>)
    requires
        all_reportable(actions@, mode),
    ensures
        rows_view(r@) == included_rows(pair_id@, actions@, mode),
{
    let mut rows: Vec<ReportRow> = Vec::new();
    let mut i: usize = 0;
    while i < actions.len()
        invariant
            i <= actions@.len(),
            all_reportable(actions@, mode),
            rows_view(rows@) == included_rows(pair_id@, actions@.take(i as int), mode),
        decreases actions@.len() - i,
    {
        proof {
            assert(actions@.take(i + 1).drop_last() =~= actions@.take(i as int));
            assert(actions@.take(i + 1).last() == actions@[i as int]);
        }
        if should_include_report_action(&actions[i], mode) {
            let ghost before = rows@;
            let row = action_to_report_row(pair_id, &actions[i]);
            rows.push(row);
            assert(rows_view(rows@) =~= rows_view(before).push(row_columns(row)));
        }
        i = i + 1;
    }
    assert(actions@.take(actions@.len() as int) =~= actions@);
    rows
}

/// Whether every row the mode keeps can be written (`all_reportable`).
pub fn actions_reportable(actions: &[PlannedAction], mode: ReportMode) -> (r: bool)
    ensures
        r == all_reportable(actions@, mode),
{
    let mut i: usize = 0;
    while i < actions.len()
        invariant
            i <= actions@.len(),
            forall|k: int| 0 <= k < i && included(actions@[k], mode) ==> reportable(#[trigger] actions@[k]),
        decreases actions@.len() - i,
    {
        if should_include_report_action(&actions[i], mode) && !action_reportable(&actions[i]) {
            return false;
        }
        i = i + 1;
    }
    true
}

/// The summary of one pair's plan.
pub fn pair_plan_summary(pair_id: &str, google_events: usize, icloud_events: usize, actions: &[PlannedAction]) -> (r:
    PairPlanSummary)
    ensures
        r.pair_id@ == pair_id@,
        r.google_events == google_events,
        r.icloud_events == icloud_events,
        r.actions == actions@.len(),
        entry_views(r.action_counts@) == entries_of(action_names(), tally_of(action_names(), action_texts(actions@))),
        entry_views(r.resolution_counts@) == entries_of(
            resolution_names(),
            tally_of(resolution_names(), resolution_texts(actions@)),
        ),
{
    let a = count_actions(actions);
    let r = count_resolutions(actions);
    proof {
        assert(tally_view(a@).len() == action_names().len());
        assert(tally_view(r@).len() == resolution_names().len());
    }
    PairPlanSummary {
        pair_id: owned(pair_id),
        google_events,
        icloud_events,
        actions: actions.len(),
        action_counts: action_count_entries(&a),
        resolution_counts: resolution_count_entries(&r),
    }
}

/// What a planning run has gathered so far.
pub struct PlanTotals {
    pub pair_summaries: Vec<PairPlanSummary>,
    pub action_counts: Vec<usize>,
    pub resolution_counts: Vec<usize>,
    pub report_rows: Vec<ReportRow>,
}

pub open spec fn sum_seqs(a: Seq<nat>, b: Seq<nat>) -> Seq<nat> {
    Seq::new(a.len(), |i: int| a[i] + b[i])
}

/// The totals can take a pair's counts without passing `usize`.
pub open spec fn fits(totals: Seq<usize>, more: Seq<nat>) -> bool {
    totals.len() == more.len() && forall|i: int| 0 <= i < totals.len() ==> totals[i] + more[i] <= usize::MAX
}

fn zeros(n: usize) -> (r: Vec<usize>)
    ensures
        r@.len() == n,
        forall|i: int| 0 <= i < n ==> r@[i] == 0,
{
    let mut v: Vec<usize> = Vec::new();
    let mut i: usize = 0;
    while i < n
        invariant
            i <= n,
            v@.len() == i,
            forall|k: int| 0 <= k < i ==> v@[k] == 0,
        decreases n - i,
    {
        v.push(0);
        i = i + 1;
    }
    v
}

fn counts_fit(totals: &Vec<usize>, more: &Vec<usize>) -> (r: bool)
    ensures
        r == fits(totals@, tally_view(more@)),
{
    if totals.len() != more.len() {
        return false;
    }
    let mut i: usize = 0;
    while i < totals.len()
        invariant
            totals@.len() == more@.len(),
            i <= totals@.len(),
            forall|k: int| 0 <= k < i ==> totals@[k] + tally_view(more@)[k] <= usize::MAX,
        decreases totals@.len() - i,
    {
        if totals[i] > usize::MAX - more[i] {
            assert(totals@[i as int] + tally_view(more@)[i as int] > usize::MAX);
            return false;
        }
        i = i + 1;
    }
    true
}

impl PlanTotals {
    pub open spec fn well_formed(&self) -> bool {
        self.action_counts@.len() == action_names().len() && self.resolution_counts@.len() == resolution_names().len()
    }

    pub fn new() -> (r: PlanTotals)
        ensures
            r.well_formed(),
            r.pair_summaries@.len() == 0,
            r.report_rows@.len() == 0,
            forall|i: int| 0 <= i < r.action_counts@.len() ==> r.action_counts@[i] == 0,
            forall|i: int| 0 <= i < r.resolution_counts@.len() ==> r.resolution_counts@[i] == 0,
    {
        PlanTotals { pair_summaries: Vec::new(), action_counts: zeros(9), resolution_counts: zeros(3), report_rows: Vec::new() }
    }

    /// Adds one pair's plan: its summary, its counts and its report rows.
    pub fn add_pair(
        &mut self,
        pair_id: &str,
        google_events: usize,
        icloud_events: usize,
        actions: &[PlannedAction],
        mode: ReportMode,
    )
        requires
            old(self).well_formed(),
            all_reportable(actions@, mode),
            fits(old(self).action_counts@, tally_of(action_names(), action_texts(actions@))),
            fits(old(self).resolution_counts@, tally_of(resolution_names(), resolution_texts(actions@))),
        ensures
            final(self).well_formed(),
            final(self).pair_summaries@.len() == old(self).pair_summaries@.len() + 1,
            final(self).pair_summaries@.drop_last() == old(self).pair_summaries@,
            final(self).pair_summaries@.last().pair_id@ == pair_id@,
            final(self).pair_summaries@.last().actions == actions@.len(),
            tally_view(final(self).action_counts@) == sum_seqs(
                tally_view(old(self).action_counts@),
                tally_of(action_names(), action_texts(actions@)),
            ),
            tally_view(final(self).resolution_counts@) == sum_seqs(
                tally_view(old(self).resolution_counts@),
                tally_of(resolution_names(), resolution_texts(actions@)),
            ),
            rows_view(final(self).report_rows@) == rows_view(old(self).report_rows@) + included_rows(
                pair_id@,
                actions@,
                mode,
            ),
    {
        let a = count_actions(actions);
        let r = count_resolutions(actions);
        let ghost old_a = self.action_counts@;
        let ghost old_r = self.resolution_counts@;
        proof {
            assert forall|i: int| 0 <= i < a@.len() implies old_a[i] + a@[i] <= usize::MAX by {
                assert(tally_view(a@)[i] == a@[i]);
            }
            assert forall|i: int| 0 <= i < r@.len() implies old_r[i] + r@[i] <= usize::MAX by {
                assert(tally_view(r@)[i] == r@[i]);
            }
        }
        merge_counts(&mut self.action_counts, &a);
        merge_counts(&mut self.resolution_counts, &r);
        assert(tally_view(self.action_counts@) =~= sum_seqs(tally_view(old_a), tally_view(a@)));
        assert(tally_view(self.resolution_counts@) =~= sum_seqs(tally_view(old_r), tally_view(r@)));
        let rows = report_rows_for(pair_id, actions, mode);
        let ghost before_rows = self.report_rows@;
        let ghost ac = self.action_counts@;
        let ghost rc = self.resolution_counts@;
        let mut i: usize = 0;
        while i < rows.len()
            invariant
                i <= rows@.len(),
                self.report_rows@ == before_rows + rows@.take(i as int),
                self.action_counts@ == ac,
                self.resolution_counts@ == rc,
                self.pair_summaries@ == old(self).pair_summaries@,
            decreases rows@.len() - i,
        {
            let row = rows[i].clone_row();
            self.report_rows.push(row);
            i = i + 1;
            assert(self.report_rows@ =~= before_rows + rows@.take(i as int));
        }
        assert(rows@.take(rows@.len() as int) =~= rows@);
        assert(rows_view(self.report_rows@) =~= rows_view(before_rows) + rows_view(rows@));
        let summary = pair_plan_summary(pair_id, google_events, icloud_events, actions);
        self.pair_summaries.push(summary);
        assert(self.pair_summaries@.drop_last() =~= old(self).pair_summaries@);
    }

    /// Adds one pair's plan when its rows can be written and its counts fit
    /// the totals; otherwise leaves the totals as they were and says so.
    pub fn add_pair_checked(
        &mut self,
        pair_id: &str,
        google_events: usize,
        icloud_events: usize,
        actions: &[PlannedAction],
        mode: ReportMode,
    ) -> (r: bool)
        requires
            old(self).well_formed(),
        ensures
            final(self).well_formed(),
            r == (all_reportable(actions@, mode) && fits(
                old(self).action_counts@,
                tally_of(action_names(), action_texts(actions@)),
            ) && fits(old(self).resolution_counts@, tally_of(resolution_names(), resolution_texts(actions@)))),
            !r ==> *final(self) == *old(self),
            r ==> final(self).pair_summaries@.len() == old(self).pair_summaries@.len() + 1,
            r ==> final(self).pair_summaries@.drop_last() == old(self).pair_summaries@,
            r ==> final(self).pair_summaries@.last().pair_id@ == pair_id@,
            r ==> final(self).pair_summaries@.last().actions == actions@.len(),
            r ==> tally_view(final(self).action_counts@) == sum_seqs(
                tally_view(old(self).action_counts@),
                tally_of(action_names(), action_texts(actions@)),
            ),
            r ==> tally_view(final(self).resolution_counts@) == sum_seqs(
                tally_view(old(self).resolution_counts@),
                tally_of(resolution_names(), resolution_texts(actions@)),
            ),
            r ==> rows_view(final(self).report_rows@) == rows_view(old(self).report_rows@) + included_rows(
                pair_id@,
                actions@,
                mode,
            ),
    {
        if !actions_reportable(actions, mode) {
            return false;
        }
        let a = count_actions(actions);
        let c = count_resolutions(actions);
        if !counts_fit(&self.action_counts, &a) || !counts_fit(&self.resolution_counts, &c) {
            return false;
        }
        self.add_pair(pair_id, google_events, icloud_events, actions, mode);
        true
    }

    /// The run's summary once every enabled pair has been added.
    pub fn finish(self, db_path: String, config: &ServiceConfig, mode: RunMode) -> (r: PlannedSyncSummary)
        requires
            self.well_formed(),
        ensures
            r.db_path == db_path,
            r.configured_pair_count == config.sync.pairs@.len(),
            r.enabled_pair_count == enabled_pairs_in(config.sync.pairs@),
            r.pair_summaries@ == self.pair_summaries@,
            entry_views(r.action_counts@) == entries_of(action_names(), tally_view(self.action_counts@)),
            entry_views(r.resolution_counts@) == entries_of(resolution_names(), tally_view(self.resolution_counts@)),
            r.report_rows@ == self.report_rows@,
            r.mode == mode,
    {
        let action_counts = action_count_entries(&self.action_counts);
        let resolution_counts = resolution_count_entries(&self.resolution_counts);
        PlannedSyncSummary {
            db_path,
            configured_pair_count: config.sync.pairs.len(),
            enabled_pair_count: enabled_pair_count(config),
            pair_summaries: self.pair_summaries,
            action_counts,
            resolution_counts,
            report_rows: self.report_rows,
            mode,
        }
    }
}

impl ReportRow {
    /// A copy of the row.
    pub fn clone_row(&self) -> (r: ReportRow)
        ensures
            r == *self,
    {
        ReportRow {
            pair_id: self.pair_id.clone(),
            action: self.action.clone(),
            canonical_uid: self.canonical_uid.clone(),
            reason: self.reason.clone(),
            resolution: self.resolution.clone(),
            conflict_policy: self.conflict_policy.clone(),
            title: self.title.clone(),
            google_present: self.google_present.clone(),
            icloud_present: self.icloud_present.clone(),
            google_title: self.google_title.clone(),
            icloud_title: self.icloud_title.clone(),
            google_start: self.google_start.clone(),
            icloud_start: self.icloud_start.clone(),
            google_end: self.google_end.clone(),
            icloud_end: self.icloud_end.clone(),
            google_status: self.google_status.clone(),
            icloud_status: self.icloud_status.clone(),
            google_hash: self.google_hash.clone(),
            icloud_hash: self.icloud_hash.clone(),
            diff_fields: self.diff_fields.clone(),
        }
    }
}

} // verus!

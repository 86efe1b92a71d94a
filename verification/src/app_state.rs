//! Building the control-plane model from the configuration and folding
//! runtime snapshots from the engine into it.
use crate::app::{
    ensured_conflict, ensured_report, ensured_run, pair_index_from, setup_from, AppModel, AppPair,
    AppPairRuntimeSnapshot, AppReportFilter, AppReportSort, AppRunFilter, AppRuntimeSnapshot,
    AppSetupState, AppStatus, AppView,
};
use crate::config::{ServiceConfig, SyncPairConfig};
use crate::text::clone_opt;
use vstd::prelude::*;

verus! {

/// The dashboard entry for a configured pair, before any metadata is known.
pub open spec fn pair_from_config(p: AppPair, c: SyncPairConfig) -> bool {
    &&& p.id == c.id
    &&& p.enabled == c.enabled
    &&& p.direction == c.direction
    &&& p.google_calendar_id == c.google_calendar_id
    &&& p.icloud_calendar_id == c.icloud_calendar_id
    &&& p.google_calendar_name is None
    &&& p.icloud_calendar_name is None
    &&& p.google_account_label is None
    &&& p.icloud_account_label is None
    &&& p.google_last_sync_at is None
    &&& p.icloud_last_sync_at is None
}

/// The model as it stands when the shell starts.
pub open spec fn initial_model(m: AppModel, c: ServiceConfig) -> bool {
    &&& m.status == AppStatus::Idle
    &&& m.view == AppView::Dashboard
    &&& !m.command_palette_open
    &&& !m.confirm_apply
    &&& m.selected_command_index == 0
    &&& m.selected_pair_id == (if c.sync.pairs@.len() > 0 {
        Some(c.sync.pairs@[0].id)
    } else {
        None
    })
    &&& m.selected_run_id is None
    &&& m.selected_conflict_index is None
    &&& m.run_filter == AppRunFilter::All
    &&& setup_from(m.setup, c)
    &&& m.report_filter == AppReportFilter::All
    &&& m.report_sort == AppReportSort::Pair
    &&& m.selected_report_index is None
    &&& !m.background_paused
    &&& m.conflict_count == 0
    &&& m.last_message is None
    &&& m.last_run_at is None
    &&& m.last_run_status is None
    &&& m.next_run_at is None
    &&& m.recent_error is None
    &&& m.pairs@.len() == c.sync.pairs@.len()
    &&& forall|i: int| 0 <= i < m.pairs@.len() ==> pair_from_config(#[trigger] m.pairs@[i], c.sync.pairs@[i])
    &&& m.runs@.len() == 0
    &&& m.report_rows@.len() == 0
    &&& m.plan is None
    &&& m.conflict_summaries@.len() == 0
    &&& m.conflict_details@.len() == 0
}

fn pair_entry(c: &SyncPairConfig) -> (r: AppPair)
    ensures
        pair_from_config(r, *c),
{
    AppPair {
        id: c.id.clone(),
        enabled: c.enabled,
        direction: c.direction,
        google_calendar_id: c.google_calendar_id.clone(),
        icloud_calendar_id: c.icloud_calendar_id.clone(),
        google_calendar_name: None,
        icloud_calendar_name: None,
        google_account_label: None,
        icloud_account_label: None,
        google_last_sync_at: None,
        icloud_last_sync_at: None,
    }
}

impl AppModel {
    /// The model for a configuration: dashboard view, idle, the first pair
    /// selected, one entry per configured pair in order.
    pub fn from_config(config: &ServiceConfig) -> (r: AppModel)
        ensures
            initial_model(r, *config),
    {
        let mut pairs: Vec<AppPair> = Vec::new();
        let mut i: usize = 0;
        while i < config.sync.pairs.len()
            invariant
                i <= config.sync.pairs@.len(),
                pairs@.len() == i,
                forall|j: int| 0 <= j < i ==> pair_from_config(#[trigger] pairs@[j], config.sync.pairs@[j]),
            decreases config.sync.pairs@.len() - i,
        {
            pairs.push(pair_entry(&config.sync.pairs[i]));
            i = i + 1;
        }
        let selected_pair_id = if config.sync.pairs.len() > 0 {
            Some(config.sync.pairs[0].id.clone())
        } else {
            None
        };
        AppModel {
            status: AppStatus::Idle,
            view: AppView::Dashboard,
            command_palette_open: false,
            confirm_apply: false,
            selected_command_index: 0,
            selected_pair_id,
            selected_run_id: None,
            selected_conflict_index: None,
            run_filter: AppRunFilter::All,
            setup: AppSetupState::from_config(config),
            report_filter: AppReportFilter::All,
            report_sort: AppReportSort::Pair,
            selected_report_index: None,
            background_paused: false,
            conflict_count: 0,
            last_message: None,
            last_run_at: None,
            last_run_status: None,
            next_run_at: None,
            recent_error: None,
            pairs,
            runs: Vec::new(),
            report_rows: Vec::new(),
            plan: None,
            conflict_summaries: Vec::new(),
            conflict_details: Vec::new(),
        }
    }
}

/// A pair with the cached metadata of a snapshot written over its own.
pub open spec fn with_metadata(p: AppPair, s: AppPairRuntimeSnapshot) -> AppPair {
    AppPair {
        google_calendar_name: s.google_calendar_name,
        icloud_calendar_name: s.icloud_calendar_name,
        google_account_label: s.google_account_label,
        icloud_account_label: s.icloud_account_label,
        google_last_sync_at: s.google_last_sync_at,
        icloud_last_sync_at: s.icloud_last_sync_at,
        ..p
    }
}

/// One pair snapshot applied: the first pair with its id takes its metadata;
/// a snapshot for an unknown pair changes nothing.
pub open spec fn apply_pair_snapshot(pairs: Seq<AppPair>, s: AppPairRuntimeSnapshot) -> Seq<AppPair> {
    match pair_index_from(pairs, s.pair_id@, 0) {
        Some(k) => pairs.update(k, with_metadata(pairs[k], s)),
        None => pairs,
    }
}

/// The pair snapshots applied in order.
pub open spec fn apply_pair_snapshots(pairs: Seq<AppPair>, snaps: Seq<AppPairRuntimeSnapshot>) -> Seq<AppPair>
    decreases snaps.len(),
{
    if snaps.len() == 0 {
        pairs
    } else {
        apply_pair_snapshot(apply_pair_snapshots(pairs, snaps.drop_last()), snaps.last())
    }
}

/// The model after a runtime snapshot: counters, runs, report rows, plan and
/// conflicts replaced; pair metadata merged; each selection made valid for
/// the new lists; everything else as before.
pub open spec fn snapshot_applied(old: AppModel, s: AppRuntimeSnapshot, new: AppModel) -> bool {
    &&& new.pairs@ == apply_pair_snapshots(old.pairs@, s.pairs@)
    &&& new == AppModel {
        conflict_count: s.conflict_count,
        last_run_at: s.last_run_at,
        last_run_status: s.last_run_status,
        next_run_at: s.next_run_at,
        recent_error: s.recent_error,
        pairs: new.pairs,
        runs: s.runs,
        selected_run_id: ensured_run(AppModel { runs: s.runs, ..old }),
        report_rows: s.report_rows,
        plan: s.plan,
        selected_report_index: ensured_report(AppModel { report_rows: s.report_rows, ..old }),
        conflict_summaries: s.conflict_summaries,
        conflict_details: s.conflict_details,
        selected_conflict_index: ensured_conflict(AppModel { conflict_summaries: s.conflict_summaries, ..old }),
        ..old
    }
}

impl AppModel {
    fn apply_pair_metadata(&mut self, s: &AppPairRuntimeSnapshot)
        ensures
            *final(self) == (AppModel { pairs: final(self).pairs, ..*old(self) }),
            final(self).pairs@ == apply_pair_snapshot(old(self).pairs@, *s),
    {
        match self.pair_position(s.pair_id.as_str()) {
            Some(k) => {
                let mut p = self.pairs[k].duplicate();
                p.google_calendar_name = clone_opt(&s.google_calendar_name);
                p.icloud_calendar_name = clone_opt(&s.icloud_calendar_name);
                p.google_account_label = clone_opt(&s.google_account_label);
                p.icloud_account_label = clone_opt(&s.icloud_account_label);
                p.google_last_sync_at = clone_opt(&s.google_last_sync_at);
                p.icloud_last_sync_at = clone_opt(&s.icloud_last_sync_at);
                self.pairs.set(k, p);
            },
            None => {},
        }
    }

    /// Folds a snapshot from the engine into the model.
    pub fn apply_runtime_snapshot(&mut self, snapshot: AppRuntimeSnapshot)
        ensures
            snapshot_applied(*old(self), snapshot, *final(self)),
    {
        let ghost old_model = *self;
        self.conflict_count = snapshot.conflict_count;
        self.last_run_at = snapshot.last_run_at;
        self.last_run_status = snapshot.last_run_status;
        self.next_run_at = snapshot.next_run_at;
        self.recent_error = snapshot.recent_error;
        let ghost base = *self;
        let mut i: usize = 0;
        while i < snapshot.pairs.len()
            invariant
                i <= snapshot.pairs@.len(),
                *self == (AppModel { pairs: self.pairs, ..base }),
                self.pairs@ == apply_pair_snapshots(old_model.pairs@, snapshot.pairs@.take(i as int)),
            decreases snapshot.pairs@.len() - i,
        {
            proof {
                let t = snapshot.pairs@.take(i + 1);
                assert(t.drop_last() =~= snapshot.pairs@.take(i as int));
            }
            self.apply_pair_metadata(&snapshot.pairs[i]);
            i = i + 1;
        }
        assert(snapshot.pairs@.take(snapshot.pairs@.len() as int) =~= snapshot.pairs@);
        self.runs = snapshot.runs;
        self.ensure_selected_run();
        self.report_rows = snapshot.report_rows;
        self.plan = snapshot.plan;
        self.ensure_selected_report_row();
        self.conflict_summaries = snapshot.conflict_summaries;
        self.conflict_details = snapshot.conflict_details;
        self.ensure_selected_conflict();
    }
}

} // verus!

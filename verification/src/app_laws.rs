//! Properties of the control-plane model that span several events.
use crate::app::{
    ensured_conflict, ensured_report, ensured_run, pair_index_from, run_id_visible, step,
    stepped_conflict, stepped_pair, stepped_report, AppCommand, AppEvent, AppModel, AppPair,
    AppPairRuntimeSnapshot, AppReportFilter, AppReportRow, filtered_rows, insert_row, sorted_rows, AppReportSort, AppRunFilter, AppStatus, count_enabled,
    visible_row_seq,
};
use crate::app_events::{
    after_event, command_at, command_event, event_effects, shell_notification_views, simple_after, EffectView,
    NotificationView,
};
use crate::app_state::{apply_pair_snapshot, apply_pair_snapshots};
use crate::app::AppNotificationSeverity;
use vstd::prelude::*;

verus! {

/// Stepping forward and then back (or back and then forward) on a ring of
/// `n` positions returns to the start.
proof fn lemma_step_inverse(k: int, n: int)
    requires
        0 <= k < n,
    ensures
        0 <= step(k, n, true) < n,
        0 <= step(k, n, false) < n,
        step(step(k, n, true), n, false) == k,
        step(step(k, n, false), n, true) == k,
{
    if k + 1 < n {
        vstd::arithmetic::div_mod::lemma_small_mod((k + 1) as nat, n as nat);
    } else {
        vstd::arithmetic::div_mod::lemma_fundamental_div_mod_converse_mod(k + 1, n, 1, 0);
    }
    if k >= 1 {
        vstd::arithmetic::div_mod::lemma_small_mod((k - 1) as nat, n as nat);
    } else {
        vstd::arithmetic::div_mod::lemma_fundamental_div_mod_converse_mod(k - 1, n, -1, n - 1);
    }
    let f = step(k, n, true);
    let b = step(k, n, false);
    if f >= 1 {
        vstd::arithmetic::div_mod::lemma_small_mod((f - 1) as nat, n as nat);
    } else {
        vstd::arithmetic::div_mod::lemma_fundamental_div_mod_converse_mod(f - 1, n, -1, n - 1);
    }
    if b + 1 < n {
        vstd::arithmetic::div_mod::lemma_small_mod((b + 1) as nat, n as nat);
    } else {
        vstd::arithmetic::div_mod::lemma_fundamental_div_mod_converse_mod(b + 1, n, 1, 0);
    }
}

pub open spec fn distinct_pair_ids(pairs: Seq<AppPair>) -> bool {
    forall|i: int, j: int| 0 <= i < j < pairs.len() ==> #[trigger] pairs[i].id@ != #[trigger] pairs[j].id@
}

proof fn lemma_index_of_distinct(pairs: Seq<AppPair>, k: int, start: int)
    requires
        distinct_pair_ids(pairs),
        0 <= start <= k < pairs.len(),
    ensures
        pair_index_from(pairs, pairs[k].id@, start) == Some(k),
    decreases k - start,
{
    if start < k {
        assert(pairs[start].id@ != pairs[k].id@);
        lemma_index_of_distinct(pairs, k, start + 1);
    }
}

/// Pair navigation wraps: with distinct pair ids, the pair after the last
/// is the first and the pair before the first is the last.
pub proof fn law_pair_navigation_wraps(m: AppModel)
    requires
        m.pairs@.len() > 0,
        distinct_pair_ids(m.pairs@),
    ensures
        m.selected_pair_id == Some(m.pairs@.last().id) ==> stepped_pair(m, true) == Some(m.pairs@[0].id),
        m.selected_pair_id == Some(m.pairs@[0].id) ==> stepped_pair(m, false) == Some(m.pairs@.last().id),
{
    let n = m.pairs@.len() as int;
    lemma_index_of_distinct(m.pairs@, n - 1, 0);
    lemma_index_of_distinct(m.pairs@, 0, 0);
    lemma_step_inverse(n - 1, n);
    lemma_step_inverse(0, n);
    vstd::arithmetic::div_mod::lemma_fundamental_div_mod_converse_mod(n, n, 1, 0);
    vstd::arithmetic::div_mod::lemma_fundamental_div_mod_converse_mod(-1, n, -1, n - 1);
}

/// Selecting the next pair and then the previous one returns to the pair
/// that was selected, when pair ids are distinct.
pub proof fn law_next_then_previous_pair_restores(m: AppModel, k: int)
    requires
        0 <= k < m.pairs@.len(),
        distinct_pair_ids(m.pairs@),
        m.selected_pair_id == Some(m.pairs@[k].id),
    ensures
        stepped_pair(AppModel { selected_pair_id: stepped_pair(m, true), ..m }, false) == m.selected_pair_id,
        stepped_pair(AppModel { selected_pair_id: stepped_pair(m, false), ..m }, true) == m.selected_pair_id,
{
    let n = m.pairs@.len() as int;
    lemma_index_of_distinct(m.pairs@, k, 0);
    lemma_step_inverse(k, n);
    let f = step(k, n, true);
    let b = step(k, n, false);
    lemma_index_of_distinct(m.pairs@, f, 0);
    lemma_index_of_distinct(m.pairs@, b, 0);
}

/// Conflict-group navigation is undone by the opposite step, and any step
/// lands on an existing group.
pub proof fn law_conflict_navigation(m: AppModel)
    ensures
        stepped_conflict(m, true) matches Some(k) ==> k < m.conflict_summaries@.len(),
        stepped_conflict(m, false) matches Some(k) ==> k < m.conflict_summaries@.len(),
        (stepped_conflict(m, true) is None) == (m.conflict_summaries@.len() == 0),
        m.selected_conflict_index matches Some(k) && k < m.conflict_summaries@.len() ==> stepped_conflict(
            AppModel { selected_conflict_index: stepped_conflict(m, true), ..m },
            false,
        ) == m.selected_conflict_index,
{
    let n = m.conflict_summaries@.len() as int;
    assert(m.conflict_summaries.len() == n);
    if n > 0 {
        let cur: int = match m.selected_conflict_index {
            Some(k) => k as int,
            None => 0,
        };
        vstd::arithmetic::div_mod::lemma_mod_bound(cur + 1, n);
        vstd::arithmetic::div_mod::lemma_mod_bound(cur - 1, n);
        match m.selected_conflict_index {
            Some(k) => if k < n {
                lemma_step_inverse(k as int, n);
            },
            None => {},
        }
    }
}

/// Report-row navigation is undone by the opposite step, and any step lands
/// on a visible row.
pub proof fn law_report_navigation(m: AppModel)
    ensures
        stepped_report(m, true) matches Some(k) ==> k < visible_row_seq(m).len(),
        stepped_report(m, false) matches Some(k) ==> k < visible_row_seq(m).len(),
        (stepped_report(m, true) is None) == (visible_row_seq(m).len() == 0),
        m.selected_report_index matches Some(k) && k < visible_row_seq(m).len() ==> stepped_report(
            AppModel { selected_report_index: stepped_report(m, true), ..m },
            false,
        ) == m.selected_report_index,
{
    let n = visible_row_seq(m).len() as int;
    lemma_filtered_len(m.report_rows@, m.report_filter);
    lemma_sorted_len(filtered_rows(m.report_rows@, m.report_filter), m.report_sort);
    assert(m.report_rows.len() == m.report_rows@.len());
    if n > 0 {
        let cur: int = match m.selected_report_index {
            Some(k) => if k < n { k as int } else { 0 },
            None => 0,
        };
        lemma_step_inverse(cur, n);
    }
}

/// After showing a list, its selection is valid: a visible run, a visible
/// report row, an existing conflict group, or nothing when the list is
/// empty.
pub proof fn law_shown_selection_is_valid(m: AppModel)
    ensures
        ensured_run(m) matches Some(id) ==> run_id_visible(m, id@),
        ensured_run(m) is None ==> crate::app::visible_runs_of(m).len() == 0,
        ensured_report(m) matches Some(k) ==> k < visible_row_seq(m).len(),
        (ensured_report(m) is None) == (visible_row_seq(m).len() == 0),
        ensured_conflict(m) matches Some(k) ==> k < m.conflict_summaries@.len(),
        (ensured_conflict(m) is None) == (m.conflict_summaries@.len() == 0),
{
    let vis = crate::app::visible_runs_of(m);
    if !(m.selected_run_id is Some && run_id_visible(m, m.selected_run_id->0@)) && vis.len() > 0 {
        assert(vis[0].id@ == vis[0].id@);
        assert(run_id_visible(m, vis[0].id@));
    }
}

/// Toggling background pause twice restores the paused flag; the first
/// toggle stops the scheduler when it was running and starts it when it was
/// paused.
pub proof fn law_toggle_pause_twice_restores(m: AppModel)
    ensures
        ({
            let e = AppEvent::ExecuteCommand(AppCommand::ToggleBackgroundPause);
            &&& after_event(after_event(m, e), e).background_paused == m.background_paused
            &&& after_event(m, e).background_paused == !m.background_paused
            &&& event_effects(m, e) == if m.background_paused {
                seq![EffectView::StartBackgroundScheduler]
            } else {
                seq![EffectView::StopBackgroundScheduler]
            }
        }),
{
}

/// Cancelling a requested apply run leaves the model as it was before the
/// request; confirming it starts the apply run.
pub proof fn law_apply_needs_confirmation(m: AppModel)
    requires
        !m.confirm_apply,
    ensures
        after_event(after_event(m, AppEvent::RequestApplyRun), AppEvent::CancelApplyRun) == m,
        event_effects(m, AppEvent::RequestApplyRun).len() == 0,
        after_event(after_event(m, AppEvent::RequestApplyRun), AppEvent::ConfirmApplyRun).status
            == AppStatus::Syncing,
        !after_event(after_event(m, AppEvent::RequestApplyRun), AppEvent::ConfirmApplyRun).confirm_apply,
        event_effects(after_event(m, AppEvent::RequestApplyRun), AppEvent::ConfirmApplyRun)
            == seq![EffectView::RunApplySync],
        after_event(m, AppEvent::ExecuteCommand(AppCommand::ApplyRun)).status == m.status,
{
}

/// Without an enabled pair the sync commands do nothing.
pub proof fn law_sync_commands_need_enabled_pair(m: AppModel)
    requires
        count_enabled(m.pairs@) == 0,
    ensures
        after_event(m, AppEvent::ExecuteCommand(AppCommand::DryRun)) == m,
        event_effects(m, AppEvent::ExecuteCommand(AppCommand::DryRun)).len() == 0,
        after_event(m, AppEvent::ExecuteCommand(AppCommand::ApplyRun)) == m,
        event_effects(m, AppEvent::ExecuteCommand(AppCommand::ApplyRun)).len() == 0,
{
}

/// Every event asks for at most one effect.
pub proof fn law_at_most_one_effect(m: AppModel, e: AppEvent)
    ensures
        event_effects(m, e).len() <= 1,
{
}

/// The filter and sort cycles return to their start: four steps for the run
/// filter, five for the report filter, three for the report sort.
pub proof fn law_cycles_return(f: AppRunFilter, g: AppReportFilter, o: AppReportSort)
    ensures
        f.spec_next().spec_next().spec_next().spec_next() == f,
        g.spec_next().spec_next().spec_next().spec_next().spec_next() == g,
        o.spec_next().spec_next().spec_next() == o,
{
}

/// A failed engine run puts the model in the error state and surfaces its
/// message as the first shell notification, when the message is not empty.
pub proof fn law_engine_failure_is_surfaced(m: AppModel, message: String)
    requires
        message@.len() > 0,
    ensures
        ({
            let after = after_event(m, AppEvent::EngineFailed { message });
            &&& after.status == AppStatus::Error
            &&& after.last_message == Some(message)
            &&& shell_notification_views(after).len() > 0
            &&& shell_notification_views(after)[0] == (NotificationView {
                severity: AppNotificationSeverity::Error,
                message: message@,
            })
        }),
{
}

/// Runtime snapshots never add, drop or reorder pairs, and keep each pair's
/// id, enabled flag, direction and calendar ids.
pub proof fn law_snapshot_keeps_pairs(pairs: Seq<AppPair>, snaps: Seq<AppPairRuntimeSnapshot>)
    ensures
        apply_pair_snapshots(pairs, snaps).len() == pairs.len(),
        forall|i: int| 0 <= i < pairs.len() ==> {
            let p = #[trigger] apply_pair_snapshots(pairs, snaps)[i];
            &&& p.id == pairs[i].id
            &&& p.enabled == pairs[i].enabled
            &&& p.direction == pairs[i].direction
            &&& p.google_calendar_id == pairs[i].google_calendar_id
            &&& p.icloud_calendar_id == pairs[i].icloud_calendar_id
        },
    decreases snaps.len(),
{
    if snaps.len() > 0 {
        law_snapshot_keeps_pairs(pairs, snaps.drop_last());
        let before = apply_pair_snapshots(pairs, snaps.drop_last());
        let s = snaps.last();
        match pair_index_from(before, s.pair_id@, 0) {
            Some(k) => {
                crate::app_laws::lemma_index_in_range(before, s.pair_id@, 0);
            },
            None => {},
        }
        assert(apply_pair_snapshots(pairs, snaps) == apply_pair_snapshot(before, s));
    }
}

proof fn lemma_filtered_len(rows: Seq<AppReportRow>, f: AppReportFilter)
    ensures
        filtered_rows(rows, f).len() <= rows.len(),
    decreases rows.len(),
{
    if rows.len() > 0 {
        lemma_filtered_len(rows.drop_last(), f);
    }
}

proof fn lemma_insert_len(s: Seq<AppReportRow>, x: AppReportRow, o: AppReportSort)
    ensures
        insert_row(s, x, o).len() == s.len() + 1,
    decreases s.len(),
{
    if s.len() > 0 {
        lemma_insert_len(s.drop_first(), x, o);
    }
}

proof fn lemma_sorted_len(s: Seq<AppReportRow>, o: AppReportSort)
    ensures
        sorted_rows(s, o).len() == s.len(),
    decreases s.len(),
{
    if s.len() > 0 {
        lemma_sorted_len(s.drop_last(), o);
        lemma_insert_len(sorted_rows(s.drop_last(), o), s.last(), o);
    }
}

proof fn lemma_index_in_range(pairs: Seq<AppPair>, id: Seq<char>, start: int)
    ensures
        pair_index_from(pairs, id, start) matches Some(k) ==> 0 <= k < pairs.len(),
    decreases pairs.len() - start,
{
    if 0 <= start < pairs.len() && pairs[start].id@ != id {
        lemma_index_in_range(pairs, id, start + 1);
    }
}

/// The command, report and conflict selections are in range: the palette
/// cursor is on one of the eleven commands, a selected report row is a
/// visible row, and a selected conflict group exists.
pub open spec fn selections_in_range(m: AppModel) -> bool {
    &&& m.selected_command_index < 11
    &&& m.selected_report_index matches Some(k) ==> k < visible_row_seq(m).len()
    &&& m.selected_conflict_index matches Some(k) ==> k < m.conflict_summaries@.len()
}

/// A model with the same lists and the same selections has its selections
/// in range exactly when the first does.
proof fn lemma_selection_frame(m: AppModel, m2: AppModel)
    requires
        selections_in_range(m),
        m2.report_rows == m.report_rows,
        m2.report_filter == m.report_filter,
        m2.report_sort == m.report_sort,
        m2.conflict_summaries == m.conflict_summaries,
        m2.selected_command_index == m.selected_command_index,
        m2.selected_report_index == m.selected_report_index,
        m2.selected_conflict_index == m.selected_conflict_index,
    ensures
        selections_in_range(m2),
{
}

/// A report selection made sure of, or stepped, lies in range.
proof fn lemma_report_selection(m: AppModel)
    ensures
        ensured_report(m) matches Some(k) ==> k < visible_row_seq(m).len(),
        stepped_report(m, true) matches Some(k) ==> k < visible_row_seq(m).len(),
        stepped_report(m, false) matches Some(k) ==> k < visible_row_seq(m).len(),
{
    law_report_navigation(m);
}

/// A conflict selection made sure of, or stepped, lies in range.
proof fn lemma_conflict_selection(m: AppModel)
    ensures
        ensured_conflict(m) matches Some(k) ==> k < m.conflict_summaries@.len(),
        stepped_conflict(m, true) matches Some(k) ==> k < m.conflict_summaries@.len(),
        stepped_conflict(m, false) matches Some(k) ==> k < m.conflict_summaries@.len(),
{
    law_conflict_navigation(m);
}

#[verifier::spinoff_prover]
proof fn lemma_simple_after_keeps_selections(m: AppModel, e: AppEvent)
    requires
        selections_in_range(m),
    ensures
        selections_in_range(simple_after(m, e)),
{
    let m2 = simple_after(m, e);
    match e {
        AppEvent::ShowReports => {
            lemma_report_selection(m);
        },
        AppEvent::ShowConflicts => {
            lemma_conflict_selection(m);
        },
        AppEvent::CycleReportFilter => {
            lemma_report_selection(AppModel { report_filter: m.report_filter.spec_next(), ..m });
        },
        AppEvent::CycleReportSort => {
            lemma_report_selection(AppModel { report_sort: m.report_sort.spec_next(), ..m });
        },
        AppEvent::SelectNextReportRow => {
            lemma_report_selection(m);
        },
        AppEvent::SelectPreviousReportRow => {
            lemma_report_selection(m);
        },
        AppEvent::SelectNextConflict => {
            lemma_conflict_selection(m);
        },
        AppEvent::SelectPreviousConflict => {
            lemma_conflict_selection(m);
        },
        AppEvent::SelectNextCommand => {
            lemma_step_inverse(m.selected_command_index as int, 11);
        },
        AppEvent::SelectPreviousCommand => {
            lemma_step_inverse(m.selected_command_index as int, 11);
        },
        _ => {
            lemma_selection_frame(m, m2);
        },
    }
}

/// Every event keeps the command, report and conflict selections in range.
pub proof fn law_update_keeps_selections_in_range(m: AppModel, e: AppEvent)
    requires
        selections_in_range(m),
    ensures
        selections_in_range(after_event(m, e)),
{
    match e {
        AppEvent::ExecuteCommand(c) => {
            lemma_simple_after_keeps_selections(m, command_event(m, c));
        },
        AppEvent::ExecuteSelectedCommand => {
            let m1 = AppModel { command_palette_open: false, ..m };
            assert(visible_row_seq(m1) == visible_row_seq(m));
            lemma_simple_after_keeps_selections(m1, command_event(m1, command_at(m)));
        },
        _ => {
            lemma_simple_after_keeps_selections(m, e);
        },
    }
}

} // verus!

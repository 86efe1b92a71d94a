//! The text of the dashboard's table rows, palette entries and setup
//! panels, and the colour family each status is drawn in. The terminal
//! layer only lays these out.
use crate::app::{
    AppCommand, AppConflictDetail, AppConflictSummary, AppModel, AppNotificationSeverity, AppPair,
    AppReportRow, AppRun, AppSetupStep, AppSetupStepStatus, AppShellAction, AppStatus,
};
use crate::dashboard::{
    calendar_label_text, compact_calendar_label, compact_detail_value, compact_string, compacted,
    detail_width, direction_label, direction_text, opt_as_str, prefixed, setup_status_label,
    setup_status_text, Tone,
};
use crate::event_hash::opt_view;
use crate::numtext::{decimal, decimal_string};
use crate::text::{append_str, chars_of, contains_chars, contains_seq, owned, str_eq};
use vstd::prelude::*;

verus! {

// ---------------------------------------------------------------- tones
pub open spec fn status_tone_of(s: AppStatus) -> Tone {
    match s {
        AppStatus::Idle => Tone::Neutral,
        AppStatus::Checking => Tone::Checking,
        AppStatus::Syncing => Tone::Running,
        AppStatus::Error => Tone::Danger,
    }
}

/// The colour family of the dashboard's status.
pub fn status_tone(s: AppStatus) -> (r: Tone)
    ensures
        r == status_tone_of(s),
{
    match s {
        AppStatus::Idle => Tone::Neutral,
        AppStatus::Checking => Tone::Checking,
        AppStatus::Syncing => Tone::Running,
        AppStatus::Error => Tone::Danger,
    }
}

pub open spec fn run_status_tone_of(status: Seq<char>) -> Tone {
    if status == "failed"@ {
        Tone::Danger
    } else if status == "completed"@ {
        Tone::Success
    } else if status == "running"@ {
        Tone::Running
    } else {
        Tone::Neutral
    }
}

/// The colour family of a run status; unknown statuses are neutral.
pub fn run_status_tone(status: &str) -> (r: Tone)
    ensures
        r == run_status_tone_of(status@),
{
    if str_eq(status, "failed") {
        Tone::Danger
    } else if str_eq(status, "completed") {
        Tone::Success
    } else if str_eq(status, "running") {
        Tone::Running
    } else {
        Tone::Neutral
    }
}

pub open spec fn pair_gauge_tone_of(m: AppModel) -> Tone {
    if m.pairs@.len() == 0 {
        Tone::Muted
    } else if crate::app::count_enabled(m.pairs@) == m.pairs@.len() {
        Tone::Success
    } else {
        Tone::Warning
    }
}

/// The pair gauge: muted with no pairs, success when all are enabled,
/// warning otherwise.
pub fn pair_gauge_tone(model: &AppModel) -> (r: Tone)
    ensures
        r == pair_gauge_tone_of(*model),
{
    if model.pairs.len() == 0 {
        Tone::Muted
    } else if model.enabled_pair_count() == model.pairs.len() {
        Tone::Success
    } else {
        Tone::Warning
    }
}

pub open spec fn last_run_tone_of(m: AppModel) -> Tone {
    match m.last_run_status {
        Some(s) => run_status_tone_of(s@),
        None => Tone::Muted,
    }
}

pub fn last_run_tone(model: &AppModel) -> (r: Tone)
    ensures
        r == last_run_tone_of(*model),
{
    match &model.last_run_status {
        Some(s) => run_status_tone(s.as_str()),
        None => Tone::Muted,
    }
}

pub open spec fn command_tone_of(c: AppCommand) -> Tone {
    match c {
        AppCommand::DryRun => Tone::Running,
        AppCommand::ApplyRun => Tone::Danger,
        AppCommand::RefreshConflicts => Tone::Warning,
        AppCommand::ShowConflicts => Tone::Warning,
        AppCommand::OpenSetup => Tone::Neutral,
        AppCommand::ShowPairs => Tone::Plain,
        AppCommand::ShowRuns => Tone::Success,
        AppCommand::ShowReports => Tone::Checking,
        AppCommand::ToggleBackgroundPause => Tone::Warning,
        AppCommand::ExportReport => Tone::Checking,
        AppCommand::Quit => Tone::Danger,
    }
}

pub fn command_tone(c: AppCommand) -> (r: Tone)
    ensures
        r == command_tone_of(c),
{
    match c {
        AppCommand::DryRun => Tone::Running,
        AppCommand::ApplyRun => Tone::Danger,
        AppCommand::RefreshConflicts => Tone::Warning,
        AppCommand::ShowConflicts => Tone::Warning,
        AppCommand::OpenSetup => Tone::Neutral,
        AppCommand::ShowPairs => Tone::Plain,
        AppCommand::ShowRuns => Tone::Success,
        AppCommand::ShowReports => Tone::Checking,
        AppCommand::ToggleBackgroundPause => Tone::Warning,
        AppCommand::ExportReport => Tone::Checking,
        AppCommand::Quit => Tone::Danger,
    }
}

pub open spec fn setup_status_tone_of(s: AppSetupStepStatus) -> Tone {
    match s {
        AppSetupStepStatus::Complete => Tone::Success,
        AppSetupStepStatus::Attention => Tone::Warning,
        AppSetupStepStatus::Missing => Tone::Danger,
    }
}

pub fn setup_status_tone(s: AppSetupStepStatus) -> (r: Tone)
    ensures
        r == setup_status_tone_of(s),
{
    match s {
        AppSetupStepStatus::Complete => Tone::Success,
        AppSetupStepStatus::Attention => Tone::Warning,
        AppSetupStepStatus::Missing => Tone::Danger,
    }
}

pub open spec fn notification_tone_of(s: AppNotificationSeverity) -> Tone {
    match s {
        AppNotificationSeverity::Info => Tone::Checking,
        AppNotificationSeverity::Warning => Tone::Warning,
        AppNotificationSeverity::Error => Tone::Danger,
    }
}

pub fn notification_tone(s: AppNotificationSeverity) -> (r: Tone)
    ensures
        r == notification_tone_of(s),
{
    match s {
        AppNotificationSeverity::Info => Tone::Checking,
        AppNotificationSeverity::Warning => Tone::Warning,
        AppNotificationSeverity::Error => Tone::Danger,
    }
}

/// A report action's colour: deletes first, then conflicts and manual
/// entries, creates, updates; anything else plain.
pub open spec fn report_action_tone_of(action: Seq<char>) -> Tone {
    if contains_seq(action, "delete"@) {
        Tone::Danger
    } else if contains_seq(action, "conflict"@) || contains_seq(action, "manual"@) {
        Tone::Warning
    } else if contains_seq(action, "create"@) {
        Tone::Success
    } else if contains_seq(action, "update"@) {
        Tone::Running
    } else {
        Tone::Plain
    }
}

fn has(cs: &Vec<char>, pat: &str) -> (r: bool)
    ensures
        r == contains_seq(cs@, pat@),
{
    let p = chars_of(pat);
    contains_chars(cs, &p)
}

pub fn report_action_tone(action: &str) -> (r: Tone)
    ensures
        r == report_action_tone_of(action@),
{
    let cs = chars_of(action);
    if has(&cs, "delete") {
        Tone::Danger
    } else if has(&cs, "conflict") || has(&cs, "manual") {
        Tone::Warning
    } else if has(&cs, "create") {
        Tone::Success
    } else if has(&cs, "update") {
        Tone::Running
    } else {
        Tone::Plain
    }
}

// ---------------------------------------------------------------- rows
pub open spec fn marker_text(selected: bool) -> Seq<char> {
    if selected {
        ">"@
    } else {
        " "@
    }
}

fn marker(selected: bool) -> (r: String)
    ensures
        r@ == marker_text(selected),
{
    if selected {
        owned(">")
    } else {
        owned(" ")
    }
}

pub open spec fn is_selected(sel: Option<String>, id: Seq<char>) -> bool {
    sel matches Some(s) && s@ == id
}

fn selected_id(sel: &Option<String>, id: &str) -> (r: bool)
    ensures
        r == is_selected(*sel, id@),
{
    match sel {
        Some(s) => str_eq(s.as_str(), id),
        None => false,
    }
}

pub open spec fn or_dash(v: Option<String>) -> Seq<char> {
    match v {
        Some(s) => s@,
        None => "-"@,
    }
}

pub(crate) fn dash_or(v: &Option<String>) -> (r: &str)
    ensures
        r@ == or_dash(*v),
{
    match v {
        Some(s) => s.as_str(),
        None => "-",
    }
}

pub open spec fn on_off(enabled: bool) -> Seq<char> {
    if enabled {
        "on"@
    } else {
        "off"@
    }
}

/// A pair's row: marker, id, on/off and direction; the wide form adds both
/// calendars' labels shortened to twenty-eight characters.
pub open spec fn pair_cells_text(p: AppPair, selected: bool, compact: bool) -> Seq<Seq<char>> {
    let base = seq![marker_text(selected), p.id@, on_off(p.enabled), direction_text(p.direction)];
    if compact {
        base
    } else {
        base + seq![
            compacted(
                calendar_label_text(opt_view(p.google_calendar_name), opt_view(p.google_account_label), p.google_calendar_id@),
                28,
            ),
            compacted(
                calendar_label_text(opt_view(p.icloud_calendar_name), opt_view(p.icloud_account_label), p.icloud_calendar_id@),
                28,
            ),
        ]
    }
}

pub fn pair_row_cells(pair: &AppPair, model: &AppModel, compact: bool) -> (r: Vec<String>)
    ensures
        r@.map_values(|s: String| s@) == pair_cells_text(*pair, is_selected(model.selected_pair_id, pair.id@), compact),
{
    let selected = selected_id(&model.selected_pair_id, pair.id.as_str());
    let mut v: Vec<String> = vec![
        marker(selected),
        pair.id.clone(),
        owned(if pair.enabled { "on" } else { "off" }),
        owned(direction_label(pair.direction)),
    ];
    if !compact {
        v.push(
            compact_calendar_label(
                opt_as_str(&pair.google_calendar_name),
                opt_as_str(&pair.google_account_label),
                pair.google_calendar_id.as_str(),
            ),
        );
        v.push(
            compact_calendar_label(
                opt_as_str(&pair.icloud_calendar_name),
                opt_as_str(&pair.icloud_account_label),
                pair.icloud_calendar_id.as_str(),
            ),
        );
    }
    assert(v@.map_values(|s: String| s@) =~= pair_cells_text(
        *pair,
        is_selected(model.selected_pair_id, pair.id@),
        compact,
    ));
    v
}

/// A run's row: marker, status, pair and start; the wide form adds the
/// finish and the error.
pub open spec fn run_cells_text(run: AppRun, selected: bool, compact: bool) -> Seq<Seq<char>> {
    if compact {
        seq![marker_text(selected), run.status@, or_dash(run.pair_id), compacted(run.started_at@, 18)]
    } else {
        seq![
            marker_text(selected),
            run.status@,
            or_dash(run.pair_id),
            compacted(run.started_at@, 26),
            compacted(or_dash(run.finished_at), 26),
            compacted(or_dash(run.error), 34),
        ]
    }
}

pub fn run_row_cells(run: &AppRun, model: &AppModel, compact: bool) -> (r: Vec<String>)
    ensures
        r@.map_values(|s: String| s@) == run_cells_text(*run, is_selected(model.selected_run_id, run.id@), compact),
{
    let selected = selected_id(&model.selected_run_id, run.id.as_str());
    let v = if compact {
        vec![
            marker(selected),
            run.status.clone(),
            owned(dash_or(&run.pair_id)),
            compact_string(run.started_at.as_str(), 18),
        ]
    } else {
        vec![
            marker(selected),
            run.status.clone(),
            owned(dash_or(&run.pair_id)),
            compact_string(run.started_at.as_str(), 26),
            compact_string(dash_or(&run.finished_at), 26),
            compact_string(dash_or(&run.error), 34),
        ]
    };
    assert(v@.map_values(|s: String| s@) =~= run_cells_text(
        *run,
        is_selected(model.selected_run_id, run.id@),
        compact,
    ));
    v
}

/// A report row's cells: marker, pair, action and title; the wide form adds
/// reason and resolution.
pub open spec fn report_cells_text(row: AppReportRow, selected: bool, compact: bool) -> Seq<Seq<char>> {
    if compact {
        seq![
            marker_text(selected),
            compacted(row.pair_id@, 14),
            compacted(row.action@, 16),
            compacted(row.title@, 36),
        ]
    } else {
        seq![
            marker_text(selected),
            compacted(row.pair_id@, 16),
            compacted(row.action@, 20),
            compacted(row.title@, 36),
            compacted(row.reason@, 32),
            compacted(row.resolution@, 28),
        ]
    }
}

pub fn report_row_cells(index: usize, row: &AppReportRow, model: &AppModel, compact: bool) -> (r: Vec<String>)
    ensures
        r@.map_values(|s: String| s@) == report_cells_text(*row, model.selected_report_index == Some(index), compact),
{
    let selected = model.selected_report_index == Some(index);
    let v = if compact {
        vec![
            marker(selected),
            compact_string(row.pair_id.as_str(), 14),
            compact_string(row.action.as_str(), 16),
            compact_string(row.title.as_str(), 36),
        ]
    } else {
        vec![
            marker(selected),
            compact_string(row.pair_id.as_str(), 16),
            compact_string(row.action.as_str(), 20),
            compact_string(row.title.as_str(), 36),
            compact_string(row.reason.as_str(), 32),
            compact_string(row.resolution.as_str(), 28),
        ]
    };
    assert(v@.map_values(|s: String| s@) =~= report_cells_text(
        *row,
        model.selected_report_index == Some(index),
        compact,
    ));
    v
}

/// A conflict group's row: marker, pair, count and reason; the wide form
/// adds when it was last seen.
pub open spec fn conflict_summary_cells_text(s: AppConflictSummary, selected: bool, compact: bool) -> Seq<Seq<char>> {
    if compact {
        seq![marker_text(selected), compacted(s.pair_id@, 18), decimal(s.count as nat), compacted(s.reason@, 36)]
    } else {
        seq![
            marker_text(selected),
            compacted(s.pair_id@, 18),
            decimal(s.count as nat),
            compacted(s.reason@, 42),
            compacted(s.last_seen_at@, 28),
        ]
    }
}

pub fn conflict_summary_cells(index: usize, summary: &AppConflictSummary, model: &AppModel, compact: bool) -> (r:
    Vec<String>)
    ensures
        r@.map_values(|s: String| s@) == conflict_summary_cells_text(
            *summary,
            model.selected_conflict_index == Some(index),
            compact,
        ),
{
    let selected = model.selected_conflict_index == Some(index);
    let v = if compact {
        vec![
            marker(selected),
            compact_string(summary.pair_id.as_str(), 18),
            decimal_string(summary.count as u64),
            compact_string(summary.reason.as_str(), 36),
        ]
    } else {
        vec![
            marker(selected),
            compact_string(summary.pair_id.as_str(), 18),
            decimal_string(summary.count as u64),
            compact_string(summary.reason.as_str(), 42),
            compact_string(summary.last_seen_at.as_str(), 28),
        ]
    };
    assert(v@.map_values(|s: String| s@) =~= conflict_summary_cells_text(
        *summary,
        model.selected_conflict_index == Some(index),
        compact,
    ));
    v
}

/// A conflict's row: uid, differing fields and creation in the narrow
/// form; a marker, uid, both titles and creation in the wide one.
pub open spec fn conflict_detail_cells_text(d: AppConflictDetail, compact: bool) -> Seq<Seq<char>> {
    if compact {
        seq![compacted(or_dash(d.canonical_uid), 24), compacted(d.diff_fields@, 36), compacted(d.created_at@, 20)]
    } else {
        seq![
            ">"@,
            compacted(or_dash(d.canonical_uid), 26),
            compacted(or_dash(d.google_title), 28),
            compacted(or_dash(d.icloud_title), 28),
            compacted(d.created_at@, 22),
        ]
    }
}

pub fn conflict_detail_cells(detail: &AppConflictDetail, compact: bool) -> (r: Vec<String>)
    ensures
        r@.map_values(|s: String| s@) == conflict_detail_cells_text(*detail, compact),
{
    let v = if compact {
        vec![
            compact_string(dash_or(&detail.canonical_uid), 24),
            compact_string(detail.diff_fields.as_str(), 36),
            compact_string(detail.created_at.as_str(), 20),
        ]
    } else {
        vec![
            owned(">"),
            compact_string(dash_or(&detail.canonical_uid), 26),
            compact_string(dash_or(&detail.google_title), 28),
            compact_string(dash_or(&detail.icloud_title), 28),
            compact_string(detail.created_at.as_str(), 22),
        ]
    };
    assert(v@.map_values(|s: String| s@) =~= conflict_detail_cells_text(*detail, compact));
    v
}

// ---------------------------------------------------------------- palette and setup
/// A palette entry: its marker, label and description, and the label's
/// colour: the command's own when selected, muted when disabled.
pub struct PaletteEntry {
    pub marker: String,
    pub label: String,
    pub description: String,
    pub tone: Tone,
}

pub open spec fn palette_tone_of(selected: bool, a: AppShellAction) -> Tone {
    if selected {
        command_tone_of(a.command)
    } else if !a.enabled {
        Tone::Muted
    } else {
        Tone::Plain
    }
}

pub fn palette_entry(index: usize, action: &AppShellAction, model: &AppModel) -> (r: PaletteEntry)
    ensures
        r.marker@ == marker_text(index == model.selected_command_index),
        r.label@ == compacted(action.label@, 20),
        r.description@ == compacted(action.description@, 56),
        r.tone == palette_tone_of(index == model.selected_command_index, *action),
{
    let selected = index == model.selected_command_index;
    let tone = if selected {
        command_tone(action.command)
    } else if !action.enabled {
        Tone::Muted
    } else {
        Tone::Plain
    };
    PaletteEntry {
        marker: marker(selected),
        label: compact_string(action.label.as_str(), 20),
        description: compact_string(action.description.as_str(), 56),
        tone,
    }
}

/// A setup step's panel: the heading, then its status, detail and next
/// action, the last two shortened to the panel's width.
pub open spec fn setup_step_text(prefix: Seq<char>, step: AppSetupStep, area_width: u16) -> Seq<Seq<char>> {
    seq![
        prefix + ": "@ + step.label@,
        "Status: "@ + setup_status_text(step.status),
        "Detail: "@ + compacted(step.detail@, detail_width(area_width)),
        "Action: "@ + compacted(step.next_action@, detail_width(area_width)),
    ]
}

pub fn setup_step_lines(prefix: &str, step: &AppSetupStep, area_width: u16) -> (r: Vec<String>)
    ensures
        r@.map_values(|s: String| s@) == setup_step_text(prefix@, *step, area_width),
{
    let mut head = owned(prefix);
    append_str(&mut head, ": ");
    append_str(&mut head, step.label.as_str());
    let detail = compact_detail_value(step.detail.as_str(), area_width);
    let action = compact_detail_value(step.next_action.as_str(), area_width);
    let v = vec![
        head,
        prefixed("Status: ", setup_status_label(step.status)),
        prefixed("Detail: ", detail.as_str()),
        prefixed("Action: ", action.as_str()),
    ];
    assert(v@.map_values(|s: String| s@) =~= setup_step_text(prefix@, *step, area_width));
    v
}

} // verus!

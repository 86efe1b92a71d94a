//! The control-plane model that the terminal and tray shells drive: state,
//! events that change it, and the effects the shell must carry out.
use crate::config::{SecretStoreKind, ServiceConfig};
use crate::numtext::{decimal, push_decimal};
use crate::policy::SyncDirection;
use crate::text::{append_str, clone_opt, contains_seq, owned, seq_lt, str_contains, str_eq, str_lt, trim};
use std::collections::BTreeMap;
use vstd::prelude::*;

verus! {

// ---------------------------------------------------------------- types
#[derive(Debug, Clone)]
pub struct AppPair {
    pub id: String,
    pub enabled: bool,
    pub direction: SyncDirection,
    pub google_calendar_id: String,
    pub icloud_calendar_id: String,
    pub google_calendar_name: Option<String>,
    pub icloud_calendar_name: Option<String>,
    pub google_account_label: Option<String>,
    pub icloud_account_label: Option<String>,
    pub google_last_sync_at: Option<String>,
    pub icloud_last_sync_at: Option<String>,
}

impl AppPair {
    pub fn duplicate(&self) -> (r: AppPair)
        ensures
            r == *self,
    {
        AppPair {
            id: self.id.clone(),
            enabled: self.enabled,
            direction: self.direction,
            google_calendar_id: self.google_calendar_id.clone(),
            icloud_calendar_id: self.icloud_calendar_id.clone(),
            google_calendar_name: clone_opt(&self.google_calendar_name),
            icloud_calendar_name: clone_opt(&self.icloud_calendar_name),
            google_account_label: clone_opt(&self.google_account_label),
            icloud_account_label: clone_opt(&self.icloud_account_label),
            google_last_sync_at: clone_opt(&self.google_last_sync_at),
            icloud_last_sync_at: clone_opt(&self.icloud_last_sync_at),
        }
    }
}

#[derive(Debug, Clone)]
pub struct AppSetupState {
    pub secret_store: String,
    pub db_path: String,
    pub log_level: String,
    pub google_account_label: String,
    pub google_client_id_configured: bool,
    pub google_client_secret_inline: bool,
    pub google_refresh_token_inline: bool,
    pub icloud_account_label: String,
    pub icloud_username_configured: bool,
    pub icloud_app_password_inline: bool,
    pub icloud_caldav_url: String,
    pub poll_interval_seconds: u64,
}

#[derive(Debug, Clone, Copy, PartialEq, Eq, Structural)]
pub enum AppSetupStepStatus {
    Complete,
    Attention,
    Missing,
}

#[derive(Debug, Clone)]
pub struct AppSetupStep {
    pub label: String,
    pub status: AppSetupStepStatus,
    pub detail: String,
    pub next_action: String,
}

#[derive(Debug, Clone)]
pub struct AppPairRuntimeSnapshot {
    pub pair_id: String,
    pub google_calendar_name: Option<String>,
    pub icloud_calendar_name: Option<String>,
    pub google_account_label: Option<String>,
    pub icloud_account_label: Option<String>,
    pub google_last_sync_at: Option<String>,
    pub icloud_last_sync_at: Option<String>,
}

#[derive(Debug, Clone)]
pub struct AppRun {
    pub id: String,
    pub pair_id: Option<String>,
    pub status: String,
    pub started_at: String,
    pub finished_at: Option<String>,
    pub error: Option<String>,
}

#[derive(Debug, Clone)]
pub struct AppReportRow {
    pub pair_id: String,
    pub action: String,
    pub reason: String,
    pub resolution: String,
    pub title: String,
    pub canonical_uid: String,
    pub google_present: String,
    pub icloud_present: String,
    pub google_title: String,
    pub icloud_title: String,
    pub google_start: String,
    pub icloud_start: String,
    pub google_end: String,
    pub icloud_end: String,
    pub google_status: String,
    pub icloud_status: String,
    pub diff_fields: String,
}

/// Aggregate snapshot of the most recent dry-run/apply plan, surfaced as the
/// summary band on the Plan screen.
#[derive(Debug, Clone)]
pub struct AppPlanSummary {
    pub mode: String,
    pub total_actions: usize,
    pub action_counts: BTreeMap<String, usize>,
    pub pair_counts: BTreeMap<String, usize>,
    pub generated_at: String,
}

#[derive(Debug, Clone)]
pub struct AppConflictSummary {
    pub pair_id: String,
    pub reason: String,
    pub count: usize,
    pub first_seen_at: String,
    pub last_seen_at: String,
}

#[derive(Debug, Clone)]
pub struct AppConflictDetail {
    pub id: String,
    pub pair_id: String,
    pub event_link_id: Option<String>,
    pub canonical_uid: Option<String>,
    pub reason: String,
    pub resolution_policy: String,
    pub google_title: Option<String>,
    pub icloud_title: Option<String>,
    pub google_start: Option<String>,
    pub icloud_start: Option<String>,
    pub google_status: Option<String>,
    pub icloud_status: Option<String>,
    pub google_event_id: Option<String>,
    pub icloud_href: Option<String>,
    pub diff_fields: String,
    pub created_at: String,
    pub queued_resolution: Option<String>,
}

#[derive(Debug, Clone)]
pub struct AppRuntimeSnapshot {
    pub conflict_count: usize,
    pub last_run_at: Option<String>,
    pub last_run_status: Option<String>,
    pub next_run_at: Option<String>,
    pub recent_error: Option<String>,
    pub pairs: Vec<AppPairRuntimeSnapshot>,
    pub runs: Vec<AppRun>,
    pub report_rows: Vec<AppReportRow>,
    pub plan: Option<AppPlanSummary>,
    pub conflict_summaries: Vec<AppConflictSummary>,
    pub conflict_details: Vec<AppConflictDetail>,
}

impl Default for AppRuntimeSnapshot {
    fn default() -> (r: Self)
        ensures
            r.conflict_count == 0,
            r.last_run_at is None,
            r.last_run_status is None,
            r.next_run_at is None,
            r.recent_error is None,
            r.pairs@.len() == 0,
            r.runs@.len() == 0,
            r.report_rows@.len() == 0,
            r.plan is None,
            r.conflict_summaries@.len() == 0,
            r.conflict_details@.len() == 0,
    {
        AppRuntimeSnapshot {
            conflict_count: 0,
            last_run_at: None,
            last_run_status: None,
            next_run_at: None,
            recent_error: None,
            pairs: Vec::new(),
            runs: Vec::new(),
            report_rows: Vec::new(),
            plan: None,
            conflict_summaries: Vec::new(),
            conflict_details: Vec::new(),
        }
    }
}

#[derive(Debug, Clone, Copy, PartialEq, Eq, Structural)]
pub enum AppNotificationSeverity {
    Info,
    Warning,
    Error,
}

#[derive(Debug, Clone)]
pub struct AppShellNotification {
    pub severity: AppNotificationSeverity,
    pub message: String,
}

#[derive(Debug, Clone)]
pub struct AppShellAction {
    pub command: AppCommand,
    pub label: String,
    pub description: String,
    pub enabled: bool,
    pub destructive: bool,
}

#[derive(Debug, Clone)]
pub struct AppShellSnapshot {
    pub status: AppStatus,
    pub view: AppView,
    pub selected_pair_id: Option<String>,
    pub background_paused: bool,
    pub conflict_count: usize,
    pub enabled_pair_count: usize,
    pub total_pair_count: usize,
    pub last_run_at: Option<String>,
    pub last_run_status: Option<String>,
    pub next_run_at: Option<String>,
    pub recent_error: Option<String>,
    pub last_message: Option<String>,
    pub actions: Vec<AppShellAction>,
    pub notifications: Vec<AppShellNotification>,
}

#[derive(Debug, Clone, Copy, PartialEq, Eq, Structural)]
pub enum AppView {
    Dashboard,
    Setup,
    Runs,
    Reports,
    Conflicts,
}

#[derive(Debug, Clone, Copy, PartialEq, Eq, Structural)]
pub enum AppRunFilter {
    All,
    Running,
    Completed,
    Failed,
}

#[derive(Debug, Clone, Copy, PartialEq, Eq, Structural)]
pub enum AppReportFilter {
    All,
    Creates,
    Updates,
    Deletes,
    Conflicts,
}

#[derive(Debug, Clone, Copy, PartialEq, Eq, Structural)]
pub enum AppReportSort {
    Pair,
    Action,
    Title,
}

#[derive(Debug, Clone, Copy, PartialEq, Eq, Structural)]
pub enum AppCommand {
    DryRun,
    ApplyRun,
    RefreshConflicts,
    ShowConflicts,
    OpenSetup,
    ShowPairs,
    ShowRuns,
    ShowReports,
    ToggleBackgroundPause,
    ExportReport,
    Quit,
}

#[derive(Debug, Clone, Copy, PartialEq, Eq, Structural)]
pub enum AppResolution {
    GoogleWins,
    IcloudWins,
    DeleteWins,
    UpdateWins,
}

#[derive(Debug, Clone, Copy, PartialEq, Eq, Structural)]
pub enum AppStatus {
    Idle,
    Checking,
    Syncing,
    Error,
}

#[derive(Debug, Clone)]
pub enum AppEvent {
    StartDryRun,
    StartApplyRun,
    RequestApplyRun,
    ConfirmApplyRun,
    CancelApplyRun,
    StartDaemon,
    StopDaemon,
    OpenSetup,
    RefreshConflicts,
    SelectPair(String),
    ShowDashboard,
    ShowSetup,
    ShowRuns,
    ShowReports,
    ShowConflicts,
    CycleRunFilter,
    CycleReportFilter,
    CycleReportSort,
    SelectNextRun,
    SelectPreviousRun,
    SelectNextReportRow,
    SelectPreviousReportRow,
    SelectNextConflict,
    SelectPreviousConflict,
    ResolveSelectedConflict(AppResolution),
    OpenCommandPalette,
    CloseCommandPalette,
    SelectNextCommand,
    SelectPreviousCommand,
    ExecuteCommand(AppCommand),
    ExecuteSelectedCommand,
    EngineFinished { message: String },
    EngineFailed { message: String },
}

#[derive(Debug, Clone, PartialEq, Eq)]
pub enum AppEffect {
    RunDrySync,
    RunApplySync,
    StartBackgroundScheduler,
    StopBackgroundScheduler,
    LoadConflicts,
    ResolveConflict { conflict_ids: Vec<String>, resolution: AppResolution },
    ShowSetup,
    ExportDryRunReport,
    Quit,
}

#[derive(Debug, Clone)]
pub struct AppModel {
    pub status: AppStatus,
    pub view: AppView,
    pub command_palette_open: bool,
    pub confirm_apply: bool,
    pub selected_command_index: usize,
    pub selected_pair_id: Option<String>,
    pub selected_run_id: Option<String>,
    pub selected_conflict_index: Option<usize>,
    pub run_filter: AppRunFilter,
    pub setup: AppSetupState,
    pub report_filter: AppReportFilter,
    pub report_sort: AppReportSort,
    pub selected_report_index: Option<usize>,
    pub background_paused: bool,
    pub conflict_count: usize,
    pub last_message: Option<String>,
    pub last_run_at: Option<String>,
    pub last_run_status: Option<String>,
    pub next_run_at: Option<String>,
    pub recent_error: Option<String>,
    pub pairs: Vec<AppPair>,
    pub runs: Vec<AppRun>,
    pub report_rows: Vec<AppReportRow>,
    pub plan: Option<AppPlanSummary>,
    pub conflict_summaries: Vec<AppConflictSummary>,
    pub conflict_details: Vec<AppConflictDetail>,
}

// ---------------------------------------------------------------- labels
impl AppResolution {
    pub open spec fn spec_label(self) -> Seq<char> {
        match self {
            AppResolution::GoogleWins => "Google wins"@,
            AppResolution::IcloudWins => "iCloud wins"@,
            AppResolution::DeleteWins => "delete wins"@,
            AppResolution::UpdateWins => "update wins"@,
        }
    }

    pub fn label(self) -> (r: &'static str)
        ensures
            r@ == self.spec_label(),
    {
        match self {
            AppResolution::GoogleWins => "Google wins",
            AppResolution::IcloudWins => "iCloud wins",
            AppResolution::DeleteWins => "delete wins",
            AppResolution::UpdateWins => "update wins",
        }
    }
}

/// The eleven commands in palette order.
pub open spec fn all_commands() -> Seq<AppCommand> {
    seq![
        AppCommand::DryRun,
        AppCommand::ApplyRun,
        AppCommand::RefreshConflicts,
        AppCommand::ShowConflicts,
        AppCommand::OpenSetup,
        AppCommand::ShowPairs,
        AppCommand::ShowRuns,
        AppCommand::ShowReports,
        AppCommand::ToggleBackgroundPause,
        AppCommand::ExportReport,
        AppCommand::Quit,
    ]
}

impl AppCommand {
    pub fn all() -> (r: Vec<AppCommand>)
        ensures
            r@ == all_commands(),
    {
        let v = vec![
            AppCommand::DryRun,
            AppCommand::ApplyRun,
            AppCommand::RefreshConflicts,
            AppCommand::ShowConflicts,
            AppCommand::OpenSetup,
            AppCommand::ShowPairs,
            AppCommand::ShowRuns,
            AppCommand::ShowReports,
            AppCommand::ToggleBackgroundPause,
            AppCommand::ExportReport,
            AppCommand::Quit,
        ];
        assert(v@ =~= all_commands());
        v
    }

    pub open spec fn spec_label(self) -> Seq<char> {
        match self {
            AppCommand::DryRun => "Dry-run sync"@,
            AppCommand::ApplyRun => "Apply sync"@,
            AppCommand::RefreshConflicts => "Refresh conflicts"@,
            AppCommand::ShowConflicts => "Show conflicts"@,
            AppCommand::OpenSetup => "Setup wizard"@,
            AppCommand::ShowPairs => "Show pairs"@,
            AppCommand::ShowRuns => "Show sync runs"@,
            AppCommand::ShowReports => "Show dry-run report"@,
            AppCommand::ToggleBackgroundPause => "Pause background"@,
            AppCommand::ExportReport => "Export report"@,
            AppCommand::Quit => "Quit"@,
        }
    }

    pub fn label(self) -> (r: &'static str)
        ensures
            r@ == self.spec_label(),
    {
        match self {
            AppCommand::DryRun => "Dry-run sync",
            AppCommand::ApplyRun => "Apply sync",
            AppCommand::RefreshConflicts => "Refresh conflicts",
            AppCommand::ShowConflicts => "Show conflicts",
            AppCommand::OpenSetup => "Setup wizard",
            AppCommand::ShowPairs => "Show pairs",
            AppCommand::ShowRuns => "Show sync runs",
            AppCommand::ShowReports => "Show dry-run report",
            AppCommand::ToggleBackgroundPause => "Pause background",
            AppCommand::ExportReport => "Export report",
            AppCommand::Quit => "Quit",
        }
    }

    pub open spec fn spec_label_for(self, paused: bool) -> Seq<char> {
        if self == AppCommand::ToggleBackgroundPause && paused {
            "Resume background"@
        } else {
            self.spec_label()
        }
    }

    /// The label as shown for the model: the pause command reads "Resume
    /// background" while background sync is paused.
    pub fn label_for(self, model: &AppModel) -> (r: &'static str)
        ensures
            r@ == self.spec_label_for(model.background_paused),
    {
        if self == AppCommand::ToggleBackgroundPause && model.background_paused {
            "Resume background"
        } else {
            self.label()
        }
    }

    pub open spec fn spec_description(self) -> Seq<char> {
        match self {
            AppCommand::DryRun => "Plan provider changes without writing events"@,
            AppCommand::ApplyRun => "Execute writes using the current sync plan"@,
            AppCommand::RefreshConflicts => "Reload unresolved conflict state"@,
            AppCommand::ShowConflicts => "Inspect unresolved conflict groups"@,
            AppCommand::OpenSetup => "Open the guided setup checklist"@,
            AppCommand::ShowPairs => "Return to the calendar-pair dashboard"@,
            AppCommand::ShowRuns => "Open recent sync-run history"@,
            AppCommand::ShowReports => "Open the latest dry-run report rows"@,
            AppCommand::ToggleBackgroundPause => "Pause the background scheduler"@,
            AppCommand::ExportReport => "Export the latest dry-run report"@,
            AppCommand::Quit => "Close the terminal dashboard"@,
        }
    }

    pub fn description(self) -> (r: &'static str)
        ensures
            r@ == self.spec_description(),
    {
        match self {
            AppCommand::DryRun => "Plan provider changes without writing events",
            AppCommand::ApplyRun => "Execute writes using the current sync plan",
            AppCommand::RefreshConflicts => "Reload unresolved conflict state",
            AppCommand::ShowConflicts => "Inspect unresolved conflict groups",
            AppCommand::OpenSetup => "Open the guided setup checklist",
            AppCommand::ShowPairs => "Return to the calendar-pair dashboard",
            AppCommand::ShowRuns => "Open recent sync-run history",
            AppCommand::ShowReports => "Open the latest dry-run report rows",
            AppCommand::ToggleBackgroundPause => "Pause the background scheduler",
            AppCommand::ExportReport => "Export the latest dry-run report",
            AppCommand::Quit => "Close the terminal dashboard",
        }
    }

    pub open spec fn spec_description_for(self, paused: bool) -> Seq<char> {
        if self == AppCommand::ToggleBackgroundPause && paused {
            "Resume the background scheduler"@
        } else {
            self.spec_description()
        }
    }

    pub fn description_for(self, model: &AppModel) -> (r: &'static str)
        ensures
            r@ == self.spec_description_for(model.background_paused),
    {
        if self == AppCommand::ToggleBackgroundPause && model.background_paused {
            "Resume the background scheduler"
        } else {
            self.description()
        }
    }

    /// Syncing needs an enabled pair; every other command is always available.
    pub open spec fn spec_enabled(self, enabled_pairs: nat) -> bool {
        match self {
            AppCommand::DryRun | AppCommand::ApplyRun => enabled_pairs > 0,
            _ => true,
        }
    }

    pub fn is_enabled(self, model: &AppModel) -> (r: bool)
        ensures
            r == self.spec_enabled(count_enabled(model.pairs@)),
    {
        match self {
            AppCommand::DryRun | AppCommand::ApplyRun => model.enabled_pair_count() > 0,
            _ => true,
        }
    }

    pub open spec fn spec_destructive(self) -> bool {
        self == AppCommand::ApplyRun || self == AppCommand::Quit
    }

    pub fn is_destructive(self) -> (r: bool)
        ensures
            r == self.spec_destructive(),
    {
        self == AppCommand::ApplyRun || self == AppCommand::Quit
    }
}

impl AppRunFilter {
    pub open spec fn spec_label(self) -> Seq<char> {
        match self {
            AppRunFilter::All => "all"@,
            AppRunFilter::Running => "running"@,
            AppRunFilter::Completed => "completed"@,
            AppRunFilter::Failed => "failed"@,
        }
    }

    pub fn label(self) -> (r: &'static str)
        ensures
            r@ == self.spec_label(),
    {
        match self {
            AppRunFilter::All => "all",
            AppRunFilter::Running => "running",
            AppRunFilter::Completed => "completed",
            AppRunFilter::Failed => "failed",
        }
    }

    /// A run status passes the filter: any status for `All`, else the status
    /// named by the filter.
    pub open spec fn spec_matches(self, status: Seq<char>) -> bool {
        match self {
            AppRunFilter::All => true,
            _ => status == self.spec_label(),
        }
    }

    pub fn matches(self, status: &str) -> (r: bool)
        ensures
            r == self.spec_matches(status@),
    {
        match self {
            AppRunFilter::All => true,
            _ => str_eq(status, self.label()),
        }
    }

    /// The cycle all → failed → running → completed → all.
    pub open spec fn spec_next(self) -> AppRunFilter {
        match self {
            AppRunFilter::All => AppRunFilter::Failed,
            AppRunFilter::Failed => AppRunFilter::Running,
            AppRunFilter::Running => AppRunFilter::Completed,
            AppRunFilter::Completed => AppRunFilter::All,
        }
    }

    pub fn next(self) -> (r: AppRunFilter)
        ensures
            r == self.spec_next(),
    {
        match self {
            AppRunFilter::All => AppRunFilter::Failed,
            AppRunFilter::Failed => AppRunFilter::Running,
            AppRunFilter::Running => AppRunFilter::Completed,
            AppRunFilter::Completed => AppRunFilter::All,
        }
    }
}

impl AppReportFilter {
    pub open spec fn spec_label(self) -> Seq<char> {
        match self {
            AppReportFilter::All => "all"@,
            AppReportFilter::Creates => "creates"@,
            AppReportFilter::Updates => "updates"@,
            AppReportFilter::Deletes => "deletes"@,
            AppReportFilter::Conflicts => "conflicts"@,
        }
    }

    pub fn label(self) -> (r: &'static str)
        ensures
            r@ == self.spec_label(),
    {
        match self {
            AppReportFilter::All => "all",
            AppReportFilter::Creates => "creates",
            AppReportFilter::Updates => "updates",
            AppReportFilter::Deletes => "deletes",
            AppReportFilter::Conflicts => "conflicts",
        }
    }

    /// Creates, updates and deletes are matched on the action text; conflicts
    /// on the action, the reason or a manual resolution.
    pub open spec fn spec_matches(self, row: AppReportRow) -> bool {
        match self {
            AppReportFilter::All => true,
            AppReportFilter::Creates => contains_seq(row.action@, "create"@),
            AppReportFilter::Updates => contains_seq(row.action@, "update"@),
            AppReportFilter::Deletes => contains_seq(row.action@, "delete"@),
            AppReportFilter::Conflicts => contains_seq(row.action@, "conflict"@) || contains_seq(
                row.reason@,
                "conflict"@,
            ) || contains_seq(row.resolution@, "manual"@),
        }
    }

    pub fn matches(self, row: &AppReportRow) -> (r: bool)
        ensures
            r == self.spec_matches(*row),
    {
        match self {
            AppReportFilter::All => true,
            AppReportFilter::Creates => str_contains(row.action.as_str(), "create"),
            AppReportFilter::Updates => str_contains(row.action.as_str(), "update"),
            AppReportFilter::Deletes => str_contains(row.action.as_str(), "delete"),
            AppReportFilter::Conflicts => str_contains(row.action.as_str(), "conflict")
                || str_contains(row.reason.as_str(), "conflict") || str_contains(
                row.resolution.as_str(),
                "manual",
            ),
        }
    }

    pub open spec fn spec_next(self) -> AppReportFilter {
        match self {
            AppReportFilter::All => AppReportFilter::Creates,
            AppReportFilter::Creates => AppReportFilter::Updates,
            AppReportFilter::Updates => AppReportFilter::Deletes,
            AppReportFilter::Deletes => AppReportFilter::Conflicts,
            AppReportFilter::Conflicts => AppReportFilter::All,
        }
    }

    pub fn next(self) -> (r: AppReportFilter)
        ensures
            r == self.spec_next(),
    {
        match self {
            AppReportFilter::All => AppReportFilter::Creates,
            AppReportFilter::Creates => AppReportFilter::Updates,
            AppReportFilter::Updates => AppReportFilter::Deletes,
            AppReportFilter::Deletes => AppReportFilter::Conflicts,
            AppReportFilter::Conflicts => AppReportFilter::All,
        }
    }
}

impl AppReportSort {
    pub open spec fn spec_label(self) -> Seq<char> {
        match self {
            AppReportSort::Pair => "pair"@,
            AppReportSort::Action => "action"@,
            AppReportSort::Title => "title"@,
        }
    }

    pub fn label(self) -> (r: &'static str)
        ensures
            r@ == self.spec_label(),
    {
        match self {
            AppReportSort::Pair => "pair",
            AppReportSort::Action => "action",
            AppReportSort::Title => "title",
        }
    }

    /// The sort key: pair, action and title in the order the sort names first.
    pub open spec fn key(self, row: AppReportRow) -> (Seq<char>, Seq<char>, Seq<char>) {
        match self {
            AppReportSort::Pair => (row.pair_id@, row.action@, row.title@),
            AppReportSort::Action => (row.action@, row.pair_id@, row.title@),
            AppReportSort::Title => (row.title@, row.pair_id@, row.action@),
        }
    }

    /// `left` sorts strictly before `right`.
    pub open spec fn before(self, left: AppReportRow, right: AppReportRow) -> bool {
        let a = self.key(left);
        let b = self.key(right);
        seq_lt(a.0, b.0) || (a.0 == b.0 && (seq_lt(a.1, b.1) || (a.1 == b.1 && seq_lt(a.2, b.2))))
    }

    pub fn precedes(self, left: &AppReportRow, right: &AppReportRow) -> (r: bool)
        ensures
            r == self.before(*left, *right),
    {
        let (a0, a1, a2, b0, b1, b2) = match self {
            AppReportSort::Pair => (&left.pair_id, &left.action, &left.title, &right.pair_id, &right.action, &right.title),
            AppReportSort::Action => (&left.action, &left.pair_id, &left.title, &right.action, &right.pair_id, &right.title),
            AppReportSort::Title => (&left.title, &left.pair_id, &left.action, &right.title, &right.pair_id, &right.action),
        };
        str_lt(a0.as_str(), b0.as_str()) || (str_eq(a0.as_str(), b0.as_str()) && (str_lt(
            a1.as_str(),
            b1.as_str(),
        ) || (str_eq(a1.as_str(), b1.as_str()) && str_lt(a2.as_str(), b2.as_str()))))
    }

    pub open spec fn spec_next(self) -> AppReportSort {
        match self {
            AppReportSort::Pair => AppReportSort::Action,
            AppReportSort::Action => AppReportSort::Title,
            AppReportSort::Title => AppReportSort::Pair,
        }
    }

    pub fn next(self) -> (r: AppReportSort)
        ensures
            r == self.spec_next(),
    {
        match self {
            AppReportSort::Pair => AppReportSort::Action,
            AppReportSort::Action => AppReportSort::Title,
            AppReportSort::Title => AppReportSort::Pair,
        }
    }
}

// ---------------------------------------------------------------- queries
pub open spec fn count_enabled(pairs: Seq<AppPair>) -> nat
    decreases pairs.len(),
{
    if pairs.len() == 0 {
        0
    } else {
        count_enabled(pairs.drop_last()) + if pairs.last().enabled {
            1nat
        } else {
            0nat
        }
    }
}

proof fn lemma_count_enabled_bound(pairs: Seq<AppPair>)
    ensures
        count_enabled(pairs) <= pairs.len(),
    decreases pairs.len(),
{
    if pairs.len() > 0 {
        lemma_count_enabled_bound(pairs.drop_last());
    }
}

/// The first index at or after `start` whose pair has the id.
pub open spec fn pair_index_from(pairs: Seq<AppPair>, id: Seq<char>, start: int) -> Option<int>
    decreases pairs.len() - start,
{
    if start < 0 || start >= pairs.len() {
        None
    } else if pairs[start].id@ == id {
        Some(start)
    } else {
        pair_index_from(pairs, id, start + 1)
    }
}

/// The first index at or after `start` whose run has the id.
pub open spec fn run_index_from(runs: Seq<AppRun>, id: Seq<char>, start: int) -> Option<int>
    decreases runs.len() - start,
{
    if start < 0 || start >= runs.len() {
        None
    } else if runs[start].id@ == id {
        Some(start)
    } else {
        run_index_from(runs, id, start + 1)
    }
}

/// The runs that pass the filter, in order.
pub open spec fn visible_run_seq(runs: Seq<AppRun>, f: AppRunFilter) -> Seq<AppRun>
    decreases runs.len(),
{
    if runs.len() == 0 {
        runs
    } else if f.spec_matches(runs.last().status@) {
        visible_run_seq(runs.drop_last(), f).push(runs.last())
    } else {
        visible_run_seq(runs.drop_last(), f)
    }
}

/// The report rows that pass the filter, in order.
pub open spec fn filtered_rows(rows: Seq<AppReportRow>, f: AppReportFilter) -> Seq<AppReportRow>
    decreases rows.len(),
{
    if rows.len() == 0 {
        rows
    } else if f.spec_matches(rows.last()) {
        filtered_rows(rows.drop_last(), f).push(rows.last())
    } else {
        filtered_rows(rows.drop_last(), f)
    }
}

/// Inserts `x` before the first row that sorts after it, which keeps rows of
/// equal key in the order they came.
pub open spec fn insert_row(s: Seq<AppReportRow>, x: AppReportRow, o: AppReportSort) -> Seq<AppReportRow>
    decreases s.len(),
{
    if s.len() == 0 {
        seq![x]
    } else if o.before(x, s[0]) {
        seq![x] + s
    } else {
        seq![s[0]] + insert_row(s.drop_first(), x, o)
    }
}

/// The rows in stable order of the sort key (`sort_by`).
pub open spec fn sorted_rows(s: Seq<AppReportRow>, o: AppReportSort) -> Seq<AppReportRow>
    decreases s.len(),
{
    if s.len() == 0 {
        s
    } else {
        insert_row(sorted_rows(s.drop_last(), o), s.last(), o)
    }
}

pub open spec fn visible_row_seq(m: AppModel) -> Seq<AppReportRow> {
    sorted_rows(filtered_rows(m.report_rows@, m.report_filter), m.report_sort)
}

pub open spec fn derefs<T>(s: Seq<&T>) -> Seq<T> {
    s.map_values(|x: &T| *x)
}

proof fn lemma_insert_row_at(s: Seq<AppReportRow>, x: AppReportRow, o: AppReportSort, k: int)
    requires
        0 <= k <= s.len(),
        forall|j: int| 0 <= j < k ==> !o.before(x, #[trigger] s[j]),
        k == s.len() || o.before(x, s[k]),
    ensures
        insert_row(s, x, o) == s.take(k) + seq![x] + s.skip(k),
    decreases k,
{
    if k == 0 {
        if s.len() == 0 {
            assert(s.take(0) + seq![x] + s.skip(0) =~= seq![x]);
        } else {
            assert(s.take(0) + seq![x] + s.skip(0) =~= seq![x] + s);
        }
    } else {
        let t = s.drop_first();
        assert forall|j: int| 0 <= j < k - 1 implies !o.before(x, #[trigger] t[j]) by {
            assert(t[j] == s[j + 1]);
        }
        if k < s.len() {
            assert(t[k - 1] == s[k]);
        }
        lemma_insert_row_at(t, x, o, k - 1);
        assert(!o.before(x, s[0]));
        assert(seq![s[0]] + (t.take(k - 1) + seq![x] + t.skip(k - 1)) =~= s.take(k) + seq![x]
            + s.skip(k));
    }
}

impl AppModel {
    pub fn enabled_pair_count(&self) -> (r: usize)
        ensures
            r == count_enabled(self.pairs@),
    {
        let mut n: usize = 0;
        let mut i: usize = 0;
        while i < self.pairs.len()
            invariant
                i <= self.pairs@.len(),
                n == count_enabled(self.pairs@.take(i as int)),
            decreases self.pairs@.len() - i,
        {
            proof {
                let t = self.pairs@.take(i + 1);
                assert(t.drop_last() =~= self.pairs@.take(i as int));
                lemma_count_enabled_bound(self.pairs@.take(i as int));
            }
            if self.pairs[i].enabled {
                n = n + 1;
            }
            i = i + 1;
        }
        assert(self.pairs@.take(self.pairs@.len() as int) =~= self.pairs@);
        n
    }

    pub(crate) fn pair_position(&self, id: &str) -> (r: Option<usize>)
        ensures
            match r {
                Some(k) => k < self.pairs@.len() && pair_index_from(self.pairs@, id@, 0) == Some(k as int),
                None => pair_index_from(self.pairs@, id@, 0) is None,
            },
    {
        let mut i: usize = 0;
        while i < self.pairs.len()
            invariant
                i <= self.pairs@.len(),
                pair_index_from(self.pairs@, id@, 0) == pair_index_from(self.pairs@, id@, i as int),
            decreases self.pairs@.len() - i,
        {
            if str_eq(self.pairs[i].id.as_str(), id) {
                return Some(i);
            }
            i = i + 1;
        }
        None
    }

    /// The pair whose id is selected, if it exists.
    pub fn selected_pair(&self) -> (r: Option<&AppPair>)
        ensures
            r == (match self.selected_pair_id {
                Some(id) => match pair_index_from(self.pairs@, id@, 0) {
                    Some(k) => Some(&self.pairs@[k]),
                    None => None,
                },
                None => None,
            }),
    {
        match &self.selected_pair_id {
            Some(id) => match self.pair_position(id.as_str()) {
                Some(k) => Some(&self.pairs[k]),
                None => None,
            },
            None => None,
        }
    }

    /// The runs that pass the run filter.
    pub fn visible_runs(&self) -> (r: Vec<&AppRun>)
        ensures
            derefs(r@) == visible_run_seq(self.runs@, self.run_filter),
    {
        let mut out: Vec<&AppRun> = Vec::new();
        let mut i: usize = 0;
        while i < self.runs.len()
            invariant
                i <= self.runs@.len(),
                derefs(out@) == visible_run_seq(self.runs@.take(i as int), self.run_filter),
            decreases self.runs@.len() - i,
        {
            proof {
                let t = self.runs@.take(i + 1);
                assert(t.drop_last() =~= self.runs@.take(i as int));
            }
            if self.run_filter.matches(self.runs[i].status.as_str()) {
                let ghost before = out@;
                out.push(&self.runs[i]);
                assert(derefs(out@) =~= derefs(before).push(self.runs@[i as int]));
            }
            i = i + 1;
        }
        assert(self.runs@.take(self.runs@.len() as int) =~= self.runs@);
        out
    }

    fn run_position(&self, id: &str) -> (r: Option<usize>)
        ensures
            match r {
                Some(k) => k < self.runs@.len() && run_index_from(self.runs@, id@, 0) == Some(k as int),
                None => run_index_from(self.runs@, id@, 0) is None,
            },
    {
        let mut i: usize = 0;
        while i < self.runs.len()
            invariant
                i <= self.runs@.len(),
                run_index_from(self.runs@, id@, 0) == run_index_from(self.runs@, id@, i as int),
            decreases self.runs@.len() - i,
        {
            if str_eq(self.runs[i].id.as_str(), id) {
                return Some(i);
            }
            i = i + 1;
        }
        None
    }

    /// The run whose id is selected, if it exists.
    pub fn selected_run(&self) -> (r: Option<&AppRun>)
        ensures
            r == (match self.selected_run_id {
                Some(id) => match run_index_from(self.runs@, id@, 0) {
                    Some(k) => Some(&self.runs@[k]),
                    None => None,
                },
                None => None,
            }),
    {
        match &self.selected_run_id {
            Some(id) => match self.run_position(id.as_str()) {
                Some(k) => Some(&self.runs[k]),
                None => None,
            },
            None => None,
        }
    }

    /// The report rows that pass the filter, in stable order of the sort key.
    pub fn visible_report_rows(&self) -> (r: Vec<&AppReportRow>)
        ensures
            derefs(r@) == visible_row_seq(*self),
    {
        let mut filtered: Vec<&AppReportRow> = Vec::new();
        let mut i: usize = 0;
        while i < self.report_rows.len()
            invariant
                i <= self.report_rows@.len(),
                derefs(filtered@) == filtered_rows(self.report_rows@.take(i as int), self.report_filter),
            decreases self.report_rows@.len() - i,
        {
            proof {
                let t = self.report_rows@.take(i + 1);
                assert(t.drop_last() =~= self.report_rows@.take(i as int));
            }
            if self.report_filter.matches(&self.report_rows[i]) {
                let ghost before = filtered@;
                filtered.push(&self.report_rows[i]);
                assert(derefs(filtered@) =~= derefs(before).push(self.report_rows@[i as int]));
            }
            i = i + 1;
        }
        assert(self.report_rows@.take(self.report_rows@.len() as int) =~= self.report_rows@);
        let ghost fs = derefs(filtered@);
        let mut out: Vec<&AppReportRow> = Vec::new();
        let mut j: usize = 0;
        while j < filtered.len()
            invariant
                j <= filtered@.len(),
                fs == derefs(filtered@),
                derefs(out@) == sorted_rows(fs.take(j as int), self.report_sort),
            decreases filtered@.len() - j,
        {
            let x = filtered[j];
            let mut k: usize = 0;
            while k < out.len() && !self.report_sort.precedes(x, out[k])
                invariant
                    k <= out@.len(),
                    forall|m: int| 0 <= m < k ==> !self.report_sort.before(*x, #[trigger] derefs(out@)[m]),
                decreases out@.len() - k,
            {
                k = k + 1;
            }
            proof {
                lemma_insert_row_at(derefs(out@), *x, self.report_sort, k as int);
                let t = fs.take(j + 1);
                assert(t.drop_last() =~= fs.take(j as int));
                assert(t.last() == *x);
            }
            let ghost before = out@;
            out.insert(k, x);
            assert(derefs(out@) =~= derefs(before).take(k as int) + seq![*x] + derefs(before).skip(
                k as int,
            ));
            j = j + 1;
        }
        assert(fs.take(fs.len() as int) =~= fs);
        out
    }

    /// The selected row of the visible report rows, if the index is in range.
    pub fn selected_report_row(&self) -> (r: Option<&AppReportRow>)
        ensures
            match self.selected_report_index {
                Some(k) => if k < visible_row_seq(*self).len() {
                    r matches Some(x) && *x == visible_row_seq(*self)[k as int]
                } else {
                    r is None
                },
                None => r is None,
            },
    {
        match self.selected_report_index {
            Some(k) => {
                let rows = self.visible_report_rows();
                if k < rows.len() {
                    assert(derefs(rows@)[k as int] == *rows@[k as int]);
                    Some(rows[k])
                } else {
                    None
                }
            },
            None => None,
        }
    }

    /// The palette command at the selected index, or the dry run when the
    /// index is out of range.
    pub fn selected_command(&self) -> (r: AppCommand)
        ensures
            r == (if self.selected_command_index < 11 {
                all_commands()[self.selected_command_index as int]
            } else {
                AppCommand::DryRun
            }),
    {
        let all = AppCommand::all();
        if self.selected_command_index < all.len() {
            all[self.selected_command_index]
        } else {
            AppCommand::DryRun
        }
    }

    /// The conflict group at the selected index, if any.
    pub fn selected_conflict_summary(&self) -> (r: Option<&AppConflictSummary>)
        ensures
            r == (match self.selected_conflict_index {
                Some(k) => if k < self.conflict_summaries@.len() {
                    Some(&self.conflict_summaries@[k as int])
                } else {
                    None
                },
                None => None,
            }),
    {
        match self.selected_conflict_index {
            Some(k) => if k < self.conflict_summaries.len() {
                Some(&self.conflict_summaries[k])
            } else {
                None
            },
            None => None,
        }
    }
}

// ---------------------------------------------------------------- selection
/// `(cur + 1)` or `(cur - 1)` modulo `len`, as `rem_euclid` computes it.
fn step_index(cur: usize, len: usize, forward: bool) -> (r: usize)
    requires
        len > 0,
    ensures
        r < len,
        r as int == (cur as int + (if forward { 1int } else { -1int })) % (len as int),
{
    let c = cur % len;
    let ghost q = cur as int / len as int;
    proof {
        vstd::arithmetic::div_mod::lemma_fundamental_div_mod(cur as int, len as int);
        assert(cur as int == q * len + c);
    }
    if forward {
        if c + 1 == len {
            proof {
                assert((q + 1) * len == q * len + len) by (nonlinear_arith);
                vstd::arithmetic::div_mod::lemma_fundamental_div_mod_converse_mod(cur as int + 1, len as int, q + 1, 0);
            }
            0
        } else {
            proof {
                vstd::arithmetic::div_mod::lemma_fundamental_div_mod_converse_mod(cur as int + 1, len as int, q, c + 1);
            }
            c + 1
        }
    } else {
        if c == 0 {
            proof {
                assert((q - 1) * len == q * len - len) by (nonlinear_arith);
                vstd::arithmetic::div_mod::lemma_fundamental_div_mod_converse_mod(cur as int - 1, len as int, q - 1, len - 1);
            }
            len - 1
        } else {
            proof {
                vstd::arithmetic::div_mod::lemma_fundamental_div_mod_converse_mod(cur as int - 1, len as int, q, c - 1);
            }
            c - 1
        }
    }
}

pub open spec fn step(cur: int, len: int, forward: bool) -> int {
    (cur + (if forward { 1int } else { -1int })) % len
}

pub open spec fn visible_runs_of(m: AppModel) -> Seq<AppRun> {
    visible_run_seq(m.runs@, m.run_filter)
}

pub open spec fn run_id_visible(m: AppModel, id: Seq<char>) -> bool {
    exists|k: int| 0 <= k < visible_runs_of(m).len() && (#[trigger] visible_runs_of(m)[k]).id@ == id
}

/// The selected run after making sure it is a visible one: kept when
/// visible, else the first visible run, else none.
pub open spec fn ensured_run(m: AppModel) -> Option<String> {
    if m.selected_run_id is Some && run_id_visible(m, m.selected_run_id->0@) {
        m.selected_run_id
    } else if visible_runs_of(m).len() > 0 {
        Some(visible_runs_of(m)[0].id)
    } else {
        None
    }
}

pub open spec fn stepped_run(m: AppModel, forward: bool) -> Option<String> {
    let vis = visible_runs_of(m);
    if vis.len() == 0 {
        None
    } else {
        let cur = match m.selected_run_id {
            Some(s) => match run_index_from(vis, s@, 0) {
                Some(k) => k,
                None => 0,
            },
            None => 0,
        };
        Some(vis[step(cur, vis.len() as int, forward)].id)
    }
}

pub open spec fn ensured_report(m: AppModel) -> Option<usize> {
    let n = visible_row_seq(m).len();
    if n == 0 {
        None
    } else {
        match m.selected_report_index {
            Some(k) => if k < n { Some(k) } else { Some(0) },
            None => Some(0),
        }
    }
}

pub open spec fn stepped_report(m: AppModel, forward: bool) -> Option<usize> {
    let n = visible_row_seq(m).len();
    if n == 0 {
        None
    } else {
        let cur: int = match m.selected_report_index {
            Some(k) => if k < n { k as int } else { 0 },
            None => 0,
        };
        Some(step(cur, n as int, forward) as usize)
    }
}

pub open spec fn ensured_conflict(m: AppModel) -> Option<usize> {
    let n = m.conflict_summaries@.len();
    if n == 0 {
        None
    } else {
        match m.selected_conflict_index {
            Some(k) => if k < n { Some(k) } else { Some(0) },
            None => Some(0),
        }
    }
}

pub open spec fn stepped_conflict(m: AppModel, forward: bool) -> Option<usize> {
    let n = m.conflict_summaries@.len();
    if n == 0 {
        None
    } else {
        let cur: int = match m.selected_conflict_index {
            Some(k) => k as int,
            None => 0,
        };
        Some(step(cur, n as int, forward) as usize)
    }
}

pub open spec fn stepped_pair(m: AppModel, forward: bool) -> Option<String> {
    let n = m.pairs@.len();
    if n == 0 {
        None
    } else {
        let cur = match m.selected_pair_id {
            Some(s) => match pair_index_from(m.pairs@, s@, 0) {
                Some(k) => k,
                None => 0,
            },
            None => 0,
        };
        Some(m.pairs@[step(cur, n as int, forward)].id)
    }
}

pub open spec fn stepped_command(m: AppModel, forward: bool) -> usize {
    step(m.selected_command_index as int, 11, forward) as usize
}

proof fn lemma_pair_index_in_range(pairs: Seq<AppPair>, id: Seq<char>, start: int)
    ensures
        pair_index_from(pairs, id, start) matches Some(k) ==> (0 <= k < pairs.len() && pairs[k].id@ == id),
    decreases pairs.len() - start,
{
    if 0 <= start < pairs.len() && pairs[start].id@ != id {
        lemma_pair_index_in_range(pairs, id, start + 1);
    }
}

proof fn lemma_run_index_in_range(runs: Seq<AppRun>, id: Seq<char>, start: int)
    ensures
        run_index_from(runs, id, start) matches Some(k) ==> (0 <= k < runs.len() && runs[k].id@ == id),
        run_index_from(runs, id, start) is None ==> forall|k: int| start <= k < runs.len() && 0 <= start ==> runs[k].id@ != id,
    decreases runs.len() - start,
{
    if 0 <= start < runs.len() && runs[start].id@ != id {
        lemma_run_index_in_range(runs, id, start + 1);
    }
}

/// The conflict details of the selected group: same pair and same reason.
pub open spec fn details_of(details: Seq<AppConflictDetail>, pair_id: Seq<char>, reason: Seq<char>) -> Seq<AppConflictDetail>
    decreases details.len(),
{
    if details.len() == 0 {
        details
    } else if details.last().pair_id@ == pair_id && details.last().reason@ == reason {
        details_of(details.drop_last(), pair_id, reason).push(details.last())
    } else {
        details_of(details.drop_last(), pair_id, reason)
    }
}

pub open spec fn selected_details(m: AppModel) -> Seq<AppConflictDetail> {
    match m.selected_conflict_index {
        Some(k) => if k < m.conflict_summaries@.len() {
            details_of(
                m.conflict_details@,
                m.conflict_summaries@[k as int].pair_id@,
                m.conflict_summaries@[k as int].reason@,
            )
        } else {
            Seq::empty()
        },
        None => Seq::empty(),
    }
}

fn position_in(vis: &Vec<&AppRun>, id: &str) -> (r: Option<usize>)
    ensures
        match r {
            Some(k) => k < vis@.len() && run_index_from(derefs(vis@), id@, 0) == Some(k as int),
            None => run_index_from(derefs(vis@), id@, 0) is None,
        },
{
    let ghost d = derefs(vis@);
    let mut i: usize = 0;
    while i < vis.len()
        invariant
            i <= vis@.len(),
            d == derefs(vis@),
            run_index_from(d, id@, 0) == run_index_from(d, id@, i as int),
        decreases vis@.len() - i,
    {
        assert(d[i as int] == *vis@[i as int]);
        if str_eq(vis[i].id.as_str(), id) {
            return Some(i);
        }
        i = i + 1;
    }
    None
}

impl AppModel {
    /// The details of the selected conflict group, in order.
    pub fn selected_conflict_details(&self) -> (r: Vec<&AppConflictDetail>)
        ensures
            derefs(r@) == selected_details(*self),
    {
        let mut out: Vec<&AppConflictDetail> = Vec::new();
        let summary = match self.selected_conflict_summary() {
            Some(s) => s,
            None => {
                assert(derefs(out@) =~= Seq::<AppConflictDetail>::empty());
                return out;
            },
        };
        let mut i: usize = 0;
        while i < self.conflict_details.len()
            invariant
                i <= self.conflict_details@.len(),
                derefs(out@) == details_of(self.conflict_details@.take(i as int), summary.pair_id@, summary.reason@),
            decreases self.conflict_details@.len() - i,
        {
            proof {
                let t = self.conflict_details@.take(i + 1);
                assert(t.drop_last() =~= self.conflict_details@.take(i as int));
            }
            let d = &self.conflict_details[i];
            if str_eq(d.pair_id.as_str(), summary.pair_id.as_str()) && str_eq(d.reason.as_str(), summary.reason.as_str()) {
                let ghost before = out@;
                out.push(d);
                assert(derefs(out@) =~= derefs(before).push(self.conflict_details@[i as int]));
            }
            i = i + 1;
        }
        assert(self.conflict_details@.take(self.conflict_details@.len() as int) =~= self.conflict_details@);
        out
    }

    pub(crate) fn ensure_selected_run(&mut self)
        ensures
            *final(self) == (AppModel { selected_run_id: ensured_run(*old(self)), ..*old(self) }),
    {
        let visible = self.visible_runs();
        let ghost vis = visible_runs_of(*self);
        let found = match &self.selected_run_id {
            Some(sel) => {
                let p = position_in(&visible, sel.as_str());
                proof {
                    lemma_run_index_in_range(vis, sel@, 0);
                    if p is Some {
                        let k = p->0 as int;
                        assert(vis[k].id@ == sel@);
                        assert(run_id_visible(*self, sel@));
                    }
                }
                p.is_some()
            },
            None => false,
        };
        if found {
            return;
        }
        if visible.len() > 0 {
            assert(vis[0] == *visible@[0]);
            let id = visible[0].id.clone();
            self.selected_run_id = Some(id);
        } else {
            self.selected_run_id = None;
        }
    }

    fn select_run_by_offset(&mut self, forward: bool)
        ensures
            *final(self) == (AppModel { selected_run_id: stepped_run(*old(self), forward), ..*old(self) }),
    {
        let visible = self.visible_runs();
        let ghost vis = visible_runs_of(*self);
        if visible.len() == 0 {
            self.selected_run_id = None;
            return;
        }
        let cur: usize = match &self.selected_run_id {
            Some(sel) => match position_in(&visible, sel.as_str()) {
                Some(k) => k,
                None => 0,
            },
            None => 0,
        };
        let next = step_index(cur, visible.len(), forward);
        assert(vis[next as int] == *visible@[next as int]);
        let id = visible[next].id.clone();
        self.selected_run_id = Some(id);
    }

    pub(crate) fn ensure_selected_report_row(&mut self)
        ensures
            *final(self) == (AppModel { selected_report_index: ensured_report(*old(self)), ..*old(self) }),
    {
        let n = self.visible_report_rows().len();
        if n == 0 {
            self.selected_report_index = None;
            return;
        }
        let selected = match self.selected_report_index {
            Some(k) => if k < n { k } else { 0 },
            None => 0,
        };
        self.selected_report_index = Some(selected);
    }

    fn select_report_row_by_offset(&mut self, forward: bool)
        ensures
            *final(self) == (AppModel { selected_report_index: stepped_report(*old(self), forward), ..*old(self) }),
    {
        let n = self.visible_report_rows().len();
        if n == 0 {
            self.selected_report_index = None;
            return;
        }
        let cur = match self.selected_report_index {
            Some(k) => if k < n { k } else { 0 },
            None => 0,
        };
        self.selected_report_index = Some(step_index(cur, n, forward));
    }

    pub(crate) fn ensure_selected_conflict(&mut self)
        ensures
            *final(self) == (AppModel { selected_conflict_index: ensured_conflict(*old(self)), ..*old(self) }),
    {
        let n = self.conflict_summaries.len();
        if n == 0 {
            self.selected_conflict_index = None;
            return;
        }
        let selected = match self.selected_conflict_index {
            Some(k) => if k < n { k } else { 0 },
            None => 0,
        };
        self.selected_conflict_index = Some(selected);
    }

    fn select_conflict_by_offset(&mut self, forward: bool)
        ensures
            *final(self) == (AppModel { selected_conflict_index: stepped_conflict(*old(self), forward), ..*old(self) }),
    {
        let n = self.conflict_summaries.len();
        if n == 0 {
            self.selected_conflict_index = None;
            return;
        }
        let cur = match self.selected_conflict_index {
            Some(k) => k,
            None => 0,
        };
        self.selected_conflict_index = Some(step_index(cur, n, forward));
    }

    fn select_pair_by_offset(&mut self, forward: bool)
        ensures
            *final(self) == (AppModel { selected_pair_id: stepped_pair(*old(self), forward), ..*old(self) }),
    {
        let n = self.pairs.len();
        if n == 0 {
            self.selected_pair_id = None;
            return;
        }
        let cur = match &self.selected_pair_id {
            Some(sel) => match self.pair_position(sel.as_str()) {
                Some(k) => k,
                None => 0,
            },
            None => 0,
        };
        let next = step_index(cur, n, forward);
        let id = self.pairs[next].id.clone();
        self.selected_pair_id = Some(id);
    }

    pub(crate) fn select_command_by_offset(&mut self, forward: bool)
        ensures
            *final(self) == (AppModel { selected_command_index: stepped_command(*old(self), forward), ..*old(self) }),
    {
        self.selected_command_index = step_index(self.selected_command_index, 11, forward);
    }

    /// Selects the next pair, wrapping to the first.
    pub fn select_next_pair(&mut self)
        ensures
            *final(self) == (AppModel { selected_pair_id: stepped_pair(*old(self), true), ..*old(self) }),
    {
        self.select_pair_by_offset(true);
    }

    /// Selects the previous pair, wrapping to the last.
    pub fn select_previous_pair(&mut self)
        ensures
            *final(self) == (AppModel { selected_pair_id: stepped_pair(*old(self), false), ..*old(self) }),
    {
        self.select_pair_by_offset(false);
    }

    pub fn select_next_run(&mut self)
        ensures
            *final(self) == (AppModel { selected_run_id: stepped_run(*old(self), true), ..*old(self) }),
    {
        self.select_run_by_offset(true);
    }

    pub fn select_previous_run(&mut self)
        ensures
            *final(self) == (AppModel { selected_run_id: stepped_run(*old(self), false), ..*old(self) }),
    {
        self.select_run_by_offset(false);
    }

    pub fn select_next_report_row(&mut self)
        ensures
            *final(self) == (AppModel { selected_report_index: stepped_report(*old(self), true), ..*old(self) }),
    {
        self.select_report_row_by_offset(true);
    }

    pub fn select_previous_report_row(&mut self)
        ensures
            *final(self) == (AppModel { selected_report_index: stepped_report(*old(self), false), ..*old(self) }),
    {
        self.select_report_row_by_offset(false);
    }

    pub fn select_next_conflict(&mut self)
        ensures
            *final(self) == (AppModel { selected_conflict_index: stepped_conflict(*old(self), true), ..*old(self) }),
    {
        self.select_conflict_by_offset(true);
    }

    pub fn select_previous_conflict(&mut self)
        ensures
            *final(self) == (AppModel { selected_conflict_index: stepped_conflict(*old(self), false), ..*old(self) }),
    {
        self.select_conflict_by_offset(false);
    }
}

// ---------------------------------------------------------------- setup
pub open spec fn non_empty_text(v: Option<String>) -> bool {
    match v {
        Some(s) => trim(s@).len() > 0,
        None => false,
    }
}

fn non_empty(v: &Option<String>) -> (r: bool)
    ensures
        r == non_empty_text(*v),
{
    match v {
        Some(s) => {
            let c = crate::text::chars_of(s.as_str());
            let t = crate::text::trim_chars(&c);
            t.len() > 0
        },
        None => false,
    }
}

pub open spec fn store_name(k: SecretStoreKind) -> Seq<char> {
    match k {
        SecretStoreKind::Inline => "none"@,
        SecretStoreKind::Os => "os"@,
    }
}

/// The setup state the configuration gives.
pub open spec fn setup_from(s: AppSetupState, c: ServiceConfig) -> bool {
    &&& s.secret_store@ == store_name(c.secret_store)
    &&& s.db_path == c.db_path
    &&& s.log_level == c.log_level
    &&& s.google_account_label == c.google.account_label
    &&& s.google_client_id_configured == non_empty_text(c.google.client_id)
    &&& s.google_client_secret_inline == non_empty_text(c.google.client_secret)
    &&& s.google_refresh_token_inline == non_empty_text(c.google.refresh_token)
    &&& s.icloud_account_label == c.icloud.account_label
    &&& s.icloud_username_configured == non_empty_text(c.icloud.username)
    &&& s.icloud_app_password_inline == non_empty_text(c.icloud.app_specific_password)
    &&& s.icloud_caldav_url == c.icloud.caldav_url
    &&& s.poll_interval_seconds == c.sync.poll_interval_seconds
}

impl AppSetupState {
    pub fn from_config(config: &ServiceConfig) -> (r: AppSetupState)
        ensures
            setup_from(r, *config),
    {
        AppSetupState {
            secret_store: match config.secret_store {
                SecretStoreKind::Inline => owned("none"),
                SecretStoreKind::Os => owned("os"),
            },
            db_path: config.db_path.clone(),
            log_level: config.log_level.clone(),
            google_account_label: config.google.account_label.clone(),
            google_client_id_configured: non_empty(&config.google.client_id),
            google_client_secret_inline: non_empty(&config.google.client_secret),
            google_refresh_token_inline: non_empty(&config.google.refresh_token),
            icloud_account_label: config.icloud.account_label.clone(),
            icloud_username_configured: non_empty(&config.icloud.username),
            icloud_app_password_inline: non_empty(&config.icloud.app_specific_password),
            icloud_caldav_url: config.icloud.caldav_url.clone(),
            poll_interval_seconds: config.sync.poll_interval_seconds,
        }
    }
}

impl Default for AppSetupState {
    fn default() -> (r: Self)
        ensures
            r.secret_store@ == "none"@,
            r.db_path@ == ".insync/insync.db"@,
            r.log_level@ == "info"@,
            r.google_account_label@ == "personal"@,
            !r.google_client_id_configured,
            !r.google_client_secret_inline,
            !r.google_refresh_token_inline,
            r.icloud_account_label@ == "personal"@,
            !r.icloud_username_configured,
            !r.icloud_app_password_inline,
            r.icloud_caldav_url@ == "https://caldav.icloud.com"@,
            r.poll_interval_seconds == 300,
    {
        let c = ServiceConfig::default();
        AppSetupState::from_config(&c)
    }
}

pub struct StepView {
    pub label: Seq<char>,
    pub status: AppSetupStepStatus,
    pub detail: Seq<char>,
    pub next_action: Seq<char>,
}

pub open spec fn step_view(s: AppSetupStep) -> StepView {
    StepView { label: s.label@, status: s.status, detail: s.detail@, next_action: s.next_action@ }
}

pub open spec fn readiness_text(ready: bool) -> Seq<char> {
    if ready { "ready"@ } else { "missing"@ }
}

pub open spec fn secret_readiness_text(inline: bool, os_store: bool) -> Seq<char> {
    if inline {
        "inline"@
    } else if os_store {
        "os store"@
    } else {
        "missing"@
    }
}

fn readiness(ready: bool) -> (r: &'static str)
    ensures
        r@ == readiness_text(ready),
{
    if ready { "ready" } else { "missing" }
}

fn secret_readiness(inline: bool, os_store: bool) -> (r: &'static str)
    ensures
        r@ == secret_readiness_text(inline, os_store),
{
    if inline {
        "inline"
    } else if os_store {
        "os store"
    } else {
        "missing"
    }
}

pub open spec fn graded(full: bool, partial: bool) -> AppSetupStepStatus {
    if full {
        AppSetupStepStatus::Complete
    } else if partial {
        AppSetupStepStatus::Attention
    } else {
        AppSetupStepStatus::Missing
    }
}

pub open spec fn cached_count(pairs: Seq<AppPair>) -> nat
    decreases pairs.len(),
{
    if pairs.len() == 0 {
        0
    } else {
        cached_count(pairs.drop_last()) + if pairs.last().google_calendar_name is Some
            || pairs.last().icloud_calendar_name is Some {
            1nat
        } else {
            0nat
        }
    }
}

/// The six setup checklist steps: config, Google OAuth, iCloud, discovery,
/// calendar pair, doctor / dry run.
pub open spec fn setup_step_views(m: AppModel) -> Seq<StepView> {
    let s = m.setup;
    let os = s.secret_store@ == "os"@;
    let n = m.pairs@.len();
    let cached = cached_count(m.pairs@);
    let enabled = count_enabled(m.pairs@);
    seq![
        StepView {
            label: "Config"@,
            status: AppSetupStepStatus::Complete,
            detail: "db "@ + s.db_path@ + ", log "@ + s.log_level@ + ", secrets "@ + s.secret_store@,
            next_action: "Run insync doctor after changes"@,
        },
        StepView {
            label: "Google OAuth"@,
            status: graded(s.google_client_id_configured && (s.google_refresh_token_inline || os), s.google_client_id_configured),
            detail: "account "@ + s.google_account_label@ + ", client id "@ + readiness_text(s.google_client_id_configured)
                + ", refresh token "@ + secret_readiness_text(s.google_refresh_token_inline, os),
            next_action: "Run insync setup --google-callback or --google-code"@,
        },
        StepView {
            label: "iCloud"@,
            status: graded(s.icloud_username_configured && (s.icloud_app_password_inline || os), s.icloud_username_configured),
            detail: "account "@ + s.icloud_account_label@ + ", username "@ + readiness_text(s.icloud_username_configured)
                + ", password "@ + secret_readiness_text(s.icloud_app_password_inline, os) + ", CalDAV "@ + s.icloud_caldav_url@,
            next_action: "Run insync setup --icloud-username ... --icloud-app-password ..."@,
        },
        StepView {
            label: "Discovery"@,
            status: graded(cached == n && n > 0, n > 0),
            detail: decimal(cached) + "/"@ + decimal(n) + " pairs have cached calendar metadata"@,
            next_action: "Run insync setup --discover"@,
        },
        StepView {
            label: "Calendar Pair"@,
            status: graded(enabled > 0, n > 0),
            detail: decimal(n) + " configured, "@ + decimal(enabled) + " enabled"@,
            next_action: "Run insync setup --pair-id ... --google-calendar-id ... --icloud-calendar-id ..."@,
        },
        StepView {
            label: "Doctor / Dry Run"@,
            status: if m.recent_error is Some {
                AppSetupStepStatus::Attention
            } else if m.last_run_status is Some && m.last_run_status->0@ == "completed"@ {
                AppSetupStepStatus::Complete
            } else {
                AppSetupStepStatus::Missing
            },
            detail: match m.last_run_status {
                Some(st) => "last run "@ + st@,
                None => "no successful dry-run recorded in this session"@,
            },
            next_action: "Run insync doctor, then insync sync --report .insync/reports/dry-run.csv"@,
        },
    ]
}

fn make_step(label: &str, status: AppSetupStepStatus, detail: String, next_action: &str) -> (r: AppSetupStep)
    ensures
        step_view(r) == (StepView { label: label@, status, detail: detail@, next_action: next_action@ }),
{
    AppSetupStep { label: owned(label), status, detail, next_action: owned(next_action) }
}

fn cached_pair_count(pairs: &Vec<AppPair>) -> (r: usize)
    ensures
        r == cached_count(pairs@),
{
    let mut n: usize = 0;
    let mut i: usize = 0;
    while i < pairs.len()
        invariant
            i <= pairs@.len(),
            n == cached_count(pairs@.take(i as int)),
            n <= i,
        decreases pairs@.len() - i,
    {
        proof {
            let t = pairs@.take(i + 1);
            assert(t.drop_last() =~= pairs@.take(i as int));
        }
        if pairs[i].google_calendar_name.is_some() || pairs[i].icloud_calendar_name.is_some() {
            n = n + 1;
        }
        i = i + 1;
    }
    assert(pairs@.take(pairs@.len() as int) =~= pairs@);
    n
}

impl AppModel {
    /// The setup checklist for the current model.
    pub fn setup_steps(&self) -> (r: Vec<AppSetupStep>)
        ensures
            r@.map_values(|x: AppSetupStep| step_view(x)) == setup_step_views(*self),
    {
        let s = &self.setup;
        let os = str_eq(s.secret_store.as_str(), "os");
        let n = self.pairs.len();
        let cached = cached_pair_count(&self.pairs);
        let enabled = self.enabled_pair_count();

        let mut d0 = owned("db ");
        append_str(&mut d0, s.db_path.as_str());
        append_str(&mut d0, ", log ");
        append_str(&mut d0, s.log_level.as_str());
        append_str(&mut d0, ", secrets ");
        append_str(&mut d0, s.secret_store.as_str());
        let step0 = make_step("Config", AppSetupStepStatus::Complete, d0, "Run insync doctor after changes");

        let g_status = if s.google_client_id_configured && (s.google_refresh_token_inline || os) {
            AppSetupStepStatus::Complete
        } else if s.google_client_id_configured {
            AppSetupStepStatus::Attention
        } else {
            AppSetupStepStatus::Missing
        };
        let mut d1 = owned("account ");
        append_str(&mut d1, s.google_account_label.as_str());
        append_str(&mut d1, ", client id ");
        append_str(&mut d1, readiness(s.google_client_id_configured));
        append_str(&mut d1, ", refresh token ");
        append_str(&mut d1, secret_readiness(s.google_refresh_token_inline, os));
        let step1 = make_step("Google OAuth", g_status, d1, "Run insync setup --google-callback or --google-code");

        let i_status = if s.icloud_username_configured && (s.icloud_app_password_inline || os) {
            AppSetupStepStatus::Complete
        } else if s.icloud_username_configured {
            AppSetupStepStatus::Attention
        } else {
            AppSetupStepStatus::Missing
        };
        let mut d2 = owned("account ");
        append_str(&mut d2, s.icloud_account_label.as_str());
        append_str(&mut d2, ", username ");
        append_str(&mut d2, readiness(s.icloud_username_configured));
        append_str(&mut d2, ", password ");
        append_str(&mut d2, secret_readiness(s.icloud_app_password_inline, os));
        append_str(&mut d2, ", CalDAV ");
        append_str(&mut d2, s.icloud_caldav_url.as_str());
        let step2 = make_step("iCloud", i_status, d2, "Run insync setup --icloud-username ... --icloud-app-password ...");

        let disc_status = if cached == n && n > 0 {
            AppSetupStepStatus::Complete
        } else if n > 0 {
            AppSetupStepStatus::Attention
        } else {
            AppSetupStepStatus::Missing
        };
        let mut d3 = String::new();
        push_decimal(&mut d3, cached as u64);
        append_str(&mut d3, "/");
        push_decimal(&mut d3, n as u64);
        append_str(&mut d3, " pairs have cached calendar metadata");
        let step3 = make_step("Discovery", disc_status, d3, "Run insync setup --discover");

        let pair_status = if enabled > 0 {
            AppSetupStepStatus::Complete
        } else if n == 0 {
            AppSetupStepStatus::Missing
        } else {
            AppSetupStepStatus::Attention
        };
        let mut d4 = String::new();
        push_decimal(&mut d4, n as u64);
        append_str(&mut d4, " configured, ");
        push_decimal(&mut d4, enabled as u64);
        append_str(&mut d4, " enabled");
        let step4 = make_step(
            "Calendar Pair",
            pair_status,
            d4,
            "Run insync setup --pair-id ... --google-calendar-id ... --icloud-calendar-id ...",
        );

        let completed = match &self.last_run_status {
            Some(st) => str_eq(st.as_str(), "completed"),
            None => false,
        };
        let doc_status = if self.recent_error.is_some() {
            AppSetupStepStatus::Attention
        } else if completed {
            AppSetupStepStatus::Complete
        } else {
            AppSetupStepStatus::Missing
        };
        let d5 = match &self.last_run_status {
            Some(st) => {
                let mut t = owned("last run ");
                append_str(&mut t, st.as_str());
                t
            },
            None => owned("no successful dry-run recorded in this session"),
        };
        let step5 = make_step(
            "Doctor / Dry Run",
            doc_status,
            d5,
            "Run insync doctor, then insync sync --report .insync/reports/dry-run.csv",
        );
        proof {
            lemma_count_enabled_bound(self.pairs@);
        }
        let v = vec![step0, step1, step2, step3, step4, step5];
        assert(v@.map_values(|x: AppSetupStep| step_view(x)) =~= setup_step_views(*self));
        v
    }

    /// How many setup steps are complete.
    pub fn setup_ready_count(&self) -> (r: usize)
        ensures
            r == complete_count(setup_step_views(*self)),
    {
        let steps = self.setup_steps();
        let ghost views = steps@.map_values(|x: AppSetupStep| step_view(x));
        let mut n: usize = 0;
        let mut i: usize = 0;
        while i < steps.len()
            invariant
                i <= steps@.len(),
                views == steps@.map_values(|x: AppSetupStep| step_view(x)),
                n == complete_count(views.take(i as int)),
                n <= i,
            decreases steps@.len() - i,
        {
            proof {
                let t = views.take(i + 1);
                assert(t.drop_last() =~= views.take(i as int));
                assert(t.last() == step_view(steps@[i as int]));
            }
            if steps[i].status == AppSetupStepStatus::Complete {
                n = n + 1;
            }
            i = i + 1;
        }
        assert(views.take(views.len() as int) =~= views);
        n
    }
}

pub open spec fn complete_count(s: Seq<StepView>) -> nat
    decreases s.len(),
{
    if s.len() == 0 {
        0
    } else {
        complete_count(s.drop_last()) + if s.last().status == AppSetupStepStatus::Complete {
            1nat
        } else {
            0nat
        }
    }
}

} // verus!

//! The control-plane transition function: how each event changes the model
//! and which effects the shell is asked to carry out; and the snapshot the
//! shells render.
use crate::app::{
    all_commands, count_enabled, ensured_conflict, ensured_report, ensured_run, selected_details,
    stepped_command, stepped_conflict, stepped_report, stepped_run, AppCommand, AppConflictDetail,
    AppEffect, AppEvent, AppModel, AppNotificationSeverity, AppResolution, AppShellAction,
    AppShellNotification, AppShellSnapshot, AppStatus, AppView,
};
use crate::numtext::{decimal, push_decimal};
use crate::text::{append_str, clone_opt, owned};
use vstd::prelude::*;

verus! {

/// An effect as plain values.
pub enum EffectView {
    RunDrySync,
    RunApplySync,
    StartBackgroundScheduler,
    StopBackgroundScheduler,
    LoadConflicts,
    ResolveConflict { conflict_ids: Seq<Seq<char>>, resolution: AppResolution },
    ShowSetup,
    ExportDryRunReport,
    Quit,
}

impl View for AppEffect {
    type V = EffectView;

    open spec fn view(&self) -> EffectView {
        match self {
            AppEffect::RunDrySync => EffectView::RunDrySync,
            AppEffect::RunApplySync => EffectView::RunApplySync,
            AppEffect::StartBackgroundScheduler => EffectView::StartBackgroundScheduler,
            AppEffect::StopBackgroundScheduler => EffectView::StopBackgroundScheduler,
            AppEffect::LoadConflicts => EffectView::LoadConflicts,
            AppEffect::ResolveConflict { conflict_ids, resolution } => EffectView::ResolveConflict {
                conflict_ids: conflict_ids@.map_values(|s: String| s@),
                resolution: *resolution,
            },
            AppEffect::ShowSetup => EffectView::ShowSetup,
            AppEffect::ExportDryRunReport => EffectView::ExportDryRunReport,
            AppEffect::Quit => EffectView::Quit,
        }
    }
}

pub open spec fn effect_views(effects: Seq<AppEffect>) -> Seq<EffectView> {
    effects.map_values(|e: AppEffect| e@)
}

/// The command at the palette cursor; an index past the end reads as the
/// first command.
pub open spec fn command_at(m: AppModel) -> AppCommand {
    if m.selected_command_index < 11 {
        all_commands()[m.selected_command_index as int]
    } else {
        AppCommand::DryRun
    }
}

/// The model after an event that names no command.
pub open spec fn simple_after(m: AppModel, e: AppEvent) -> AppModel {
    match e {
        AppEvent::StartDryRun => AppModel { view: AppView::Reports, status: AppStatus::Syncing, ..m },
        AppEvent::StartApplyRun => AppModel { view: AppView::Reports, status: AppStatus::Syncing, ..m },
        AppEvent::RequestApplyRun => AppModel { confirm_apply: true, ..m },
        AppEvent::ConfirmApplyRun => AppModel {
            confirm_apply: false,
            view: AppView::Reports,
            status: AppStatus::Syncing,
            ..m
        },
        AppEvent::CancelApplyRun => AppModel { confirm_apply: false, ..m },
        AppEvent::StartDaemon => AppModel { status: AppStatus::Syncing, background_paused: false, ..m },
        AppEvent::StopDaemon => AppModel { status: AppStatus::Idle, background_paused: true, ..m },
        AppEvent::RefreshConflicts => m,
        AppEvent::SelectPair(id) => AppModel { selected_pair_id: Some(id), ..m },
        AppEvent::ShowDashboard => AppModel { view: AppView::Dashboard, ..m },
        AppEvent::ShowSetup => AppModel { view: AppView::Setup, ..m },
        AppEvent::OpenSetup => AppModel { view: AppView::Setup, ..m },
        AppEvent::ShowRuns => AppModel { view: AppView::Runs, selected_run_id: ensured_run(m), ..m },
        AppEvent::ShowReports => AppModel {
            view: AppView::Reports,
            selected_report_index: ensured_report(m),
            ..m
        },
        AppEvent::ShowConflicts => AppModel {
            view: AppView::Conflicts,
            selected_conflict_index: ensured_conflict(m),
            ..m
        },
        AppEvent::CycleRunFilter => {
            let m2 = AppModel { run_filter: m.run_filter.spec_next(), ..m };
            AppModel { selected_run_id: ensured_run(m2), ..m2 }
        },
        AppEvent::CycleReportFilter => {
            let m2 = AppModel { report_filter: m.report_filter.spec_next(), ..m };
            AppModel { selected_report_index: ensured_report(m2), ..m2 }
        },
        AppEvent::CycleReportSort => {
            let m2 = AppModel { report_sort: m.report_sort.spec_next(), ..m };
            AppModel { selected_report_index: ensured_report(m2), ..m2 }
        },
        AppEvent::SelectNextRun => AppModel { selected_run_id: stepped_run(m, true), ..m },
        AppEvent::SelectPreviousRun => AppModel { selected_run_id: stepped_run(m, false), ..m },
        AppEvent::SelectNextReportRow => AppModel { selected_report_index: stepped_report(m, true), ..m },
        AppEvent::SelectPreviousReportRow => AppModel {
            selected_report_index: stepped_report(m, false),
            ..m
        },
        AppEvent::SelectNextConflict => AppModel { selected_conflict_index: stepped_conflict(m, true), ..m },
        AppEvent::SelectPreviousConflict => AppModel {
            selected_conflict_index: stepped_conflict(m, false),
            ..m
        },
        AppEvent::ResolveSelectedConflict(_) => m,
        AppEvent::OpenCommandPalette => AppModel { command_palette_open: true, ..m },
        AppEvent::CloseCommandPalette => AppModel { command_palette_open: false, ..m },
        AppEvent::SelectNextCommand => AppModel { selected_command_index: stepped_command(m, true), ..m },
        AppEvent::SelectPreviousCommand => AppModel {
            selected_command_index: stepped_command(m, false),
            ..m
        },
        AppEvent::ExecuteCommand(_) => m,
        AppEvent::ExecuteSelectedCommand => m,
        AppEvent::EngineFinished { message } => AppModel {
            status: AppStatus::Idle,
            last_message: Some(message),
            ..m
        },
        AppEvent::EngineFailed { message } => AppModel {
            status: AppStatus::Error,
            recent_error: Some(message),
            last_message: Some(message),
            ..m
        },
    }
}

/// The ids of the conflicts in the selected group.
pub open spec fn selected_conflict_ids(m: AppModel) -> Seq<Seq<char>> {
    selected_details(m).map_values(|d: AppConflictDetail| d.id@)
}

/// The effects of an event that names no command.
pub open spec fn simple_effects(m: AppModel, e: AppEvent) -> Seq<EffectView> {
    match e {
        AppEvent::StartDryRun => seq![EffectView::RunDrySync],
        AppEvent::StartApplyRun => seq![EffectView::RunApplySync],
        AppEvent::ConfirmApplyRun => seq![EffectView::RunApplySync],
        AppEvent::StartDaemon => seq![EffectView::StartBackgroundScheduler],
        AppEvent::StopDaemon => seq![EffectView::StopBackgroundScheduler],
        AppEvent::RefreshConflicts => seq![EffectView::LoadConflicts],
        AppEvent::ResolveSelectedConflict(resolution) => if selected_conflict_ids(m).len() == 0 {
            Seq::empty()
        } else {
            seq![EffectView::ResolveConflict { conflict_ids: selected_conflict_ids(m), resolution }]
        },
        _ => Seq::empty(),
    }
}

/// The event a palette command stands for.
pub open spec fn command_event(m: AppModel, c: AppCommand) -> AppEvent {
    match c {
        AppCommand::DryRun => AppEvent::StartDryRun,
        AppCommand::ApplyRun => AppEvent::RequestApplyRun,
        AppCommand::RefreshConflicts => AppEvent::RefreshConflicts,
        AppCommand::ShowConflicts => AppEvent::ShowConflicts,
        AppCommand::OpenSetup => AppEvent::ShowSetup,
        AppCommand::ShowPairs => AppEvent::ShowDashboard,
        AppCommand::ShowRuns => AppEvent::ShowRuns,
        AppCommand::ShowReports => AppEvent::ShowReports,
        AppCommand::ToggleBackgroundPause => if m.background_paused {
            AppEvent::StartDaemon
        } else {
            AppEvent::StopDaemon
        },
        AppCommand::ExportReport => AppEvent::RefreshConflicts,
        AppCommand::Quit => AppEvent::RefreshConflicts,
    }
}

pub open spec fn command_enabled(m: AppModel, c: AppCommand) -> bool {
    c.spec_enabled(count_enabled(m.pairs@))
}

/// The model after a command: a disabled command, export and quit leave it
/// as it is; the others act as their event.
pub open spec fn command_after(m: AppModel, c: AppCommand) -> AppModel {
    if !command_enabled(m, c) || c == AppCommand::ExportReport || c == AppCommand::Quit {
        m
    } else {
        simple_after(m, command_event(m, c))
    }
}

pub open spec fn command_effects(m: AppModel, c: AppCommand) -> Seq<EffectView> {
    if !command_enabled(m, c) {
        Seq::empty()
    } else if c == AppCommand::ExportReport {
        seq![EffectView::ExportDryRunReport]
    } else if c == AppCommand::Quit {
        seq![EffectView::Quit]
    } else {
        simple_effects(m, command_event(m, c))
    }
}

/// The model after any event.
pub open spec fn after_event(m: AppModel, e: AppEvent) -> AppModel {
    match e {
        AppEvent::ExecuteCommand(c) => command_after(m, c),
        AppEvent::ExecuteSelectedCommand => command_after(AppModel { command_palette_open: false, ..m }, command_at(m)),
        _ => simple_after(m, e),
    }
}

/// The effects of any event.
pub open spec fn event_effects(m: AppModel, e: AppEvent) -> Seq<EffectView> {
    match e {
        AppEvent::ExecuteCommand(c) => command_effects(m, c),
        AppEvent::ExecuteSelectedCommand => command_effects(AppModel { command_palette_open: false, ..m }, command_at(m)),
        _ => simple_effects(m, e),
    }
}

pub open spec fn names_command(e: AppEvent) -> bool {
    e is ExecuteCommand || e is ExecuteSelectedCommand
}

fn one(e: AppEffect) -> (r: Vec<AppEffect>)
    ensures
        r@ == seq![e],
{
    let v = vec![e];
    assert(v@ =~= seq![e]);
    v
}

impl AppModel {
    fn conflict_ids(&self) -> (r: Vec<String>)
        ensures
            r@.map_values(|s: String| s@) == selected_conflict_ids(*self),
    {
        let details = self.selected_conflict_details();
        let ghost ds = selected_details(*self);
        let mut ids: Vec<String> = Vec::new();
        let mut i: usize = 0;
        while i < details.len()
            invariant
                i <= details@.len(),
                ds == selected_details(*self),
                ds.len() == details@.len(),
                forall|j: int| 0 <= j < details@.len() ==> ds[j] == *details@[j],
                ids@.map_values(|s: String| s@) == ds.take(i as int).map_values(|d: AppConflictDetail| d.id@),
            decreases details@.len() - i,
        {
            let ghost before = ids@;
            let id = details[i].id.clone();
            ids.push(id);
            proof {
                assert(ds.take(i + 1) =~= ds.take(i as int).push(ds[i as int]));
                assert(ids@ =~= before.push(id));
                assert(ids@.map_values(|s: String| s@) =~= before.map_values(|s: String| s@).push(id@));
                assert(ds.take(i + 1).map_values(|d: AppConflictDetail| d.id@) =~= ds.take(i as int).map_values(
                    |d: AppConflictDetail| d.id@,
                ).push(ds[i as int].id@));
            }
            i = i + 1;
        }
        assert(ds.take(ds.len() as int) =~= ds);
        ids
    }

    #[verifier::rlimit(60)]
    fn apply_simple(&mut self, event: AppEvent) -> (r: Vec<AppEffect>)
        requires
            !names_command(event),
        ensures
            *final(self) == simple_after(*old(self), event),
            effect_views(r@) == simple_effects(*old(self), event),
    {
        let none: Vec<AppEffect> = Vec::new();
        proof {
            assert(effect_views(none@) =~= Seq::<EffectView>::empty());
        }
        match event {
            AppEvent::StartDryRun => {
                self.view = AppView::Reports;
                self.status = AppStatus::Syncing;
                let r = one(AppEffect::RunDrySync);
                assert(effect_views(r@) =~= seq![EffectView::RunDrySync]);
                r
            },
            AppEvent::StartApplyRun => {
                self.view = AppView::Reports;
                self.status = AppStatus::Syncing;
                let r = one(AppEffect::RunApplySync);
                assert(effect_views(r@) =~= seq![EffectView::RunApplySync]);
                r
            },
            AppEvent::RequestApplyRun => {
                self.confirm_apply = true;
                none
            },
            AppEvent::ConfirmApplyRun => {
                self.confirm_apply = false;
                self.view = AppView::Reports;
                self.status = AppStatus::Syncing;
                let r = one(AppEffect::RunApplySync);
                assert(effect_views(r@) =~= seq![EffectView::RunApplySync]);
                r
            },
            AppEvent::CancelApplyRun => {
                self.confirm_apply = false;
                none
            },
            AppEvent::StartDaemon => {
                self.status = AppStatus::Syncing;
                self.background_paused = false;
                let r = one(AppEffect::StartBackgroundScheduler);
                assert(effect_views(r@) =~= seq![EffectView::StartBackgroundScheduler]);
                r
            },
            AppEvent::StopDaemon => {
                self.status = AppStatus::Idle;
                self.background_paused = true;
                let r = one(AppEffect::StopBackgroundScheduler);
                assert(effect_views(r@) =~= seq![EffectView::StopBackgroundScheduler]);
                r
            },
            AppEvent::RefreshConflicts => {
                let r = one(AppEffect::LoadConflicts);
                assert(effect_views(r@) =~= seq![EffectView::LoadConflicts]);
                r
            },
            AppEvent::SelectPair(pair_id) => {
                self.selected_pair_id = Some(pair_id);
                none
            },
            AppEvent::ShowDashboard => {
                self.view = AppView::Dashboard;
                none
            },
            AppEvent::ShowSetup => {
                self.view = AppView::Setup;
                none
            },
            AppEvent::OpenSetup => {
                self.view = AppView::Setup;
                none
            },
            AppEvent::ShowRuns => {
                self.view = AppView::Runs;
                self.ensure_selected_run();
                none
            },
            AppEvent::ShowReports => {
                self.view = AppView::Reports;
                self.ensure_selected_report_row();
                none
            },
            AppEvent::ShowConflicts => {
                self.view = AppView::Conflicts;
                self.ensure_selected_conflict();
                none
            },
            AppEvent::CycleRunFilter => {
                self.run_filter = self.run_filter.next();
                self.ensure_selected_run();
                none
            },
            AppEvent::CycleReportFilter => {
                self.report_filter = self.report_filter.next();
                self.ensure_selected_report_row();
                none
            },
            AppEvent::CycleReportSort => {
                self.report_sort = self.report_sort.next();
                self.ensure_selected_report_row();
                none
            },
            AppEvent::SelectNextRun => {
                self.select_next_run();
                none
            },
            AppEvent::SelectPreviousRun => {
                self.select_previous_run();
                none
            },
            AppEvent::SelectNextReportRow => {
                self.select_next_report_row();
                none
            },
            AppEvent::SelectPreviousReportRow => {
                self.select_previous_report_row();
                none
            },
            AppEvent::SelectNextConflict => {
                self.select_next_conflict();
                none
            },
            AppEvent::SelectPreviousConflict => {
                self.select_previous_conflict();
                none
            },
            AppEvent::ResolveSelectedConflict(resolution) => {
                let conflict_ids = self.conflict_ids();
                if conflict_ids.len() == 0 {
                    none
                } else {
                    let ghost ids = conflict_ids@.map_values(|s: String| s@);
                    let r = one(AppEffect::ResolveConflict { conflict_ids, resolution });
                    assert(effect_views(r@) =~= seq![EffectView::ResolveConflict { conflict_ids: ids, resolution }]);
                    r
                }
            },
            AppEvent::OpenCommandPalette => {
                self.command_palette_open = true;
                none
            },
            AppEvent::CloseCommandPalette => {
                self.command_palette_open = false;
                none
            },
            AppEvent::SelectNextCommand => {
                self.select_command_by_offset(true);
                none
            },
            AppEvent::SelectPreviousCommand => {
                self.select_command_by_offset(false);
                none
            },
            AppEvent::ExecuteCommand(_) => none,
            AppEvent::ExecuteSelectedCommand => none,
            AppEvent::EngineFinished { message } => {
                self.status = AppStatus::Idle;
                self.last_message = Some(message);
                none
            },
            AppEvent::EngineFailed { message } => {
                self.status = AppStatus::Error;
                self.recent_error = Some(message.clone());
                self.last_message = Some(message);
                none
            },
        }
    }

    fn execute_command(&mut self, command: AppCommand) -> (r: Vec<AppEffect>)
        ensures
            *final(self) == command_after(*old(self), command),
            effect_views(r@) == command_effects(*old(self), command),
    {
        if !command.is_enabled(self) {
            let none: Vec<AppEffect> = Vec::new();
            assert(effect_views(none@) =~= Seq::<EffectView>::empty());
            return none;
        }
        match command {
            AppCommand::DryRun => self.apply_simple(AppEvent::StartDryRun),
            AppCommand::ApplyRun => self.apply_simple(AppEvent::RequestApplyRun),
            AppCommand::RefreshConflicts => self.apply_simple(AppEvent::RefreshConflicts),
            AppCommand::ShowConflicts => self.apply_simple(AppEvent::ShowConflicts),
            AppCommand::OpenSetup => self.apply_simple(AppEvent::ShowSetup),
            AppCommand::ShowPairs => self.apply_simple(AppEvent::ShowDashboard),
            AppCommand::ShowRuns => self.apply_simple(AppEvent::ShowRuns),
            AppCommand::ShowReports => self.apply_simple(AppEvent::ShowReports),
            AppCommand::ToggleBackgroundPause => {
                if self.background_paused {
                    self.apply_simple(AppEvent::StartDaemon)
                } else {
                    self.apply_simple(AppEvent::StopDaemon)
                }
            },
            AppCommand::ExportReport => {
                let r = one(AppEffect::ExportDryRunReport);
                assert(effect_views(r@) =~= seq![EffectView::ExportDryRunReport]);
                r
            },
            AppCommand::Quit => {
                let r = one(AppEffect::Quit);
                assert(effect_views(r@) =~= seq![EffectView::Quit]);
                r
            },
        }
    }

    /// Applies an event and returns the effects the shell must carry out.
    pub fn update(&mut self, event: AppEvent) -> (r: Vec<AppEffect>)
        ensures
            *final(self) == after_event(*old(self), event),
            effect_views(r@) == event_effects(*old(self), event),
    {
        match event {
            AppEvent::ExecuteCommand(command) => self.execute_command(command),
            AppEvent::ExecuteSelectedCommand => {
                let command = self.selected_command();
                self.command_palette_open = false;
                self.execute_command(command)
            },
            _ => self.apply_simple(event),
        }
    }
}

// ---------------------------------------------------------------- shell snapshot
/// A palette action as plain values.
pub struct ActionView {
    pub command: AppCommand,
    pub label: Seq<char>,
    pub description: Seq<char>,
    pub enabled: bool,
    pub destructive: bool,
}

pub open spec fn action_view(a: AppShellAction) -> ActionView {
    ActionView {
        command: a.command,
        label: a.label@,
        description: a.description@,
        enabled: a.enabled,
        destructive: a.destructive,
    }
}

/// The action the shell offers for a command in the given model.
pub open spec fn action_for(m: AppModel, c: AppCommand) -> ActionView {
    ActionView {
        command: c,
        label: c.spec_label_for(m.background_paused),
        description: c.spec_description_for(m.background_paused),
        enabled: command_enabled(m, c),
        destructive: c.spec_destructive(),
    }
}

pub struct NotificationView {
    pub severity: AppNotificationSeverity,
    pub message: Seq<char>,
}

pub open spec fn notification_view(n: AppShellNotification) -> NotificationView {
    NotificationView { severity: n.severity, message: n.message@ }
}

/// Notifications in order: a non-empty recent error, unresolved conflicts,
/// no pairs configured, background sync paused.
pub open spec fn shell_notification_views(m: AppModel) -> Seq<NotificationView> {
    (if m.recent_error is Some && m.recent_error->0@.len() > 0 {
        seq![NotificationView { severity: AppNotificationSeverity::Error, message: m.recent_error->0@ }]
    } else {
        Seq::empty()
    }) + (if m.conflict_count > 0 {
        seq![NotificationView {
            severity: AppNotificationSeverity::Warning,
            message: decimal(m.conflict_count as nat) + " unresolved conflict(s)"@,
        }]
    } else {
        Seq::empty()
    }) + (if m.pairs@.len() == 0 {
        seq![NotificationView { severity: AppNotificationSeverity::Info, message: "No calendar pairs configured"@ }]
    } else {
        Seq::empty()
    }) + (if m.background_paused {
        seq![NotificationView { severity: AppNotificationSeverity::Info, message: "Background sync is paused"@ }]
    } else {
        Seq::empty()
    })
}

fn notify(out: &mut Vec<AppShellNotification>, severity: AppNotificationSeverity, message: String)
    ensures
        final(out)@.map_values(|n: AppShellNotification| notification_view(n))
            == old(out)@.map_values(|n: AppShellNotification| notification_view(n)).push(
            NotificationView { severity, message: message@ },
        ),
{
    let ghost before = out@;
    out.push(AppShellNotification { severity, message });
    assert(out@.map_values(|n: AppShellNotification| notification_view(n)) =~= before.map_values(
        |n: AppShellNotification| notification_view(n),
    ).push(NotificationView { severity, message: message@ }));
}

impl AppModel {
    fn shell_notifications(&self) -> (r: Vec<AppShellNotification>)
        ensures
            r@.map_values(|n: AppShellNotification| notification_view(n)) == shell_notification_views(*self),
    {
        let mut out: Vec<AppShellNotification> = Vec::new();
        let ghost s0: Seq<NotificationView> = Seq::empty();
        let ghost e = if self.recent_error is Some && self.recent_error->0@.len() > 0 {
            seq![NotificationView { severity: AppNotificationSeverity::Error, message: self.recent_error->0@ }]
        } else {
            Seq::<NotificationView>::empty()
        };
        assert(out@.map_values(|n: AppShellNotification| notification_view(n)) =~= s0);
        match &self.recent_error {
            Some(error) => {
                if !error.as_str().is_empty() {
                    notify(&mut out, AppNotificationSeverity::Error, error.clone());
                }
            },
            None => {},
        }
        assert(out@.map_values(|n: AppShellNotification| notification_view(n)) =~= s0 + e);
        let ghost c = if self.conflict_count > 0 {
            seq![NotificationView {
                severity: AppNotificationSeverity::Warning,
                message: decimal(self.conflict_count as nat) + " unresolved conflict(s)"@,
            }]
        } else {
            Seq::<NotificationView>::empty()
        };
        if self.conflict_count > 0 {
            let mut msg = String::new();
            push_decimal(&mut msg, self.conflict_count as u64);
            append_str(&mut msg, " unresolved conflict(s)");
            notify(&mut out, AppNotificationSeverity::Warning, msg);
        }
        assert(out@.map_values(|n: AppShellNotification| notification_view(n)) =~= s0 + e + c);
        let ghost p = if self.pairs@.len() == 0 {
            seq![NotificationView { severity: AppNotificationSeverity::Info, message: "No calendar pairs configured"@ }]
        } else {
            Seq::<NotificationView>::empty()
        };
        if self.pairs.len() == 0 {
            notify(&mut out, AppNotificationSeverity::Info, owned("No calendar pairs configured"));
        }
        assert(out@.map_values(|n: AppShellNotification| notification_view(n)) =~= s0 + e + c + p);
        let ghost b = if self.background_paused {
            seq![NotificationView { severity: AppNotificationSeverity::Info, message: "Background sync is paused"@ }]
        } else {
            Seq::<NotificationView>::empty()
        };
        if self.background_paused {
            notify(&mut out, AppNotificationSeverity::Info, owned("Background sync is paused"));
        }
        assert(out@.map_values(|n: AppShellNotification| notification_view(n)) =~= s0 + e + c + p + b);
        assert(s0 + e + c + p + b =~= shell_notification_views(*self));
        out
    }

    /// What the terminal and tray shells render: status, counters, the
    /// palette actions in order and the notifications.
    pub fn shell_snapshot(&self) -> (r: AppShellSnapshot)
        ensures
            r.status == self.status,
            r.view == self.view,
            r.selected_pair_id == self.selected_pair_id,
            r.background_paused == self.background_paused,
            r.conflict_count == self.conflict_count,
            r.enabled_pair_count == count_enabled(self.pairs@),
            r.total_pair_count == self.pairs@.len(),
            r.last_run_at == self.last_run_at,
            r.last_run_status == self.last_run_status,
            r.next_run_at == self.next_run_at,
            r.recent_error == self.recent_error,
            r.last_message == self.last_message,
            r.actions@.map_values(|a: AppShellAction| action_view(a)) == all_commands().map_values(
                |c: AppCommand| action_for(*self, c),
            ),
            r.notifications@.map_values(|n: AppShellNotification| notification_view(n))
                == shell_notification_views(*self),
    {
        let commands = AppCommand::all();
        let mut actions: Vec<AppShellAction> = Vec::new();
        let mut i: usize = 0;
        while i < commands.len()
            invariant
                i <= commands@.len(),
                commands@ == all_commands(),
                actions@.map_values(|a: AppShellAction| action_view(a)) == all_commands().take(i as int).map_values(
                    |c: AppCommand| action_for(*self, c),
                ),
            decreases commands@.len() - i,
        {
            let command = commands[i];
            let ghost before = actions@;
            let action = AppShellAction {
                command,
                label: owned(command.label_for(self)),
                description: owned(command.description_for(self)),
                enabled: command.is_enabled(self),
                destructive: command.is_destructive(),
            };
            assert(action_view(action) == action_for(*self, command));
            actions.push(action);
            proof {
                assert(all_commands().take(i + 1) =~= all_commands().take(i as int).push(command));
                assert(actions@ =~= before.push(action));
                assert(actions@.map_values(|a: AppShellAction| action_view(a)) =~= before.map_values(
                    |a: AppShellAction| action_view(a),
                ).push(action_view(action)));
                assert(all_commands().take(i + 1).map_values(|c: AppCommand| action_for(*self, c))
                    =~= all_commands().take(i as int).map_values(|c: AppCommand| action_for(*self, c)).push(
                    action_for(*self, command),
                ));
            }
            i = i + 1;
        }
        assert(all_commands().take(11) =~= all_commands());
        AppShellSnapshot {
            status: self.status,
            view: self.view,
            selected_pair_id: clone_opt(&self.selected_pair_id),
            background_paused: self.background_paused,
            conflict_count: self.conflict_count,
            enabled_pair_count: self.enabled_pair_count(),
            total_pair_count: self.pairs.len(),
            last_run_at: clone_opt(&self.last_run_at),
            last_run_status: clone_opt(&self.last_run_status),
            next_run_at: clone_opt(&self.next_run_at),
            recent_error: clone_opt(&self.recent_error),
            last_message: clone_opt(&self.last_message),
            actions,
            notifications: self.shell_notifications(),
        }
    }
}

} // verus!

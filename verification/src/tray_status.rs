//! The tray's status snapshot: the sync state read from the store, the
//! lines the tray menu shows, and the state's icon colour.
use crate::config::ServiceConfig;
use crate::engine::{sum_i64, sums_fit, total_conflicts, SyncEngine};
use crate::numtext::{decimal, push_decimal, push_signed_decimal, signed_decimal};
use crate::store::{SyncRun, SyncRunStatus};
use crate::text::{append_str, owned};
use vstd::prelude::*;

verus! {

// ---------------------------------------------------------------- trusted
/// Whole seconds from the Unix epoch to the UTC time written in `value` with
/// chrono's `format` (`NaiveDateTime::parse_from_str` then `and_utc`), or
/// `None` where the text does not parse.
pub uninterp spec fn naive_utc_seconds(value: Seq<char>, format: Seq<char>) -> Option<i64>;

/// `NaiveDateTime::parse_from_str` read as UTC seconds.
#[verifier::external_body]
fn parse_naive_seconds(value: &str, format: &str) -> (r: Option<i64>)
    ensures
        r == naive_utc_seconds(value@, format@),
{
    chrono::NaiveDateTime::parse_from_str(value, format).ok().map(|n| n.and_utc().timestamp())
}

/// `Utc::now()` in whole seconds since the epoch; nothing is promised of
/// the value, which is the clock's.
#[verifier::external_body]
fn now_seconds() -> (r: i64) {
    chrono::Utc::now().timestamp()
}

// ---------------------------------------------------------------- state
#[derive(Debug, Clone, Copy, PartialEq, Eq, Structural)]
pub enum SyncState {
    Unconfigured,
    Idle,
    Syncing,
    Conflicts,
    Error,
}

#[derive(Debug, Clone)]
pub struct StatusSnapshot {
    pub state: SyncState,
    pub conflict_count: i64,
    pub last_run: Option<SyncRun>,
    pub background_running: bool,
}

/// What was read from an opened and migrated store: the unresolved conflict
/// group counts (`None` when that query failed) and the latest run.
#[derive(Debug, Clone)]
pub struct StoreReading {
    pub conflict_counts: Option<Vec<i64>>,
    pub last_run: Option<SyncRun>,
}

/// The state a reading shows: a running or failed latest run first, then
/// waiting conflicts, else idle.
pub open spec fn state_of(last: Option<SyncRun>, conflicts: int) -> SyncState {
    match last {
        Some(run) => match run.status {
            SyncRunStatus::Running => SyncState::Syncing,
            SyncRunStatus::Failed => SyncState::Error,
            SyncRunStatus::Completed => if conflicts > 0 {
                SyncState::Conflicts
            } else {
                SyncState::Idle
            },
        },
        None => if conflicts > 0 {
            SyncState::Conflicts
        } else {
            SyncState::Idle
        },
    }
}

pub open spec fn reading_total(r: StoreReading) -> int {
    match r.conflict_counts {
        Some(v) => sum_i64(v@),
        None => 0,
    }
}

pub open spec fn reading_fits(r: StoreReading) -> bool {
    match r.conflict_counts {
        Some(v) => sums_fit(v@),
        None => true,
    }
}

impl StatusSnapshot {
    pub fn unconfigured() -> (r: StatusSnapshot)
        ensures
            r.state == SyncState::Unconfigured,
            r.conflict_count == 0,
            r.last_run is None,
            !r.background_running,
    {
        StatusSnapshot { state: SyncState::Unconfigured, conflict_count: 0, last_run: None, background_running: false }
    }

    /// The snapshot of a store reading; `None` when the store could not be
    /// opened or migrated yet.
    pub fn read(reading: Option<StoreReading>, background_running: bool) -> (r: StatusSnapshot)
        requires
            reading matches Some(x) ==> reading_fits(x),
        ensures
            match reading {
                None => r.state == SyncState::Unconfigured && r.conflict_count == 0 && r.last_run is None
                    && !r.background_running,
                Some(x) => r.conflict_count == reading_total(x) && r.last_run == x.last_run && r.state
                    == state_of(x.last_run, reading_total(x)) && r.background_running == background_running,
            },
    {
        match reading {
            None => StatusSnapshot::unconfigured(),
            Some(x) => {
                let conflict_count = match &x.conflict_counts {
                    Some(v) => total_conflicts(v.as_slice()),
                    None => 0,
                };
                let state = match &x.last_run {
                    Some(run) => match run.status {
                        SyncRunStatus::Running => SyncState::Syncing,
                        SyncRunStatus::Failed => SyncState::Error,
                        SyncRunStatus::Completed => if conflict_count > 0 {
                            SyncState::Conflicts
                        } else {
                            SyncState::Idle
                        },
                    },
                    None => if conflict_count > 0 {
                        SyncState::Conflicts
                    } else {
                        SyncState::Idle
                    },
                };
                StatusSnapshot { state, conflict_count, last_run: x.last_run, background_running }
            },
        }
    }

    pub open spec fn summary_text(self) -> Seq<char> {
        let head = match self.state {
            SyncState::Unconfigured => "Not configured"@,
            SyncState::Syncing => "Syncing…"@,
            SyncState::Error => "Last sync failed"@,
            SyncState::Conflicts => "Conflicts need attention"@,
            SyncState::Idle => "Idle"@,
        };
        let bg = if self.state == SyncState::Unconfigured {
            ""@
        } else if self.background_running {
            " · background on"@
        } else {
            " · background paused"@
        };
        "insync — "@ + head + bg
    }

    /// The tray's header line: the state and whether background sync runs.
    pub fn summary_line(&self) -> (r: String)
        ensures
            r@ == self.summary_text(),
    {
        let head = match self.state {
            SyncState::Unconfigured => "Not configured",
            SyncState::Syncing => "Syncing…",
            SyncState::Error => "Last sync failed",
            SyncState::Conflicts => "Conflicts need attention",
            SyncState::Idle => "Idle",
        };
        let bg = if self.state == SyncState::Unconfigured {
            ""
        } else if self.background_running {
            " · background on"
        } else {
            " · background paused"
        };
        let mut out = owned("insync — ");
        append_str(&mut out, head);
        append_str(&mut out, bg);
        out
    }

    /// The detail line for a clock reading `now` (seconds since the epoch).
    pub open spec fn detail_text_at(self, now: i64) -> Seq<char> {
        let run_part = match self.last_run {
            Some(run) => "Last run "@ + relative_text(
                run_time(run),
                naive_utc_seconds(run_time(run), "%Y-%m-%d %H:%M:%S"@),
                naive_utc_seconds(run_time(run), "%Y-%m-%dT%H:%M:%S"@),
                now,
            ),
            None => "No runs yet"@,
        };
        if self.conflict_count > 0 {
            run_part + " · "@ + signed_decimal(self.conflict_count as int) + " conflict(s)"@
        } else {
            run_part
        }
    }

    pub fn detail_line_at(&self, now: i64) -> (r: String)
        ensures
            r@ == self.detail_text_at(now),
    {
        let mut out = match &self.last_run {
            Some(run) => {
                let when = match &run.finished_at {
                    Some(f) => f.as_str(),
                    None => run.started_at.as_str(),
                };
                let mut s = owned("Last run ");
                let rel = relative_time_at(when, now);
                append_str(&mut s, rel.as_str());
                s
            },
            None => owned("No runs yet"),
        };
        if self.conflict_count > 0 {
            append_str(&mut out, " · ");
            push_signed_decimal(&mut out, self.conflict_count);
            append_str(&mut out, " conflict(s)");
        }
        out
    }

    /// The tray's detail line, read against the clock: the last run's time
    /// and the conflicts waiting. The clock reading itself is not stated.
    pub fn detail_line(&self) -> (r: String)
        ensures
            exists|now: i64| r@ == self.detail_text_at(now),
    {
        let now = now_seconds();
        self.detail_line_at(now)
    }
}

/// When the run last did something: its finish, else its start.
pub open spec fn run_time(run: SyncRun) -> Seq<char> {
    match run.finished_at {
        Some(f) => f@,
        None => run.started_at@,
    }
}

/// A stored time as a coarse age: "just now" under 45 seconds (or in the
/// future), then minutes, hours and days; the stored text itself when it
/// reads in neither format.
pub open spec fn relative_text(value: Seq<char>, spaced: Option<i64>, t_form: Option<i64>, now: i64) -> Seq<char> {
    let then = match spaced {
        Some(s) => Some(s),
        None => t_form,
    };
    match then {
        None => value,
        Some(t) => {
            let secs: int = now - t;
            if secs < 45 {
                "just now"@
            } else if secs < 3600 {
                decimal((secs / 60) as nat) + "m ago"@
            } else if secs < 86_400 {
                decimal((secs / 3600) as nat) + "h ago"@
            } else {
                decimal((secs / 86_400) as nat) + "d ago"@
            }
        },
    }
}

pub fn relative_time_at(value: &str, now: i64) -> (r: String)
    ensures
        r@ == relative_text(
            value@,
            naive_utc_seconds(value@, "%Y-%m-%d %H:%M:%S"@),
            naive_utc_seconds(value@, "%Y-%m-%dT%H:%M:%S"@),
            now,
        ),
{
    let spaced = parse_naive_seconds(value, "%Y-%m-%d %H:%M:%S");
    let then = match spaced {
        Some(s) => Some(s),
        None => parse_naive_seconds(value, "%Y-%m-%dT%H:%M:%S"),
    };
    match then {
        None => owned(value),
        Some(t) => {
            let secs: i128 = (now as i128) - (t as i128);
            if secs < 45 {
                owned("just now")
            } else if secs < 3600 {
                let mut out = String::new();
                push_decimal(&mut out, (secs / 60) as u64);
                append_str(&mut out, "m ago");
                out
            } else if secs < 86_400 {
                let mut out = String::new();
                push_decimal(&mut out, (secs / 3600) as u64);
                append_str(&mut out, "h ago");
                out
            } else {
                assert(secs / 86_400 <= u64::MAX) by (nonlinear_arith)
                    requires
                        secs <= 0x1_0000_0000_0000_0000i128,
                        secs >= 86_400,
                ;
                let mut out = String::new();
                push_decimal(&mut out, (secs / 86_400) as u64);
                append_str(&mut out, "d ago");
                out
            }
        },
    }
}

/// The icon colour of a state, as red, green and blue.
pub open spec fn state_color(s: SyncState) -> (u8, u8, u8) {
    match s {
        SyncState::Unconfigured => (120, 120, 128),
        SyncState::Idle => (60, 170, 90),
        SyncState::Syncing => (40, 130, 220),
        SyncState::Conflicts => (220, 170, 40),
        SyncState::Error => (210, 70, 60),
    }
}

pub fn color_for(s: SyncState) -> (r: (u8, u8, u8))
    ensures
        r == state_color(s),
{
    match s {
        SyncState::Unconfigured => (120, 120, 128),
        SyncState::Idle => (60, 170, 90),
        SyncState::Syncing => (40, 130, 220),
        SyncState::Conflicts => (220, 170, 40),
        SyncState::Error => (210, 70, 60),
    }
}

/// The tray's store path: the engine's for a loaded configuration, none
/// before there is one.
pub fn resolve_db_path(config: Option<ServiceConfig>, config_path: &str) -> (r: Option<String>)
    ensures
        r is Some == config is Some,
{
    match config {
        Some(c) => {
            let engine = SyncEngine::with_config_path(c, config_path);
            Some(engine.db_path())
        },
        None => None,
    }
}

// ---------------------------------------------------------------- tray menu
/// What the tray menu's changing items show for a snapshot.
#[derive(Debug, Clone, Copy, PartialEq, Eq, Structural)]
pub struct MenuState {
    /// A one-shot sync is offered only when configured, with the background
    /// daemon paused (one writer at a time) and nothing running.
    pub sync_now_enabled: bool,
    pub toggle_enabled: bool,
    /// The toggle pauses a running daemon, else starts it.
    pub toggle_pauses: bool,
    pub dashboard_enabled: bool,
}

pub open spec fn menu_state_of(s: StatusSnapshot) -> MenuState {
    let configured = s.state != SyncState::Unconfigured;
    MenuState {
        sync_now_enabled: configured && !s.background_running && s.state != SyncState::Syncing,
        toggle_enabled: configured,
        toggle_pauses: s.background_running,
        dashboard_enabled: configured,
    }
}

impl MenuState {
    pub fn of(snap: &StatusSnapshot) -> (r: MenuState)
        ensures
            r == menu_state_of(*snap),
    {
        let configured = snap.state != SyncState::Unconfigured;
        MenuState {
            sync_now_enabled: configured && !snap.background_running && snap.state != SyncState::Syncing,
            toggle_enabled: configured,
            toggle_pauses: snap.background_running,
            dashboard_enabled: configured,
        }
    }

    /// The toggle item's label.
    pub fn toggle_label(&self) -> (r: &'static str)
        ensures
            r@ == (if self.toggle_pauses {
                "Pause background sync"@
            } else {
                "Start background sync"@
            }),
    {
        if self.toggle_pauses {
            "Pause background sync"
        } else {
            "Start background sync"
        }
    }
}

/// The tray menu's clickable items.
#[derive(Debug, Clone, Copy, PartialEq, Eq, Structural)]
pub enum MenuItemKind {
    SyncNow,
    ToggleBackground,
    OpenDashboard,
    OpenSetup,
    Quit,
}

/// What a click asks the supervisor to do.
#[derive(Debug, Clone, Copy, PartialEq, Eq, Structural)]
pub enum MenuAction {
    /// Stop the background daemon and leave.
    StopAndExit,
    RunSyncOnce,
    StopBackground,
    StartBackground,
    OpenDashboard,
    OpenSetup,
}

pub open spec fn menu_action_of(item: MenuItemKind, background_running: bool) -> MenuAction {
    match item {
        MenuItemKind::Quit => MenuAction::StopAndExit,
        MenuItemKind::SyncNow => MenuAction::RunSyncOnce,
        MenuItemKind::ToggleBackground => if background_running {
            MenuAction::StopBackground
        } else {
            MenuAction::StartBackground
        },
        MenuItemKind::OpenDashboard => MenuAction::OpenDashboard,
        MenuItemKind::OpenSetup => MenuAction::OpenSetup,
    }
}

/// The action for a click, given whether the daemon runs now; the flag says
/// whether the status should be read again afterwards (after a sync or a
/// toggle, not after opening a terminal or quitting).
pub fn menu_action(item: MenuItemKind, background_running: bool) -> (r: (MenuAction, bool))
    ensures
        r.0 == menu_action_of(item, background_running),
        r.1 == (item == MenuItemKind::SyncNow || item == MenuItemKind::ToggleBackground),
{
    match item {
        MenuItemKind::Quit => (MenuAction::StopAndExit, false),
        MenuItemKind::SyncNow => (MenuAction::RunSyncOnce, true),
        MenuItemKind::ToggleBackground => if background_running {
            (MenuAction::StopBackground, true)
        } else {
            (MenuAction::StartBackground, true)
        },
        MenuItemKind::OpenDashboard => (MenuAction::OpenDashboard, false),
        MenuItemKind::OpenSetup => (MenuAction::OpenSetup, false),
    }
}

/// A one-shot sync is never offered while the background daemon runs or a
/// sync is under way, nor before setup: there is one writer at a time.
pub proof fn law_one_writer_at_a_time(s: StatusSnapshot)
    ensures
        menu_state_of(s).sync_now_enabled ==> !s.background_running && s.state != SyncState::Syncing
            && s.state != SyncState::Unconfigured,
        s.state == SyncState::Unconfigured ==> !menu_state_of(s).toggle_enabled && !menu_state_of(s).dashboard_enabled,
{
}

} // verus!

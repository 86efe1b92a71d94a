//! What the terminal dashboard shows and how it reads keys: labels,
//! shortened values, the selected pair's detail lines, the command bar's key
//! hints, the key bindings and the effects the dashboard answers itself.
use crate::app::{
    AppCommand, AppEffect, AppEvent, AppModel, AppNotificationSeverity, AppPair, AppResolution, AppSetupStepStatus,
    AppStatus, AppView,
};
use crate::app_events::{after_event, effect_views, EffectView};
use crate::config::SecretStoreKind;
use crate::policy::SyncDirection;
use crate::store::SyncRunStatus;
use crate::text::{append_str, chars_of, owned, string_from_chars, trim, trim_chars};
use vstd::prelude::*;

verus! {

// ---------------------------------------------------------------- labels
pub open spec fn status_text(s: AppStatus) -> Seq<char> {
    match s {
        AppStatus::Idle => "idle"@,
        AppStatus::Checking => "checking"@,
        AppStatus::Syncing => "syncing"@,
        AppStatus::Error => "error"@,
    }
}

pub fn status_label(s: AppStatus) -> (r: &'static str)
    ensures
        r@ == status_text(s),
{
    match s {
        AppStatus::Idle => "idle",
        AppStatus::Checking => "checking",
        AppStatus::Syncing => "syncing",
        AppStatus::Error => "error",
    }
}

pub open spec fn view_text(v: AppView) -> Seq<char> {
    match v {
        AppView::Dashboard => "pairs"@,
        AppView::Setup => "setup"@,
        AppView::Runs => "runs"@,
        AppView::Reports => "reports"@,
        AppView::Conflicts => "conflicts"@,
    }
}

pub fn view_label(v: AppView) -> (r: &'static str)
    ensures
        r@ == view_text(v),
{
    match v {
        AppView::Dashboard => "pairs",
        AppView::Setup => "setup",
        AppView::Runs => "runs",
        AppView::Reports => "reports",
        AppView::Conflicts => "conflicts",
    }
}

pub open spec fn setup_status_text(s: AppSetupStepStatus) -> Seq<char> {
    match s {
        AppSetupStepStatus::Complete => "Ready"@,
        AppSetupStepStatus::Attention => "Check"@,
        AppSetupStepStatus::Missing => "Todo"@,
    }
}

pub fn setup_status_label(s: AppSetupStepStatus) -> (r: &'static str)
    ensures
        r@ == setup_status_text(s),
{
    match s {
        AppSetupStepStatus::Complete => "Ready",
        AppSetupStepStatus::Attention => "Check",
        AppSetupStepStatus::Missing => "Todo",
    }
}

pub open spec fn notification_text(s: AppNotificationSeverity) -> Seq<char> {
    match s {
        AppNotificationSeverity::Info => "Info"@,
        AppNotificationSeverity::Warning => "Warning"@,
        AppNotificationSeverity::Error => "Error"@,
    }
}

pub fn notification_label(s: AppNotificationSeverity) -> (r: &'static str)
    ensures
        r@ == notification_text(s),
{
    match s {
        AppNotificationSeverity::Info => "Info",
        AppNotificationSeverity::Warning => "Warning",
        AppNotificationSeverity::Error => "Error",
    }
}

pub open spec fn direction_text(d: SyncDirection) -> Seq<char> {
    match d {
        SyncDirection::TwoWay => "two-way"@,
        SyncDirection::LeftToRight => "google -> icloud"@,
        SyncDirection::RightToLeft => "icloud -> google"@,
    }
}

pub fn direction_label(d: SyncDirection) -> (r: &'static str)
    ensures
        r@ == direction_text(d),
{
    match d {
        SyncDirection::TwoWay => "two-way",
        SyncDirection::LeftToRight => "google -> icloud",
        SyncDirection::RightToLeft => "icloud -> google",
    }
}

pub fn sync_run_status_label(s: SyncRunStatus) -> (r: &'static str)
    ensures
        r@ == s.spec_text(),
{
    s.as_str()
}

pub fn secret_store_label(k: SecretStoreKind) -> (r: &'static str)
    ensures
        r@ == crate::app::store_name(k),
{
    match k {
        SecretStoreKind::Inline => "none",
        SecretStoreKind::Os => "os",
    }
}

pub open spec fn policy_hint(reason: Seq<char>) -> Seq<char> {
    if reason == "both_sides_changed"@ {
        "manual review; optional newest/google/icloud winner"@
    } else if reason == "delete_vs_update"@ {
        "default policy update_wins unless configured"@
    } else if reason == "unlinked_same_uid"@ {
        "manual review or configured UID policy"@
    } else if reason == "icloud_uid_exists"@ {
        "ignore known collision or choose manual"@
    } else {
        "manual review"@
    }
}

/// How a conflict of this reason gets resolved, for the conflict detail.
pub fn conflict_resolution_policy(reason: &str) -> (r: String)
    ensures
        r@ == policy_hint(reason@),
{
    if crate::text::str_eq(reason, "both_sides_changed") {
        owned("manual review; optional newest/google/icloud winner")
    } else if crate::text::str_eq(reason, "delete_vs_update") {
        owned("default policy update_wins unless configured")
    } else if crate::text::str_eq(reason, "unlinked_same_uid") {
        owned("manual review or configured UID policy")
    } else if crate::text::str_eq(reason, "icloud_uid_exists") {
        owned("ignore known collision or choose manual")
    } else {
        owned("manual review")
    }
}

// ---------------------------------------------------------------- run labels
pub open spec fn last_run_text(m: AppModel) -> Seq<char> {
    match (m.last_run_status, m.last_run_at) {
        (Some(status), Some(at)) => status@ + " at "@ + at@,
        (Some(status), None) => status@,
        _ => "No runs yet"@,
    }
}

pub fn last_run_label(model: &AppModel) -> (r: String)
    ensures
        r@ == last_run_text(*model),
{
    match (&model.last_run_status, &model.last_run_at) {
        (Some(status), Some(at)) => {
            let mut out = status.clone();
            append_str(&mut out, " at ");
            append_str(&mut out, at.as_str());
            out
        },
        (Some(status), None) => status.clone(),
        _ => owned("No runs yet"),
    }
}

pub fn next_run_label(model: &AppModel) -> (r: String)
    ensures
        r@ == (match model.next_run_at {
            Some(s) => s@,
            None => "not scheduled"@,
        }),
{
    match &model.next_run_at {
        Some(s) => s.clone(),
        None => owned("not scheduled"),
    }
}

// ---------------------------------------------------------------- shortened values
/// A value that is blank once trimmed counts as absent.
pub open spec fn present(v: Option<Seq<char>>) -> Option<Seq<char>> {
    match v {
        Some(s) => if trim(s).len() > 0 {
            Some(s)
        } else {
            None
        },
        None => None,
    }
}

pub open spec fn opt_str_view(v: Option<&str>) -> Option<Seq<char>> {
    match v {
        Some(s) => Some(s@),
        None => None,
    }
}

/// A calendar as the dashboard names it: its name, else its id, followed by
/// the account in brackets when there is one.
pub open spec fn calendar_label_text(name: Option<Seq<char>>, account: Option<Seq<char>>, fallback: Seq<char>) -> Seq<char> {
    let label = match present(name) {
        Some(n) => n,
        None => fallback,
    };
    match present(account) {
        Some(a) => label + " ["@ + a + "]"@,
        None => label,
    }
}

pub(crate) fn is_blank(s: &str) -> (r: bool)
    ensures
        r == (trim(s@).len() == 0),
{
    let cs = chars_of(s);
    let t = trim_chars(&cs);
    t.len() == 0
}

pub fn calendar_detail_label(name: Option<&str>, account: Option<&str>, fallback_id: &str) -> (r: String)
    ensures
        r@ == calendar_label_text(opt_str_view(name), opt_str_view(account), fallback_id@),
{
    let label = match name {
        Some(n) => if !is_blank(n) {
            n
        } else {
            fallback_id
        },
        None => fallback_id,
    };
    let mut out = owned(label);
    match account {
        Some(a) => if !is_blank(a) {
            append_str(&mut out, " [");
            append_str(&mut out, a);
            append_str(&mut out, "]");
        },
        None => {},
    }
    out
}

/// The value when it fits in `max` characters, else `...` and its last
/// `max - 3` characters.
pub open spec fn compacted(v: Seq<char>, max: nat) -> Seq<char> {
    if v.len() <= max {
        v
    } else {
        "..."@ + v.skip(v.len() - (max - 3))
    }
}

pub fn compact_string(value: &str, max: usize) -> (r: String)
    requires
        value@.len() <= max || max >= 3,
    ensures
        r@ == compacted(value@, max as nat),
{
    let cs = chars_of(value);
    if cs.len() <= max {
        return owned(value);
    }
    let start = cs.len() - (max - 3);
    let mut out: Vec<char> = vec!['.', '.', '.'];
    let mut i = start;
    while i < cs.len()
        invariant
            start <= i <= cs@.len(),
            out@ == seq!['.', '.', '.'] + cs@.subrange(start as int, i as int),
        decreases cs@.len() - i,
    {
        out.push(cs[i]);
        i = i + 1;
        assert(out@ =~= seq!['.', '.', '.'] + cs@.subrange(start as int, i as int));
    }
    proof {
        reveal_strlit("...");
        assert(cs@.subrange(start as int, cs@.len() as int) =~= cs@.skip(start as int));
        assert(out@ =~= "..."@ + value@.skip(value@.len() - (max - 3)));
    }
    string_from_chars(out.as_slice())
}

/// The width a detail value may take in a panel: the panel's width less
/// fourteen, kept between sixteen and sixty-four.
pub open spec fn detail_width(area_width: u16) -> nat {
    let w: int = if area_width >= 14 {
        area_width - 14
    } else {
        0
    };
    if w < 16 {
        16
    } else if w > 64 {
        64
    } else {
        w as nat
    }
}

pub fn compact_detail_value(value: &str, area_width: u16) -> (r: String)
    ensures
        r@ == compacted(value@, detail_width(area_width)),
{
    let w: u16 = if area_width >= 14 {
        area_width - 14
    } else {
        0
    };
    let max: usize = if w < 16 {
        16
    } else if w > 64 {
        64
    } else {
        w as usize
    };
    compact_string(value, max)
}

/// A calendar id shortened to twenty-eight characters.
pub fn compact_calendar_id(value: &str) -> (r: String)
    ensures
        r@ == compacted(value@, 28),
{
    compact_string(value, 28)
}

pub fn compact_calendar_label(name: Option<&str>, account: Option<&str>, fallback_id: &str) -> (r: String)
    ensures
        r@ == compacted(calendar_label_text(opt_str_view(name), opt_str_view(account), fallback_id@), 28),
{
    let label = calendar_detail_label(name, account, fallback_id);
    compact_string(label.as_str(), 28)
}

/// A dash for an empty value.
pub fn empty_dash(value: &str) -> (r: &str)
    ensures
        r@ == (if value@.len() == 0 {
            "-"@
        } else {
            value@
        }),
{
    if value.is_empty() {
        "-"
    } else {
        value
    }
}

// ---------------------------------------------------------------- selected pair
pub(crate) fn opt_as_str(o: &Option<String>) -> (r: Option<&str>)
    ensures
        opt_str_view(r) == crate::event_hash::opt_view(*o),
{
    match o {
        Some(s) => Some(s.as_str()),
        None => None,
    }
}

pub open spec fn or_never(v: Option<String>) -> Seq<char> {
    match v {
        Some(s) => s@,
        None => "never"@,
    }
}

pub open spec fn state_text(enabled: bool) -> Seq<char> {
    if enabled {
        "enabled"@
    } else {
        "disabled"@
    }
}

pub open spec fn google_label(p: AppPair) -> Seq<char> {
    calendar_label_text(
        crate::event_hash::opt_view(p.google_calendar_name),
        crate::event_hash::opt_view(p.google_account_label),
        p.google_calendar_id@,
    )
}

pub open spec fn icloud_label(p: AppPair) -> Seq<char> {
    calendar_label_text(
        crate::event_hash::opt_view(p.icloud_calendar_name),
        crate::event_hash::opt_view(p.icloud_account_label),
        p.icloud_calendar_id@,
    )
}

/// The selected pair's panel: a short form below nine rows, a full one
/// otherwise; the first line is the pair's id.
pub open spec fn selected_pair_text(p: AppPair, height: u16, width: u16) -> Seq<Seq<char>> {
    let w = detail_width(width);
    if height < 9 {
        seq![
            p.id@,
            state_text(p.enabled) + " / "@ + direction_text(p.direction),
            "Google: "@ + compacted(google_label(p), w),
            "iCloud: "@ + compacted(icloud_label(p), w),
            "Sync: G "@ + or_never(p.google_last_sync_at) + " / I "@ + or_never(p.icloud_last_sync_at),
        ]
    } else {
        seq![
            p.id@,
            "State: "@ + state_text(p.enabled),
            "Direction: "@ + direction_text(p.direction),
            "Google: "@ + compacted(google_label(p), w),
            "Google ID: "@ + compacted(p.google_calendar_id@, w),
            "Google sync: "@ + or_never(p.google_last_sync_at),
            "iCloud: "@ + compacted(icloud_label(p), w),
            "iCloud ID: "@ + compacted(p.icloud_calendar_id@, w),
            "iCloud sync: "@ + or_never(p.icloud_last_sync_at),
        ]
    }
}

pub(crate) fn prefixed(prefix: &str, value: &str) -> (r: String)
    ensures
        r@ == prefix@ + value@,
{
    let mut out = owned(prefix);
    append_str(&mut out, value);
    out
}

fn never_or(v: &Option<String>) -> (r: &str)
    ensures
        r@ == or_never(*v),
{
    match v {
        Some(s) => s.as_str(),
        None => "never",
    }
}

pub fn selected_pair_lines(pair: &AppPair, height: u16, width: u16) -> (r: Vec<String>)
    ensures
        r@.map_values(|s: String| s@) == selected_pair_text(*pair, height, width),
{
    let google = calendar_detail_label(
        opt_as_str(&pair.google_calendar_name),
        opt_as_str(&pair.google_account_label),
        pair.google_calendar_id.as_str(),
    );
    let icloud = calendar_detail_label(
        opt_as_str(&pair.icloud_calendar_name),
        opt_as_str(&pair.icloud_account_label),
        pair.icloud_calendar_id.as_str(),
    );
    let google_short = compact_detail_value(google.as_str(), width);
    let icloud_short = compact_detail_value(icloud.as_str(), width);
    let state = if pair.enabled {
        "enabled"
    } else {
        "disabled"
    };
    let v = if height < 9 {
        let mut l1 = owned(state);
        append_str(&mut l1, " / ");
        append_str(&mut l1, direction_label(pair.direction));
        let mut l4 = owned("Sync: G ");
        append_str(&mut l4, never_or(&pair.google_last_sync_at));
        append_str(&mut l4, " / I ");
        append_str(&mut l4, never_or(&pair.icloud_last_sync_at));
        vec![
            pair.id.clone(),
            l1,
            prefixed("Google: ", google_short.as_str()),
            prefixed("iCloud: ", icloud_short.as_str()),
            l4,
        ]
    } else {
        let gid = compact_detail_value(pair.google_calendar_id.as_str(), width);
        let iid = compact_detail_value(pair.icloud_calendar_id.as_str(), width);
        vec![
            pair.id.clone(),
            prefixed("State: ", state),
            prefixed("Direction: ", direction_label(pair.direction)),
            prefixed("Google: ", google_short.as_str()),
            prefixed("Google ID: ", gid.as_str()),
            prefixed("Google sync: ", never_or(&pair.google_last_sync_at)),
            prefixed("iCloud: ", icloud_short.as_str()),
            prefixed("iCloud ID: ", iid.as_str()),
            prefixed("iCloud sync: ", never_or(&pair.icloud_last_sync_at)),
        ]
    };
    assert(v@.map_values(|s: String| s@) =~= selected_pair_text(*pair, height, width));
    v
}

// ---------------------------------------------------------------- command bar
/// The colour family of a key hint.
#[derive(Debug, Clone, Copy, PartialEq, Eq, Structural)]
pub enum Tone {
    Running,
    Danger,
    Warning,
    Neutral,
    Success,
    Checking,
    Plain,
    Navigation,
    Exit,
    Muted,
}

/// A key and what it does, as the command bar shows it.
#[derive(Debug, Clone, Copy)]
pub struct KeyHint {
    pub key: &'static str,
    pub label: &'static str,
    pub tone: Tone,
}

pub struct HintView {
    pub key: Seq<char>,
    pub label: Seq<char>,
    pub tone: Tone,
}

pub open spec fn hint_view(h: KeyHint) -> HintView {
    HintView { key: h.key@, label: h.label@, tone: h.tone }
}

pub open spec fn hv(key: Seq<char>, label: Seq<char>, tone: Tone) -> HintView {
    HintView { key, label, tone }
}

/// The command bar: the global keys, the pause key reading "resume" while
/// paused, the filter key on the runs and reports views, the sort key on the
/// reports view, then moving and quitting.
pub open spec fn command_hint_views(view: AppView, paused: bool) -> Seq<HintView> {
    seq![
        hv("d"@, " dry   "@, Tone::Running),
        hv("a"@, " apply   "@, Tone::Danger),
        hv("r"@, " ref   "@, Tone::Warning),
        hv("s"@, " set   "@, Tone::Neutral),
        hv("c"@, " conf   "@, Tone::Warning),
        hv("l"@, " runs   "@, Tone::Success),
        hv("v"@, " report   "@, Tone::Checking),
        hv("p"@, " pairs   "@, Tone::Plain),
        hv("b"@, if paused { " resume   "@ } else { " pause   "@ }, Tone::Warning),
        hv(":"@, " pal   "@, Tone::Running),
    ] + (if view == AppView::Runs || view == AppView::Reports {
        seq![hv("f"@, " filter   "@, Tone::Warning)]
    } else {
        Seq::empty()
    }) + (if view == AppView::Reports {
        seq![hv("t"@, " sort   "@, Tone::Checking)]
    } else {
        Seq::empty()
    }) + seq![hv("j/k"@, " move   "@, Tone::Navigation), hv("q"@, " quit"@, Tone::Exit)]
}

fn hint(key: &'static str, label: &'static str, tone: Tone) -> (r: KeyHint)
    ensures
        hint_view(r) == hv(key@, label@, tone),
{
    KeyHint { key, label, tone }
}

pub fn command_hints(model: &AppModel) -> (r: Vec<KeyHint>)
    ensures
        r@.map_values(|h: KeyHint| hint_view(h)) == command_hint_views(model.view, model.background_paused),
{
    let mut v: Vec<KeyHint> = vec![
        hint("d", " dry   ", Tone::Running),
        hint("a", " apply   ", Tone::Danger),
        hint("r", " ref   ", Tone::Warning),
        hint("s", " set   ", Tone::Neutral),
        hint("c", " conf   ", Tone::Warning),
        hint("l", " runs   ", Tone::Success),
        hint("v", " report   ", Tone::Checking),
        hint("p", " pairs   ", Tone::Plain),
        hint(
            "b",
            if model.background_paused {
                " resume   "
            } else {
                " pause   "
            },
            Tone::Warning,
        ),
        hint(":", " pal   ", Tone::Running),
    ];
    let ghost base = v@.map_values(|h: KeyHint| hint_view(h));
    if model.view == AppView::Runs || model.view == AppView::Reports {
        v.push(hint("f", " filter   ", Tone::Warning));
    }
    let ghost with_filter = v@.map_values(|h: KeyHint| hint_view(h));
    if model.view == AppView::Reports {
        v.push(hint("t", " sort   ", Tone::Checking));
    }
    let ghost with_sort = v@.map_values(|h: KeyHint| hint_view(h));
    v.push(hint("j/k", " move   ", Tone::Navigation));
    v.push(hint("q", " quit", Tone::Exit));
    assert(v@.map_values(|h: KeyHint| hint_view(h)) =~= command_hint_views(model.view, model.background_paused));
    v
}

// ---------------------------------------------------------------- keys
/// A key press as the dashboard reads it.
#[derive(Debug, Clone, Copy, PartialEq, Eq, Structural)]
pub enum TuiKey {
    Esc,
    Down,
    Up,
    Enter,
    Tab,
    BackTab,
    Char(char),
    Other,
}

/// What a key press asks for.
#[derive(Debug, Clone)]
pub enum TuiAction {
    /// Leave the dashboard.
    Quit,
    /// Apply the event and ignore its effects.
    Update(AppEvent),
    /// Apply the event and answer its effects (`apply_tui_effects`).
    Run(AppEvent),
    SelectNextPair,
    SelectPreviousPair,
    Ignore,
}

/// The screens in the order tab walks through them: pairs, plan,
/// conflicts, runs, setup.
pub open spec fn view_after(view: AppView, forward: bool) -> AppView {
    match view {
        AppView::Dashboard => if forward { AppView::Reports } else { AppView::Setup },
        AppView::Reports => if forward { AppView::Conflicts } else { AppView::Dashboard },
        AppView::Conflicts => if forward { AppView::Runs } else { AppView::Reports },
        AppView::Runs => if forward { AppView::Setup } else { AppView::Conflicts },
        AppView::Setup => if forward { AppView::Dashboard } else { AppView::Runs },
    }
}

/// The event that shows a screen.
pub open spec fn show_event(view: AppView) -> AppEvent {
    match view {
        AppView::Dashboard => AppEvent::ShowDashboard,
        AppView::Reports => AppEvent::ShowReports,
        AppView::Conflicts => AppEvent::ShowConflicts,
        AppView::Runs => AppEvent::ShowRuns,
        AppView::Setup => AppEvent::ShowSetup,
    }
}

/// The resolution a key queues for the selected conflict group: `g` Google
/// wins, `i` iCloud wins, `x` delete wins, `u` update wins.
pub open spec fn resolution_key(c: char) -> Option<AppResolution> {
    if c == 'g' {
        Some(AppResolution::GoogleWins)
    } else if c == 'i' {
        Some(AppResolution::IcloudWins)
    } else if c == 'x' {
        Some(AppResolution::DeleteWins)
    } else if c == 'u' {
        Some(AppResolution::UpdateWins)
    } else {
        None
    }
}

/// The key bindings. While an apply waits for confirmation only `y` or enter
/// (apply) and escape or `n` (cancel) count. In the palette, escape closes,
/// `j`/`k` or the arrows move and enter runs the selected command. Elsewhere
/// tab and shift-tab walk the screens, and each key names a view, a filter,
/// a sort, a command, a resolution of the selected conflict group (on the
/// conflicts screen) or a step through the current list.
pub open spec fn key_action(view: AppView, palette_open: bool, confirm_open: bool, key: TuiKey) -> TuiAction {
    if confirm_open {
        match key {
            TuiKey::Char('y') | TuiKey::Enter => TuiAction::Run(AppEvent::ConfirmApplyRun),
            TuiKey::Char('n') | TuiKey::Esc => TuiAction::Update(AppEvent::CancelApplyRun),
            _ => TuiAction::Ignore,
        }
    } else if palette_open {
        match key {
            TuiKey::Esc => TuiAction::Update(AppEvent::CloseCommandPalette),
            TuiKey::Down => TuiAction::Update(AppEvent::SelectNextCommand),
            TuiKey::Char('j') => TuiAction::Update(AppEvent::SelectNextCommand),
            TuiKey::Up => TuiAction::Update(AppEvent::SelectPreviousCommand),
            TuiKey::Char('k') => TuiAction::Update(AppEvent::SelectPreviousCommand),
            TuiKey::Enter => TuiAction::Run(AppEvent::ExecuteSelectedCommand),
            _ => TuiAction::Ignore,
        }
    } else if key == TuiKey::Tab {
        TuiAction::Update(show_event(view_after(view, true)))
    } else if key == TuiKey::BackTab {
        TuiAction::Update(show_event(view_after(view, false)))
    } else if view == AppView::Conflicts && (key matches TuiKey::Char(c) && resolution_key(c) is Some) {
        match key {
            TuiKey::Char(c) => TuiAction::Run(AppEvent::ResolveSelectedConflict(resolution_key(c)->0)),
            _ => TuiAction::Ignore,
        }
    } else {
        match key {
            TuiKey::Char('q') => TuiAction::Quit,
            TuiKey::Char(':') => TuiAction::Update(AppEvent::OpenCommandPalette),
            TuiKey::Down | TuiKey::Char('j') => match view {
                AppView::Dashboard | AppView::Setup => TuiAction::SelectNextPair,
                AppView::Runs => TuiAction::Update(AppEvent::SelectNextRun),
                AppView::Reports => TuiAction::Update(AppEvent::SelectNextReportRow),
                AppView::Conflicts => TuiAction::Update(AppEvent::SelectNextConflict),
            },
            TuiKey::Up | TuiKey::Char('k') => match view {
                AppView::Dashboard | AppView::Setup => TuiAction::SelectPreviousPair,
                AppView::Runs => TuiAction::Update(AppEvent::SelectPreviousRun),
                AppView::Reports => TuiAction::Update(AppEvent::SelectPreviousReportRow),
                AppView::Conflicts => TuiAction::Update(AppEvent::SelectPreviousConflict),
            },
            TuiKey::Esc | TuiKey::Char('p') => TuiAction::Update(AppEvent::ShowDashboard),
            TuiKey::Char('l') => TuiAction::Update(AppEvent::ShowRuns),
            TuiKey::Char('v') => TuiAction::Update(AppEvent::ShowReports),
            TuiKey::Char('c') => TuiAction::Update(AppEvent::ShowConflicts),
            TuiKey::Char('f') => if view == AppView::Runs {
                TuiAction::Update(AppEvent::CycleRunFilter)
            } else if view == AppView::Reports {
                TuiAction::Update(AppEvent::CycleReportFilter)
            } else {
                TuiAction::Ignore
            },
            TuiKey::Char('t') => if view == AppView::Reports {
                TuiAction::Update(AppEvent::CycleReportSort)
            } else {
                TuiAction::Ignore
            },
            TuiKey::Char('d') => TuiAction::Run(AppEvent::ExecuteCommand(AppCommand::DryRun)),
            TuiKey::Char('a') => TuiAction::Run(AppEvent::ExecuteCommand(AppCommand::ApplyRun)),
            TuiKey::Char('r') => TuiAction::Run(AppEvent::ExecuteCommand(AppCommand::RefreshConflicts)),
            TuiKey::Char('s') => TuiAction::Run(AppEvent::ExecuteCommand(AppCommand::OpenSetup)),
            TuiKey::Char('b') => TuiAction::Run(AppEvent::ExecuteCommand(AppCommand::ToggleBackgroundPause)),
            _ => TuiAction::Ignore,
        }
    }
}

fn next_view(view: AppView, forward: bool) -> (r: AppView)
    ensures
        r == view_after(view, forward),
{
    match view {
        AppView::Dashboard => if forward { AppView::Reports } else { AppView::Setup },
        AppView::Reports => if forward { AppView::Conflicts } else { AppView::Dashboard },
        AppView::Conflicts => if forward { AppView::Runs } else { AppView::Reports },
        AppView::Runs => if forward { AppView::Setup } else { AppView::Conflicts },
        AppView::Setup => if forward { AppView::Dashboard } else { AppView::Runs },
    }
}

fn show_view(view: AppView) -> (r: AppEvent)
    ensures
        r == show_event(view),
{
    match view {
        AppView::Dashboard => AppEvent::ShowDashboard,
        AppView::Reports => AppEvent::ShowReports,
        AppView::Conflicts => AppEvent::ShowConflicts,
        AppView::Runs => AppEvent::ShowRuns,
        AppView::Setup => AppEvent::ShowSetup,
    }
}

fn resolution_for_key(c: char) -> (r: Option<AppResolution>)
    ensures
        r == resolution_key(c),
{
    if c == 'g' {
        Some(AppResolution::GoogleWins)
    } else if c == 'i' {
        Some(AppResolution::IcloudWins)
    } else if c == 'x' {
        Some(AppResolution::DeleteWins)
    } else if c == 'u' {
        Some(AppResolution::UpdateWins)
    } else {
        None
    }
}

pub fn tui_key_action(model: &AppModel, key: TuiKey) -> (r: TuiAction)
    ensures
        r == key_action(model.view, model.command_palette_open, model.confirm_apply, key),
{
    if model.confirm_apply {
        return match key {
            TuiKey::Enter => TuiAction::Run(AppEvent::ConfirmApplyRun),
            TuiKey::Esc => TuiAction::Update(AppEvent::CancelApplyRun),
            TuiKey::Char(c) => if c == 'y' {
                TuiAction::Run(AppEvent::ConfirmApplyRun)
            } else if c == 'n' {
                TuiAction::Update(AppEvent::CancelApplyRun)
            } else {
                TuiAction::Ignore
            },
            _ => TuiAction::Ignore,
        };
    }
    if model.command_palette_open {
        match key {
            TuiKey::Esc => TuiAction::Update(AppEvent::CloseCommandPalette),
            TuiKey::Down => TuiAction::Update(AppEvent::SelectNextCommand),
            TuiKey::Up => TuiAction::Update(AppEvent::SelectPreviousCommand),
            TuiKey::Enter => TuiAction::Run(AppEvent::ExecuteSelectedCommand),
            TuiKey::Char(c) => if c == 'j' {
                TuiAction::Update(AppEvent::SelectNextCommand)
            } else if c == 'k' {
                TuiAction::Update(AppEvent::SelectPreviousCommand)
            } else {
                TuiAction::Ignore
            },
            _ => TuiAction::Ignore,
        }
    } else {
        let view = model.view;
        match key {
            TuiKey::Tab => return TuiAction::Update(show_view(next_view(view, true))),
            TuiKey::BackTab => return TuiAction::Update(show_view(next_view(view, false))),
            TuiKey::Char(c) => if view == AppView::Conflicts {
                match resolution_for_key(c) {
                    Some(resolution) => return TuiAction::Run(AppEvent::ResolveSelectedConflict(resolution)),
                    None => {},
                }
            },
            _ => {},
        }
        let down = match view {
            AppView::Dashboard | AppView::Setup => TuiAction::SelectNextPair,
            AppView::Runs => TuiAction::Update(AppEvent::SelectNextRun),
            AppView::Reports => TuiAction::Update(AppEvent::SelectNextReportRow),
            AppView::Conflicts => TuiAction::Update(AppEvent::SelectNextConflict),
        };
        let up = match view {
            AppView::Dashboard | AppView::Setup => TuiAction::SelectPreviousPair,
            AppView::Runs => TuiAction::Update(AppEvent::SelectPreviousRun),
            AppView::Reports => TuiAction::Update(AppEvent::SelectPreviousReportRow),
            AppView::Conflicts => TuiAction::Update(AppEvent::SelectPreviousConflict),
        };
        match key {
            TuiKey::Down => down,
            TuiKey::Up => up,
            TuiKey::Esc => TuiAction::Update(AppEvent::ShowDashboard),
            TuiKey::Enter | TuiKey::Tab | TuiKey::BackTab | TuiKey::Other => TuiAction::Ignore,
            TuiKey::Char(c) => {
                if c == 'q' {
                    TuiAction::Quit
                } else if c == ':' {
                    TuiAction::Update(AppEvent::OpenCommandPalette)
                } else if c == 'j' {
                    down
                } else if c == 'k' {
                    up
                } else if c == 'p' {
                    TuiAction::Update(AppEvent::ShowDashboard)
                } else if c == 'l' {
                    TuiAction::Update(AppEvent::ShowRuns)
                } else if c == 'v' {
                    TuiAction::Update(AppEvent::ShowReports)
                } else if c == 'c' {
                    TuiAction::Update(AppEvent::ShowConflicts)
                } else if c == 'f' {
                    if view == AppView::Runs {
                        TuiAction::Update(AppEvent::CycleRunFilter)
                    } else if view == AppView::Reports {
                        TuiAction::Update(AppEvent::CycleReportFilter)
                    } else {
                        TuiAction::Ignore
                    }
                } else if c == 't' {
                    if view == AppView::Reports {
                        TuiAction::Update(AppEvent::CycleReportSort)
                    } else {
                        TuiAction::Ignore
                    }
                } else if c == 'd' {
                    TuiAction::Run(AppEvent::ExecuteCommand(AppCommand::DryRun))
                } else if c == 'a' {
                    TuiAction::Run(AppEvent::ExecuteCommand(AppCommand::ApplyRun))
                } else if c == 'r' {
                    TuiAction::Run(AppEvent::ExecuteCommand(AppCommand::RefreshConflicts))
                } else if c == 's' {
                    TuiAction::Run(AppEvent::ExecuteCommand(AppCommand::OpenSetup))
                } else if c == 'b' {
                    TuiAction::Run(AppEvent::ExecuteCommand(AppCommand::ToggleBackgroundPause))
                } else {
                    TuiAction::Ignore
                }
            },
        }
    }
}

// ---------------------------------------------------------------- effects
/// The message the dashboard records for an effect it answers itself;
/// `None` for quitting and for conflict resolution, which it leaves alone.
pub open spec fn effect_message(e: EffectView) -> Option<Seq<char>> {
    match e {
        EffectView::RunDrySync => Some("dry-run requested"@),
        EffectView::RunApplySync => Some("apply requested"@),
        EffectView::LoadConflicts => Some("conflict refresh requested"@),
        EffectView::ShowSetup => Some("setup requested"@),
        EffectView::ExportDryRunReport => Some("report export requested"@),
        EffectView::StartBackgroundScheduler => Some("background scheduler start requested"@),
        EffectView::StopBackgroundScheduler => Some("background scheduler stop requested"@),
        EffectView::Quit => None,
        EffectView::ResolveConflict { .. } => None,
    }
}

/// The messages of the effects before the first quit, in order.
pub open spec fn answered_messages(effects: Seq<EffectView>) -> Seq<Seq<char>>
    decreases effects.len(),
{
    if effects.len() == 0 || effects[0] is Quit {
        Seq::empty()
    } else {
        match effect_message(effects[0]) {
            Some(msg) => seq![msg] + answered_messages(effects.drop_first()),
            None => answered_messages(effects.drop_first()),
        }
    }
}

pub open spec fn has_quit(effects: Seq<EffectView>) -> bool {
    exists|i: int| 0 <= i < effects.len() && effects[i] is Quit
}

fn message_of(e: &AppEffect) -> (r: Option<&'static str>)
    ensures
        match r {
            Some(s) => effect_message(e@) == Some(s@),
            None => effect_message(e@) is None,
        },
{
    match e {
        AppEffect::RunDrySync => Some("dry-run requested"),
        AppEffect::RunApplySync => Some("apply requested"),
        AppEffect::LoadConflicts => Some("conflict refresh requested"),
        AppEffect::ShowSetup => Some("setup requested"),
        AppEffect::ExportDryRunReport => Some("report export requested"),
        AppEffect::StartBackgroundScheduler => Some("background scheduler start requested"),
        AppEffect::StopBackgroundScheduler => Some("background scheduler stop requested"),
        AppEffect::Quit => None,
        AppEffect::ResolveConflict { .. } => None,
    }
}

proof fn lemma_answered_step(effects: Seq<EffectView>, i: int)
    requires
        0 <= i < effects.len(),
        forall|k: int| 0 <= k < i ==> !(effects[k] is Quit),
        !(effects[i] is Quit),
    ensures
        answered_messages(effects.take(i + 1)) == answered_messages(effects.take(i)) + match effect_message(
            effects[i],
        ) {
            Some(m) => seq![m],
            None => Seq::<Seq<char>>::empty(),
        },
    decreases i,
{
    let t1 = effects.take(i + 1);
    let t0 = effects.take(i);
    if i == 0 {
        assert(t0.len() == 0);
        assert(t1.drop_first().len() == 0);
        assert(answered_messages(t1.drop_first()) == Seq::<Seq<char>>::empty());
    } else {
        let d = effects.drop_first();
        assert forall|k: int| 0 <= k < i - 1 implies !(d[k] is Quit) by {
            assert(d[k] == effects[k + 1]);
        }
        assert(d[i - 1] == effects[i]);
        lemma_answered_step(d, i - 1);
        assert(t1.drop_first() =~= d.take(i));
        assert(t0.drop_first() =~= d.take(i - 1));
        assert(t1[0] == effects[0]);
        assert(t0[0] == effects[0]);
        assert(!(effects[0] is Quit));
    }
}

proof fn lemma_answered_stop(effects: Seq<EffectView>, i: int)
    requires
        0 <= i < effects.len(),
        effects[i] is Quit,
        forall|k: int| 0 <= k < i ==> !(effects[k] is Quit),
    ensures
        answered_messages(effects) == answered_messages(effects.take(i)),
    decreases i,
{
    if i == 0 {
        assert(effects.take(0).len() == 0);
    } else {
        let d = effects.drop_first();
        assert forall|k: int| 0 <= k < i - 1 implies !(d[k] is Quit) by {
            assert(d[k] == effects[k + 1]);
        }
        lemma_answered_stop(d, i - 1);
        assert(effects.take(i).drop_first() =~= d.take(i - 1));
        assert(effects.take(i)[0] == effects[0]);
    }
}

impl AppModel {
    /// Answers the effects the dashboard handles itself, in order: each
    /// records its message as a finished engine event; quit stops and is
    /// reported.
    pub fn apply_tui_effects(&mut self, effects: Vec<AppEffect>) -> (r: bool)
        ensures
            r == has_quit(effect_views(effects@)),
            answered_messages(effect_views(effects@)).len() == 0 ==> *final(self) == *old(self),
            answered_messages(effect_views(effects@)).len() > 0 ==> (*final(self) == (AppModel {
                status: AppStatus::Idle,
                last_message: final(self).last_message,
                ..*old(self)
            }) && (final(self).last_message matches Some(s) && s@ == answered_messages(effect_views(effects@)).last())),
    {
        let ghost ev = effect_views(effects@);
        let mut i: usize = 0;
        while i < effects.len()
            invariant
                i <= effects@.len(),
                ev == effect_views(effects@),
                forall|k: int| 0 <= k < i ==> !(ev[k] is Quit),
                answered_messages(ev.take(i as int)).len() == 0 ==> *self == *old(self),
                answered_messages(ev.take(i as int)).len() > 0 ==> (*self == (AppModel {
                    status: AppStatus::Idle,
                    last_message: self.last_message,
                    ..*old(self)
                }) && (self.last_message matches Some(s) && s@ == answered_messages(ev.take(i as int)).last())),
            decreases effects@.len() - i,
        {
            assert(ev[i as int] == effects@[i as int]@);
            if matches!(effects[i], AppEffect::Quit) {
                proof {
                    lemma_answered_stop(ev, i as int);
                }
                return true;
            }
            proof {
                lemma_answered_step(ev, i as int);
            }
            match message_of(&effects[i]) {
                Some(msg) => {
                    self.update(AppEvent::EngineFinished { message: owned(msg) });
                },
                None => {},
            }
            i = i + 1;
        }
        assert(ev.take(ev.len() as int) =~= ev);
        false
    }
}

} // verus!

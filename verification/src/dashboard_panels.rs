//! The text of the dashboard's detail panels: the selected run, report row
//! and conflict, the setup guidance and the activity list. The terminal layer
//! only lays these lines out.
use crate::app::{
    AppConflictDetail, AppConflictSummary, AppModel, AppPair, AppReportRow, AppRun, AppSetupState, AppSetupStep,
    AppSetupStepStatus,
};
use crate::dashboard::{
    calendar_detail_label, compact_detail_value, compact_string, compacted, detail_width, direction_label, empty_dash,
    direction_text, google_label, icloud_label, last_run_label, last_run_text, opt_as_str, prefixed, state_text,
    status_label, status_text, Tone,
};
use crate::dashboard_rows::{dash_or, last_run_tone, last_run_tone_of, or_dash, setup_step_lines, setup_step_text, status_tone, status_tone_of};
use crate::numtext::{decimal, decimal_string};
use crate::text::{append_str, owned};
use vstd::prelude::*;

verus! {

fn joined3(a: &str, b: &str, c: &str) -> (r: String)
    ensures
        r@ == a@ + b@ + c@,
{
    let mut out = owned(a);
    append_str(&mut out, b);
    append_str(&mut out, c);
    out
}

// ---------------------------------------------------------------- run detail
/// The selected run's panel: its status first; a short form below nine rows.
pub open spec fn run_detail_text(r: AppRun, height: u16, width: u16) -> Seq<Seq<char>> {
    let w = detail_width(width);
    if height < 9 {
        seq![
            r.status@,
            "Run: "@ + compacted(r.id@, w),
            "Pair: "@ + or_dash(r.pair_id),
            "At: "@ + compacted(r.started_at@, 24) + " -> "@ + compacted(or_dash(r.finished_at), 24),
            "Error: "@ + compacted(or_dash(r.error), w),
        ]
    } else {
        seq![
            r.status@,
            "Run ID: "@ + compacted(r.id@, w),
            "Pair: "@ + or_dash(r.pair_id),
            "Started: "@ + r.started_at@,
            "Finished: "@ + or_dash(r.finished_at),
            "Error: "@ + compacted(or_dash(r.error), w),
        ]
    }
}

pub fn run_detail_lines(run: &AppRun, height: u16, width: u16) -> (r: Vec<String>)
    ensures
        r@.map_values(|s: String| s@) == run_detail_text(*run, height, width),
{
    let id = compact_detail_value(run.id.as_str(), width);
    let error = compact_detail_value(dash_or(&run.error), width);
    let v = if height < 9 {
        let started = compact_string(run.started_at.as_str(), 24);
        let finished = compact_string(dash_or(&run.finished_at), 24);
        let mut at = owned("At: ");
        append_str(&mut at, started.as_str());
        append_str(&mut at, " -> ");
        append_str(&mut at, finished.as_str());
        vec![
            run.status.clone(),
            prefixed("Run: ", id.as_str()),
            prefixed("Pair: ", dash_or(&run.pair_id)),
            at,
            prefixed("Error: ", error.as_str()),
        ]
    } else {
        vec![
            run.status.clone(),
            prefixed("Run ID: ", id.as_str()),
            prefixed("Pair: ", dash_or(&run.pair_id)),
            prefixed("Started: ", run.started_at.as_str()),
            prefixed("Finished: ", dash_or(&run.finished_at)),
            prefixed("Error: ", error.as_str()),
        ]
    };
    assert(v@.map_values(|s: String| s@) =~= run_detail_text(*run, height, width));
    v
}

// ---------------------------------------------------------------- report detail
pub open spec fn dashed(v: Seq<char>) -> Seq<char> {
    if v.len() == 0 {
        "-"@
    } else {
        v
    }
}

/// The selected report row's panel: its action (at most thirty-two
/// characters) first.
pub open spec fn report_detail_text(row: AppReportRow, width: u16) -> Seq<Seq<char>> {
    let w = detail_width(width);
    seq![
        compacted(row.action@, 32),
        "Pair: "@ + compacted(row.pair_id@, w),
        "Title: "@ + compacted(row.title@, w),
        "Reason: "@ + compacted(row.reason@, w),
        "Resolution: "@ + compacted(row.resolution@, w),
        "Present: Google "@ + dashed(row.google_present@) + " / iCloud "@ + dashed(row.icloud_present@),
        "Diff: "@ + compacted(dashed(row.diff_fields@), w),
    ]
}

pub fn report_detail_lines(row: &AppReportRow, width: u16) -> (r: Vec<String>)
    ensures
        r@.map_values(|s: String| s@) == report_detail_text(*row, width),
{
    let pair = compact_detail_value(row.pair_id.as_str(), width);
    let title = compact_detail_value(row.title.as_str(), width);
    let reason = compact_detail_value(row.reason.as_str(), width);
    let resolution = compact_detail_value(row.resolution.as_str(), width);
    let diff = compact_detail_value(empty_dash(row.diff_fields.as_str()), width);
    let mut present = joined3("Present: Google ", empty_dash(row.google_present.as_str()), " / iCloud ");
    append_str(&mut present, empty_dash(row.icloud_present.as_str()));
    let v = vec![
        compact_string(row.action.as_str(), 32),
        prefixed("Pair: ", pair.as_str()),
        prefixed("Title: ", title.as_str()),
        prefixed("Reason: ", reason.as_str()),
        prefixed("Resolution: ", resolution.as_str()),
        present,
        prefixed("Diff: ", diff.as_str()),
    ];
    assert(v@.map_values(|s: String| s@) =~= report_detail_text(*row, width));
    v
}

// ---------------------------------------------------------------- conflict comparison
pub open spec fn first_seen(s: Option<AppConflictSummary>) -> Seq<char> {
    match s {
        Some(x) => x.first_seen_at@,
        None => "-"@,
    }
}

pub open spec fn last_seen(s: Option<AppConflictSummary>) -> Seq<char> {
    match s {
        Some(x) => x.last_seen_at@,
        None => "-"@,
    }
}

/// The comparison panel of a conflict and its group: policy, reason, uid and
/// differing fields, each side's title, start and status, the audit trail and
/// the provider ids.
pub open spec fn conflict_comparison_text(d: AppConflictDetail, s: Option<AppConflictSummary>, width: u16) -> Seq<
    Seq<char>,
> {
    let w = detail_width(width);
    seq![
        "Policy: "@ + compacted(d.resolution_policy@, w),
        "Reason: "@ + compacted(d.reason@, w),
        "UID: "@ + compacted(or_dash(d.canonical_uid), w),
        "Diff: "@ + compacted(d.diff_fields@, w),
        "Google: "@ + compacted(or_dash(d.google_title), 24) + " | "@ + compacted(or_dash(d.google_start), 28)
            + " | "@ + or_dash(d.google_status),
        "iCloud: "@ + compacted(or_dash(d.icloud_title), 24) + " | "@ + compacted(or_dash(d.icloud_start), 28)
            + " | "@ + or_dash(d.icloud_status),
        "Audit: unresolved since "@ + d.created_at@ + "; group first "@ + first_seen(s) + " last "@ + last_seen(s)
            + "; link "@ + or_dash(d.event_link_id),
        "Provider IDs: G "@ + compacted(or_dash(d.google_event_id), 28) + " / I "@ + compacted(
            or_dash(d.icloud_href),
            28,
        ),
    ]
}

fn side_line(label: &str, title: &Option<String>, start: &Option<String>, status: &Option<String>) -> (r: String)
    ensures
        r@ == label@ + compacted(or_dash(*title), 24) + " | "@ + compacted(or_dash(*start), 28) + " | "@ + or_dash(
            *status,
        ),
{
    let t = compact_string(dash_or(title), 24);
    let st = compact_string(dash_or(start), 28);
    let mut out = owned(label);
    append_str(&mut out, t.as_str());
    append_str(&mut out, " | ");
    append_str(&mut out, st.as_str());
    append_str(&mut out, " | ");
    append_str(&mut out, dash_or(status));
    out
}

pub fn conflict_comparison_lines(
    detail: &AppConflictDetail,
    summary: Option<&AppConflictSummary>,
    width: u16,
) -> (r: Vec<String>)
    ensures
        r@.map_values(|s: String| s@) == conflict_comparison_text(
            *detail,
            match summary {
                Some(x) => Some(*x),
                None => None,
            },
            width,
        ),
{
    let ghost s = match summary {
        Some(x) => Some(*x),
        None => None::<AppConflictSummary>,
    };
    let policy = compact_detail_value(detail.resolution_policy.as_str(), width);
    let reason = compact_detail_value(detail.reason.as_str(), width);
    let uid = compact_detail_value(dash_or(&detail.canonical_uid), width);
    let diff = compact_detail_value(detail.diff_fields.as_str(), width);
    let (first, last) = match summary {
        Some(x) => (x.first_seen_at.as_str(), x.last_seen_at.as_str()),
        None => ("-", "-"),
    };
    let mut audit = joined3("Audit: unresolved since ", detail.created_at.as_str(), "; group first ");
    append_str(&mut audit, first);
    append_str(&mut audit, " last ");
    append_str(&mut audit, last);
    append_str(&mut audit, "; link ");
    append_str(&mut audit, dash_or(&detail.event_link_id));
    let gid = compact_string(dash_or(&detail.google_event_id), 28);
    let href = compact_string(dash_or(&detail.icloud_href), 28);
    let mut ids = joined3("Provider IDs: G ", gid.as_str(), " / I ");
    append_str(&mut ids, href.as_str());
    let v = vec![
        prefixed("Policy: ", policy.as_str()),
        prefixed("Reason: ", reason.as_str()),
        prefixed("UID: ", uid.as_str()),
        prefixed("Diff: ", diff.as_str()),
        side_line("Google: ", &detail.google_title, &detail.google_start, &detail.google_status),
        side_line("iCloud: ", &detail.icloud_title, &detail.icloud_start, &detail.icloud_status),
        audit,
        ids,
    ];
    assert(first@ == first_seen(s) && last@ == last_seen(s));
    assert(v@.map_values(|s: String| s@) =~= conflict_comparison_text(*detail, s, width));
    v
}

// ---------------------------------------------------------------- setup guidance
/// The first step that is not complete.
pub fn next_setup_step(steps: &Vec<AppSetupStep>) -> (r: Option<usize>)
    ensures
        match r {
            Some(i) => i < steps@.len() && steps@[i as int].status != AppSetupStepStatus::Complete && forall|j: int|
                0 <= j < i ==> #[trigger] steps@[j].status == AppSetupStepStatus::Complete,
            None => forall|j: int| 0 <= j < steps@.len() ==> #[trigger] steps@[j].status == AppSetupStepStatus::Complete,
        },
{
    let mut i: usize = 0;
    while i < steps.len()
        invariant
            i <= steps@.len(),
            forall|j: int| 0 <= j < i ==> #[trigger] steps@[j].status == AppSetupStepStatus::Complete,
        decreases steps@.len() - i,
    {
        if steps[i].status != AppSetupStepStatus::Complete {
            return Some(i);
        }
        i = i + 1;
    }
    None
}

pub open spec fn guidance_pair_text(pair: Option<AppPair>, width: u16) -> Seq<Seq<char>> {
    let w = detail_width(width);
    match pair {
        Some(p) => seq![
            p.id@ + " / "@ + state_text(p.enabled) + " / "@ + direction_text(p.direction),
            "Google: "@ + compacted(google_label(p), w),
            "iCloud: "@ + compacted(icloud_label(p), w),
        ],
        None => seq!["No pair selected."@, "Use setup pair commands after discovery."@],
    }
}

/// The setup guidance panel: the next open step (or that setup is done), the
/// selected pair, and the configuration in one line.
pub open spec fn guidance_text(next: Option<AppSetupStep>, pair: Option<AppPair>, setup: AppSetupState, width: u16) -> Seq<
    Seq<char>,
> {
    let head = match next {
        Some(step) => setup_step_text("Next"@, step, width),
        None => seq!["Ready for repeated dry-runs."@, "Run insync sync --report .insync/reports/dry-run.csv"@],
    };
    head + seq![""@, "Selected Pair"@] + guidance_pair_text(pair, width) + seq![
        ""@,
        "Config: db "@ + compacted(setup.db_path@, 26) + " / secrets "@ + setup.secret_store@ + " / poll "@
            + decimal(setup.poll_interval_seconds as nat) + "s"@,
    ]
}

fn guidance_pair_lines(pair: Option<&AppPair>, width: u16) -> (r: Vec<String>)
    ensures
        r@.map_values(|s: String| s@) == guidance_pair_text(
            match pair {
                Some(p) => Some(*p),
                None => None,
            },
            width,
        ),
{
    match pair {
        Some(p) => {
            let google = calendar_detail_label(
                opt_as_str(&p.google_calendar_name),
                opt_as_str(&p.google_account_label),
                p.google_calendar_id.as_str(),
            );
            let icloud = calendar_detail_label(
                opt_as_str(&p.icloud_calendar_name),
                opt_as_str(&p.icloud_account_label),
                p.icloud_calendar_id.as_str(),
            );
            let g = compact_detail_value(google.as_str(), width);
            let i = compact_detail_value(icloud.as_str(), width);
            let state = if p.enabled {
                "enabled"
            } else {
                "disabled"
            };
            let mut head = joined3(p.id.as_str(), " / ", state);
            append_str(&mut head, " / ");
            append_str(&mut head, direction_label(p.direction));
            let v = vec![head, prefixed("Google: ", g.as_str()), prefixed("iCloud: ", i.as_str())];
            assert(v@.map_values(|s: String| s@) =~= guidance_pair_text(Some(*p), width));
            v
        },
        None => {
            let v = vec![owned("No pair selected."), owned("Use setup pair commands after discovery.")];
            assert(v@.map_values(|s: String| s@) =~= guidance_pair_text(None, width));
            v
        },
    }
}

pub fn setup_guidance_lines(
    next: Option<&AppSetupStep>,
    pair: Option<&AppPair>,
    setup: &AppSetupState,
    width: u16,
) -> (r: Vec<String>)
    ensures
        r@.map_values(|s: String| s@) == guidance_text(
            match next {
                Some(x) => Some(*x),
                None => None,
            },
            match pair {
                Some(p) => Some(*p),
                None => None,
            },
            *setup,
            width,
        ),
{
    let ghost nx = match next {
        Some(x) => Some(*x),
        None => None::<AppSetupStep>,
    };
    let ghost px = match pair {
        Some(p) => Some(*p),
        None => None::<AppPair>,
    };
    let mut v = match next {
        Some(step) => setup_step_lines("Next", step, width),
        None => vec![owned("Ready for repeated dry-runs."), owned("Run insync sync --report .insync/reports/dry-run.csv")],
    };
    let ghost head = v@.map_values(|s: String| s@);
    assert(head =~= match nx {
        Some(step) => setup_step_text("Next"@, step, width),
        None => seq!["Ready for repeated dry-runs."@, "Run insync sync --report .insync/reports/dry-run.csv"@],
    });
    v.push(owned(""));
    v.push(owned("Selected Pair"));
    let pair_lines = guidance_pair_lines(pair, width);
    let ghost with_heading = v@;
    let mut k: usize = 0;
    while k < pair_lines.len()
        invariant
            k <= pair_lines@.len(),
            v@ == with_heading + pair_lines@.take(k as int),
        decreases pair_lines@.len() - k,
    {
        v.push(pair_lines[k].clone());
        k = k + 1;
        assert(v@ =~= with_heading + pair_lines@.take(k as int));
    }
    assert(pair_lines@.take(pair_lines@.len() as int) =~= pair_lines@);
    let db = compact_string(setup.db_path.as_str(), 26);
    let poll = decimal_string(setup.poll_interval_seconds);
    let mut config = joined3("Config: db ", db.as_str(), " / secrets ");
    append_str(&mut config, setup.secret_store.as_str());
    append_str(&mut config, " / poll ");
    append_str(&mut config, poll.as_str());
    append_str(&mut config, "s");
    v.push(owned(""));
    v.push(config);
    assert(v@.map_values(|s: String| s@) =~= guidance_text(nx, px, *setup, width));
    v
}

// ---------------------------------------------------------------- activity
/// The activity list: status, unresolved conflicts, last and next run, the
/// recent error and the last message, each with its colour family.
pub open spec fn activity_text(m: AppModel) -> Seq<(Seq<char>, Tone)> {
    seq![
        ("Status: "@ + status_text(m.status), status_tone_of(m.status)),
        (
            "Unresolved conflicts: "@ + decimal(m.conflict_count as nat),
            if m.conflict_count == 0 {
                Tone::Success
            } else {
                Tone::Warning
            },
        ),
        ("Last run: "@ + last_run_text(m), last_run_tone_of(m)),
        (
            "Next run: "@ + match m.next_run_at {
                Some(s) => s@,
                None => "not scheduled"@,
            },
            if m.next_run_at is Some {
                Tone::Neutral
            } else {
                Tone::Muted
            },
        ),
        (
            "Recent error: "@ + or_dash(m.recent_error),
            if m.recent_error is Some {
                Tone::Danger
            } else {
                Tone::Muted
            },
        ),
        (
            "App message: "@ + or_dash(m.last_message),
            if m.last_message is Some {
                Tone::Neutral
            } else {
                Tone::Muted
            },
        ),
    ]
}

pub open spec fn tone_lines_view(v: Seq<(String, Tone)>) -> Seq<(Seq<char>, Tone)> {
    v.map_values(|x: (String, Tone)| (x.0@, x.1))
}

pub fn activity_lines(model: &AppModel) -> (r: Vec<(String, Tone)>)
    ensures
        tone_lines_view(r@) == activity_text(*model),
{
    let count = decimal_string(model.conflict_count as u64);
    let last = last_run_label(model);
    let next = match &model.next_run_at {
        Some(s) => s.as_str(),
        None => "not scheduled",
    };
    let v = vec![
        (prefixed("Status: ", status_label(model.status)), status_tone(model.status)),
        (
            prefixed("Unresolved conflicts: ", count.as_str()),
            if model.conflict_count == 0 {
                Tone::Success
            } else {
                Tone::Warning
            },
        ),
        (prefixed("Last run: ", last.as_str()), last_run_tone(model)),
        (
            prefixed("Next run: ", next),
            if model.next_run_at.is_some() {
                Tone::Neutral
            } else {
                Tone::Muted
            },
        ),
        (
            prefixed("Recent error: ", dash_or(&model.recent_error)),
            if model.recent_error.is_some() {
                Tone::Danger
            } else {
                Tone::Muted
            },
        ),
        (
            prefixed("App message: ", dash_or(&model.last_message)),
            if model.last_message.is_some() {
                Tone::Neutral
            } else {
                Tone::Muted
            },
        ),
    ];
    assert(tone_lines_view(v@) =~= activity_text(*model));
    v
}

} // verus!

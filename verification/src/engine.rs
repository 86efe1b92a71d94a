//! The sync engine's own logic: the summaries it reports, the planner
//! policies it derives from the configuration, and the per-name action
//! counts of a plan. The database, the providers and the file system are
//! driven by the shell around these functions.
use crate::config::{ResolvedCredentials, ServiceConfig, SyncPairConfig};
use crate::planner::{ConflictResolution, PlannedAction, PlannerConflictPolicies};
use crate::policy::ConflictPolicy;
use crate::providers::{error_text, ProviderError};
use crate::store::{SyncRun, SyncRunStatus};
use crate::text::{append_str, clone_opt, owned};
use vstd::prelude::*;

verus! {

// ---------------------------------------------------------------- types
#[derive(Debug, Clone, Copy, PartialEq, Eq, Structural)]
pub enum RunMode {
    DryRun,
    Apply,
}

#[derive(Debug, Clone, Copy, PartialEq, Eq, Structural)]
pub enum ReportMode {
    ActionsOnly,
    AllActions,
}

#[derive(Debug)]
pub enum EngineError {
    Db(String),
    Config(String),
    Provider(ProviderError),
    ReportWrite { path: String, message: String },
    LockAlreadyHeld(String),
    LockCreate { path: String, message: String },
    MissingApplyMetadata { action: String, canonical_uid: String, field: String },
}

/// The error's message, as the command line shows it.
pub open spec fn engine_error_text(e: EngineError) -> Seq<char> {
    match e {
        EngineError::Db(m) => "database error: "@ + m@,
        EngineError::Config(m) => "config error: "@ + m@,
        EngineError::Provider(p) => "provider error: "@ + error_text(p),
        EngineError::ReportWrite { path, message } => "failed to write report "@ + path@ + ": "@ + message@,
        EngineError::LockAlreadyHeld(path) => "sync lock is already held: "@ + path@,
        EngineError::LockCreate { path, message } => "failed to create sync lock "@ + path@ + ": "@ + message@,
        EngineError::MissingApplyMetadata { action, canonical_uid, field } => "cannot apply "@ + action@ + " for "@
            + canonical_uid@ + ": missing "@ + field@,
    }
}

fn then(head: String, tail: &str) -> (r: String)
    ensures
        r@ == head@ + tail@,
{
    let mut out = head;
    append_str(&mut out, tail);
    out
}

impl EngineError {
    /// The error's message (`engine_error_text`).
    pub fn message(&self) -> (r: String)
        ensures
            r@ == engine_error_text(*self),
    {
        match self {
            EngineError::Db(m) => then(owned("database error: "), m.as_str()),
            EngineError::Config(m) => then(owned("config error: "), m.as_str()),
            EngineError::Provider(p) => {
                let text = p.message();
                then(owned("provider error: "), text.as_str())
            },
            EngineError::ReportWrite { path, message } => {
                let out = then(owned("failed to write report "), path.as_str());
                then(then(out, ": "), message.as_str())
            },
            EngineError::LockAlreadyHeld(path) => then(owned("sync lock is already held: "), path.as_str()),
            EngineError::LockCreate { path, message } => {
                let out = then(owned("failed to create sync lock "), path.as_str());
                then(then(out, ": "), message.as_str())
            },
            EngineError::MissingApplyMetadata { action, canonical_uid, field } => {
                let out = then(then(owned("cannot apply "), action.as_str()), " for ");
                then(then(then(out, canonical_uid.as_str()), ": missing "), field.as_str())
            },
        }
    }
}

#[derive(Debug, Clone)]
pub struct SyncRunSummary {
    pub id: String,
    pub sync_pair_id: Option<String>,
    pub status: String,
    pub started_at: String,
    pub finished_at: Option<String>,
    pub error: Option<String>,
}

#[derive(Debug, Clone)]
pub struct DoctorSummary {
    pub db_path: String,
    pub configured_pair_count: usize,
    pub enabled_pair_count: usize,
    pub unresolved_conflict_count: i64,
    pub google_credentials_configured: bool,
    pub icloud_credentials_configured: bool,
    pub latest_run: Option<SyncRunSummary>,
}

#[derive(Debug, Clone)]
pub struct SyncSummary {
    pub db_path: String,
    pub configured_pair_count: usize,
    pub enabled_pair_count: usize,
    pub unresolved_conflict_count: i64,
    pub known_icloud_uid_collision_count: usize,
    pub google_credentials_configured: bool,
    pub icloud_credentials_configured: bool,
    pub mode: RunMode,
}

#[derive(Debug, Clone)]
pub struct ReportRow {
    pub pair_id: String,
    pub action: String,
    pub canonical_uid: String,
    pub reason: String,
    pub resolution: String,
    pub conflict_policy: String,
    pub title: String,
    pub google_present: String,
    pub icloud_present: String,
    pub google_title: String,
    pub icloud_title: String,
    pub google_start: String,
    pub icloud_start: String,
    pub google_end: String,
    pub icloud_end: String,
    pub google_status: String,
    pub icloud_status: String,
    pub google_hash: String,
    pub icloud_hash: String,
    pub diff_fields: String,
}

/// Counts per name, in the names' byte order, names with no count left out.
#[derive(Debug, Clone)]
pub struct PairPlanSummary {
    pub pair_id: String,
    pub google_events: usize,
    pub icloud_events: usize,
    pub actions: usize,
    pub action_counts: Vec<(String, usize)>,
    pub resolution_counts: Vec<(String, usize)>,
}

#[derive(Debug, Clone)]
pub struct PlannedSyncSummary {
    pub db_path: String,
    pub configured_pair_count: usize,
    pub enabled_pair_count: usize,
    pub pair_summaries: Vec<PairPlanSummary>,
    pub action_counts: Vec<(String, usize)>,
    pub resolution_counts: Vec<(String, usize)>,
    pub report_rows: Vec<ReportRow>,
    pub mode: RunMode,
}

// ---------------------------------------------------------------- pairs
pub open spec fn enabled_pairs_in(pairs: Seq<SyncPairConfig>) -> nat
    decreases pairs.len(),
{
    if pairs.len() == 0 {
        0
    } else {
        enabled_pairs_in(pairs.drop_last()) + if pairs.last().enabled {
            1nat
        } else {
            0nat
        }
    }
}

/// How many configured pairs are enabled.
pub fn enabled_pair_count(config: &ServiceConfig) -> (r: usize)
    ensures
        r == enabled_pairs_in(config.sync.pairs@),
{
    let mut n: usize = 0;
    let mut i: usize = 0;
    while i < config.sync.pairs.len()
        invariant
            i <= config.sync.pairs@.len(),
            n == enabled_pairs_in(config.sync.pairs@.take(i as int)),
            n <= i,
        decreases config.sync.pairs@.len() - i,
    {
        proof {
            assert(config.sync.pairs@.take(i + 1).drop_last() =~= config.sync.pairs@.take(i as int));
        }
        if config.sync.pairs[i].enabled {
            n = n + 1;
        }
        i = i + 1;
    }
    assert(config.sync.pairs@.take(config.sync.pairs@.len() as int) =~= config.sync.pairs@);
    n
}

/// A stored run as the engine reports it.
pub fn sync_run_summary(run: SyncRun) -> (r: SyncRunSummary)
    ensures
        r.id == run.id,
        r.sync_pair_id == run.sync_pair_id,
        r.status@ == run.status.spec_text(),
        r.started_at == run.started_at,
        r.finished_at == run.finished_at,
        r.error == run.error,
{
    SyncRunSummary {
        id: run.id,
        sync_pair_id: run.sync_pair_id,
        status: owned(run.status.as_str()),
        started_at: run.started_at,
        finished_at: run.finished_at,
        error: run.error,
    }
}

// ---------------------------------------------------------------- policies
/// A pair-level policy left at manual falls back to the configured default.
pub open spec fn spec_non_default_policy(value: ConflictPolicy, default_policy: ConflictPolicy) -> ConflictPolicy {
    if value == ConflictPolicy::Manual {
        default_policy
    } else {
        value
    }
}

pub fn non_default_policy(value: ConflictPolicy, default_policy: ConflictPolicy) -> (r: ConflictPolicy)
    ensures
        r == spec_non_default_policy(value, default_policy),
{
    if value == ConflictPolicy::Manual {
        default_policy
    } else {
        value
    }
}

/// The planner policies of a configuration.
pub fn planner_conflict_policies(config: &ServiceConfig) -> (r: PlannerConflictPolicies)
    ensures
        r.both_sides_changed == spec_non_default_policy(
            config.sync.conflicts.both_sides_changed,
            config.sync.conflicts.default,
        ),
        r.unlinked_same_uid == spec_non_default_policy(
            config.sync.conflicts.unlinked_same_uid,
            config.sync.conflicts.default,
        ),
        r.delete_vs_update == config.sync.conflicts.delete_vs_update,
        r.icloud_uid_collision == config.sync.conflicts.icloud_uid_collision,
{
    let default_policy = config.sync.conflicts.default;
    PlannerConflictPolicies {
        both_sides_changed: non_default_policy(config.sync.conflicts.both_sides_changed, default_policy),
        unlinked_same_uid: non_default_policy(config.sync.conflicts.unlinked_same_uid, default_policy),
        delete_vs_update: config.sync.conflicts.delete_vs_update,
        icloud_uid_collision: config.sync.conflicts.icloud_uid_collision,
    }
}

// ---------------------------------------------------------------- credentials and summaries
/// Google is usable with a client id, client secret and refresh token;
/// iCloud with a username and app-specific password.
pub fn credentials_configured(creds: &ResolvedCredentials) -> (r: (bool, bool))
    ensures
        r.0 == (creds.google.client_id is Some && creds.google.client_secret is Some
            && creds.google.refresh_token is Some),
        r.1 == (creds.icloud.username is Some && creds.icloud.app_specific_password is Some),
{
    (
        creds.google.client_id.is_some() && creds.google.client_secret.is_some()
            && creds.google.refresh_token.is_some(),
        creds.icloud.username.is_some() && creds.icloud.app_specific_password.is_some(),
    )
}

pub open spec fn sum_i64(v: Seq<i64>) -> int
    decreases v.len(),
{
    if v.len() == 0 {
        0
    } else {
        sum_i64(v.drop_last()) + v.last()
    }
}

/// Every running total of the values stays within `i64`.
pub open spec fn sums_fit(v: Seq<i64>) -> bool {
    forall|k: int| 0 <= k <= v.len() ==> i64::MIN <= #[trigger] sum_i64(v.take(k)) <= i64::MAX
}

/// Whether the running totals of the counts stay within `i64`
/// (`sums_fit`), as the conflict total needs.
pub fn conflict_counts_fit(counts: &[i64]) -> (r: bool)
    ensures
        r == sums_fit(counts@),
{
    let mut total: i64 = 0;
    let mut i: usize = 0;
    assert(counts@.take(0) =~= Seq::<i64>::empty());
    while i < counts.len()
        invariant
            i <= counts@.len(),
            total == sum_i64(counts@.take(i as int)),
            forall|k: int| 0 <= k <= i ==> i64::MIN <= #[trigger] sum_i64(counts@.take(k)) <= i64::MAX,
        decreases counts@.len() - i,
    {
        proof {
            assert(counts@.take(i + 1).drop_last() =~= counts@.take(i as int));
        }
        match total.checked_add(counts[i]) {
            Some(t) => {
                total = t;
            },
            None => {
                assert(!(i64::MIN <= sum_i64(counts@.take(i + 1)) <= i64::MAX));
                return false;
            },
        }
        i = i + 1;
    }
    assert(counts@.take(counts@.len() as int) =~= counts@);
    true
}

/// The total of the unresolved-conflict group counts.
pub fn total_conflicts(counts: &[i64]) -> (r: i64)
    requires
        sums_fit(counts@),
    ensures
        r == sum_i64(counts@),
{
    let mut total: i64 = 0;
    let mut i: usize = 0;
    while i < counts.len()
        invariant
            i <= counts@.len(),
            sums_fit(counts@),
            total == sum_i64(counts@.take(i as int)),
        decreases counts@.len() - i,
    {
        proof {
            assert(counts@.take(i + 1).drop_last() =~= counts@.take(i as int));
            assert(i64::MIN <= sum_i64(counts@.take(i + 1)) <= i64::MAX);
        }
        total = total + counts[i];
        i = i + 1;
    }
    assert(counts@.take(counts@.len() as int) =~= counts@);
    total
}

/// The doctor report from what was read from the store and the secrets.
pub fn doctor_summary(
    db_path: String,
    config: &ServiceConfig,
    conflict_counts: &[i64],
    creds: &ResolvedCredentials,
    latest: Option<SyncRun>,
) -> (r: DoctorSummary)
    requires
        sums_fit(conflict_counts@),
    ensures
        r.db_path == db_path,
        r.configured_pair_count == config.sync.pairs@.len(),
        r.enabled_pair_count == enabled_pairs_in(config.sync.pairs@),
        r.unresolved_conflict_count == sum_i64(conflict_counts@),
        r.google_credentials_configured == (creds.google.client_id is Some
            && creds.google.client_secret is Some && creds.google.refresh_token is Some),
        r.icloud_credentials_configured == (creds.icloud.username is Some
            && creds.icloud.app_specific_password is Some),
        r.latest_run is Some == latest is Some,
        latest matches Some(run) ==> r.latest_run matches Some(s) && s.id == run.id && s.status@
            == run.status.spec_text() && s.started_at == run.started_at && s.finished_at
            == run.finished_at && s.error == run.error && s.sync_pair_id == run.sync_pair_id,
{
    let (google, icloud) = credentials_configured(creds);
    DoctorSummary {
        db_path,
        configured_pair_count: config.sync.pairs.len(),
        enabled_pair_count: enabled_pair_count(config),
        unresolved_conflict_count: total_conflicts(conflict_counts),
        google_credentials_configured: google,
        icloud_credentials_configured: icloud,
        latest_run: match latest {
            Some(run) => Some(sync_run_summary(run)),
            None => None,
        },
    }
}

pub open spec fn sum_usize(v: Seq<usize>) -> int
    decreases v.len(),
{
    if v.len() == 0 {
        0
    } else {
        sum_usize(v.drop_last()) + v.last()
    }
}

/// The summary of a scheduled run, from what was read for it.
pub fn sync_summary(
    db_path: String,
    config: &ServiceConfig,
    conflict_counts: &[i64],
    collision_counts: &[usize],
    creds: &ResolvedCredentials,
    mode: RunMode,
) -> (r: SyncSummary)
    requires
        sums_fit(conflict_counts@),
        sum_usize(collision_counts@) <= usize::MAX,
    ensures
        r.db_path == db_path,
        r.configured_pair_count == config.sync.pairs@.len(),
        r.enabled_pair_count == enabled_pairs_in(config.sync.pairs@),
        r.unresolved_conflict_count == sum_i64(conflict_counts@),
        r.known_icloud_uid_collision_count == sum_usize(collision_counts@),
        r.google_credentials_configured == (creds.google.client_id is Some
            && creds.google.client_secret is Some && creds.google.refresh_token is Some),
        r.icloud_credentials_configured == (creds.icloud.username is Some
            && creds.icloud.app_specific_password is Some),
        r.mode == mode,
{
    let mut collisions: usize = 0;
    let mut i: usize = 0;
    while i < collision_counts.len()
        invariant
            i <= collision_counts@.len(),
            sum_usize(collision_counts@) <= usize::MAX,
            collisions == sum_usize(collision_counts@.take(i as int)),
        decreases collision_counts@.len() - i,
    {
        proof {
            assert(collision_counts@.take(i + 1).drop_last() =~= collision_counts@.take(i as int));
            lemma_sum_usize_prefix(collision_counts@, i + 1);
        }
        collisions = collisions + collision_counts[i];
        i = i + 1;
    }
    assert(collision_counts@.take(collision_counts@.len() as int) =~= collision_counts@);
    let (google, icloud) = credentials_configured(creds);
    SyncSummary {
        db_path,
        configured_pair_count: config.sync.pairs.len(),
        enabled_pair_count: enabled_pair_count(config),
        unresolved_conflict_count: total_conflicts(conflict_counts),
        known_icloud_uid_collision_count: collisions,
        google_credentials_configured: google,
        icloud_credentials_configured: icloud,
        mode,
    }
}

proof fn lemma_sum_usize_prefix(v: Seq<usize>, k: int)
    requires
        0 <= k <= v.len(),
    ensures
        sum_usize(v.take(k)) <= sum_usize(v),
        0 <= sum_usize(v.take(k)),
    decreases v.len(),
{
    if v.len() > 0 {
        if k == v.len() {
            assert(v.take(k) =~= v);
            lemma_sum_usize_prefix(v.drop_last(), k - 1);
        } else {
            assert(v.drop_last().take(k) =~= v.take(k));
            lemma_sum_usize_prefix(v.drop_last(), k);
        }
    } else {
        assert(v.take(k) =~= v);
    }
}

// ---------------------------------------------------------------- action names and counts
pub open spec fn action_name_text(a: PlannedAction) -> Seq<char> {
    match a {
        PlannedAction::Snapshot { .. } => "snapshot"@,
        PlannedAction::Noop { .. } => "noop"@,
        PlannedAction::CreateGoogle(_) => "create_google"@,
        PlannedAction::CreateIcloud(_) => "create_icloud"@,
        PlannedAction::UpdateGoogle(_) => "update_google"@,
        PlannedAction::UpdateIcloud(_) => "update_icloud"@,
        PlannedAction::DeleteGoogle(_) => "delete_google"@,
        PlannedAction::DeleteIcloud(_) => "delete_icloud"@,
        PlannedAction::Conflict { .. } => "conflict"@,
    }
}

/// The action's kind as the engine names it in counts and reports.
pub fn action_name(a: &PlannedAction) -> (r: &'static str)
    ensures
        r@ == action_name_text(*a),
{
    match a {
        PlannedAction::Snapshot { .. } => "snapshot",
        PlannedAction::Noop { .. } => "noop",
        PlannedAction::CreateGoogle(_) => "create_google",
        PlannedAction::CreateIcloud(_) => "create_icloud",
        PlannedAction::UpdateGoogle(_) => "update_google",
        PlannedAction::UpdateIcloud(_) => "update_icloud",
        PlannedAction::DeleteGoogle(_) => "delete_google",
        PlannedAction::DeleteIcloud(_) => "delete_icloud",
        PlannedAction::Conflict { .. } => "conflict",
    }
}

pub open spec fn action_resolution_text(a: PlannedAction) -> Option<Seq<char>> {
    match a {
        PlannedAction::CreateGoogle(m) | PlannedAction::CreateIcloud(m) | PlannedAction::UpdateGoogle(m)
        | PlannedAction::UpdateIcloud(m) | PlannedAction::DeleteGoogle(m) | PlannedAction::DeleteIcloud(
            m,
        ) => if m.resolution is Some {
            Some("auto_resolved"@)
        } else {
            None
        },
        PlannedAction::Conflict { resolution, .. } => Some(
            match resolution {
                ConflictResolution::Manual => "conflict_manual"@,
                ConflictResolution::Ignored => "conflict_ignored"@,
            },
        ),
        _ => None,
    }
}

/// How the action was resolved, for the resolution counts.
pub fn action_resolution_name(a: &PlannedAction) -> (r: Option<&'static str>)
    ensures
        match r {
            Some(s) => action_resolution_text(*a) == Some(s@),
            None => action_resolution_text(*a) is None,
        },
{
    match a {
        PlannedAction::CreateGoogle(m) | PlannedAction::CreateIcloud(m) | PlannedAction::UpdateGoogle(m)
        | PlannedAction::UpdateIcloud(m) | PlannedAction::DeleteGoogle(m) | PlannedAction::DeleteIcloud(
            m,
        ) => if m.resolution.is_some() {
            Some("auto_resolved")
        } else {
            None
        },
        PlannedAction::Conflict { resolution, .. } => Some(
            match resolution {
                ConflictResolution::Manual => "conflict_manual",
                ConflictResolution::Ignored => "conflict_ignored",
            },
        ),
        _ => None,
    }
}

/// The action names in byte order.
pub open spec fn action_names() -> Seq<Seq<char>> {
    seq![
        "conflict"@,
        "create_google"@,
        "create_icloud"@,
        "delete_google"@,
        "delete_icloud"@,
        "noop"@,
        "snapshot"@,
        "update_google"@,
        "update_icloud"@,
    ]
}

/// The resolution names in byte order.
pub open spec fn resolution_names() -> Seq<Seq<char>> {
    seq!["auto_resolved"@, "conflict_ignored"@, "conflict_manual"@]
}

/// How many of the texts are `name`.
pub open spec fn occurrences(texts: Seq<Seq<char>>, name: Seq<char>) -> nat
    decreases texts.len(),
{
    if texts.len() == 0 {
        0
    } else {
        occurrences(texts.drop_last(), name) + if texts.last() == name {
            1nat
        } else {
            0nat
        }
    }
}

pub open spec fn action_texts(actions: Seq<PlannedAction>) -> Seq<Seq<char>> {
    actions.map_values(|a: PlannedAction| action_name_text(a))
}

/// The resolution names of the actions that have one, in order.
pub open spec fn resolution_texts(actions: Seq<PlannedAction>) -> Seq<Seq<char>>
    decreases actions.len(),
{
    if actions.len() == 0 {
        Seq::empty()
    } else {
        match action_resolution_text(actions.last()) {
            Some(t) => resolution_texts(actions.drop_last()).push(t),
            None => resolution_texts(actions.drop_last()),
        }
    }
}

/// One count per name of `names`, in the same order.
pub open spec fn tally_of(names: Seq<Seq<char>>, texts: Seq<Seq<char>>) -> Seq<nat> {
    names.map_values(|n: Seq<char>| occurrences(texts, n))
}

pub open spec fn tally_view(t: Seq<usize>) -> Seq<nat> {
    t.map_values(|c: usize| c as nat)
}

/// The entries of a tally that have a count, paired with their names.
pub open spec fn entries_of(names: Seq<Seq<char>>, counts: Seq<nat>) -> Seq<(Seq<char>, nat)>
    decreases names.len(),
{
    if names.len() == 0 || counts.len() == 0 {
        Seq::empty()
    } else if counts.last() > 0 {
        entries_of(names.drop_last(), counts.drop_last()).push((names.last(), counts.last()))
    } else {
        entries_of(names.drop_last(), counts.drop_last())
    }
}

pub open spec fn entry_views(v: Seq<(String, usize)>) -> Seq<(Seq<char>, nat)> {
    v.map_values(|e: (String, usize)| (e.0@, e.1 as nat))
}

fn name_index(text: &str, names: &Vec<&str>) -> (r: usize)
    ensures
        r <= names@.len(),
        r < names@.len() ==> names@[r as int]@ == text@,
        r == names@.len() ==> forall|k: int| 0 <= k < names@.len() ==> names@[k]@ != text@,
        r < names@.len() ==> forall|k: int| 0 <= k < r ==> names@[k]@ != text@,
{
    let mut i: usize = 0;
    while i < names.len()
        invariant
            i <= names@.len(),
            forall|k: int| 0 <= k < i ==> names@[k]@ != text@,
        decreases names@.len() - i,
    {
        if crate::text::str_eq(names[i], text) {
            return i;
        }
        i = i + 1;
    }
    i
}

fn action_name_list() -> (r: Vec<&'static str>)
    ensures
        r@.map_values(|s: &str| s@) == action_names(),
        forall|i: int, j: int| 0 <= i < j < r@.len() ==> r@[i]@ != r@[j]@,
{
    let v = vec![
        "conflict",
        "create_google",
        "create_icloud",
        "delete_google",
        "delete_icloud",
        "noop",
        "snapshot",
        "update_google",
        "update_icloud",
    ];
    proof {
        reveal_strlit("conflict");
        reveal_strlit("create_google");
        reveal_strlit("create_icloud");
        reveal_strlit("delete_google");
        reveal_strlit("delete_icloud");
        reveal_strlit("noop");
        reveal_strlit("snapshot");
        reveal_strlit("update_google");
        reveal_strlit("update_icloud");
    }
    assert(v@.map_values(|s: &str| s@) =~= action_names());
    assert forall|i: int, j: int| 0 <= i < j < v@.len() implies v@[i]@ != v@[j]@ by {
        if v@[i]@ == v@[j]@ {
            assert(v@[i]@.len() == v@[j]@.len());
            assert(v@[i]@[0] == v@[j]@[0]);
            assert(v@[i]@[v@[i]@.len() - 1] == v@[j]@[v@[j]@.len() - 1]);
            assert(v@[i]@[7] == v@[j]@[7]);
        }
    }
    v
}

fn resolution_name_list() -> (r: Vec<&'static str>)
    ensures
        r@.map_values(|s: &str| s@) == resolution_names(),
        forall|i: int, j: int| 0 <= i < j < r@.len() ==> r@[i]@ != r@[j]@,
{
    let v = vec!["auto_resolved", "conflict_ignored", "conflict_manual"];
    proof {
        reveal_strlit("auto_resolved");
        reveal_strlit("conflict_ignored");
        reveal_strlit("conflict_manual");
    }
    assert(v@.map_values(|s: &str| s@) =~= resolution_names());
    assert forall|i: int, j: int| 0 <= i < j < v@.len() implies v@[i]@ != v@[j]@ by {
        if v@[i]@ == v@[j]@ {
            assert(v@[i]@[0] == v@[j]@[0]);
            assert(v@[i]@[9] == v@[j]@[9]);
        }
    }
    v
}

proof fn lemma_occurrences_bound(texts: Seq<Seq<char>>, name: Seq<char>)
    ensures
        occurrences(texts, name) <= texts.len(),
    decreases texts.len(),
{
    if texts.len() > 0 {
        lemma_occurrences_bound(texts.drop_last(), name);
    }
}

/// Counts the texts per name; every text is one of the names.
fn tally(texts: &Vec<&str>, names: &Vec<&str>) -> (r: Vec<usize>)
    requires
        forall|i: int, j: int| 0 <= i < j < names@.len() ==> names@[i]@ != names@[j]@,
        forall|i: int| 0 <= i < texts@.len() ==> names@.map_values(|s: &str| s@).contains(#[trigger] texts@[i]@),
    ensures
        tally_view(r@) == tally_of(names@.map_values(|s: &str| s@), texts@.map_values(|s: &str| s@)),
{
    let ghost nv = names@.map_values(|s: &str| s@);
    let mut counts: Vec<usize> = Vec::new();
    let mut k: usize = 0;
    while k < names.len()
        invariant
            k <= names@.len(),
            counts@.len() == k,
            forall|j: int| 0 <= j < k ==> counts@[j] == 0,
        decreases names@.len() - k,
    {
        counts.push(0);
        k = k + 1;
    }
    let mut i: usize = 0;
    while i < texts.len()
        invariant
            i <= texts@.len(),
            nv == names@.map_values(|s: &str| s@),
            counts@.len() == names@.len(),
            forall|a: int, b: int| 0 <= a < b < names@.len() ==> names@[a]@ != names@[b]@,
            forall|q: int| 0 <= q < texts@.len() ==> nv.contains(#[trigger] texts@[q]@),
            forall|j: int| 0 <= j < names@.len() ==> #[trigger] counts@[j] == occurrences(
                texts@.take(i as int).map_values(|s: &str| s@),
                nv[j],
            ),
        decreases texts@.len() - i,
    {
        let ghost before = texts@.take(i as int).map_values(|s: &str| s@);
        let ghost after = texts@.take(i + 1).map_values(|s: &str| s@);
        proof {
            assert(after.drop_last() =~= before);
            assert(after.last() == texts@[i as int]@);
        }
        let idx = name_index(texts[i], names);
        proof {
            assert(nv.contains(texts@[i as int]@));
            if idx == names@.len() {
                let w = choose|w: int| 0 <= w < nv.len() && nv[w] == texts@[i as int]@;
                assert(names@[w]@ == nv[w]);
            }
            lemma_occurrences_bound(before, nv[idx as int]);
            assert(before.len() == i);
        }
        let ghost old_counts = counts@;
        let c = counts[idx] + 1;
        counts.set(idx, c);
        proof {
            assert forall|j: int| 0 <= j < names@.len() implies #[trigger] counts@[j] == occurrences(after, nv[j]) by {
                assert(nv[j] == names@[j]@);
                assert(old_counts[j] == occurrences(before, nv[j]));
                assert(counts@ == old_counts.update(idx as int, c));
                assert(nv[idx as int] == names@[idx as int]@);
                assert(after.last() == nv[idx as int]);
                if j != idx {
                    if j < idx {
                        assert(names@[j]@ != texts@[i as int]@);
                    } else {
                        assert(names@[idx as int]@ != names@[j]@);
                    }
                }
                if j == idx {
                } else {
                    if nv[j] == texts@[i as int]@ {
                        assert(nv[idx as int] == texts@[i as int]@);
                    }
                }
            }
        }
        i = i + 1;
    }
    assert(texts@.take(texts@.len() as int) =~= texts@);
    assert(tally_view(counts@) =~= tally_of(nv, texts@.map_values(|s: &str| s@)));
    counts
}

/// The name of each action.
fn action_name_texts(actions: &[PlannedAction]) -> (r: Vec<&'static str>)
    ensures
        r@.map_values(|s: &str| s@) == action_texts(actions@),
{
    let mut out: Vec<&'static str> = Vec::new();
    let mut i: usize = 0;
    while i < actions.len()
        invariant
            i <= actions@.len(),
            out@.map_values(|s: &str| s@) == action_texts(actions@.take(i as int)),
        decreases actions@.len() - i,
    {
        let ghost before = out@;
        let n = action_name(&actions[i]);
        out.push(n);
        proof {
            assert(actions@.take(i + 1) =~= actions@.take(i as int).push(actions@[i as int]));
            assert(action_texts(actions@.take(i + 1)) =~= action_texts(actions@.take(i as int)).push(
                action_name_text(actions@[i as int]),
            ));
            assert(out@ == before.push(n));
            assert(out@.map_values(|s: &str| s@) =~= before.map_values(|s: &str| s@).push(n@));
        }
        i = i + 1;
    }
    assert(actions@.take(actions@.len() as int) =~= actions@);
    out
}

fn resolution_name_texts(actions: &[PlannedAction]) -> (r: Vec<&'static str>)
    ensures
        r@.map_values(|s: &str| s@) == resolution_texts(actions@),
{
    let mut out: Vec<&'static str> = Vec::new();
    let mut i: usize = 0;
    while i < actions.len()
        invariant
            i <= actions@.len(),
            out@.map_values(|s: &str| s@) == resolution_texts(actions@.take(i as int)),
        decreases actions@.len() - i,
    {
        proof {
            assert(actions@.take(i + 1).drop_last() =~= actions@.take(i as int));
        }
        let ghost before = out@;
        match action_resolution_name(&actions[i]) {
            Some(n) => {
                out.push(n);
                assert(out@.map_values(|s: &str| s@) =~= before.map_values(|s: &str| s@).push(n@));
            },
            None => {},
        }
        i = i + 1;
    }
    assert(actions@.take(actions@.len() as int) =~= actions@);
    out
}

proof fn lemma_action_texts_named(actions: Seq<PlannedAction>)
    ensures
        forall|i: int| 0 <= i < action_texts(actions).len() ==> action_names().contains(
            #[trigger] action_texts(actions)[i],
        ),
{
    assert forall|i: int| 0 <= i < action_texts(actions).len() implies action_names().contains(
        #[trigger] action_texts(actions)[i],
    ) by {
        let a = actions[i];
        match a {
            PlannedAction::Snapshot { .. } => assert(action_names()[6] == action_texts(actions)[i]),
            PlannedAction::Noop { .. } => assert(action_names()[5] == action_texts(actions)[i]),
            PlannedAction::CreateGoogle(_) => assert(action_names()[1] == action_texts(actions)[i]),
            PlannedAction::CreateIcloud(_) => assert(action_names()[2] == action_texts(actions)[i]),
            PlannedAction::UpdateGoogle(_) => assert(action_names()[7] == action_texts(actions)[i]),
            PlannedAction::UpdateIcloud(_) => assert(action_names()[8] == action_texts(actions)[i]),
            PlannedAction::DeleteGoogle(_) => assert(action_names()[3] == action_texts(actions)[i]),
            PlannedAction::DeleteIcloud(_) => assert(action_names()[4] == action_texts(actions)[i]),
            PlannedAction::Conflict { .. } => assert(action_names()[0] == action_texts(actions)[i]),
        }
    }
}

proof fn lemma_resolution_texts_named(actions: Seq<PlannedAction>)
    ensures
        forall|i: int| 0 <= i < resolution_texts(actions).len() ==> resolution_names().contains(
            #[trigger] resolution_texts(actions)[i],
        ),
    decreases actions.len(),
{
    if actions.len() > 0 {
        lemma_resolution_texts_named(actions.drop_last());
        match action_resolution_text(actions.last()) {
            Some(t) => {
                let r = resolution_texts(actions);
                assert(r == resolution_texts(actions.drop_last()).push(t));
                if t == "auto_resolved"@ {
                    assert(resolution_names()[0] == t);
                } else if t == "conflict_manual"@ {
                    assert(resolution_names()[2] == t);
                } else {
                    assert(resolution_names()[1] == t);
                }
                assert forall|i: int| 0 <= i < r.len() implies resolution_names().contains(#[trigger] r[i]) by {
                    if i < r.len() - 1 {
                        assert(r[i] == resolution_texts(actions.drop_last())[i]);
                    }
                }
            },
            None => {},
        }
    }
}

/// Counts the actions per kind, in the order of `action_names`.
pub fn count_actions(actions: &[PlannedAction]) -> (r: Vec<usize>)
    ensures
        tally_view(r@) == tally_of(action_names(), action_texts(actions@)),
{
    let names = action_name_list();
    let texts = action_name_texts(actions);
    proof {
        lemma_action_texts_named(actions@);
        assert forall|i: int| 0 <= i < texts@.len() implies names@.map_values(|s: &str| s@).contains(
            #[trigger] texts@[i]@,
        ) by {
            assert(texts@[i]@ == texts@.map_values(|s: &str| s@)[i]);
        }
    }
    tally(&texts, &names)
}

/// Counts the resolved actions per resolution, in the order of
/// `resolution_names`.
pub fn count_resolutions(actions: &[PlannedAction]) -> (r: Vec<usize>)
    ensures
        tally_view(r@) == tally_of(resolution_names(), resolution_texts(actions@)),
{
    let names = resolution_name_list();
    let texts = resolution_name_texts(actions);
    proof {
        lemma_resolution_texts_named(actions@);
        assert forall|i: int| 0 <= i < texts@.len() implies names@.map_values(|s: &str| s@).contains(
            #[trigger] texts@[i]@,
        ) by {
            assert(texts@[i]@ == texts@.map_values(|s: &str| s@)[i]);
        }
    }
    tally(&texts, &names)
}

/// Adds the counts of `source` into `target`, name by name.
pub fn merge_counts(target: &mut Vec<usize>, source: &Vec<usize>)
    requires
        old(target)@.len() == source@.len(),
        forall|i: int| 0 <= i < source@.len() ==> old(target)@[i] + source@[i] <= usize::MAX,
    ensures
        final(target)@.len() == source@.len(),
        forall|i: int| 0 <= i < source@.len() ==> #[trigger] final(target)@[i] == old(target)@[i] + source@[i],
{
    let mut i: usize = 0;
    while i < source.len()
        invariant
            i <= source@.len(),
            target@.len() == source@.len(),
            forall|j: int| 0 <= j < source@.len() ==> old(target)@[j] + source@[j] <= usize::MAX,
            forall|j: int| 0 <= j < i ==> #[trigger] target@[j] == old(target)@[j] + source@[j],
            forall|j: int| i <= j < source@.len() ==> #[trigger] target@[j] == old(target)@[j],
        decreases source@.len() - i,
    {
        let v = target[i] + source[i];
        target.set(i, v);
        i = i + 1;
    }
}

/// The named entries of a tally with a count, in name order: what walking
/// the counted names in byte order gives.
pub fn count_entries(names: &Vec<&str>, counts: &Vec<usize>) -> (r: Vec<(String, usize)>)
    requires
        names@.len() == counts@.len(),
    ensures
        entry_views(r@) == entries_of(names@.map_values(|s: &str| s@), tally_view(counts@)),
{
    let mut out: Vec<(String, usize)> = Vec::new();
    let mut i: usize = 0;
    while i < names.len()
        invariant
            i <= names@.len(),
            names@.len() == counts@.len(),
            entry_views(out@) == entries_of(
                names@.take(i as int).map_values(|s: &str| s@),
                tally_view(counts@.take(i as int)),
            ),
        decreases names@.len() - i,
    {
        proof {
            assert(names@.take(i + 1).map_values(|s: &str| s@).drop_last() =~= names@.take(i as int).map_values(
                |s: &str| s@,
            ));
            assert(tally_view(counts@.take(i + 1)).drop_last() =~= tally_view(counts@.take(i as int)));
        }
        if counts[i] > 0 {
            let ghost before = out@;
            out.push((owned(names[i]), counts[i]));
            assert(entry_views(out@) =~= entry_views(before).push((names@[i as int]@, counts@[i as int] as nat)));
        }
        i = i + 1;
    }
    assert(names@.take(names@.len() as int) =~= names@);
    assert(counts@.take(counts@.len() as int) =~= counts@);
    out
}

/// The per-name action counts of a plan, in the names' byte order.
pub fn action_count_entries(counts: &Vec<usize>) -> (r: Vec<(String, usize)>)
    requires
        counts@.len() == action_names().len(),
    ensures
        entry_views(r@) == entries_of(action_names(), tally_view(counts@)),
{
    let names = action_name_list();
    count_entries(&names, counts)
}

pub fn resolution_count_entries(counts: &Vec<usize>) -> (r: Vec<(String, usize)>)
    requires
        counts@.len() == resolution_names().len(),
    ensures
        entry_views(r@) == entries_of(resolution_names(), tally_view(counts@)),
{
    let names = resolution_name_list();
    count_entries(&names, counts)
}

/// Snapshots stay out of the report unless every action is asked for.
pub fn should_include_report_action(action: &PlannedAction, mode: ReportMode) -> (r: bool)
    ensures
        r == (mode == ReportMode::AllActions || !(*action is Snapshot)),
{
    match mode {
        ReportMode::ActionsOnly => !(matches!(action, PlannedAction::Snapshot { .. })),
        ReportMode::AllActions => true,
    }
}

// ---------------------------------------------------------------- the engine
/// `Path::is_absolute`; which paths are absolute depends on the platform, so
/// nothing is promised of the answer.
#[verifier::external_body]
fn path_is_absolute(path: &str) -> (r: bool) {
    std::path::Path::new(path).is_absolute()
}

/// `Path::parent`, as text; platform-dependent, so nothing is promised.
#[verifier::external_body]
fn path_parent(path: &str) -> (r: Option<String>) {
    std::path::Path::new(path).parent().map(|p| p.to_string_lossy().into_owned())
}

/// `Path::join`, as text; platform-dependent, so nothing is promised.
#[verifier::external_body]
fn path_join(base: &str, path: &str) -> (r: String) {
    std::path::Path::new(base).join(path).to_string_lossy().into_owned()
}

/// The directory a store path is resolved under: none for an absolute path,
/// else the configuration file's directory when it is not empty.
pub fn store_dir(db_is_absolute: bool, config_dir: Option<String>) -> (r: Option<String>)
    ensures
        r == (if db_is_absolute {
            None
        } else {
            match config_dir {
                Some(d) => if d@.len() > 0 {
                    Some(d)
                } else {
                    None
                },
                None => None,
            }
        }),
{
    if db_is_absolute {
        return None;
    }
    match config_dir {
        Some(d) => if d.as_str().is_empty() {
            None
        } else {
            Some(d)
        },
        None => None,
    }
}

/// The store path of a configuration: an absolute path as written, a
/// relative one under the configuration file's directory. Without a
/// configuration file the path stays as written.
pub fn resolve_db_path(db_path: &str, config_path: Option<&str>) -> (r: String)
    ensures
        config_path is None ==> r@ == db_path@,
{
    let absolute = path_is_absolute(db_path);
    let dir = match config_path {
        Some(c) => path_parent(c),
        None => None,
    };
    match store_dir(absolute, dir) {
        Some(d) => path_join(d.as_str(), db_path),
        None => owned(db_path),
    }
}

/// The sync engine for one configuration, and the file it was read from.
#[derive(Debug, Clone)]
pub struct SyncEngine {
    config: ServiceConfig,
    config_path: Option<String>,
}

impl SyncEngine {
    pub closed spec fn spec_config(&self) -> ServiceConfig {
        self.config
    }

    pub closed spec fn spec_config_path(&self) -> Option<String> {
        self.config_path
    }

    pub fn new(config: ServiceConfig) -> (r: SyncEngine)
        ensures
            r.spec_config() == config,
            r.spec_config_path() is None,
    {
        SyncEngine { config, config_path: None }
    }

    pub fn with_config_path(config: ServiceConfig, config_path: &str) -> (r: SyncEngine)
        ensures
            r.spec_config() == config,
            r.spec_config_path() matches Some(p) && p@ == config_path@,
    {
        SyncEngine { config, config_path: Some(owned(config_path)) }
    }

    pub fn config(&self) -> (r: &ServiceConfig)
        ensures
            *r == self.spec_config(),
    {
        &self.config
    }

    pub fn config_path(&self) -> (r: Option<&str>)
        ensures
            match r {
                Some(p) => self.spec_config_path() matches Some(q) && p@ == q@,
                None => self.spec_config_path() is None,
            },
    {
        match &self.config_path {
            Some(p) => Some(p.as_str()),
            None => None,
        }
    }

    /// The store path, resolved against the configuration file.
    pub fn db_path(&self) -> (r: String)
        ensures
            self.spec_config_path() is None ==> r@ == self.spec_config().db_path@,
    {
        let cp = match &self.config_path {
            Some(p) => Some(p.as_str()),
            None => None,
        };
        resolve_db_path(self.config.db_path.as_str(), cp)
    }

    /// The doctor report from what was read from the store and the secrets.
    pub fn doctor(&self, conflict_counts: &[i64], creds: &ResolvedCredentials, latest: Option<SyncRun>) -> (r:
        DoctorSummary)
        requires
            sums_fit(conflict_counts@),
        ensures
            self.spec_config_path() is None ==> r.db_path@ == self.spec_config().db_path@,
            r.configured_pair_count == self.spec_config().sync.pairs@.len(),
            r.enabled_pair_count == enabled_pairs_in(self.spec_config().sync.pairs@),
            r.unresolved_conflict_count == sum_i64(conflict_counts@),
            r.google_credentials_configured == (creds.google.client_id is Some
                && creds.google.client_secret is Some && creds.google.refresh_token is Some),
            r.icloud_credentials_configured == (creds.icloud.username is Some
                && creds.icloud.app_specific_password is Some),
            r.latest_run is Some == latest is Some,
            latest matches Some(run) ==> r.latest_run matches Some(s) && s.id == run.id && s.status@
                == run.status.spec_text() && s.started_at == run.started_at && s.finished_at
                == run.finished_at && s.error == run.error && s.sync_pair_id == run.sync_pair_id,
    {
        let db = self.db_path();
        doctor_summary(db, &self.config, conflict_counts, creds, latest)
    }
}

} // verus!

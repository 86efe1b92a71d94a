//! Checking a configuration before any command uses it: the schema version
//! (older versions are brought up to the current one, newer ones refused),
//! the database path, log level, account labels, the CalDAV URL, the poll
//! interval, and the calendar pairs (unique ids, calendar ids present).
use crate::config::{ServiceConfig, SyncPairConfig};
use crate::dashboard::is_blank;
use crate::event::ProviderName;
use crate::oauth::{parse_url, parsed_url};
use crate::text::{owned, str_eq, trim};
use vstd::prelude::*;

verus! {

/// The configuration schema version this build reads and writes.
pub const CURRENT_CONFIG_VERSION: u32 = 1;

/// Brings a configuration of an older (or missing, `0`) schema version up to
/// the current one; a newer version is kept, for the check to refuse.
pub fn normalize_version(config: &mut ServiceConfig)
    ensures
        final(config).version == (if old(config).version < CURRENT_CONFIG_VERSION {
            CURRENT_CONFIG_VERSION
        } else {
            old(config).version
        }),
        *final(config) == (ServiceConfig { version: final(config).version, ..*old(config) }),
{
    if config.version < CURRENT_CONFIG_VERSION {
        config.version = CURRENT_CONFIG_VERSION;
    }
}

/// Readies a configuration just read from disk: an older version is raised
/// to the current one, and a version newer than this build is refused.
pub fn accept_loaded_version(config: &mut ServiceConfig) -> (r: Result<(), ConfigProblem>)
    ensures
        match r {
            Ok(()) => old(config).version <= CURRENT_CONFIG_VERSION,
            Err(p) => old(config).version > CURRENT_CONFIG_VERSION && problem_view(p)
                == ProblemView::FutureVersion(old(config).version),
        },
        final(config).version == (if old(config).version < CURRENT_CONFIG_VERSION {
            CURRENT_CONFIG_VERSION
        } else {
            old(config).version
        }),
        *final(config) == (ServiceConfig { version: final(config).version, ..*old(config) }),
{
    normalize_version(config);
    if config.version > CURRENT_CONFIG_VERSION {
        Err(ConfigProblem::FutureVersion(config.version))
    } else {
        Ok(())
    }
}

/// What is wrong with a configuration.
#[derive(Debug, Clone)]
pub enum ConfigProblem {
    /// Written by a newer build.
    FutureVersion(u32),
    EmptyDbPath,
    EmptyLogLevel,
    EmptyAccountLabel(ProviderName),
    /// Not an `http` or `https` URL with a host.
    InvalidCaldavUrl(String),
    ZeroPollInterval,
    /// A second pair with an id already used.
    DuplicatePairId(String),
    /// A pair without the calendar id of one side.
    EmptyCalendarId { pair_id: String, provider: ProviderName },
}

pub enum ProblemView {
    FutureVersion(u32),
    EmptyDbPath,
    EmptyLogLevel,
    EmptyAccountLabel(ProviderName),
    InvalidCaldavUrl(Seq<char>),
    ZeroPollInterval,
    DuplicatePairId(Seq<char>),
    EmptyCalendarId { pair_id: Seq<char>, provider: ProviderName },
}

pub open spec fn problem_view(p: ConfigProblem) -> ProblemView {
    match p {
        ConfigProblem::FutureVersion(v) => ProblemView::FutureVersion(v),
        ConfigProblem::EmptyDbPath => ProblemView::EmptyDbPath,
        ConfigProblem::EmptyLogLevel => ProblemView::EmptyLogLevel,
        ConfigProblem::EmptyAccountLabel(p) => ProblemView::EmptyAccountLabel(p),
        ConfigProblem::InvalidCaldavUrl(u) => ProblemView::InvalidCaldavUrl(u@),
        ConfigProblem::ZeroPollInterval => ProblemView::ZeroPollInterval,
        ConfigProblem::DuplicatePairId(id) => ProblemView::DuplicatePairId(id@),
        ConfigProblem::EmptyCalendarId { pair_id, provider } => ProblemView::EmptyCalendarId {
            pair_id: pair_id@,
            provider,
        },
    }
}

pub open spec fn blank(s: Seq<char>) -> bool {
    trim(s).len() == 0
}

/// A CalDAV URL parses as `http` or `https` with a host.
pub open spec fn caldav_url_ok(url: Seq<char>) -> bool {
    match parsed_url(url) {
        Some((scheme, host, _, _)) => (scheme == "https"@ || scheme == "http"@) && host is Some,
        None => false,
    }
}

pub open spec fn id_used(pairs: Seq<SyncPairConfig>, id: Seq<char>) -> bool {
    exists|j: int| 0 <= j < pairs.len() && pairs[j].id@ == id
}

/// The problems of one pair, given the pairs before it: a repeated id, then
/// a blank Google calendar id, then a blank iCloud calendar id.
pub open spec fn pair_problems_after(earlier: Seq<SyncPairConfig>, p: SyncPairConfig) -> Seq<ProblemView> {
    (if id_used(earlier, p.id@) {
        seq![ProblemView::DuplicatePairId(p.id@)]
    } else {
        Seq::empty()
    }) + (if blank(p.google_calendar_id@) {
        seq![ProblemView::EmptyCalendarId { pair_id: p.id@, provider: ProviderName::Google }]
    } else {
        Seq::empty()
    }) + (if blank(p.icloud_calendar_id@) {
        seq![ProblemView::EmptyCalendarId { pair_id: p.id@, provider: ProviderName::Icloud }]
    } else {
        Seq::empty()
    })
}

/// Every pair problem, pair by pair in order.
pub open spec fn pair_problems(pairs: Seq<SyncPairConfig>) -> Seq<ProblemView>
    decreases pairs.len(),
{
    if pairs.len() == 0 {
        Seq::empty()
    } else {
        pair_problems(pairs.drop_last()) + pair_problems_after(pairs.drop_last(), pairs.last())
    }
}

pub open spec fn when(b: bool, p: ProblemView) -> Seq<ProblemView> {
    if b {
        seq![p]
    } else {
        Seq::empty()
    }
}

/// The problems of the settings outside the pairs, in the order they are
/// checked.
pub open spec fn field_problems(c: ServiceConfig) -> Seq<ProblemView> {
    when(c.version > CURRENT_CONFIG_VERSION, ProblemView::FutureVersion(c.version)) + when(
        blank(c.db_path@),
        ProblemView::EmptyDbPath,
    ) + when(blank(c.log_level@), ProblemView::EmptyLogLevel) + when(
        blank(c.google.account_label@),
        ProblemView::EmptyAccountLabel(ProviderName::Google),
    ) + when(blank(c.icloud.account_label@), ProblemView::EmptyAccountLabel(ProviderName::Icloud)) + when(
        !caldav_url_ok(c.icloud.caldav_url@),
        ProblemView::InvalidCaldavUrl(c.icloud.caldav_url@),
    ) + when(c.sync.poll_interval_seconds == 0, ProblemView::ZeroPollInterval)
}

/// Every problem of a configuration, in the order they are checked.
pub open spec fn config_problems(c: ServiceConfig) -> Seq<ProblemView> {
    field_problems(c) + pair_problems(c.sync.pairs@)
}

pub open spec fn problems_view(v: Seq<ConfigProblem>) -> Seq<ProblemView> {
    v.map_values(|p: ConfigProblem| problem_view(p))
}

fn push_problem(out: &mut Vec<ConfigProblem>, p: ConfigProblem)
    ensures
        problems_view(final(out)@) == problems_view(old(out)@).push(problem_view(p)),
{
    out.push(p);
    assert(problems_view(out@) =~= problems_view(old(out)@).push(problem_view(p)));
}

fn caldav_url_is_ok(url: &str) -> (r: bool)
    ensures
        r == caldav_url_ok(url@),
{
    match parse_url(url) {
        Some((scheme, host, _, _)) => (str_eq(scheme.as_str(), "https") || str_eq(scheme.as_str(), "http"))
            && host.is_some(),
        None => false,
    }
}

fn id_is_used(pairs: &Vec<SyncPairConfig>, upto: usize, id: &str) -> (r: bool)
    requires
        upto <= pairs@.len(),
    ensures
        r == id_used(pairs@.take(upto as int), id@),
{
    let mut j: usize = 0;
    while j < upto
        invariant
            upto <= pairs@.len(),
            j <= upto,
            forall|k: int| 0 <= k < j ==> #[trigger] pairs@[k].id@ != id@,
        decreases upto - j,
    {
        if str_eq(pairs[j].id.as_str(), id) {
            assert(pairs@.take(upto as int)[j as int].id@ == id@);
            return true;
        }
        j = j + 1;
    }
    assert forall|k: int| 0 <= k < upto implies #[trigger] pairs@.take(upto as int)[k].id@ != id@ by {
        assert(pairs@.take(upto as int)[k] == pairs@[k]);
    }
    false
}

fn push_if(out: &mut Vec<ConfigProblem>, b: bool, p: ConfigProblem)
    ensures
        problems_view(final(out)@) == problems_view(old(out)@) + when(b, problem_view(p)),
{
    if b {
        push_problem(out, p);
    } else {
        assert(problems_view(out@) =~= problems_view(old(out)@) + when(b, problem_view(p)));
    }
}

fn field_problem_list(config: &ServiceConfig) -> (r: Vec<ConfigProblem>)
    ensures
        problems_view(r@) == field_problems(*config),
{
    let mut out: Vec<ConfigProblem> = Vec::new();
    let ghost c = *config;
    assert(problems_view(out@) =~= Seq::<ProblemView>::empty());
    push_if(&mut out, config.version > CURRENT_CONFIG_VERSION, ConfigProblem::FutureVersion(config.version));
    push_if(&mut out, is_blank(config.db_path.as_str()), ConfigProblem::EmptyDbPath);
    push_if(&mut out, is_blank(config.log_level.as_str()), ConfigProblem::EmptyLogLevel);
    push_if(
        &mut out,
        is_blank(config.google.account_label.as_str()),
        ConfigProblem::EmptyAccountLabel(ProviderName::Google),
    );
    push_if(
        &mut out,
        is_blank(config.icloud.account_label.as_str()),
        ConfigProblem::EmptyAccountLabel(ProviderName::Icloud),
    );
    let url_ok = caldav_url_is_ok(config.icloud.caldav_url.as_str());
    push_if(&mut out, !url_ok, ConfigProblem::InvalidCaldavUrl(config.icloud.caldav_url.clone()));
    push_if(&mut out, config.sync.poll_interval_seconds == 0, ConfigProblem::ZeroPollInterval);
    assert(problems_view(out@) =~= field_problems(c));
    out
}

fn pair_problem_list(pairs: &Vec<SyncPairConfig>, out: &mut Vec<ConfigProblem>)
    ensures
        problems_view(final(out)@) == problems_view(old(out)@) + pair_problems(pairs@),
{
    let ghost head = problems_view(out@);
    let mut i: usize = 0;
    assert(pairs@.take(0) =~= Seq::<SyncPairConfig>::empty());
    assert(problems_view(out@) =~= head + pair_problems(pairs@.take(0)));
    while i < pairs.len()
        invariant
            i <= pairs@.len(),
            problems_view(out@) == head + pair_problems(pairs@.take(i as int)),
        decreases pairs@.len() - i,
    {
        let p = &pairs[i];
        assert(pairs@.take(i + 1).drop_last() =~= pairs@.take(i as int));
        assert(pairs@.take(i + 1).last() == pairs@[i as int]);
        let ghost before = problems_view(out@);
        let used = id_is_used(pairs, i, p.id.as_str());
        push_if(out, used, ConfigProblem::DuplicatePairId(p.id.clone()));
        push_if(
            out,
            is_blank(p.google_calendar_id.as_str()),
            ConfigProblem::EmptyCalendarId { pair_id: p.id.clone(), provider: ProviderName::Google },
        );
        push_if(
            out,
            is_blank(p.icloud_calendar_id.as_str()),
            ConfigProblem::EmptyCalendarId { pair_id: p.id.clone(), provider: ProviderName::Icloud },
        );
        assert(problems_view(out@) =~= before + pair_problems_after(pairs@.take(i as int), pairs@[i as int]));
        i = i + 1;
    }
    assert(pairs@.take(pairs@.len() as int) =~= pairs@);
}

/// Every problem of the configuration (`config_problems`), in order.
pub fn config_problem_list(config: &ServiceConfig) -> (r: Vec<ConfigProblem>)
    ensures
        problems_view(r@) == config_problems(*config),
{
    let mut out = field_problem_list(config);
    pair_problem_list(&config.sync.pairs, &mut out);
    out
}

/// Checks a configuration: `Ok` when it has no problem, else its first
/// problem in the order of `config_problems`.
pub fn validate_config(config: &ServiceConfig) -> (r: Result<(), ConfigProblem>)
    ensures
        match r {
            Ok(()) => config_problems(*config).len() == 0,
            Err(p) => config_problems(*config).len() > 0 && problem_view(p) == config_problems(*config)[0],
        },
{
    let mut problems = config_problem_list(config);
    if problems.len() == 0 {
        Ok(())
    } else {
        let ghost all = problems@;
        let first = problems.remove(0);
        assert(problem_view(first) == problems_view(all)[0]);
        Err(first)
    }
}

/// The problem's message, as the command line shows it.
pub open spec fn problem_text(p: ProblemView) -> Seq<char> {
    match p {
        ProblemView::FutureVersion(_) => "config version is newer than this build supports"@,
        ProblemView::EmptyDbPath => "dbPath must not be empty"@,
        ProblemView::EmptyLogLevel => "logLevel must not be empty"@,
        ProblemView::EmptyAccountLabel(ProviderName::Google) => "google.accountLabel must not be empty"@,
        ProblemView::EmptyAccountLabel(ProviderName::Icloud) => "icloud.accountLabel must not be empty"@,
        ProblemView::InvalidCaldavUrl(u) => "icloud.caldavUrl must be an http(s) URL with a host: "@ + u,
        ProblemView::ZeroPollInterval => "sync.pollIntervalSeconds must be greater than zero"@,
        ProblemView::DuplicatePairId(id) => "duplicate sync pair id: "@ + id,
        ProblemView::EmptyCalendarId { pair_id, provider: ProviderName::Google } => "sync pair "@ + pair_id
            + " has an empty googleCalendarId"@,
        ProblemView::EmptyCalendarId { pair_id, provider: ProviderName::Icloud } => "sync pair "@ + pair_id
            + " has an empty icloudCalendarId"@,
    }
}

impl ConfigProblem {
    pub fn message(&self) -> (r: String)
        ensures
            r@ == problem_text(problem_view(*self)),
    {
        match self {
            ConfigProblem::FutureVersion(_) => owned("config version is newer than this build supports"),
            ConfigProblem::EmptyDbPath => owned("dbPath must not be empty"),
            ConfigProblem::EmptyLogLevel => owned("logLevel must not be empty"),
            ConfigProblem::EmptyAccountLabel(ProviderName::Google) => owned("google.accountLabel must not be empty"),
            ConfigProblem::EmptyAccountLabel(ProviderName::Icloud) => owned("icloud.accountLabel must not be empty"),
            ConfigProblem::InvalidCaldavUrl(u) => {
                let mut out = owned("icloud.caldavUrl must be an http(s) URL with a host: ");
                crate::text::append_str(&mut out, u.as_str());
                out
            },
            ConfigProblem::ZeroPollInterval => owned("sync.pollIntervalSeconds must be greater than zero"),
            ConfigProblem::DuplicatePairId(id) => {
                let mut out = owned("duplicate sync pair id: ");
                crate::text::append_str(&mut out, id.as_str());
                out
            },
            ConfigProblem::EmptyCalendarId { pair_id, provider } => {
                let mut out = owned("sync pair ");
                crate::text::append_str(&mut out, pair_id.as_str());
                match provider {
                    ProviderName::Google => crate::text::append_str(&mut out, " has an empty googleCalendarId"),
                    ProviderName::Icloud => crate::text::append_str(&mut out, " has an empty icloudCalendarId"),
                }
                out
            },
        }
    }
}

/// A configuration that passes the check has pairs with distinct ids and
/// both calendar ids of every pair filled in.
pub proof fn law_valid_config_has_distinct_pairs(c: ServiceConfig)
    requires
        config_problems(c).len() == 0,
    ensures
        forall|i: int, j: int|
            0 <= i < j < c.sync.pairs@.len() ==> c.sync.pairs@[i].id@ != c.sync.pairs@[j].id@,
        forall|i: int|
            0 <= i < c.sync.pairs@.len() ==> !blank(#[trigger] c.sync.pairs@[i].google_calendar_id@) && !blank(
                c.sync.pairs@[i].icloud_calendar_id@,
            ),
{
    let pairs = c.sync.pairs@;
    assert(pair_problems(pairs).len() == 0) by {
        assert(config_problems(c).len() == field_problems(c).len() + pair_problems(pairs).len());
    }
    lemma_no_pair_problems(pairs, pairs.len() as int);
    assert(pairs.take(pairs.len() as int) =~= pairs);
}

proof fn lemma_pair_problems_prefix(pairs: Seq<SyncPairConfig>, n: int)
    requires
        0 <= n <= pairs.len(),
    ensures
        pair_problems(pairs.take(n)).len() <= pair_problems(pairs).len(),
    decreases pairs.len() - n,
{
    if n < pairs.len() {
        lemma_pair_problems_prefix(pairs, n + 1);
        assert(pairs.take(n + 1).drop_last() =~= pairs.take(n));
    } else {
        assert(pairs.take(n) =~= pairs);
    }
}

proof fn lemma_no_pair_problems(pairs: Seq<SyncPairConfig>, n: int)
    requires
        0 <= n <= pairs.len(),
        pair_problems(pairs).len() == 0,
    ensures
        forall|i: int, j: int| 0 <= i < j < n ==> pairs[i].id@ != pairs[j].id@,
        forall|i: int| 0 <= i < n ==> !blank(#[trigger] pairs[i].google_calendar_id@) && !blank(
            pairs[i].icloud_calendar_id@,
        ),
    decreases n,
{
    if n > 0 {
        lemma_no_pair_problems(pairs, n - 1);
        lemma_pair_problems_prefix(pairs, n);
        let pre = pairs.take(n);
        assert(pre.drop_last() =~= pairs.take(n - 1));
        assert(pre.last() == pairs[n - 1]);
        assert(pair_problems_after(pairs.take(n - 1), pairs[n - 1]).len() == 0);
        assert forall|i: int| 0 <= i < n - 1 implies #[trigger] pairs[i].id@ != pairs[n - 1].id@ by {
            if pairs[i].id@ == pairs[n - 1].id@ {
                assert(pairs.take(n - 1)[i] == pairs[i]);
                assert(id_used(pairs.take(n - 1), pairs[n - 1].id@));
            }
        }
    }
}

} // verus!

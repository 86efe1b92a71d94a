//! The values the state store reads and writes, and the rules around them
//! that do not need the database: stable ids, run and resolution names,
//! calendar ids for a configured pair, and which stored conflicts are stale.
use crate::config::{ServiceConfig, SyncPairConfig};
use crate::event::ProviderName;
use crate::event_hash::{hex_digit, hex_lower, sha256, sha256_digest, to_hex_lower};
use crate::policy::{ConflictPolicy, SyncDirection};
use crate::text::{append_str, chars_of, owned, seq_lt, str_eq, str_lt, string_from_chars};
use vstd::prelude::*;
use vstd::utf8::*;
use vstd::string::StringSliceAdditionalSpecFns;

verus! {

// ---------------------------------------------------------------- ids
/// The parts joined with a NUL between each two.
pub open spec fn joined(parts: Seq<Seq<char>>, sep: Seq<char>) -> Seq<char>
    decreases parts.len(),
{
    if parts.len() == 0 {
        Seq::empty()
    } else if parts.len() == 1 {
        parts[0]
    } else {
        joined(parts.drop_last(), sep) + sep + parts.last()
    }
}

/// The stable id of a list of parts: the first 24 lower-case hex digits of
/// the SHA-256 of the UTF-8 of the parts joined by NUL.
pub open spec fn stable_id_of(parts: Seq<Seq<char>>) -> Seq<char> {
    hex_lower(sha256_digest(encode_utf8(joined(parts, seq!['\0'])))).take(24)
}

pub open spec fn str_views(parts: Seq<&str>) -> Seq<Seq<char>> {
    parts.map_values(|p: &str| p@)
}

proof fn lemma_hex_len(b: Seq<u8>)
    ensures
        hex_lower(b).len() == 2 * b.len(),
    decreases b.len(),
{
    if b.len() > 0 {
        lemma_hex_len(b.drop_last());
    }
}

/// A lower-case hexadecimal digit: `0`-`9` or `a`-`f`.
pub open spec fn is_lower_hex_digit(c: char) -> bool {
    (48 <= c as u32 && c as u32 <= 57) || (97 <= c as u32 && c as u32 <= 102)
}

/// An id as the store writes them: 24 lower-case hexadecimal digits.
pub open spec fn is_stable_id_text(s: Seq<char>) -> bool {
    s.len() == 24 && forall|i: int| 0 <= i < s.len() ==> is_lower_hex_digit(#[trigger] s[i])
}

proof fn lemma_hex_digits(b: Seq<u8>)
    ensures
        forall|i: int| 0 <= i < hex_lower(b).len() ==> is_lower_hex_digit(#[trigger] hex_lower(b)[i]),
    decreases b.len(),
{
    if b.len() > 0 {
        lemma_hex_digits(b.drop_last());
        let n1 = b.last() / 16;
        let n2 = b.last() % 16;
        assert(is_lower_hex_digit(hex_digit(n1)));
        assert(is_lower_hex_digit(hex_digit(n2)));
        let h = hex_lower(b);
        let p = hex_lower(b.drop_last());
        assert forall|i: int| 0 <= i < h.len() implies is_lower_hex_digit(#[trigger] h[i]) by {
            if i < p.len() {
                assert(h[i] == p[i]);
            } else if i == p.len() {
                assert(h[i] == hex_digit(n1));
            } else {
                assert(h[i] == hex_digit(n2));
            }
        }
    }
}

/// A stable id taken of a 32-byte digest is 24 lower-case hexadecimal digits.
proof fn lemma_stable_id_text(parts: Seq<Seq<char>>)
    requires
        sha256_digest(encode_utf8(joined(parts, seq!['\0']))).len() == 32,
    ensures
        is_stable_id_text(stable_id_of(parts)),
{
    let d = sha256_digest(encode_utf8(joined(parts, seq!['\0'])));
    lemma_hex_digits(d);
    lemma_hex_len(d);
    let t = stable_id_of(parts);
    assert forall|i: int| 0 <= i < t.len() implies is_lower_hex_digit(#[trigger] t[i]) by {
        assert(t[i] == hex_lower(d)[i]);
    }
}

pub fn stable_id(parts: &[&str]) -> (r: String)
    ensures
        r@ == stable_id_of(str_views(parts@)),
        is_stable_id_text(r@),
{
    let mut text = String::new();
    let mut i: usize = 0;
    while i < parts.len()
        invariant
            i <= parts@.len(),
            text@ == joined(str_views(parts@.take(i as int)), seq!['\0']),
        decreases parts@.len() - i,
    {
        proof {
            assert(str_views(parts@.take(i + 1)).drop_last() =~= str_views(parts@.take(i as int)));
        }
        if i > 0 {
            append_str(&mut text, "\0");
            proof {
                reveal_strlit("\0");
            }
        }
        append_str(&mut text, parts[i]);
        i = i + 1;
        proof {
            if i == 1 {
                assert(text@ =~= joined(str_views(parts@.take(i as int)), seq!['\0']));
            }
        }
    }
    assert(parts@.take(parts@.len() as int) =~= parts@);
    let bytes = text.as_str().as_bytes();
    let digest = sha256(bytes);
    let hex = to_hex_lower(&digest);
    proof {
        lemma_hex_len(digest@);
    }
    let cs = chars_of(hex.as_str());
    let mut first: Vec<char> = Vec::new();
    let mut k: usize = 0;
    while k < 24
        invariant
            k <= 24,
            cs@ == hex@,
            cs@.len() == 64,
            first@ == cs@.take(k as int),
        decreases 24 - k,
    {
        first.push(cs[k]);
        k = k + 1;
        assert(first@ =~= cs@.take(k as int));
    }
    proof {
        lemma_stable_id_text(str_views(parts@));
    }
    string_from_chars(first.as_slice())
}

// ---------------------------------------------------------------- names
pub open spec fn provider_text(p: ProviderName) -> Seq<char> {
    match p {
        ProviderName::Google => "google"@,
        ProviderName::Icloud => "icloud"@,
    }
}

/// The provider's name as the store writes it.
pub fn provider_name(p: ProviderName) -> (r: &'static str)
    ensures
        r@ == provider_text(p),
{
    match p {
        ProviderName::Google => "google",
        ProviderName::Icloud => "icloud",
    }
}

pub open spec fn direction_text(d: SyncDirection) -> Seq<char> {
    match d {
        SyncDirection::TwoWay => "two_way"@,
        SyncDirection::LeftToRight => "left_to_right"@,
        SyncDirection::RightToLeft => "right_to_left"@,
    }
}

/// The direction's name as the store writes it.
pub fn direction_name(d: SyncDirection) -> (r: &'static str)
    ensures
        r@ == direction_text(d),
{
    match d {
        SyncDirection::TwoWay => "two_way",
        SyncDirection::LeftToRight => "left_to_right",
        SyncDirection::RightToLeft => "right_to_left",
    }
}

pub open spec fn policy_text(p: ConflictPolicy) -> Seq<char> {
    match p {
        ConflictPolicy::Manual => "manual"@,
        ConflictPolicy::GoogleWins => "google_wins"@,
        ConflictPolicy::IcloudWins => "icloud_wins"@,
        ConflictPolicy::NewestUpdatedWins => "newest_updated_wins"@,
    }
}

/// The conflict policy's name as the store writes it.
pub fn conflict_policy_name(p: ConflictPolicy) -> (r: &'static str)
    ensures
        r@ == policy_text(p),
{
    match p {
        ConflictPolicy::Manual => "manual",
        ConflictPolicy::GoogleWins => "google_wins",
        ConflictPolicy::IcloudWins => "icloud_wins",
        ConflictPolicy::NewestUpdatedWins => "newest_updated_wins",
    }
}

// ---------------------------------------------------------------- runs
#[derive(Debug, Clone, Copy, PartialEq, Eq, Structural)]
pub enum SyncRunStatus {
    Running,
    Completed,
    Failed,
}

#[derive(Debug, Clone)]
pub struct SyncRun {
    pub id: String,
    pub sync_pair_id: Option<String>,
    pub status: SyncRunStatus,
    pub started_at: String,
    pub finished_at: Option<String>,
    pub error: Option<String>,
}

impl SyncRunStatus {
    pub open spec fn spec_text(self) -> Seq<char> {
        match self {
            SyncRunStatus::Running => "running"@,
            SyncRunStatus::Completed => "completed"@,
            SyncRunStatus::Failed => "failed"@,
        }
    }

    /// The status as the store writes it.
    pub fn as_str(self) -> (r: &'static str)
        ensures
            r@ == self.spec_text(),
    {
        match self {
            SyncRunStatus::Running => "running",
            SyncRunStatus::Completed => "completed",
            SyncRunStatus::Failed => "failed",
        }
    }

    /// Reads a stored status; any other text is refused.
    pub fn parse(text: &str) -> (r: Option<SyncRunStatus>)
        ensures
            r matches Some(s) ==> s.spec_text() == text@,
            r is None ==> (forall|s: SyncRunStatus| s.spec_text() != text@),
    {
        if str_eq(text, "running") {
            Some(SyncRunStatus::Running)
        } else if str_eq(text, "completed") {
            Some(SyncRunStatus::Completed)
        } else if str_eq(text, "failed") {
            Some(SyncRunStatus::Failed)
        } else {
            proof {
                assert forall|s: SyncRunStatus| s.spec_text() != text@ by {
                    match s {
                        SyncRunStatus::Running => {},
                        SyncRunStatus::Completed => {},
                        SyncRunStatus::Failed => {},
                    }
                }
            }
            None
        }
    }
}

// ---------------------------------------------------------------- conflicts
#[derive(Debug, Clone)]
pub struct UnresolvedConflictSummary {
    pub sync_pair_id: String,
    pub reason: String,
    pub count: i64,
    pub first_seen_at: String,
    pub last_seen_at: String,
}

#[derive(Debug, Clone)]
pub struct ConflictFilter {
    pub sync_pair_id: Option<String>,
    pub reason: Option<String>,
    pub limit: Option<u32>,
}

impl Default for ConflictFilter {
    fn default() -> (r: Self)
        ensures
            r.sync_pair_id is None,
            r.reason is None,
            r.limit is None,
    {
        ConflictFilter { sync_pair_id: None, reason: None, limit: None }
    }
}

#[derive(Debug, Clone)]
pub struct ActiveConflict {
    pub canonical_uid: String,
    pub reason: String,
}

#[derive(Debug, Clone, Copy, PartialEq, Eq, Structural)]
pub enum ManualConflictResolution {
    GoogleWins,
    IcloudWins,
    DeleteWins,
    UpdateWins,
}

impl ManualConflictResolution {
    pub open spec fn spec_text(self) -> Seq<char> {
        match self {
            ManualConflictResolution::GoogleWins => "google_wins"@,
            ManualConflictResolution::IcloudWins => "icloud_wins"@,
            ManualConflictResolution::DeleteWins => "delete_wins"@,
            ManualConflictResolution::UpdateWins => "update_wins"@,
        }
    }

    pub fn as_str(self) -> (r: &'static str)
        ensures
            r@ == self.spec_text(),
    {
        match self {
            ManualConflictResolution::GoogleWins => "google_wins",
            ManualConflictResolution::IcloudWins => "icloud_wins",
            ManualConflictResolution::DeleteWins => "delete_wins",
            ManualConflictResolution::UpdateWins => "update_wins",
        }
    }

    /// Reads a stored resolution; any other text is `None`.
    pub fn from_str(text: &str) -> (r: Option<ManualConflictResolution>)
        ensures
            r matches Some(m) ==> m.spec_text() == text@,
            r is None ==> (forall|m: ManualConflictResolution| m.spec_text() != text@),
    {
        if str_eq(text, "google_wins") {
            Some(ManualConflictResolution::GoogleWins)
        } else if str_eq(text, "icloud_wins") {
            Some(ManualConflictResolution::IcloudWins)
        } else if str_eq(text, "delete_wins") {
            Some(ManualConflictResolution::DeleteWins)
        } else if str_eq(text, "update_wins") {
            Some(ManualConflictResolution::UpdateWins)
        } else {
            proof {
                assert forall|m: ManualConflictResolution| m.spec_text() != text@ by {
                    match m {
                        ManualConflictResolution::GoogleWins => {},
                        ManualConflictResolution::IcloudWins => {},
                        ManualConflictResolution::DeleteWins => {},
                        ManualConflictResolution::UpdateWins => {},
                    }
                }
            }
            None
        }
    }

    /// The resolution a pending row asks for: the stored one, or update
    /// wins where the text is missing or unknown.
    pub fn stored_or_default(text: Option<&str>) -> (r: ManualConflictResolution)
        ensures
            match text {
                Some(t) => (exists|m: ManualConflictResolution| m.spec_text() == t@) ==> r.spec_text() == t@,
                None => true,
            },
            (match text {
                Some(t) => !(exists|m: ManualConflictResolution| m.spec_text() == t@),
                None => true,
            }) ==> r == ManualConflictResolution::UpdateWins,
    {
        match text {
            Some(t) => match ManualConflictResolution::from_str(t) {
                Some(m) => m,
                None => ManualConflictResolution::UpdateWins,
            },
            None => ManualConflictResolution::UpdateWins,
        }
    }
}

#[derive(Debug, Clone)]
pub struct PendingManualResolution {
    pub conflict_id: String,
    pub sync_pair_id: String,
    pub canonical_uid: String,
    pub reason: String,
    pub resolution: ManualConflictResolution,
}

/// A stored unresolved conflict as the stale check reads it.
#[derive(Debug, Clone)]
pub struct StoredConflict {
    pub id: String,
    pub canonical_uid: Option<String>,
    pub reason: String,
}

/// The key by which a conflict is matched against the active ones.
pub open spec fn conflict_key(uid: Seq<char>, reason: Seq<char>) -> Seq<char> {
    uid + seq!['\0'] + reason
}

pub open spec fn is_active(active: Seq<ActiveConflict>, key: Seq<char>) -> bool {
    exists|i: int| 0 <= i < active.len() && conflict_key(active[i].canonical_uid@, active[i].reason@) == key
}

/// A stored conflict is stale when it has no uid, or when no active conflict
/// has its uid and reason.
pub open spec fn is_stale(c: StoredConflict, active: Seq<ActiveConflict>) -> bool {
    match c.canonical_uid {
        Some(uid) => !is_active(active, conflict_key(uid@, c.reason@)),
        None => true,
    }
}

pub open spec fn stale_ids(rows: Seq<StoredConflict>, active: Seq<ActiveConflict>) -> Seq<Seq<char>>
    decreases rows.len(),
{
    if rows.len() == 0 {
        Seq::empty()
    } else if is_stale(rows.last(), active) {
        stale_ids(rows.drop_last(), active).push(rows.last().id@)
    } else {
        stale_ids(rows.drop_last(), active)
    }
}

fn key_text(uid: &str, reason: &str) -> (r: String)
    ensures
        r@ == conflict_key(uid@, reason@),
{
    let mut k = owned(uid);
    append_str(&mut k, "\0");
    append_str(&mut k, reason);
    proof {
        reveal_strlit("\0");
    }
    k
}

fn active_contains(active: &[ActiveConflict], key: &str) -> (r: bool)
    ensures
        r == is_active(active@, key@),
{
    let mut i: usize = 0;
    while i < active.len()
        invariant
            i <= active@.len(),
            forall|j: int| 0 <= j < i ==> conflict_key(active@[j].canonical_uid@, active@[j].reason@) != key@,
        decreases active@.len() - i,
    {
        let k = key_text(active[i].canonical_uid.as_str(), active[i].reason.as_str());
        if str_eq(k.as_str(), key) {
            return true;
        }
        i = i + 1;
    }
    false
}

/// The ids of the stored conflicts that no active conflict keeps open, in
/// stored order.
pub fn stale_conflict_ids(rows: &[StoredConflict], active: &[ActiveConflict]) -> (r: Vec<String>)
    ensures
        r@.map_values(|s: String| s@) == stale_ids(rows@, active@),
{
    let mut out: Vec<String> = Vec::new();
    let mut i: usize = 0;
    while i < rows.len()
        invariant
            i <= rows@.len(),
            out@.map_values(|s: String| s@) == stale_ids(rows@.take(i as int), active@),
        decreases rows@.len() - i,
    {
        proof {
            assert(rows@.take(i + 1).drop_last() =~= rows@.take(i as int));
        }
        let row = &rows[i];
        let stale = match &row.canonical_uid {
            Some(uid) => {
                let k = key_text(uid.as_str(), row.reason.as_str());
                !active_contains(active, k.as_str())
            },
            None => true,
        };
        if stale {
            let ghost before = out@;
            let id = row.id.clone();
            out.push(id);
            assert(out@.map_values(|s: String| s@) =~= before.map_values(|s: String| s@).push(id@));
        }
        i = i + 1;
    }
    assert(rows@.take(rows@.len() as int) =~= rows@);
    out
}

// ---------------------------------------------------------------- duplicates
/// An unresolved conflict as the duplicate check reads it. Ids are unique.
#[derive(Debug, Clone)]
pub struct ConflictRecord {
    pub id: String,
    pub sync_pair_id: String,
    pub canonical_uid: Option<String>,
    pub reason: String,
    pub created_at: String,
}

pub open spec fn opt_text(o: Option<String>) -> Option<Seq<char>> {
    match o {
        Some(s) => Some(s@),
        None => None,
    }
}

/// Two conflicts about the same thing: same pair, uid and reason.
pub open spec fn same_group(a: ConflictRecord, b: ConflictRecord) -> bool {
    a.sync_pair_id@ == b.sync_pair_id@ && opt_text(a.canonical_uid) == opt_text(b.canonical_uid) && a.reason@
        == b.reason@
}

/// `a` was recorded before `b`: earlier creation, then the smaller id,
/// text compared as the store compares it (code point order).
pub open spec fn ranks_before(a: ConflictRecord, b: ConflictRecord) -> bool {
    seq_lt(a.created_at@, b.created_at@) || (a.created_at@ == b.created_at@ && seq_lt(a.id@, b.id@))
}

/// A conflict is a duplicate when an earlier one of its group exists.
pub open spec fn is_duplicate(x: ConflictRecord, all: Seq<ConflictRecord>) -> bool {
    exists|j: int| 0 <= j < all.len() && same_group(all[j], x) && ranks_before(all[j], x)
}

pub open spec fn duplicate_ids(rows: Seq<ConflictRecord>, all: Seq<ConflictRecord>) -> Seq<Seq<char>>
    decreases rows.len(),
{
    if rows.len() == 0 {
        Seq::empty()
    } else if is_duplicate(rows.last(), all) {
        duplicate_ids(rows.drop_last(), all).push(rows.last().id@)
    } else {
        duplicate_ids(rows.drop_last(), all)
    }
}

fn opt_text_eq(a: &Option<String>, b: &Option<String>) -> (r: bool)
    ensures
        r == (opt_text(*a) == opt_text(*b)),
{
    match (a, b) {
        (Some(x), Some(y)) => str_eq(x.as_str(), y.as_str()),
        (None, None) => true,
        _ => false,
    }
}

fn group_eq(a: &ConflictRecord, b: &ConflictRecord) -> (r: bool)
    ensures
        r == same_group(*a, *b),
{
    str_eq(a.sync_pair_id.as_str(), b.sync_pair_id.as_str()) && opt_text_eq(&a.canonical_uid, &b.canonical_uid)
        && str_eq(a.reason.as_str(), b.reason.as_str())
}

fn earlier(a: &ConflictRecord, b: &ConflictRecord) -> (r: bool)
    ensures
        r == ranks_before(*a, *b),
{
    str_lt(a.created_at.as_str(), b.created_at.as_str()) || (str_eq(a.created_at.as_str(), b.created_at.as_str())
        && str_lt(a.id.as_str(), b.id.as_str()))
}

/// The ids of the conflicts that repeat an earlier unresolved conflict of
/// the same pair, uid and reason, in the given order: every conflict of a
/// group but the first recorded.
pub fn duplicate_conflict_ids(rows: &[ConflictRecord]) -> (r: Vec<String>)
    ensures
        r@.map_values(|s: String| s@) == duplicate_ids(rows@, rows@),
{
    let mut out: Vec<String> = Vec::new();
    let mut i: usize = 0;
    while i < rows.len()
        invariant
            i <= rows@.len(),
            out@.map_values(|s: String| s@) == duplicate_ids(rows@.take(i as int), rows@),
        decreases rows@.len() - i,
    {
        proof {
            assert(rows@.take(i + 1).drop_last() =~= rows@.take(i as int));
        }
        let mut dup = false;
        let mut j: usize = 0;
        while j < rows.len()
            invariant
                i < rows@.len(),
                j <= rows@.len(),
                dup == (exists|k: int| 0 <= k < j && same_group(rows@[k], rows@[i as int]) && ranks_before(
                    rows@[k],
                    rows@[i as int],
                )),
            decreases rows@.len() - j,
        {
            if !dup && group_eq(&rows[j], &rows[i]) && earlier(&rows[j], &rows[i]) {
                dup = true;
            }
            j = j + 1;
        }
        if dup {
            let ghost before = out@;
            let id = rows[i].id.clone();
            out.push(id);
            assert(out@.map_values(|s: String| s@) =~= before.map_values(|s: String| s@).push(id@));
        }
        i = i + 1;
    }
    assert(rows@.take(rows@.len() as int) =~= rows@);
    out
}

// ---------------------------------------------------------------- links
#[derive(Debug, Clone)]
pub struct EventLinkUpsert {
    pub sync_pair_id: String,
    pub canonical_uid: String,
    pub google_event_id: Option<String>,
    pub google_ical_uid: Option<String>,
    pub google_etag: Option<String>,
    pub icloud_href: Option<String>,
    pub icloud_uid: Option<String>,
    pub icloud_etag: Option<String>,
    pub google_hash: Option<String>,
    pub icloud_hash: Option<String>,
    pub last_synced_hash: Option<String>,
    pub deleted_google_at: Option<String>,
    pub deleted_icloud_at: Option<String>,
}

impl Default for EventLinkUpsert {
    fn default() -> (r: Self)
        ensures
            r.sync_pair_id@.len() == 0,
            r.canonical_uid@.len() == 0,
            r.google_event_id is None,
            r.google_ical_uid is None,
            r.google_etag is None,
            r.icloud_href is None,
            r.icloud_uid is None,
            r.icloud_etag is None,
            r.google_hash is None,
            r.icloud_hash is None,
            r.last_synced_hash is None,
            r.deleted_google_at is None,
            r.deleted_icloud_at is None,
    {
        EventLinkUpsert {
            sync_pair_id: String::new(),
            canonical_uid: String::new(),
            google_event_id: None,
            google_ical_uid: None,
            google_etag: None,
            icloud_href: None,
            icloud_uid: None,
            icloud_etag: None,
            google_hash: None,
            icloud_hash: None,
            last_synced_hash: None,
            deleted_google_at: None,
            deleted_icloud_at: None,
        }
    }
}

/// The id under which a link is stored.
pub fn event_link_id(sync_pair_id: &str, canonical_uid: &str) -> (r: String)
    ensures
        r@ == stable_id_of(seq!["event-link"@, sync_pair_id@, canonical_uid@]),
        is_stable_id_text(r@),
{
    let parts = ["event-link", sync_pair_id, canonical_uid];
    let r = stable_id(&parts);
    assert(str_views(parts@) =~= seq!["event-link"@, sync_pair_id@, canonical_uid@]);
    r
}

// ---------------------------------------------------------------- calendars
#[derive(Debug, Clone)]
pub struct AccountRow {
    pub id: String,
    pub provider: String,
    pub email: String,
    pub created_at: String,
    pub updated_at: String,
}

#[derive(Debug, Clone)]
pub struct CalendarRow {
    pub id: String,
    pub account_id: String,
    pub provider: String,
    pub account_email: String,
    pub provider_calendar_id: String,
    pub name: Option<String>,
    pub color: Option<String>,
    pub timezone: Option<String>,
    pub writable: bool,
    pub raw_json: Option<String>,
    pub provider_sync_token: Option<String>,
    pub last_full_sync_at: Option<String>,
    pub last_incremental_sync_at: Option<String>,
    pub sync_state_updated_at: Option<String>,
    pub created_at: String,
    pub updated_at: String,
}

#[derive(Debug, Clone)]
pub struct CalendarIds {
    pub google_account_id: String,
    pub icloud_account_id: String,
    pub google_calendar_id: String,
    pub icloud_calendar_id: String,
}

fn id_of3(a: &str, b: &str, c: &str) -> (r: String)
    ensures
        r@ == stable_id_of(seq![a@, b@, c@]),
        is_stable_id_text(r@),
{
    let parts = [a, b, c];
    let r = stable_id(&parts);
    assert(str_views(parts@) =~= seq![a@, b@, c@]);
    r
}

fn id_of4(a: &str, b: &str, c: &str, d: &str) -> (r: String)
    ensures
        r@ == stable_id_of(seq![a@, b@, c@, d@]),
        is_stable_id_text(r@),
{
    let parts = [a, b, c, d];
    let r = stable_id(&parts);
    assert(str_views(parts@) =~= seq![a@, b@, c@, d@]);
    r
}

/// The store's ids for a configured pair's accounts and calendars.
pub fn configured_calendar_ids(config: &ServiceConfig, pair: &SyncPairConfig) -> (r: CalendarIds)
    ensures
        r.google_account_id@ == stable_id_of(seq!["account"@, "google"@, config.google.account_label@]),
        r.icloud_account_id@ == stable_id_of(seq!["account"@, "icloud"@, config.icloud.account_label@]),
        r.google_calendar_id@ == stable_id_of(
            seq!["calendar"@, "google"@, config.google.account_label@, pair.google_calendar_id@],
        ),
        r.icloud_calendar_id@ == stable_id_of(
            seq!["calendar"@, "icloud"@, config.icloud.account_label@, pair.icloud_calendar_id@],
        ),
        is_stable_id_text(r.google_account_id@),
        is_stable_id_text(r.icloud_account_id@),
        is_stable_id_text(r.google_calendar_id@),
        is_stable_id_text(r.icloud_calendar_id@),
{
    CalendarIds {
        google_account_id: id_of3("account", "google", config.google.account_label.as_str()),
        icloud_account_id: id_of3("account", "icloud", config.icloud.account_label.as_str()),
        google_calendar_id: id_of4(
            "calendar",
            "google",
            config.google.account_label.as_str(),
            pair.google_calendar_id.as_str(),
        ),
        icloud_calendar_id: id_of4(
            "calendar",
            "icloud",
            config.icloud.account_label.as_str(),
            pair.icloud_calendar_id.as_str(),
        ),
    }
}

// ---------------------------------------------------------------- hex text
/// The bytes as lower-case hex, two digits each.
pub fn hex_encode(value: &[u8]) -> (r: String)
    ensures
        r@ == hex_lower(value@),
{
    let mut v: Vec<u8> = Vec::new();
    let mut i: usize = 0;
    while i < value.len()
        invariant
            i <= value@.len(),
            v@ == value@.take(i as int),
        decreases value@.len() - i,
    {
        v.push(value[i]);
        i = i + 1;
        assert(v@ =~= value@.take(i as int));
    }
    assert(value@.take(value@.len() as int) =~= value@);
    to_hex_lower(&v)
}

pub open spec fn hex_value(b: u8) -> Option<u8> {
    if 48 <= b <= 57 {
        Some((b - 48) as u8)
    } else if 97 <= b <= 102 {
        Some((b - 87) as u8)
    } else if 65 <= b <= 70 {
        Some((b - 55) as u8)
    } else {
        None
    }
}

/// One chunk of up to two bytes read as a hex number the way
/// `u8::from_str_radix(_, 16)` reads it: one or two digits, or a plus sign
/// and one digit.
pub open spec fn chunk_value(c: Seq<u8>) -> Option<u8> {
    if c.len() == 1 {
        hex_value(c[0])
    } else if c.len() == 2 {
        if c[0] == 43 {
            hex_value(c[1])
        } else {
            match (hex_value(c[0]), hex_value(c[1])) {
                (Some(h), Some(l)) => Some((h * 16 + l) as u8),
                _ => None,
            }
        }
    } else {
        None
    }
}

pub open spec fn opt_byte(o: Option<u8>) -> Seq<u8> {
    match o {
        Some(b) => seq![b],
        None => Seq::empty(),
    }
}

/// The bytes of hex text taken two at a time, chunks that do not read as
/// hex left out.
pub open spec fn hex_decoded(b: Seq<u8>) -> Seq<u8>
    decreases b.len(),
{
    if b.len() == 0 {
        Seq::empty()
    } else if b.len() == 1 {
        opt_byte(chunk_value(b))
    } else {
        opt_byte(chunk_value(b.take(2))) + hex_decoded(b.skip(2))
    }
}

fn hex_val(b: u8) -> (r: Option<u8>)
    ensures
        r == hex_value(b),
{
    if 48 <= b && b <= 57 {
        Some(b - 48)
    } else if 97 <= b && b <= 102 {
        Some(b - 87)
    } else if 65 <= b && b <= 70 {
        Some(b - 55)
    } else {
        None
    }
}

pub fn hex_decode(value: &str) -> (r: Vec<u8>)
    ensures
        r@ == hex_decoded(value.spec_bytes()),
{
    let bytes = value.as_bytes();
    let ghost all = bytes@;
    let mut out: Vec<u8> = Vec::new();
    let mut i: usize = 0;
    assert(all.skip(0) =~= all);
    while i < bytes.len()
        invariant
            all == bytes@,
            i <= bytes@.len(),
            hex_decoded(all) == out@ + hex_decoded(all.skip(i as int)),
        decreases bytes@.len() - i,
    {
        let ghost rest = all.skip(i as int);
        if i + 1 == bytes.len() {
            let v = hex_val(bytes[i]);
            assert(rest =~= seq![bytes@[i as int]]);
            match v {
                Some(b) => out.push(b),
                None => {},
            }
            assert(all.skip(i + 1).len() == 0);
            assert(out@ + hex_decoded(all.skip(i + 1)) =~= hex_decoded(all));
            i = i + 1;
        } else {
            let c0 = bytes[i];
            let c1 = bytes[i + 1];
            let v: Option<u8> = if c0 == 43 {
                hex_val(c1)
            } else {
                match (hex_val(c0), hex_val(c1)) {
                    (Some(h), Some(l)) => Some(h * 16 + l),
                    _ => None,
                }
            };
            proof {
                assert(rest.take(2) =~= seq![c0, c1]);
                assert(rest.skip(2) =~= all.skip(i + 2));
            }
            let ghost before = out@;
            match v {
                Some(b) => out.push(b),
                None => {},
            }
            assert(out@ =~= before + opt_byte(chunk_value(rest.take(2))));
            i = i + 2;
        }
    }
    assert(all.skip(all.len() as int).len() == 0);
    assert(out@ =~= out@ + Seq::<u8>::empty());
    out
}

} // verus!

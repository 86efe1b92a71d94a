//! The service configuration and the credentials derived from it.
use crate::policy::{
    ConflictPolicies, ConflictPolicy, DeleteConflictPolicy, SyncDirection, UidCollisionPolicy,
};
use crate::text::{append_str, clone_opt, owned};
use vstd::prelude::*;

verus! {

#[derive(Debug, Clone, Copy, PartialEq, Eq, Structural)]
pub enum SecretStoreKind {
    Inline,
    Os,
}

impl Default for SecretStoreKind {
    fn default() -> (r: Self)
        ensures
            r == SecretStoreKind::Inline,
    {
        SecretStoreKind::Inline
    }
}

#[derive(Debug, Clone)]
pub struct GoogleConfig {
    pub account_label: String,
    pub client_id: Option<String>,
    pub client_secret: Option<String>,
    pub refresh_token: Option<String>,
}

impl Default for GoogleConfig {
    fn default() -> (r: Self)
        ensures
            r.account_label@.len() == 0,
            r.client_id is None,
            r.client_secret is None,
            r.refresh_token is None,
    {
        GoogleConfig {
            account_label: String::new(),
            client_id: None,
            client_secret: None,
            refresh_token: None,
        }
    }
}

#[derive(Debug, Clone)]
pub struct IcloudConfig {
    pub account_label: String,
    pub username: Option<String>,
    pub app_specific_password: Option<String>,
    pub caldav_url: String,
}

impl Default for IcloudConfig {
    fn default() -> (r: Self)
        ensures
            r.account_label@ == "personal"@,
            r.username is None,
            r.app_specific_password is None,
            r.caldav_url@ == "https://caldav.icloud.com"@,
    {
        IcloudConfig {
            account_label: default_account_label(),
            username: None,
            app_specific_password: None,
            caldav_url: default_caldav_url(),
        }
    }
}

#[derive(Debug, Clone)]
pub struct ConflictConfig {
    pub default: ConflictPolicy,
    pub both_sides_changed: ConflictPolicy,
    pub unlinked_same_uid: ConflictPolicy,
    pub delete_vs_update: DeleteConflictPolicy,
    pub icloud_uid_collision: UidCollisionPolicy,
}

impl Default for ConflictConfig {
    fn default() -> (r: Self)
        ensures
            r.default == ConflictPolicy::Manual,
            r.both_sides_changed == ConflictPolicy::Manual,
            r.unlinked_same_uid == ConflictPolicy::Manual,
            r.delete_vs_update == DeleteConflictPolicy::UpdateWins,
            r.icloud_uid_collision == UidCollisionPolicy::IgnoreKnown,
    {
        ConflictConfig {
            default: ConflictPolicy::Manual,
            both_sides_changed: ConflictPolicy::Manual,
            unlinked_same_uid: ConflictPolicy::Manual,
            delete_vs_update: DeleteConflictPolicy::UpdateWins,
            icloud_uid_collision: UidCollisionPolicy::IgnoreKnown,
        }
    }
}

impl ConflictConfig {
    /// The conflict policies this section configures (`From<ConflictConfig>`).
    pub fn to_policies(&self) -> (r: ConflictPolicies)
        ensures
            r == (ConflictPolicies {
                default: self.default,
                both_sides_changed: self.both_sides_changed,
                unlinked_same_uid: self.unlinked_same_uid,
                delete_vs_update: self.delete_vs_update,
                icloud_uid_collision: self.icloud_uid_collision,
            }),
    {
        ConflictPolicies {
            default: self.default,
            both_sides_changed: self.both_sides_changed,
            unlinked_same_uid: self.unlinked_same_uid,
            delete_vs_update: self.delete_vs_update,
            icloud_uid_collision: self.icloud_uid_collision,
        }
    }
}

#[derive(Debug, Clone)]
pub struct SyncPairConfig {
    pub id: String,
    pub enabled: bool,
    pub direction: SyncDirection,
    pub google_calendar_id: String,
    pub icloud_calendar_id: String,
}

#[derive(Debug, Clone)]
pub struct SyncConfig {
    pub poll_interval_seconds: u64,
    pub conflict_policy: ConflictPolicy,
    pub conflicts: ConflictConfig,
    pub pairs: Vec<SyncPairConfig>,
}

impl Default for SyncConfig {
    fn default() -> (r: Self)
        ensures
            r.poll_interval_seconds == 300,
            r.conflict_policy == ConflictPolicy::Manual,
            r.conflicts.default == ConflictPolicy::Manual,
            r.conflicts.both_sides_changed == ConflictPolicy::Manual,
            r.conflicts.unlinked_same_uid == ConflictPolicy::Manual,
            r.conflicts.delete_vs_update == DeleteConflictPolicy::UpdateWins,
            r.conflicts.icloud_uid_collision == UidCollisionPolicy::IgnoreKnown,
            r.pairs@.len() == 0,
    {
        SyncConfig {
            poll_interval_seconds: default_poll_interval_seconds(),
            conflict_policy: ConflictPolicy::Manual,
            conflicts: ConflictConfig::default(),
            pairs: Vec::new(),
        }
    }
}

/// The whole configuration file. `db_path` is the path text as written.
#[derive(Debug, Clone)]
pub struct ServiceConfig {
    pub version: u32,
    pub secret_store: SecretStoreKind,
    pub db_path: String,
    pub log_level: String,
    pub google: GoogleConfig,
    pub icloud: IcloudConfig,
    pub sync: SyncConfig,
}

impl Default for ServiceConfig {
    /// The configuration that a file holding only empty `google` and `icloud`
    /// sections parses to.
    fn default() -> (r: Self)
        ensures
            r.version == 1,
            r.secret_store == SecretStoreKind::Inline,
            r.db_path@ == ".insync/insync.db"@,
            r.log_level@ == "info"@,
            r.google.account_label@ == "personal"@,
            r.google.client_id is None,
            r.google.client_secret is None,
            r.google.refresh_token is None,
            r.icloud.account_label@ == "personal"@,
            r.icloud.username is None,
            r.icloud.app_specific_password is None,
            r.icloud.caldav_url@ == "https://caldav.icloud.com"@,
            r.sync.poll_interval_seconds == 300,
            r.sync.conflict_policy == ConflictPolicy::Manual,
            r.sync.conflicts.default == ConflictPolicy::Manual,
            r.sync.conflicts.both_sides_changed == ConflictPolicy::Manual,
            r.sync.conflicts.unlinked_same_uid == ConflictPolicy::Manual,
            r.sync.conflicts.delete_vs_update == DeleteConflictPolicy::UpdateWins,
            r.sync.conflicts.icloud_uid_collision == UidCollisionPolicy::IgnoreKnown,
            r.sync.pairs@.len() == 0,
    {
        ServiceConfig {
            version: default_version(),
            secret_store: SecretStoreKind::Inline,
            db_path: default_db_path(),
            log_level: default_log_level(),
            google: GoogleConfig {
                account_label: default_account_label(),
                client_id: None,
                client_secret: None,
                refresh_token: None,
            },
            icloud: IcloudConfig::default(),
            sync: SyncConfig::default(),
        }
    }
}

pub fn default_version() -> (r: u32)
    ensures
        r == 1,
{
    1
}

pub fn default_db_path() -> (r: String)
    ensures
        r@ == ".insync/insync.db"@,
{
    owned(".insync/insync.db")
}

pub fn default_log_level() -> (r: String)
    ensures
        r@ == "info"@,
{
    owned("info")
}

pub fn default_account_label() -> (r: String)
    ensures
        r@ == "personal"@,
{
    owned("personal")
}

pub fn default_caldav_url() -> (r: String)
    ensures
        r@ == "https://caldav.icloud.com"@,
{
    owned("https://caldav.icloud.com")
}

pub fn default_poll_interval_seconds() -> (r: u64)
    ensures
        r == 300,
{
    300
}

pub fn default_enabled() -> (r: bool)
    ensures
        r,
{
    true
}

pub fn default_delete_vs_update() -> (r: DeleteConflictPolicy)
    ensures
        r == DeleteConflictPolicy::UpdateWins,
{
    DeleteConflictPolicy::UpdateWins
}

pub fn default_icloud_uid_collision() -> (r: UidCollisionPolicy)
    ensures
        r == UidCollisionPolicy::IgnoreKnown,
{
    UidCollisionPolicy::IgnoreKnown
}

// ---------------------------------------------------------------- credentials
/// The service name under which secrets live in the OS secret store.
pub open spec fn secret_service() -> Seq<char> {
    "insync"@
}

pub struct ResolvedGoogleCredentials {
    pub client_id: Option<String>,
    pub client_secret: Option<String>,
    pub refresh_token: Option<String>,
}

pub struct ResolvedIcloudCredentials {
    pub username: Option<String>,
    pub app_specific_password: Option<String>,
    pub caldav_url: String,
}

pub struct ResolvedCredentials {
    pub google: ResolvedGoogleCredentials,
    pub icloud: ResolvedIcloudCredentials,
}

pub open spec fn keyed(prefix: Seq<char>, label: Seq<char>, suffix: Seq<char>) -> Seq<char> {
    prefix + label + suffix
}

fn key_text(prefix: &str, label: &str, suffix: &str) -> (r: String)
    ensures
        r@ == keyed(prefix@, label@, suffix@),
{
    let mut out = owned(prefix);
    append_str(&mut out, label);
    append_str(&mut out, suffix);
    out
}

/// `google:<label>:client-secret`
pub fn google_client_secret_key(account_label: &str) -> (r: String)
    ensures
        r@ == keyed("google:"@, account_label@, ":client-secret"@),
{
    key_text("google:", account_label, ":client-secret")
}

/// `google:<label>:refresh-token`
pub fn google_refresh_token_key(account_label: &str) -> (r: String)
    ensures
        r@ == keyed("google:"@, account_label@, ":refresh-token"@),
{
    key_text("google:", account_label, ":refresh-token")
}

/// `icloud:<label>:app-specific-password`
pub fn icloud_app_password_key(account_label: &str) -> (r: String)
    ensures
        r@ == keyed("icloud:"@, account_label@, ":app-specific-password"@),
{
    key_text("icloud:", account_label, ":app-specific-password")
}

/// The credentials exactly as the configuration file holds them.
pub fn inline_credentials(config: &ServiceConfig) -> (r: ResolvedCredentials)
    ensures
        r.google.client_id == config.google.client_id,
        r.google.client_secret == config.google.client_secret,
        r.google.refresh_token == config.google.refresh_token,
        r.icloud.username == config.icloud.username,
        r.icloud.app_specific_password == config.icloud.app_specific_password,
        r.icloud.caldav_url == config.icloud.caldav_url,
{
    ResolvedCredentials {
        google: ResolvedGoogleCredentials {
            client_id: clone_opt(&config.google.client_id),
            client_secret: clone_opt(&config.google.client_secret),
            refresh_token: clone_opt(&config.google.refresh_token),
        },
        icloud: ResolvedIcloudCredentials {
            username: clone_opt(&config.icloud.username),
            app_specific_password: clone_opt(&config.icloud.app_specific_password),
            caldav_url: config.icloud.caldav_url.clone(),
        },
    }
}

/// A secret to write to the OS secret store under `key`.
pub struct SecretWrite {
    pub key: String,
    pub value: String,
}

/// The secrets a configuration keeps in the OS store: the Google client
/// secret, the Google refresh token and the iCloud app password, in that order.
pub struct SecretKeys {
    pub google_client_secret: String,
    pub google_refresh_token: String,
    pub icloud_app_password: String,
}

pub fn secret_keys(config: &ServiceConfig) -> (r: SecretKeys)
    ensures
        r.google_client_secret@ == keyed("google:"@, config.google.account_label@, ":client-secret"@),
        r.google_refresh_token@ == keyed("google:"@, config.google.account_label@, ":refresh-token"@),
        r.icloud_app_password@ == keyed(
            "icloud:"@,
            config.icloud.account_label@,
            ":app-specific-password"@,
        ),
{
    SecretKeys {
        google_client_secret: google_client_secret_key(config.google.account_label.as_str()),
        google_refresh_token: google_refresh_token_key(config.google.account_label.as_str()),
        icloud_app_password: icloud_app_password_key(config.icloud.account_label.as_str()),
    }
}

/// What resolving credentials asks of its caller.
pub enum CredentialResolution {
    /// The secret store is `none`: the inline credentials are the answer.
    Resolved(ResolvedCredentials),
    /// The secret store is `os`: write these secrets to the store, save the
    /// configuration if any were written (they have been taken out of it),
    /// then read the three keys and call `credentials_from_store`.
    UseSecretStore { writes: Vec<SecretWrite>, keys: SecretKeys },
}

/// The secret writes an `os`-store configuration calls for, as (key, value)
/// pairs: the Google client secret, the Google refresh token and the iCloud
/// app password, in that order, each only where the configuration holds it.
pub open spec fn expected_secret_writes(c: ServiceConfig) -> Seq<(Seq<char>, Seq<char>)> {
    optional_write(c.google.client_secret, keyed("google:"@, c.google.account_label@, ":client-secret"@))
        + optional_write(
        c.google.refresh_token,
        keyed("google:"@, c.google.account_label@, ":refresh-token"@),
    ) + optional_write(
        c.icloud.app_specific_password,
        keyed("icloud:"@, c.icloud.account_label@, ":app-specific-password"@),
    )
}

pub open spec fn optional_write(v: Option<String>, key: Seq<char>) -> Seq<(Seq<char>, Seq<char>)> {
    match v {
        Some(s) => seq![(key, s@)],
        None => Seq::empty(),
    }
}

/// The (key, value) pairs of a list of writes.
pub open spec fn write_pairs(w: Seq<SecretWrite>) -> Seq<(Seq<char>, Seq<char>)> {
    w.map_values(|x: SecretWrite| (x.key@, x.value@))
}

/// The credentials are those the configuration holds inline.
pub open spec fn holds_inline_credentials(r: ResolvedCredentials, c: ServiceConfig) -> bool {
    &&& r.google.client_id == c.google.client_id
    &&& r.google.client_secret == c.google.client_secret
    &&& r.google.refresh_token == c.google.refresh_token
    &&& r.icloud.username == c.icloud.username
    &&& r.icloud.app_specific_password == c.icloud.app_specific_password
    &&& r.icloud.caldav_url == c.icloud.caldav_url
}

/// The keys are the three secret-store keys of the configuration's accounts.
pub open spec fn are_secret_keys_of(k: SecretKeys, c: ServiceConfig) -> bool {
    &&& k.google_client_secret@ == keyed("google:"@, c.google.account_label@, ":client-secret"@)
    &&& k.google_refresh_token@ == keyed("google:"@, c.google.account_label@, ":refresh-token"@)
    &&& k.icloud_app_password@ == keyed(
        "icloud:"@,
        c.icloud.account_label@,
        ":app-specific-password"@,
    )
}

/// Resolves credentials (`resolve_credentials`): with the `none` store the
/// inline values; with the `os` store, every inline secret is taken out of
/// the configuration and handed back as a write to the store, in the order
/// client secret, refresh token, app password, together with the three keys
/// to read back.
pub fn resolve_credentials(config: &mut ServiceConfig) -> (r: CredentialResolution)
    ensures
        old(config).secret_store == SecretStoreKind::Inline ==> {
            &&& *final(config) == *old(config)
            &&& r matches CredentialResolution::Resolved(c) && holds_inline_credentials(
                c,
                *old(config),
            )
        },
        old(config).secret_store == SecretStoreKind::Os ==> {
            &&& r is UseSecretStore
            &&& final(config).google.client_secret is None
            &&& final(config).google.refresh_token is None
            &&& final(config).icloud.app_specific_password is None
            &&& final(config).google.client_id == old(config).google.client_id
            &&& final(config).google.account_label == old(config).google.account_label
            &&& final(config).icloud.account_label == old(config).icloud.account_label
            &&& final(config).icloud.username == old(config).icloud.username
            &&& final(config).icloud.caldav_url == old(config).icloud.caldav_url
            &&& final(config).secret_store == old(config).secret_store
            &&& final(config).db_path == old(config).db_path
            &&& final(config).log_level == old(config).log_level
            &&& final(config).version == old(config).version
            &&& final(config).sync == old(config).sync
            &&& write_pairs(r->writes@) == expected_secret_writes(*old(config))
            &&& are_secret_keys_of(r->keys, *old(config))
        },
{
    match config.secret_store {
        SecretStoreKind::Inline => CredentialResolution::Resolved(inline_credentials(config)),
        SecretStoreKind::Os => {
            let ghost before = *config;
            let keys = secret_keys(config);
            let mut writes: Vec<SecretWrite> = Vec::new();
            let a = config.google.client_secret.take();
            match a {
                Some(v) => writes.push(
                    SecretWrite { key: google_client_secret_key(config.google.account_label.as_str()), value: v },
                ),
                None => {},
            }
            assert(write_pairs(writes@) =~= optional_write(
                before.google.client_secret,
                keyed("google:"@, before.google.account_label@, ":client-secret"@),
            ));
            let ghost after_a = writes@;
            let b = config.google.refresh_token.take();
            match b {
                Some(v) => writes.push(
                    SecretWrite { key: google_refresh_token_key(config.google.account_label.as_str()), value: v },
                ),
                None => {},
            }
            assert(write_pairs(writes@) =~= write_pairs(after_a) + optional_write(
                before.google.refresh_token,
                keyed("google:"@, before.google.account_label@, ":refresh-token"@),
            ));
            let ghost after_b = writes@;
            let c = config.icloud.app_specific_password.take();
            match c {
                Some(v) => writes.push(
                    SecretWrite { key: icloud_app_password_key(config.icloud.account_label.as_str()), value: v },
                ),
                None => {},
            }
            assert(write_pairs(writes@) =~= write_pairs(after_b) + optional_write(
                before.icloud.app_specific_password,
                keyed("icloud:"@, before.icloud.account_label@, ":app-specific-password"@),
            ));
            assert(write_pairs(writes@) =~= expected_secret_writes(before));
            CredentialResolution::UseSecretStore { writes, keys }
        },
    }
}

/// The credentials of an `os`-store configuration, given the three secrets as
/// read from the store (absent where the store has no entry).
pub fn credentials_from_store(
    config: &ServiceConfig,
    client_secret: Option<String>,
    refresh_token: Option<String>,
    app_password: Option<String>,
) -> (r: ResolvedCredentials)
    ensures
        r.google.client_id == config.google.client_id,
        r.google.client_secret == client_secret,
        r.google.refresh_token == refresh_token,
        r.icloud.username == config.icloud.username,
        r.icloud.app_specific_password == app_password,
        r.icloud.caldav_url == config.icloud.caldav_url,
{
    ResolvedCredentials {
        google: ResolvedGoogleCredentials {
            client_id: clone_opt(&config.google.client_id),
            client_secret,
            refresh_token,
        },
        icloud: ResolvedIcloudCredentials {
            username: clone_opt(&config.icloud.username),
            app_specific_password: app_password,
            caldav_url: config.icloud.caldav_url.clone(),
        },
    }
}

/// Records a new Google refresh token (`store_google_refresh_token`): inline
/// with the `none` store; with the `os` store it is handed back as a write to
/// the store and removed from the configuration. The caller saves the
/// configuration afterwards in either case.
pub fn store_google_refresh_token(config: &mut ServiceConfig, refresh_token: &str) -> (r: Option<
    SecretWrite,
>)
    ensures
        final(config).secret_store == old(config).secret_store,
        final(config).google.account_label == old(config).google.account_label,
        final(config).google.client_id == old(config).google.client_id,
        final(config).google.client_secret == old(config).google.client_secret,
        final(config).icloud == old(config).icloud,
        old(config).secret_store == SecretStoreKind::Inline ==> r is None,
        old(config).secret_store == SecretStoreKind::Inline ==> (final(config).google.refresh_token matches Some(t) && t@ == refresh_token@),
        old(config).secret_store == SecretStoreKind::Os ==> final(config).google.refresh_token is None,
        old(config).secret_store == SecretStoreKind::Os ==> (r matches Some(w) && w.value@ == refresh_token@ && w.key@ == keyed(
            "google:"@,
            old(config).google.account_label@,
            ":refresh-token"@,
        )),
{
    match config.secret_store {
        SecretStoreKind::Inline => {
            config.google.refresh_token = Some(owned(refresh_token));
            None
        },
        SecretStoreKind::Os => {
            let key = google_refresh_token_key(config.google.account_label.as_str());
            config.google.refresh_token = None;
            Some(SecretWrite { key, value: owned(refresh_token) })
        },
    }
}

/// Records a Google client secret the way `store_google_refresh_token` records
/// a refresh token: inline with the `none` store, handed back as a write to
/// the OS store (and removed from the configuration) with the `os` store.
pub fn store_google_client_secret(config: &mut ServiceConfig, client_secret: &str) -> (r: Option<SecretWrite>)
    ensures
        final(config).secret_store == old(config).secret_store,
        final(config).google.account_label == old(config).google.account_label,
        final(config).google.client_id == old(config).google.client_id,
        final(config).google.refresh_token == old(config).google.refresh_token,
        final(config).icloud == old(config).icloud,
        old(config).secret_store == SecretStoreKind::Inline ==> r is None,
        old(config).secret_store == SecretStoreKind::Inline ==> (final(config).google.client_secret matches Some(t) && t@ == client_secret@),
        old(config).secret_store == SecretStoreKind::Os ==> final(config).google.client_secret is None,
        old(config).secret_store == SecretStoreKind::Os ==> (r matches Some(w) && w.value@ == client_secret@ && w.key@ == keyed(
            "google:"@,
            old(config).google.account_label@,
            ":client-secret"@,
        )),
{
    match config.secret_store {
        SecretStoreKind::Inline => {
            config.google.client_secret = Some(owned(client_secret));
            None
        },
        SecretStoreKind::Os => {
            let key = google_client_secret_key(config.google.account_label.as_str());
            config.google.client_secret = None;
            Some(SecretWrite { key, value: owned(client_secret) })
        },
    }
}

/// Records an iCloud app-specific password in the same way.
pub fn store_icloud_app_password(config: &mut ServiceConfig, app_password: &str) -> (r: Option<SecretWrite>)
    ensures
        final(config).secret_store == old(config).secret_store,
        final(config).google == old(config).google,
        final(config).icloud.account_label == old(config).icloud.account_label,
        final(config).icloud.username == old(config).icloud.username,
        final(config).icloud.caldav_url == old(config).icloud.caldav_url,
        old(config).secret_store == SecretStoreKind::Inline ==> r is None,
        old(config).secret_store == SecretStoreKind::Inline ==> (final(config).icloud.app_specific_password matches Some(t) && t@ == app_password@),
        old(config).secret_store == SecretStoreKind::Os ==> final(config).icloud.app_specific_password is None,
        old(config).secret_store == SecretStoreKind::Os ==> (r matches Some(w) && w.value@ == app_password@ && w.key@ == keyed(
            "icloud:"@,
            old(config).icloud.account_label@,
            ":app-specific-password"@,
        )),
{
    match config.secret_store {
        SecretStoreKind::Inline => {
            config.icloud.app_specific_password = Some(owned(app_password));
            None
        },
        SecretStoreKind::Os => {
            let key = icloud_app_password_key(config.icloud.account_label.as_str());
            config.icloud.app_specific_password = None;
            Some(SecretWrite { key, value: owned(app_password) })
        },
    }
}

} // verus!

//! The command line's setup steps that change the configuration: a new
//! configuration, adding or replacing a calendar pair, and the account
//! details given on the command line.
use crate::config::{SecretStoreKind, ServiceConfig, SyncPairConfig};
use crate::event_hash::opt_view;
use crate::policy::SyncDirection;
use crate::text::{append_str, chars_of, owned, str_eq, string_from_chars, trim, trim_chars};
use vstd::prelude::*;

verus! {

/// A value given on the command line, trimmed, when it is not blank.
pub open spec fn given(v: Option<Seq<char>>) -> Option<Seq<char>> {
    match v {
        Some(s) => if trim(s).len() > 0 {
            Some(trim(s))
        } else {
            None
        },
        None => None,
    }
}

pub fn optional_setup_value(value: Option<String>) -> (r: Option<String>)
    ensures
        opt_view(r) == given(opt_view(value)),
{
    match value {
        Some(v) => {
            let cs = chars_of(v.as_str());
            let t = trim_chars(&cs);
            if t.len() > 0 {
                Some(string_from_chars(t.as_slice()))
            } else {
                None
            }
        },
        None => None,
    }
}

/// A value the step cannot do without; the error names the flag.
pub fn required_setup_value(value: Option<String>, flag: &str) -> (r: Result<String, String>)
    ensures
        match r {
            Ok(v) => given(opt_view(value)) == Some(v@),
            Err(message) => given(opt_view(value)) is None && message@ == flag@ + " is required"@,
        },
{
    match optional_setup_value(value) {
        Some(v) => Ok(v),
        None => {
            let mut m = owned(flag);
            append_str(&mut m, " is required");
            Err(m)
        },
    }
}

/// The directions the setup command offers.
#[derive(Debug, Clone, Copy, PartialEq, Eq, Structural)]
pub enum SetupDirection {
    TwoWay,
    GoogleToIcloud,
    IcloudToGoogle,
}

pub fn setup_direction(d: SetupDirection) -> (r: SyncDirection)
    ensures
        r == (match d {
            SetupDirection::TwoWay => SyncDirection::TwoWay,
            SetupDirection::GoogleToIcloud => SyncDirection::LeftToRight,
            SetupDirection::IcloudToGoogle => SyncDirection::RightToLeft,
        }),
{
    match d {
        SetupDirection::TwoWay => SyncDirection::TwoWay,
        SetupDirection::GoogleToIcloud => SyncDirection::LeftToRight,
        SetupDirection::IcloudToGoogle => SyncDirection::RightToLeft,
    }
}

/// The secret stores the setup command offers.
#[derive(Debug, Clone, Copy, PartialEq, Eq, Structural)]
pub enum SetupSecretStore {
    Inline,
    Os,
}

/// A fresh configuration with the chosen secret store.
pub fn initial_config(store: SetupSecretStore) -> (r: ServiceConfig)
    ensures
        r.secret_store == (match store {
            SetupSecretStore::Inline => SecretStoreKind::Inline,
            SetupSecretStore::Os => SecretStoreKind::Os,
        }),
        r.version == 1,
        r.db_path@ == ".insync/insync.db"@,
        r.log_level@ == "info"@,
        r.google.account_label@ == "personal"@,
        r.google.client_id is None,
        r.google.client_secret is None,
        r.google.refresh_token is None,
        r.icloud.account_label@ == "personal"@,
        r.icloud.username is None,
        r.icloud.app_specific_password is None,
        r.icloud.caldav_url@ == "https://caldav.icloud.com"@,
        r.sync.poll_interval_seconds == 300,
        r.sync.pairs@.len() == 0,
{
    let mut c = ServiceConfig::default();
    c.secret_store = match store {
        SetupSecretStore::Inline => SecretStoreKind::Inline,
        SetupSecretStore::Os => SecretStoreKind::Os,
    };
    c
}

pub open spec fn pair_index(pairs: Seq<SyncPairConfig>, id: Seq<char>) -> Option<int>
    decreases pairs.len(),
{
    if pairs.len() == 0 {
        None
    } else {
        match pair_index(pairs.drop_last(), id) {
            Some(k) => Some(k),
            None => if pairs.last().id@ == id {
                Some(pairs.len() - 1)
            } else {
                None
            },
        }
    }
}

/// Why a pair was not added.
#[derive(Debug, Clone)]
pub struct PairExists {
    pub pair_id: String,
}

/// Adds a pair, or replaces the first pair with its id when `force` is
/// given; without `force` an existing id is refused and nothing changes.
pub fn add_pair(config: &mut ServiceConfig, pair: SyncPairConfig, force: bool) -> (r: Result<(), PairExists>)
    ensures
        match pair_index(old(config).sync.pairs@, pair.id@) {
            Some(k) => if force {
                r is Ok && final(config).sync.pairs@ == old(config).sync.pairs@.update(k, pair)
            } else {
                (r matches Err(e) && e.pair_id == pair.id) && final(config).sync.pairs@ == old(config).sync.pairs@
            },
            None => r is Ok && final(config).sync.pairs@ == old(config).sync.pairs@.push(pair),
        },
        *final(config) == (ServiceConfig {
            sync: crate::config::SyncConfig { pairs: final(config).sync.pairs, ..old(config).sync },
            ..*old(config)
        }),
{
    let mut i: usize = 0;
    let n = config.sync.pairs.len();
    while i < n
        invariant
            n == config.sync.pairs@.len(),
            *config == *old(config),
            i <= n,
            forall|k: int| 0 <= k < i ==> config.sync.pairs@[k].id@ != pair.id@,
        decreases n - i,
    {
        if str_eq(config.sync.pairs[i].id.as_str(), pair.id.as_str()) {
            proof {
                lemma_pair_index_first(config.sync.pairs@, pair.id@, i as int);
            }
            if !force {
                return Err(PairExists { pair_id: pair.id });
            }
            config.sync.pairs.set(i, pair);
            return Ok(());
        }
        i = i + 1;
    }
    proof {
        lemma_pair_index_none(config.sync.pairs@, pair.id@);
    }
    config.sync.pairs.push(pair);
    Ok(())
}

proof fn lemma_pair_index_first(pairs: Seq<SyncPairConfig>, id: Seq<char>, i: int)
    requires
        0 <= i < pairs.len(),
        pairs[i].id@ == id,
        forall|k: int| 0 <= k < i ==> pairs[k].id@ != id,
    ensures
        pair_index(pairs, id) == Some(i),
    decreases pairs.len(),
{
    if i < pairs.len() - 1 {
        lemma_pair_index_first(pairs.drop_last(), id, i);
    } else {
        lemma_pair_index_none(pairs.drop_last(), id);
    }
}

proof fn lemma_pair_index_none(pairs: Seq<SyncPairConfig>, id: Seq<char>)
    requires
        forall|k: int| 0 <= k < pairs.len() ==> pairs[k].id@ != id,
    ensures
        pair_index(pairs, id) is None,
    decreases pairs.len(),
{
    if pairs.len() > 0 {
        lemma_pair_index_none(pairs.drop_last(), id);
    }
}

/// The account details given to the credentials step.
#[derive(Debug, Clone)]
pub struct SetupCredentialsInput {
    pub google_account_label: Option<String>,
    pub google_client_id: Option<String>,
    pub google_client_secret: Option<String>,
    pub icloud_account_label: Option<String>,
    pub icloud_username: Option<String>,
    pub icloud_app_password: Option<String>,
    pub icloud_caldav_url: Option<String>,
}

/// The secrets of the credentials step, to be stored after the
/// configuration is saved.
#[derive(Debug, Clone)]
pub struct SetupSecrets {
    pub google_client_secret: Option<String>,
    pub icloud_app_password: Option<String>,
}

/// Writes the given, non-blank account details into the configuration and
/// hands back the given secrets.
pub fn apply_credentials_input(config: &mut ServiceConfig, input: SetupCredentialsInput) -> (r: SetupSecrets)
    ensures
        opt_view(r.google_client_secret) == given(opt_view(input.google_client_secret)),
        opt_view(r.icloud_app_password) == given(opt_view(input.icloud_app_password)),
        final(config).google.account_label@ == (match given(opt_view(input.google_account_label)) {
            Some(v) => v,
            None => old(config).google.account_label@,
        }),
        opt_view(final(config).google.client_id) == (match given(opt_view(input.google_client_id)) {
            Some(v) => Some(v),
            None => opt_view(old(config).google.client_id),
        }),
        final(config).icloud.account_label@ == (match given(opt_view(input.icloud_account_label)) {
            Some(v) => v,
            None => old(config).icloud.account_label@,
        }),
        opt_view(final(config).icloud.username) == (match given(opt_view(input.icloud_username)) {
            Some(v) => Some(v),
            None => opt_view(old(config).icloud.username),
        }),
        final(config).icloud.caldav_url@ == (match given(opt_view(input.icloud_caldav_url)) {
            Some(v) => v,
            None => old(config).icloud.caldav_url@,
        }),
        final(config).google.client_secret == old(config).google.client_secret,
        final(config).google.refresh_token == old(config).google.refresh_token,
        final(config).icloud.app_specific_password == old(config).icloud.app_specific_password,
        final(config).sync == old(config).sync,
        final(config).secret_store == old(config).secret_store,
        final(config).db_path == old(config).db_path,
        final(config).log_level == old(config).log_level,
        final(config).version == old(config).version,
{
    match optional_setup_value(input.google_account_label) {
        Some(v) => config.google.account_label = v,
        None => {},
    }
    match optional_setup_value(input.google_client_id) {
        Some(v) => config.google.client_id = Some(v),
        None => {},
    }
    match optional_setup_value(input.icloud_account_label) {
        Some(v) => config.icloud.account_label = v,
        None => {},
    }
    match optional_setup_value(input.icloud_username) {
        Some(v) => config.icloud.username = Some(v),
        None => {},
    }
    match optional_setup_value(input.icloud_caldav_url) {
        Some(v) => config.icloud.caldav_url = v,
        None => {},
    }
    SetupSecrets {
        google_client_secret: optional_setup_value(input.google_client_secret),
        icloud_app_password: optional_setup_value(input.icloud_app_password),
    }
}

} // verus!

use insync::config::{
    google_client_secret_key, google_refresh_token_key, icloud_app_password_key, resolve_credentials,
    store_google_refresh_token, CredentialResolution, GoogleConfig, IcloudConfig, SecretStoreKind,
    ServiceConfig,
};

fn config() -> ServiceConfig {
    ServiceConfig {
        google: GoogleConfig {
            account_label: "personal".to_string(),
            client_id: Some("client-id".to_string()),
            client_secret: Some("client-secret".to_string()),
            refresh_token: Some("refresh-token".to_string()),
        },
        icloud: IcloudConfig {
            account_label: "personal".to_string(),
            username: Some("me@example.com".to_string()),
            app_specific_password: Some("app-password".to_string()),
            ..IcloudConfig::default()
        },
        ..ServiceConfig::default()
    }
}

#[test]
fn secret_keys_are_stable_and_account_scoped() {
    assert_eq!(google_client_secret_key("personal"), "google:personal:client-secret");
    assert_eq!(google_refresh_token_key("personal"), "google:personal:refresh-token");
    assert_eq!(icloud_app_password_key("personal"), "icloud:personal:app-specific-password");
}

#[test]
fn resolves_inline_credentials_when_secret_store_is_none() {
    let mut config = config();
    config.secret_store = SecretStoreKind::Inline;

    let credentials = match resolve_credentials(&mut config) {
        CredentialResolution::Resolved(credentials) => credentials,
        CredentialResolution::UseSecretStore { .. } => panic!("inline store must resolve directly"),
    };

    assert_eq!(credentials.google.client_id.as_deref(), Some("client-id"));
    assert_eq!(credentials.google.client_secret.as_deref(), Some("client-secret"));
    assert_eq!(credentials.google.refresh_token.as_deref(), Some("refresh-token"));
    assert_eq!(credentials.icloud.app_specific_password.as_deref(), Some("app-password"));
}

#[test]
fn stores_google_refresh_token_inline_when_secret_store_is_none() {
    let mut config = config();
    config.secret_store = SecretStoreKind::Inline;

    let write = store_google_refresh_token(&mut config, "new-token");

    assert!(write.is_none());
    assert_eq!(config.google.refresh_token.as_deref(), Some("new-token"));
}

#[test]
fn os_store_moves_secrets_out_of_the_config() {
    let mut config = config();
    config.secret_store = SecretStoreKind::Os;
    match resolve_credentials(&mut config) {
        CredentialResolution::UseSecretStore { writes, keys } => {
            assert_eq!(writes.len(), 3);
            assert_eq!(keys.google_client_secret, "google:personal:client-secret");
        }
        CredentialResolution::Resolved(_) => panic!("os store must go through the secret store"),
    }
    assert!(config.google.client_secret.is_none());
    assert!(config.google.refresh_token.is_none());
    assert!(config.icloud.app_specific_password.is_none());
    assert_eq!(config.google.client_id.as_deref(), Some("client-id"));

    let write = store_google_refresh_token(&mut config, "fresh").unwrap();
    assert_eq!(write.key, "google:personal:refresh-token");
    assert_eq!(write.value, "fresh");
    assert!(config.google.refresh_token.is_none());
}

#[test]
fn default_config_values() {
    let config = ServiceConfig::default();
    assert_eq!(config.version, 1);
    assert_eq!(config.db_path, ".insync/insync.db");
    assert_eq!(config.log_level, "info");
    assert_eq!(config.icloud.caldav_url, "https://caldav.icloud.com");
    assert_eq!(config.sync.poll_interval_seconds, 300);
    assert!(config.sync.pairs.is_empty());
}

#[test]
fn os_store_writes_each_secret_once_in_order() {
    let mut config = config();
    config.secret_store = SecretStoreKind::Os;
    config.google.refresh_token = None;
    match resolve_credentials(&mut config) {
        CredentialResolution::UseSecretStore { writes, keys } => {
            let pairs: Vec<(&str, &str)> =
                writes.iter().map(|w| (w.key.as_str(), w.value.as_str())).collect();
            assert_eq!(
                pairs,
                vec![
                    ("google:personal:client-secret", "client-secret"),
                    ("icloud:personal:app-specific-password", "app-password"),
                ]
            );
            assert_eq!(keys.google_refresh_token, "google:personal:refresh-token");
            assert_eq!(keys.icloud_app_password, "icloud:personal:app-specific-password");
        }
        CredentialResolution::Resolved(_) => panic!("os store must go through the secret store"),
    }
}

#[test]
fn default_config_conflict_policies() {
    let config = ServiceConfig::default();
    assert_eq!(config.sync.conflict_policy, insync::policy::ConflictPolicy::Manual);
    assert_eq!(config.sync.conflicts.delete_vs_update, insync::policy::DeleteConflictPolicy::UpdateWins);
    assert_eq!(config.sync.conflicts.icloud_uid_collision, insync::policy::UidCollisionPolicy::IgnoreKnown);
}

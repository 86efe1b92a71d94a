use insync::config::{ServiceConfig, SyncPairConfig};
use insync::config_check::{
    accept_loaded_version, config_problem_list, normalize_version, validate_config, ConfigProblem, CURRENT_CONFIG_VERSION,
};
use insync::event::ProviderName;
use insync::policy::SyncDirection;

fn pair(id: &str, google: &str, icloud: &str) -> SyncPairConfig {
    SyncPairConfig {
        id: id.to_string(),
        enabled: true,
        direction: SyncDirection::TwoWay,
        google_calendar_id: google.to_string(),
        icloud_calendar_id: icloud.to_string(),
    }
}

#[test]
fn default_config_is_valid() {
    assert!(validate_config(&ServiceConfig::default()).is_ok());
    let mut config = ServiceConfig::default();
    config.sync.pairs = vec![pair("personal", "primary", "https://caldav.example/cal/")];
    assert!(validate_config(&config).is_ok());
}

#[test]
fn older_versions_are_brought_up_to_date_and_newer_ones_refused() {
    let mut config = ServiceConfig { version: 0, ..ServiceConfig::default() };
    normalize_version(&mut config);
    assert_eq!(config.version, CURRENT_CONFIG_VERSION);
    let mut future = ServiceConfig { version: CURRENT_CONFIG_VERSION + 1, ..ServiceConfig::default() };
    normalize_version(&mut future);
    assert_eq!(future.version, CURRENT_CONFIG_VERSION + 1);
    match validate_config(&future) {
        Err(ConfigProblem::FutureVersion(v)) => assert_eq!(v, CURRENT_CONFIG_VERSION + 1),
        other => panic!("unexpected {other:?}"),
    }
}

#[test]
fn loading_raises_old_versions_and_refuses_newer_ones() {
    let mut old = ServiceConfig { version: 0, ..ServiceConfig::default() };
    assert!(accept_loaded_version(&mut old).is_ok());
    assert_eq!(old.version, CURRENT_CONFIG_VERSION);
    let mut newer = ServiceConfig { version: CURRENT_CONFIG_VERSION + 2, ..ServiceConfig::default() };
    match accept_loaded_version(&mut newer) {
        Err(ConfigProblem::FutureVersion(v)) => assert_eq!(v, CURRENT_CONFIG_VERSION + 2),
        other => panic!("unexpected {other:?}"),
    }
    assert_eq!(newer.version, CURRENT_CONFIG_VERSION + 2);
}

#[test]
fn each_field_problem_is_reported() {
    let mut config = ServiceConfig::default();
    config.db_path = "  ".to_string();
    assert!(matches!(validate_config(&config), Err(ConfigProblem::EmptyDbPath)));

    let mut config = ServiceConfig::default();
    config.log_level = String::new();
    assert!(matches!(validate_config(&config), Err(ConfigProblem::EmptyLogLevel)));

    let mut config = ServiceConfig::default();
    config.icloud.account_label = " ".to_string();
    assert!(matches!(validate_config(&config), Err(ConfigProblem::EmptyAccountLabel(ProviderName::Icloud))));

    let mut config = ServiceConfig::default();
    config.icloud.caldav_url = "caldav.icloud.com".to_string();
    match validate_config(&config) {
        Err(problem) => {
            assert!(matches!(problem, ConfigProblem::InvalidCaldavUrl(_)));
            assert_eq!(problem.message(), "icloud.caldavUrl must be an http(s) URL with a host: caldav.icloud.com");
        }
        Ok(()) => panic!("a URL without a scheme passed"),
    }
    let mut config = ServiceConfig::default();
    config.icloud.caldav_url = "ftp://caldav.icloud.com".to_string();
    assert!(matches!(validate_config(&config), Err(ConfigProblem::InvalidCaldavUrl(_))));

    let mut config = ServiceConfig::default();
    config.sync.poll_interval_seconds = 0;
    assert!(matches!(validate_config(&config), Err(ConfigProblem::ZeroPollInterval)));
}

#[test]
fn pair_problems_come_in_pair_order() {
    let mut config = ServiceConfig::default();
    config.sync.pairs = vec![
        pair("personal", "primary", "https://caldav.example/a/"),
        pair("work", "", "https://caldav.example/b/"),
        pair("personal", "other", " "),
    ];
    let problems = config_problem_list(&config);
    let messages: Vec<String> = problems.iter().map(|p| p.message()).collect();
    assert_eq!(
        messages,
        vec![
            "sync pair work has an empty googleCalendarId",
            "duplicate sync pair id: personal",
            "sync pair personal has an empty icloudCalendarId"
        ]
    );
    match validate_config(&config) {
        Err(ConfigProblem::EmptyCalendarId { pair_id, provider }) => {
            assert_eq!(pair_id, "work");
            assert_eq!(provider, ProviderName::Google);
        }
        other => panic!("unexpected {other:?}"),
    }
}

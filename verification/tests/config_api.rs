//! Tests of the config parsing, the API shapes, and the keyring front-end.

use fits::common::{Config, LocalError, State};
use fits::db::DbConnector;
use fits::local::keyring::{get_username, save_credentials};
use fits::local::load_config;
use fits::ApiConfig;

#[test]
fn test_config_creation() {
    let config = ApiConfig::new("http://example.com".to_string());
    assert_eq!(config.base_url, "http://example.com");
}

#[test]
fn load_config_reads_the_student_flag() {
    let config = load_config("is_student = false\n").unwrap();
    assert!(!config.is_student);
    let config = load_config("is_student = true\n").unwrap();
    assert!(config.is_student);
}

#[test]
fn load_config_ignores_unrelated_keys() {
    let config = load_config("other = 3\nis_student = true\n").unwrap();
    assert!(config.is_student);
}

#[test]
fn load_config_rejects_broken_or_incomplete_text() {
    assert!(matches!(
        load_config("this is not toml [["),
        Err(LocalError::ConfigError)
    ));
    assert!(matches!(
        load_config("student = true\n"),
        Err(LocalError::ConfigError)
    ));
    assert!(matches!(
        load_config("is_student = \"yes\"\n"),
        Err(LocalError::ConfigError)
    ));
}

#[test]
fn default_config_is_for_a_student() {
    let config = Config::default();
    assert!(config.is_student);
}

#[test]
fn state_bundles_a_connector_with_credentials() {
    let (conn, _actor) = DbConnector::open_in_memory().unwrap();
    let _state = State::new(conn, "user".to_string(), "secret".to_string());
}

#[test]
fn keyring_reads_fail_cleanly_without_a_store() {
    // This build carries no platform credential store, so the keyring
    // reports an error instead of a credential; the library maps every such
    // outcome to KeyringError rather than panicking.
    assert!(matches!(get_username(), Err(LocalError::KeyringError)));
}

#[test]
fn keyring_saves_do_not_panic() {
    // With the fallback store, saving succeeds or reports KeyringError;
    // either way it must return, not panic.
    let result = save_credentials("someone", "secret");
    assert!(matches!(result, Ok(()) | Err(LocalError::KeyringError)));
}

//! The configuration.
use std::time::Duration;

use control_plane::auth::AuthConfig;
use control_plane::config::{
    ControlPlaneConfig, PostgresStoreConfig, StoreProviderConfig, StoreProviderName,
};

#[test]
fn parses_postgres_provider_name_case_insensitively() {
    assert_eq!(
        StoreProviderName::from_str(" PostgreSQL ")
            .expect_err("only canonical name is accepted")
            .value(),
        " PostgreSQL "
    );
    assert_eq!(
        StoreProviderName::from_str("Postgres").expect("postgres provider is supported"),
        StoreProviderName::Postgres
    );
}

#[test]
fn validates_postgres_connection_url_presence() {
    let error = PostgresStoreConfig::new("\t").expect_err("connection URL is required");

    assert_eq!(error.field(), "postgres.connection_url");
}

#[test]
fn postgres_capacity_is_bounded_before_pool_allocation() {
    let mut config = PostgresStoreConfig::new("postgres://example").unwrap();
    for capacity in [1, PostgresStoreConfig::MAX_CONNECTIONS] {
        config.max_connections = capacity;
        assert_eq!(config.validate_limits(), Ok(()));
    }
    for capacity in [0, PostgresStoreConfig::MAX_CONNECTIONS + 1, usize::MAX] {
        config.max_connections = capacity;
        assert_eq!(
            config.validate_limits(),
            Err("SLEEPYPODS_POSTGRES_MAX_CONNECTIONS")
        );
    }
}

#[test]
fn postgres_durations_are_bounded_whole_milliseconds() {
    type SetDuration = fn(&mut PostgresStoreConfig, Duration);
    let settings: [(&str, SetDuration, Duration); 4] = [
        (
            "SLEEPYPODS_POSTGRES_POOL_WAIT_TIMEOUT_MS",
            |config, value| config.pool_wait_timeout = value,
            PostgresStoreConfig::max_timeout(),
        ),
        (
            "SLEEPYPODS_POSTGRES_CONNECTION_TIMEOUT_MS",
            |config, value| config.connection_timeout = value,
            PostgresStoreConfig::max_timeout(),
        ),
        (
            "SLEEPYPODS_POSTGRES_STATEMENT_TIMEOUT_MS",
            |config, value| config.statement_timeout = value,
            PostgresStoreConfig::max_timeout(),
        ),
        (
            "SLEEPYPODS_POSTGRES_IDEMPOTENCY_RETENTION_MS",
            |config, value| config.idempotency_retention = Some(value),
            PostgresStoreConfig::max_idempotency_retention(),
        ),
    ];
    for (name, set_duration, maximum) in settings {
        let mut config = PostgresStoreConfig::new("postgres://example").unwrap();
        for valid in [Duration::from_millis(1), maximum] {
            set_duration(&mut config, valid);
            assert_eq!(config.validate_limits(), Ok(()), "{name}={valid:?}");
        }
        for invalid in [
            Duration::ZERO,
            Duration::from_nanos(1),
            Duration::from_micros(999),
            Duration::from_micros(1500),
            maximum + Duration::from_millis(1),
            Duration::from_millis(i64::MAX as u64),
            Duration::MAX,
        ] {
            set_duration(&mut config, invalid);
            assert_eq!(config.validate_limits(), Err(name), "{name}={invalid:?}");
        }
    }
}

#[test]
fn store_config_reports_selected_provider() {
    let config = StoreProviderConfig::Postgres(
        PostgresStoreConfig::new("postgres://example").expect("valid URL"),
    );

    assert_eq!(config.provider_name(), StoreProviderName::Postgres);
}

#[test]
fn control_plane_config_requires_explicit_auth_config() {
    let store = StoreProviderConfig::Postgres(
        PostgresStoreConfig::new("postgres://example").expect("valid URL"),
    );
    let config = ControlPlaneConfig::new(store.clone(), AuthConfig::NoAuth);

    assert_eq!(config.store, store);
    assert!(config.auth == AuthConfig::NoAuth);
}

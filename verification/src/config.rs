//! What the control plane is configured with.
use std::time::Duration;

use vstd::prelude::*;

use crate::auth::AuthConfig;
use crate::ids::EmptyStringError;
use crate::ids::NonEmptyString;
use crate::outcome;
use crate::text;
use crate::time;

verus! {

/// The kind of a store.
#[derive(Clone, Copy, Debug, PartialEq, Eq, Structural)]
pub enum StoreProviderName {
    Postgres,
}

impl DeepView for StoreProviderName {
    type V = StoreProviderName;

    open spec fn deep_view(&self) -> StoreProviderName {
        *self
    }
}

impl StoreProviderName {
    pub fn as_str(self) -> (r: &'static str)
        ensures
            r@ == "postgres"@,
    {
        match self {
            StoreProviderName::Postgres => "postgres",
        }
    }

    /// The name of the kind.
    pub fn to_string(self) -> (r: String)
        ensures
            r@ == "postgres"@,
    {
        self.as_str().to_owned()
    }

    /// The kind of that name, in any case and with white space around it.
    pub fn from_str(value: &str) -> (r: Result<Self, UnknownStoreProvider>)
        ensures
            outcome::of(r) == if text::ascii_lower(text::trimmed(value@)) == "postgres"@ {
                Ok(StoreProviderName::Postgres)
            } else {
                Err(value@)
            },
    {
        let name = value.trim().to_ascii_lowercase();
        if text::same(name.as_str(), "postgres") {
            Ok(StoreProviderName::Postgres)
        } else {
            Err(UnknownStoreProvider { value: value.to_owned() })
        }
    }
}

/// A name of no kind of store.
#[derive(Debug, PartialEq, Eq)]
pub struct UnknownStoreProvider {
    value: String,
}

impl View for UnknownStoreProvider {
    type V = Seq<char>;

    closed spec fn view(&self) -> Seq<char> {
        self.value@
    }
}

impl DeepView for UnknownStoreProvider {
    type V = Seq<char>;

    open spec fn deep_view(&self) -> Seq<char> {
        self@
    }
}

impl Clone for UnknownStoreProvider {
    fn clone(&self) -> (r: Self)
        ensures
            r.deep_view() == self.deep_view(),
    {
        UnknownStoreProvider { value: self.value.clone() }
    }
}

impl UnknownStoreProvider {
    pub fn value(&self) -> (r: &str)
        ensures
            r@ == self@,
    {
        self.value.as_str()
    }

    /// What the error says.
    pub fn to_string(&self) -> (r: String)
        ensures
            r@ == "unknown store provider "@ + text::debug_text(self@),
    {
        let shown = text::quoted(self.value.as_str());
        text::join2("unknown store provider ", shown.as_str())
    }
}

/// How the Postgres store is reached, and its limits.
#[derive(Debug, PartialEq, Eq)]
pub struct PostgresStoreConfig {
    pub connection_url: NonEmptyString,
    pub max_connections: usize,
    pub pool_wait_timeout: Duration,
    pub connection_timeout: Duration,
    pub statement_timeout: Duration,
    pub operation_timeout: Duration,
    /// None keeps idempotency keys as long as the database. A lifetime is fixed
    /// when a key is made.
    pub idempotency_retention: Option<Duration>,
}

/// What a [`PostgresStoreConfig`] holds, its spans in nanoseconds.
#[verifier::ext_equal]
pub struct PostgresStoreConfigView {
    pub connection_url: Seq<char>,
    pub max_connections: usize,
    pub pool_wait_timeout: u128,
    pub connection_timeout: u128,
    pub statement_timeout: u128,
    pub operation_timeout: u128,
    pub idempotency_retention: Option<u128>,
}

impl DeepView for PostgresStoreConfig {
    type V = PostgresStoreConfigView;

    open spec fn deep_view(&self) -> PostgresStoreConfigView {
        PostgresStoreConfigView {
            connection_url: self.connection_url@,
            max_connections: self.max_connections,
            pool_wait_timeout: time::nanos(self.pool_wait_timeout),
            connection_timeout: time::nanos(self.connection_timeout),
            statement_timeout: time::nanos(self.statement_timeout),
            operation_timeout: time::nanos(self.operation_timeout),
            idempotency_retention: time::optional_nanos(self.idempotency_retention),
        }
    }
}

impl Clone for PostgresStoreConfig {
    fn clone(&self) -> (r: Self)
        ensures
            r.deep_view() == self.deep_view(),
    {
        PostgresStoreConfig {
            connection_url: self.connection_url.clone(),
            max_connections: self.max_connections,
            pool_wait_timeout: self.pool_wait_timeout,
            connection_timeout: self.connection_timeout,
            statement_timeout: self.statement_timeout,
            operation_timeout: self.operation_timeout,
            idempotency_retention: self.idempotency_retention,
        }
    }
}

/// A span of whole milliseconds, at least one and at most so many seconds.
pub open spec fn within_limit(nanos: u128, max_secs: nat) -> bool {
    &&& 1_000_000 <= nanos <= max_secs * 1_000_000_000
    &&& nanos % 1_000_000 == 0
}

/// The problem of a setting that is out of its limits: its name.
pub open spec fn span_problem(name: Seq<char>, nanos: u128, max_secs: nat) -> Option<Seq<char>> {
    if within_limit(nanos, max_secs) {
        None
    } else {
        Some(name)
    }
}

/// The first setting that is out of its limits.
pub open spec fn limits_problem(config: PostgresStoreConfigView) -> Option<Seq<char>> {
    outcome::first_of(
        if 1 <= config.max_connections <= 1024 {
            None
        } else {
            Some("SLEEPYPODS_POSTGRES_MAX_CONNECTIONS"@)
        },
        outcome::first_of(
            span_problem("SLEEPYPODS_OPERATION_TIMEOUT_MS"@, config.operation_timeout, 86_400),
            outcome::first_of(
                span_problem(
                    "SLEEPYPODS_POSTGRES_POOL_WAIT_TIMEOUT_MS"@,
                    config.pool_wait_timeout,
                    86_400,
                ),
                outcome::first_of(
                    span_problem(
                        "SLEEPYPODS_POSTGRES_CONNECTION_TIMEOUT_MS"@,
                        config.connection_timeout,
                        86_400,
                    ),
                    outcome::first_of(
                        span_problem(
                            "SLEEPYPODS_POSTGRES_STATEMENT_TIMEOUT_MS"@,
                            config.statement_timeout,
                            86_400,
                        ),
                        match config.idempotency_retention {
                            Some(retention) => span_problem(
                                "SLEEPYPODS_POSTGRES_IDEMPOTENCY_RETENTION_MS"@,
                                retention,
                                3_153_600_000,
                            ),
                            None => None,
                        },
                    ),
                ),
            ),
        ),
    )
}

fn check_span(name: &'static str, value: Duration, max_secs: u64) -> (r: Result<(), &'static str>)
    ensures
        outcome::problem(r) == span_problem(name@, time::nanos(value), max_secs as nat),
{
    let nanos: u128 = value.as_nanos();
    let most: u128 = max_secs as u128 * 1_000_000_000;
    if nanos < 1_000_000 || nanos > most || nanos % 1_000_000 != 0 {
        return Err(name);
    }
    Ok(())
}

impl PostgresStoreConfig {
    pub const MAX_CONNECTIONS: usize = 1024;

    /// The longest that a timeout may be: a day.
    pub fn max_timeout() -> (r: Duration)
        ensures
            time::nanos(r) == 86_400 * 1_000_000_000,
    {
        Duration::from_secs(86_400)
    }

    /// The longest that idempotency keys may be kept: a hundred years.
    pub fn max_idempotency_retention() -> (r: Duration)
        ensures
            time::nanos(r) == 3_153_600_000 * 1_000_000_000,
    {
        Duration::from_secs(3_153_600_000)
    }

    pub fn new(connection_url: &str) -> (r: Result<Self, EmptyStringError>)
        ensures
            outcome::of(r) == if text::is_blank(connection_url@) {
                Err("postgres.connection_url"@)
            } else {
                Ok(
                    PostgresStoreConfigView {
                        connection_url: connection_url@,
                        max_connections: 16,
                        pool_wait_timeout: 5_000_000_000,
                        connection_timeout: 5_000_000_000,
                        statement_timeout: 30_000_000_000,
                        operation_timeout: 600_000_000_000,
                        idempotency_retention: None,
                    },
                )
            },
    {
        match NonEmptyString::new("postgres.connection_url", connection_url) {
            Err(error) => Err(error),
            Ok(connection_url) => Ok(
                PostgresStoreConfig {
                    connection_url,
                    max_connections: 16,
                    pool_wait_timeout: Duration::from_secs(5),
                    connection_timeout: Duration::from_secs(5),
                    statement_timeout: Duration::from_secs(30),
                    operation_timeout: Duration::from_secs(600),
                    idempotency_retention: None,
                },
            ),
        }
    }

    pub fn connection_url(&self) -> (r: &str)
        ensures
            r@ == self.deep_view().connection_url,
    {
        self.connection_url.as_str()
    }

    /// Fails with the name of the first setting that is out of its limits.
    pub fn validate_limits(&self) -> (r: Result<(), &'static str>)
        ensures
            outcome::problem(r) == limits_problem(self.deep_view()),
    {
        if self.max_connections < 1 || self.max_connections > PostgresStoreConfig::MAX_CONNECTIONS {
            return Err("SLEEPYPODS_POSTGRES_MAX_CONNECTIONS");
        }
        if let Err(name) = check_span(
            "SLEEPYPODS_OPERATION_TIMEOUT_MS",
            self.operation_timeout,
            86_400,
        ) {
            return Err(name);
        }
        if let Err(name) = check_span(
            "SLEEPYPODS_POSTGRES_POOL_WAIT_TIMEOUT_MS",
            self.pool_wait_timeout,
            86_400,
        ) {
            return Err(name);
        }
        if let Err(name) = check_span(
            "SLEEPYPODS_POSTGRES_CONNECTION_TIMEOUT_MS",
            self.connection_timeout,
            86_400,
        ) {
            return Err(name);
        }
        if let Err(name) = check_span(
            "SLEEPYPODS_POSTGRES_STATEMENT_TIMEOUT_MS",
            self.statement_timeout,
            86_400,
        ) {
            return Err(name);
        }
        match self.idempotency_retention {
            Some(retention) => check_span(
                "SLEEPYPODS_POSTGRES_IDEMPOTENCY_RETENTION_MS",
                retention,
                3_153_600_000,
            ),
            None => Ok(()),
        }
    }
}

/// The store that is configured.
#[derive(Debug, PartialEq, Eq)]
pub enum StoreProviderConfig {
    Postgres(PostgresStoreConfig),
}

/// What a [`StoreProviderConfig`] holds.
#[verifier::ext_equal]
pub enum StoreProviderConfigView {
    Postgres(PostgresStoreConfigView),
}

impl DeepView for StoreProviderConfig {
    type V = StoreProviderConfigView;

    open spec fn deep_view(&self) -> StoreProviderConfigView {
        match self {
            StoreProviderConfig::Postgres(value) => StoreProviderConfigView::Postgres(
                value.deep_view(),
            ),
        }
    }
}

impl Clone for StoreProviderConfig {
    fn clone(&self) -> (r: Self)
        ensures
            r.deep_view() == self.deep_view(),
    {
        match self {
            StoreProviderConfig::Postgres(value) => StoreProviderConfig::Postgres(value.clone()),
        }
    }
}

impl StoreProviderConfig {
    pub fn provider_name(&self) -> (r: StoreProviderName)
        ensures
            r == StoreProviderName::Postgres,
    {
        match self {
            StoreProviderConfig::Postgres(_) => StoreProviderName::Postgres,
        }
    }
}

/// What the control plane is configured with.
#[derive(PartialEq, Eq)]
pub struct ControlPlaneConfig {
    pub store: StoreProviderConfig,
    pub auth: AuthConfig,
}

impl ControlPlaneConfig {
    pub fn new(store: StoreProviderConfig, auth: AuthConfig) -> (r: Self)
        ensures
            r.store == store,
            r.auth == auth,
    {
        ControlPlaneConfig { store, auth }
    }
}

impl Clone for ControlPlaneConfig {
    fn clone(&self) -> (r: Self)
        ensures
            r.store.deep_view() == self.store.deep_view(),
            r.auth.deep_view() == self.auth.deep_view(),
    {
        ControlPlaneConfig { store: self.store.clone(), auth: self.auth.clone() }
    }
}

/// What a new configuration says is within its limits.
pub proof fn lemma_default_limits_are_valid(config: PostgresStoreConfigView)
    requires
        config.max_connections == 16,
        config.pool_wait_timeout == 5_000_000_000,
        config.connection_timeout == 5_000_000_000,
        config.statement_timeout == 30_000_000_000,
        config.operation_timeout == 600_000_000_000,
        config.idempotency_retention is None,
    ensures
        limits_problem(config) is None,
{
}

/// Whether a span is whole milliseconds, at least one and at most so many.
pub open spec fn is_millis_up_to(nanos: u128, most: nat) -> bool {
    exists|millis: int| 1 <= millis <= most && #[trigger] (millis * 1_000_000) == nanos
}

proof fn lemma_within_limit(nanos: u128, max_secs: nat)
    ensures
        within_limit(nanos, max_secs) <==> is_millis_up_to(nanos, max_secs * 1000),
{
    let millis = nanos as int / 1_000_000;
    if within_limit(nanos, max_secs) {
        assert(nanos == millis * 1_000_000);
        assert(1 <= millis <= max_secs * 1000);
    }
    if is_millis_up_to(nanos, max_secs * 1000) {
        let found = choose|millis: int|
            1 <= millis <= max_secs * 1000 && #[trigger] (millis * 1_000_000) == nanos;
        assert(nanos as int % 1_000_000 == 0);
    }
}

/// Settings are accepted if and only if there are one to 1024 connections, each timeout
/// is whole milliseconds up to a day, and keys are kept for ever or for whole
/// milliseconds up to a hundred years of 365 days.
pub proof fn lemma_settings_in_order_are_accepted(config: PostgresStoreConfigView)
    ensures
        limits_problem(config) is None <==> {
            &&& 1 <= config.max_connections <= 1024
            &&& is_millis_up_to(config.operation_timeout, 24 * 60 * 60 * 1000)
            &&& is_millis_up_to(config.pool_wait_timeout, 24 * 60 * 60 * 1000)
            &&& is_millis_up_to(config.connection_timeout, 24 * 60 * 60 * 1000)
            &&& is_millis_up_to(config.statement_timeout, 24 * 60 * 60 * 1000)
            &&& config.idempotency_retention is Some ==> is_millis_up_to(
                config.idempotency_retention->0,
                100 * 365 * 24 * 60 * 60 * 1000,
            )
        },
{
    lemma_within_limit(config.operation_timeout, 86_400);
    lemma_within_limit(config.pool_wait_timeout, 86_400);
    lemma_within_limit(config.connection_timeout, 86_400);
    lemma_within_limit(config.statement_timeout, 86_400);
    if config.idempotency_retention is Some {
        lemma_within_limit(config.idempotency_retention->0, 3_153_600_000);
    }
}

} // verus!

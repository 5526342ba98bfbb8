//! What a connection to Postgres is opened with.
use std::time::Duration;

use vstd::prelude::*;

use crate::config;
use crate::config::PostgresStoreConfig;
use crate::config::PostgresStoreConfigView;
use crate::store::StoreError;
use crate::store::StoreErrorView;
use crate::text;
use crate::time;

verus! {

/// What a connection to Postgres is opened with.
#[verifier::external_type_specification]
#[verifier::external_body]
pub struct ExPgConfig(tokio_postgres::Config);

/// What `tokio_postgres::Config::from_str` makes of a connection URL: a
/// configuration, or what its error says.
pub uninterp spec fn parsed_url(url: Seq<char>) -> Result<tokio_postgres::Config, Seq<char>>;

/// The command line options of a configuration: what
/// `tokio_postgres::Config::get_options` returns.
pub uninterp spec fn options_of(config: tokio_postgres::Config) -> Option<Seq<char>>;

/// The connection timeout of a configuration, in nanoseconds: what
/// `tokio_postgres::Config::get_connect_timeout` returns.
pub uninterp spec fn timeout_of(config: tokio_postgres::Config) -> Option<u128>;

/// The configuration with other command line options: what
/// `tokio_postgres::Config::options` makes of it.
pub uninterp spec fn with_options(
    config: tokio_postgres::Config,
    options: Seq<char>,
) -> tokio_postgres::Config;

/// The configuration with another connection timeout, in nanoseconds: what
/// `tokio_postgres::Config::connect_timeout` makes of it.
pub uninterp spec fn with_timeout(
    config: tokio_postgres::Config,
    timeout: u128,
) -> tokio_postgres::Config;

/// `tokio_postgres::Config::from_str`: the configuration that a connection URL
/// or a list of keys and values describes, or the text of the error.
#[verifier::external_body]
pub(crate) fn config_from_str(url: &str) -> (r: Result<tokio_postgres::Config, String>)
    ensures
        match r {
            Ok(config) => parsed_url(url@) == Ok::<tokio_postgres::Config, Seq<char>>(config),
            Err(error) => parsed_url(url@) == Err::<tokio_postgres::Config, Seq<char>>(error@),
        },
{
    url.parse::<tokio_postgres::Config>().map_err(|error| error.to_string())
}

/// `tokio_postgres::Config::get_options`: the command line options, where there
/// are any.
#[verifier::external_body]
pub(crate) fn get_options(config: &tokio_postgres::Config) -> (r: Option<&str>)
    ensures
        r.deep_view() == options_of(*config),
{
    config.get_options()
}

/// `tokio_postgres::Config::options`: sets the command line options, and leaves
/// the timeout as it is.
#[verifier::external_body]
pub(crate) fn set_options(config: &mut tokio_postgres::Config, options: &str)
    ensures
        *final(config) == with_options(*old(config), options@),
        options_of(*final(config)) == Some(options@),
        timeout_of(*final(config)) == timeout_of(*old(config)),
{
    config.options(options);
}

/// `tokio_postgres::Config::connect_timeout`: sets the connection timeout, and
/// leaves the options as they are.
#[verifier::external_body]
pub(crate) fn set_connect_timeout(config: &mut tokio_postgres::Config, timeout: Duration)
    ensures
        *final(config) == with_timeout(*old(config), time::nanos(timeout)),
        timeout_of(*final(config)) == Some(time::nanos(timeout)),
        options_of(*final(config)) == options_of(*old(config)),
{
    config.connect_timeout(timeout);
}

/// What a wrong connection URL is reported as.
pub open spec fn url_error(error: Seq<char>) -> StoreErrorView {
    StoreErrorView::InvalidArgument {
        message: "postgres.connection_url is not a valid Postgres connection URL: "@ + error,
    }
}

/// The configuration that a connection URL describes.
pub fn parse_connection_url(value: &str) -> (r: Result<tokio_postgres::Config, StoreError>)
    ensures
        match parsed_url(value@) {
            Ok(config) => r == Ok::<tokio_postgres::Config, StoreError>(config),
            Err(error) => r matches Err(refused) && refused.deep_view() == url_error(error),
        },
{
    match config_from_str(value) {
        Ok(config) => Ok(config),
        Err(error) => {
            let message = text::join2(
                "postgres.connection_url is not a valid Postgres connection URL: ",
                error.as_str(),
            );
            Err(StoreError::InvalidArgument { message })
        },
    }
}

/// The options of a session: those of the URL, then the time limits.
pub open spec fn session_options(
    options: Option<Seq<char>>,
    config: PostgresStoreConfigView,
) -> Seq<char> {
    (match options {
        Some(options) => options,
        None => Seq::empty(),
    }) + " -c statement_timeout="@ + text::decimal((config.statement_timeout / 1_000_000) as nat)
        + " -c sleepypods.operation_timeout_ms="@ + text::decimal(
        (config.operation_timeout / 1_000_000) as nat,
    )
}

/// For how many milliseconds idempotency keys are kept; none is for ever.
pub open spec fn retention_millis(config: PostgresStoreConfigView) -> Option<int> {
    match config.idempotency_retention {
        Some(retention) => Some((retention / 1_000_000) as int),
        None => None,
    }
}

/// The options of a session.
pub fn session_options_text(options: Option<&str>, config: &PostgresStoreConfig) -> (r: String)
    ensures
        r@ == session_options(options.deep_view(), config.deep_view()),
{
    let given = match options {
        Some(options) => options,
        None => {
            proof {
                reveal_strlit("");
                assert(""@ =~= Seq::empty());
            }
            ""
        },
    };
    let statement = text::wide_number(time::whole_millis(config.statement_timeout));
    let operation = text::wide_number(time::whole_millis(config.operation_timeout));
    text::join5(
        given,
        " -c statement_timeout=",
        statement.as_str(),
        " -c sleepypods.operation_timeout_ms=",
        operation.as_str(),
    )
}

/// How a setting out of its limits is reported.
pub open spec fn limits_error(setting: Seq<char>) -> StoreErrorView {
    StoreErrorView::InvalidArgument { message: setting + " is outside its supported limits"@ }
}

/// What the store connects with and for how long it keeps idempotency keys, in
/// milliseconds. The limits are checked before the URL is looked at.
pub fn connection_settings(config: &PostgresStoreConfig) -> (r: Result<
    (tokio_postgres::Config, Option<i64>),
    StoreError,
>)
    ensures
        match config::limits_problem(config.deep_view()) {
            Some(setting) => r matches Err(error) && error.deep_view() == limits_error(setting),
            None => match parsed_url(config.deep_view().connection_url) {
                Err(error) => r matches Err(refused) && refused.deep_view() == url_error(error),
                Ok(parsed) => r matches Ok((settings, retention)) && {
                    &&& settings == with_options(
                        with_timeout(parsed, config.deep_view().connection_timeout),
                        session_options(options_of(parsed), config.deep_view()),
                    )
                    &&& options_of(settings) == Some(
                        session_options(options_of(parsed), config.deep_view()),
                    )
                    &&& timeout_of(settings) == Some(config.deep_view().connection_timeout)
                    &&& retention is Some == config.idempotency_retention is Some
                    &&& retention matches Some(millis) ==> Some(millis as int) == retention_millis(
                        config.deep_view(),
                    )
                },
            },
        },
{
    if let Err(setting) = config.validate_limits() {
        let message = text::join2(setting, " is outside its supported limits");
        return Err(StoreError::InvalidArgument { message });
    }
    let retention: Option<i64> = match config.idempotency_retention {
        Some(retention) => {
            let millis: u128 = time::whole_millis(retention);
            assert(millis <= 3_153_600_000_000);
            Some(millis as i64)
        },
        None => None,
    };
    match parse_connection_url(config.connection_url()) {
        Err(error) => Err(error),
        Ok(parsed) => {
            let options = session_options_text(get_options(&parsed), config);
            let mut settings = parsed;
            set_connect_timeout(&mut settings, config.connection_timeout);
            set_options(&mut settings, options.as_str());
            Ok((settings, retention))
        },
    }
}

} // verus!

//! How a failure of Postgres is reported.
use vstd::prelude::*;

use crate::ids::Generation;
use crate::json;
use crate::json::Json;
use crate::store::StoreError;
use crate::store::StoreErrorView;
use crate::text;

verus! {

/// An error that the database reported: its SQLSTATE code, its message, and what it adds.
#[derive(Debug, PartialEq, Eq)]
pub struct DatabaseError {
    pub code: String,
    pub message: String,
    pub detail: Option<String>,
    pub constraint: Option<String>,
}

/// What a [`DatabaseError`] holds.
#[verifier::ext_equal]
pub struct DatabaseErrorView {
    pub code: Seq<char>,
    pub message: Seq<char>,
    pub detail: Option<Seq<char>>,
    pub constraint: Option<Seq<char>>,
}

impl DeepView for DatabaseError {
    type V = DatabaseErrorView;

    open spec fn deep_view(&self) -> DatabaseErrorView {
        DatabaseErrorView {
            code: self.code.deep_view(),
            message: self.message.deep_view(),
            detail: self.detail.deep_view(),
            constraint: self.constraint.deep_view(),
        }
    }
}

impl Clone for DatabaseError {
    fn clone(&self) -> (r: Self)
        ensures
            r.deep_view() == self.deep_view(),
    {
        let r = DatabaseError {
            code: self.code.clone(),
            message: self.message.clone(),
            detail: self.detail.clone(),
            constraint: self.constraint.clone(),
        };
        assert(r.detail.deep_view() =~= self.detail.deep_view());
        assert(r.constraint.deep_view() =~= self.constraint.deep_view());
        r
    }
}

/// A failed call of the database: what the database reported, where it did; whether the
/// connection was closed; and what the client says of it.
#[derive(Debug, PartialEq, Eq)]
pub struct PostgresFailure {
    pub database: Option<DatabaseError>,
    pub closed: bool,
    pub description: String,
}

/// What a [`PostgresFailure`] holds.
#[verifier::ext_equal]
pub struct PostgresFailureView {
    pub database: Option<DatabaseErrorView>,
    pub closed: bool,
    pub description: Seq<char>,
}

impl DeepView for PostgresFailure {
    type V = PostgresFailureView;

    open spec fn deep_view(&self) -> PostgresFailureView {
        PostgresFailureView {
            database: self.database.deep_view(),
            closed: self.closed.deep_view(),
            description: self.description.deep_view(),
        }
    }
}

impl Clone for PostgresFailure {
    fn clone(&self) -> (r: Self)
        ensures
            r.deep_view() == self.deep_view(),
    {
        let r = PostgresFailure {
            database: self.database.clone(),
            closed: self.closed,
            description: self.description.clone(),
        };
        assert(r.database.deep_view() =~= self.database.deep_view());
        r
    }
}

/// The codes of failures that pass: a conflict with another transaction, a lock
/// or time limit, a shutdown.
pub open spec fn is_transient(code: Seq<char>) -> bool {
    ||| code == "40001"@
    ||| code == "40P01"@
    ||| code == "55P03"@
    ||| code == "57014"@
    ||| code == "57P01"@
    ||| code == "57P02"@
    ||| code == "57P03"@
}

/// What a violated constraint says is there already.
pub open spec fn duplicate_resource(constraint: Option<Seq<char>>) -> Seq<char> {
    match constraint {
        Some(name) => if name == "instances_pkey"@ {
            "instance"@
        } else if name == "route_bindings_pkey"@ || name == "route_bindings_identity_key_key"@ {
            "route binding"@
        } else if name == "workload_class_versions_pkey"@ {
            "workload class version"@
        } else if name == "http01_challenges_pkey"@ {
            "HTTP-01 challenge"@
        } else if name == "materializations_pkey"@ || name
            == "materializations_instance_id_cluster_id_namespace_key"@ {
            "materialization"@
        } else if name == "idempotency_records_pkey"@ {
            "idempotency record"@
        } else {
            "Postgres record"@
        },
        None => "Postgres record"@,
    }
}

/// A text, or the empty one.
pub open spec fn or_empty(value: Option<Seq<char>>) -> Seq<char> {
    match value {
        Some(value) => value,
        None => Seq::empty(),
    }
}

/// The exclusivity conflict that the detail of an error describes.
pub open spec fn conflict_in(detail: Json) -> StoreErrorView {
    StoreErrorView::ExclusivityConflict {
        cluster_id: or_empty(json::json_text(json::json_member(detail, "cluster_id"@))),
        namespace: or_empty(json::json_text(json::json_member(detail, "namespace"@))),
        key_name: or_empty(json::json_text(json::json_member(detail, "key_name"@))),
        owner_instance_id: json::json_text(json::json_member(detail, "owner_instance_id"@)),
        owner_generation: match json::json_number(
            json::json_member(detail, "owner_generation"@),
        ) {
            Some(generation) => Some(generation as nat),
            None => None,
        },
    }
}

/// How an error of the database is reported, by its code.
pub open spec fn by_code(error: DatabaseErrorView, description: Seq<char>) -> StoreErrorView {
    if is_transient(error.code) {
        StoreErrorView::Unavailable { message: error.message }
    } else if error.code == "23505"@ {
        StoreErrorView::AlreadyExists { resource: duplicate_resource(error.constraint) }
    } else if error.code == "23503"@ {
        StoreErrorView::NotFound { resource: "referenced resource"@ }
    } else if error.code == "23514"@ {
        StoreErrorView::InvalidArgument {
            message: "Postgres check constraint failed: "@ + description,
        }
    } else {
        StoreErrorView::Internal {
            message: "Postgres query failed: code="@ + error.code + " message="@ + error.message,
        }
    }
}

/// How an error of the database is reported: those that the schema raises by
/// their message, the others by their code. `detail` is the JSON value that the
/// detail of the error is.
pub open spec fn database_failure(
    error: DatabaseErrorView,
    description: Seq<char>,
    detail: Option<Json>,
) -> StoreErrorView {
    if error.message == "instance_id_retired"@ {
        StoreErrorView::InvalidArgument {
            message:
                "instance ID was deleted before incarnation fencing; use a new instance ID"@,
        }
    } else if error.code == "P0001"@ && error.message == "rendered_object_ref_collision"@ {
        StoreErrorView::InvalidArgument {
            message: match error.detail {
                Some(detail) => detail,
                None => error.message,
            },
        }
    } else if error.code == "P0001"@ && error.message == "exclusivity_conflict"@
        && detail is Some {
        conflict_in(detail->0)
    } else {
        by_code(error, description)
    }
}

/// The JSON value that the detail of an error is.
pub open spec fn detail_of(error: DatabaseErrorView) -> Option<Json> {
    match error.detail {
        Some(detail) => json::parsed(detail),
        None => None,
    }
}

/// How a failed call of the database is reported.
pub open spec fn store_failure(failure: PostgresFailureView) -> StoreErrorView {
    match failure.database {
        Some(error) => database_failure(error, failure.description, detail_of(error)),
        None => if failure.closed {
            StoreErrorView::Unavailable {
                message: "Postgres connection closed: "@ + failure.description,
            }
        } else {
            StoreErrorView::Internal {
                message: "Postgres query failed: "@ + failure.description,
            }
        },
    }
}

fn unique_violation_resource(constraint: &Option<String>) -> (r: &'static str)
    ensures
        r@ == duplicate_resource(constraint.deep_view()),
{
    match constraint {
        Some(name) => {
            let name = name.as_str();
            if text::same(name, "instances_pkey") {
                "instance"
            } else if text::same(name, "route_bindings_pkey") || text::same(
                name,
                "route_bindings_identity_key_key",
            ) {
                "route binding"
            } else if text::same(name, "workload_class_versions_pkey") {
                "workload class version"
            } else if text::same(name, "http01_challenges_pkey") {
                "HTTP-01 challenge"
            } else if text::same(name, "materializations_pkey") || text::same(
                name,
                "materializations_instance_id_cluster_id_namespace_key",
            ) {
                "materialization"
            } else if text::same(name, "idempotency_records_pkey") {
                "idempotency record"
            } else {
                "Postgres record"
            }
        },
        None => "Postgres record",
    }
}

fn transient(code: &str) -> (r: bool)
    ensures
        r == is_transient(code@),
{
    text::same(code, "40001") || text::same(code, "40P01") || text::same(code, "55P03")
        || text::same(code, "57014") || text::same(code, "57P01") || text::same(code, "57P02")
        || text::same(code, "57P03")
}

fn owned_or_empty(value: Option<&str>) -> (r: String)
    ensures
        r@ == or_empty(value.deep_view()),
{
    match value {
        Some(value) => value.to_owned(),
        None => {
            proof {
                reveal_strlit("");
                assert(""@ =~= Seq::empty());
            }
            "".to_owned()
        },
    }
}

fn exclusivity_conflict(detail: &serde_json::Value) -> (r: StoreError)
    ensures
        r.deep_view() == conflict_in(json::json_of(*detail)),
{
    let owner = match json::text_member(detail, "owner_instance_id") {
        Some(owner) => Some(owner.to_owned()),
        None => None,
    };
    let generation = match json::number_member(detail, "owner_generation") {
        Some(generation) => Some(Generation::new(generation)),
        None => None,
    };
    StoreError::ExclusivityConflict {
        cluster_id: owned_or_empty(json::text_member(detail, "cluster_id")),
        namespace: owned_or_empty(json::text_member(detail, "namespace")),
        key_name: owned_or_empty(json::text_member(detail, "key_name")),
        owner_instance_id: owner,
        owner_generation: generation,
    }
}

fn map_code(error: &DatabaseError, description: &str) -> (r: StoreError)
    ensures
        r.deep_view() == by_code(error.deep_view(), description@),
{
    let code = error.code.as_str();
    if transient(code) {
        return StoreError::unavailable(error.message.as_str());
    }
    if text::same(code, "23505") {
        return StoreError::AlreadyExists { resource: unique_violation_resource(&error.constraint) };
    }
    if text::same(code, "23503") {
        return StoreError::NotFound { resource: "referenced resource" };
    }
    if text::same(code, "23514") {
        let message = text::join2("Postgres check constraint failed: ", description);
        return StoreError::InvalidArgument { message };
    }
    let message = text::join4(
        "Postgres query failed: code=",
        code,
        " message=",
        error.message.as_str(),
    );
    StoreError::Internal { message }
}

/// How an error of the database is reported, given the JSON value that its
/// detail is.
pub fn map_database_error(
    error: &DatabaseError,
    description: &str,
    detail: Option<&serde_json::Value>,
) -> (r: StoreError)
    ensures
        r.deep_view() == database_failure(
            error.deep_view(),
            description@,
            match detail {
                Some(detail) => Some(json::json_of(*detail)),
                None => None,
            },
        ),
{
    let message = error.message.as_str();
    if text::same(message, "instance_id_retired") {
        return StoreError::invalid_argument(
            "instance ID was deleted before incarnation fencing; use a new instance ID",
        );
    }
    if text::same(error.code.as_str(), "P0001") {
        if text::same(message, "rendered_object_ref_collision") {
            return match &error.detail {
                Some(detail) => StoreError::invalid_argument(detail.as_str()),
                None => StoreError::invalid_argument(message),
            };
        }
        if text::same(message, "exclusivity_conflict") {
            if let Some(detail) = detail {
                return exclusivity_conflict(detail);
            }
        }
    }
    map_code(error, description)
}

/// How a failed call of the database is reported.
pub fn map_postgres_failure(failure: &PostgresFailure) -> (r: StoreError)
    ensures
        r.deep_view() == store_failure(failure.deep_view()),
{
    match &failure.database {
        Some(error) => {
            let detail = match &error.detail {
                Some(detail) => json::parse(detail.as_str()),
                None => None,
            };
            match &detail {
                Some(detail) => map_database_error(
                    error,
                    failure.description.as_str(),
                    Some(detail),
                ),
                None => map_database_error(error, failure.description.as_str(), None),
            }
        },
        None => {
            if failure.closed {
                let message = text::join2(
                    "Postgres connection closed: ",
                    failure.description.as_str(),
                );
                StoreError::Unavailable { message }
            } else {
                let message = text::join2("Postgres query failed: ", failure.description.as_str());
                StoreError::Internal { message }
            }
        },
    }
}

/// An error of the Postgres client.
#[verifier::external_type_specification]
#[verifier::external_body]
pub struct ExPostgresError(tokio_postgres::Error);

/// What an error of the Postgres client says.
pub uninterp spec fn failure_of(error: tokio_postgres::Error) -> PostgresFailureView;

/// `tokio_postgres::Error`: the code, the message, the detail and the constraint of
/// the error that `as_db_error` finds in it, what `is_closed` says of it, and the
/// text that it is shown as.
#[verifier::external_body]
pub(crate) fn read_failure(error: &tokio_postgres::Error) -> (r: PostgresFailure)
    ensures
        r.deep_view() == failure_of(*error),
{
    let database = error.as_db_error().map(|error| DatabaseError {
        code: error.code().code().to_owned(),
        message: error.message().to_owned(),
        detail: error.detail().map(str::to_owned),
        constraint: error.constraint().map(str::to_owned),
    });
    PostgresFailure { database, closed: error.is_closed(), description: error.to_string() }
}

/// How an error of the Postgres client is reported.
pub fn map_postgres_error(error: tokio_postgres::Error) -> (r: StoreError)
    ensures
        r.deep_view() == store_failure(failure_of(error)),
{
    map_postgres_failure(&read_failure(&error))
}

} // verus!

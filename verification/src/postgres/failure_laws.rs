//! What holds of failures of the database, of connections to it, and of its schema.
use vstd::prelude::*;

use super::connection;
use super::error;
use super::error::DatabaseErrorView;
use super::error::PostgresFailureView;
use super::http01_ops;
use super::http01_ops::Http01RowView;
use super::mapping;
use super::migrations;
use super::migrations::MigrationStep;
use crate::config;
use crate::config::PostgresStoreConfigView;
use crate::json;
use crate::json::Json;
use crate::route;
use crate::store::StoreErrorView;
use crate::text;

verus! {

/// Whether an error is one that the schema raises by its message.
pub open spec fn is_raised(error: DatabaseErrorView) -> bool {
    ||| error.message == "instance_id_retired"@
    ||| error.message == "rendered_object_ref_collision"@
    ||| error.message == "exclusivity_conflict"@
}

/// Whether a code is one of those that name a failure by itself.
pub open spec fn is_named(code: Seq<char>) -> bool {
    ||| code == "23505"@
    ||| code == "23503"@
    ||| code == "23514"@
    ||| may_pass(code)
}

/// Whether the failure with a code may have passed by the next try: the database was
/// stopped, the statement was cancelled, or another transaction was in the way.
pub open spec fn may_pass(code: Seq<char>) -> bool {
    ||| code == "40001"@
    ||| code == "40P01"@
    ||| code == "55P03"@
    ||| code == "57014"@
    ||| code == "57P01"@
    ||| code == "57P02"@
    ||| code == "57P03"@
}

proof fn lemma_codes_differ()
    ensures
        !may_pass("23505"@),
        !may_pass("23503"@),
        !may_pass("23514"@),
        "23505"@ != "23503"@,
        "23505"@ != "23514"@,
        "23503"@ != "23514"@,
{
    reveal_strlit("23505");
    reveal_strlit("23503");
    reveal_strlit("23514");
    reveal_strlit("40001");
    reveal_strlit("40P01");
    reveal_strlit("55P03");
    reveal_strlit("57014");
    reveal_strlit("57P01");
    reveal_strlit("57P02");
    reveal_strlit("57P03");
    assert("23505"@[0] == '2' && "23505"@[3] == '0' && "23505"@[4] == '5');
    assert("23503"@[0] == '2' && "23503"@[3] == '0' && "23503"@[4] == '3');
    assert("23514"@[0] == '2' && "23514"@[3] == '1');
    assert("40001"@[0] == '4');
    assert("40P01"@[0] == '4');
    assert("55P03"@[0] == '5');
    assert("57014"@[0] == '5');
    assert("57P01"@[0] == '5');
    assert("57P02"@[0] == '5');
    assert("57P03"@[0] == '5');
}

/// A failure that the schema did not raise is told by its code: what may pass is
/// unavailable, what is there already or is not there is said so, what a check refuses
/// is an invalid argument, and the rest is internal.
pub proof fn lemma_failures_are_told_by_their_code(
    failure: PostgresFailureView,
    found: DatabaseErrorView,
)
    requires
        failure.database == Some(found),
        !is_raised(found),
    ensures
        may_pass(found.code) ==> error::store_failure(failure) == (StoreErrorView::Unavailable {
            message: found.message,
        }),
        found.code == "23505"@ ==> error::store_failure(failure) is AlreadyExists,
        found.code == "23503"@ ==> error::store_failure(failure) is NotFound,
        found.code == "23514"@ ==> error::store_failure(failure) is InvalidArgument,
        !is_named(found.code) ==> error::store_failure(failure) is Internal,
{
    lemma_codes_differ();
}

/// A closed connection is unavailable, and a failure of the client is internal.
pub proof fn lemma_closed_connection_is_unavailable(failure: PostgresFailureView)
    requires
        failure.database is None,
    ensures
        error::store_failure(failure) is Unavailable <==> failure.closed,
        error::store_failure(failure) is Internal <==> !failure.closed,
{
}

/// What the schema refuses is told in its own words: an instance ID that was retired,
/// and rendered objects that are another instance's.
pub proof fn lemma_refusals_of_the_schema_are_told(
    failure: PostgresFailureView,
    found: DatabaseErrorView,
)
    requires
        failure.database == Some(found),
    ensures
        found.message == "instance_id_retired"@ ==> error::store_failure(
            failure,
        ) is InvalidArgument,
        found.code == "P0001"@ && found.message == "rendered_object_ref_collision"@
            ==> error::store_failure(failure) is InvalidArgument,
        found.code == "P0001"@ && found.message == "rendered_object_ref_collision"@
            && found.detail is Some ==> error::store_failure(failure)->InvalidArgument_message
            == found.detail->0,
{
    reveal_strlit("instance_id_retired");
    reveal_strlit("rendered_object_ref_collision");
    assert("instance_id_retired"@[0] == 'i');
    assert("rendered_object_ref_collision"@[0] == 'r');
}

/// Whether a JSON object has a text.
pub open spec fn has_text(detail: Json, name: Seq<char>, value: Seq<char>) -> bool {
    json::json_member(detail, name) == Some(Json::Text(value))
}

/// A conflict over a key tells the cluster, the namespace and the key that the schema
/// found taken, and who has it.
pub proof fn lemma_conflict_tells_the_owner(
    failure: PostgresFailureView,
    found: DatabaseErrorView,
    detail: Json,
    cluster_id: Seq<char>,
    namespace: Seq<char>,
    key_name: Seq<char>,
    owner: Seq<char>,
    generation: u64,
)
    requires
        failure.database == Some(found),
        found.code == "P0001"@,
        found.message == "exclusivity_conflict"@,
        found.detail is Some,
        json::parsed(found.detail->0) == Some(detail),
        has_text(detail, "cluster_id"@, cluster_id),
        has_text(detail, "namespace"@, namespace),
        has_text(detail, "key_name"@, key_name),
        has_text(detail, "owner_instance_id"@, owner),
        json::json_member(detail, "owner_generation"@) == Some(Json::Number(generation)),
    ensures
        error::store_failure(failure) == (StoreErrorView::ExclusivityConflict {
            cluster_id,
            namespace,
            key_name,
            owner_instance_id: Some(owner),
            owner_generation: Some(generation as nat),
        }),
{
    reveal_strlit("instance_id_retired");
    reveal_strlit("rendered_object_ref_collision");
    reveal_strlit("exclusivity_conflict");
    assert("instance_id_retired"@[0] == 'i');
    assert("rendered_object_ref_collision"@[0] == 'r');
    assert("exclusivity_conflict"@[0] == 'e');
}

/// What is there already is named by the table whose key was taken.
pub proof fn lemma_duplicate_is_named_by_its_table(constraint: Option<Seq<char>>)
    ensures
        error::duplicate_resource(constraint) == "instance"@ <==> constraint == Some(
            "instances_pkey"@,
        ),
        error::duplicate_resource(constraint) == "route binding"@ <==> constraint == Some(
            "route_bindings_pkey"@,
        ) || constraint == Some("route_bindings_identity_key_key"@),
        error::duplicate_resource(constraint) == "workload class version"@ <==> constraint
            == Some("workload_class_versions_pkey"@),
        error::duplicate_resource(constraint) == "HTTP-01 challenge"@ <==> constraint == Some(
            "http01_challenges_pkey"@,
        ),
        error::duplicate_resource(constraint) == "materialization"@ <==> constraint == Some(
            "materializations_pkey"@,
        ) || constraint == Some("materializations_instance_id_cluster_id_namespace_key"@),
        error::duplicate_resource(constraint) == "idempotency record"@ <==> constraint == Some(
            "idempotency_records_pkey"@,
        ),
{
    reveal_strlit("instances_pkey");
    reveal_strlit("route_bindings_pkey");
    reveal_strlit("route_bindings_identity_key_key");
    reveal_strlit("workload_class_versions_pkey");
    reveal_strlit("http01_challenges_pkey");
    reveal_strlit("materializations_pkey");
    reveal_strlit("materializations_instance_id_cluster_id_namespace_key");
    reveal_strlit("idempotency_records_pkey");
    assert("instances_pkey"@[1] == 'n' && "instances_pkey"@[0] == 'i');
    assert("route_bindings_pkey"@[0] == 'r');
    assert("route_bindings_identity_key_key"@[0] == 'r');
    assert("workload_class_versions_pkey"@[0] == 'w');
    assert("http01_challenges_pkey"@[0] == 'h');
    assert("materializations_pkey"@[0] == 'm');
    assert("materializations_instance_id_cluster_id_namespace_key"@[0] == 'm');
    assert("idempotency_records_pkey"@[1] == 'd' && "idempotency_records_pkey"@[0] == 'i');
    reveal_strlit("instance");
    reveal_strlit("route binding");
    reveal_strlit("workload class version");
    reveal_strlit("HTTP-01 challenge");
    reveal_strlit("materialization");
    reveal_strlit("idempotency record");
    reveal_strlit("Postgres record");
    assert("instance"@[1] == 'n' && "instance"@[0] == 'i');
    assert("route binding"@[0] == 'r');
    assert("workload class version"@[0] == 'w');
    assert("HTTP-01 challenge"@[0] == 'H');
    assert("materialization"@[0] == 'm');
    assert("idempotency record"@[1] == 'd' && "idempotency record"@[0] == 'i');
    assert("Postgres record"@[0] == 'P');
}

/// A session has the options that were asked for, and behind them the limits of the
/// settings, in milliseconds.
pub proof fn lemma_session_keeps_its_limits(
    options: Option<Seq<char>>,
    settings: PostgresStoreConfigView,
    statement_millis: nat,
    operation_millis: nat,
)
    requires
        config::limits_problem(settings) is None,
        settings.statement_timeout == statement_millis * 1_000_000,
        settings.operation_timeout == operation_millis * 1_000_000,
    ensures
        connection::session_options(options, settings) == (match options {
            Some(options) => options,
            None => Seq::empty(),
        }) + " -c statement_timeout="@ + text::decimal(statement_millis)
            + " -c sleepypods.operation_timeout_ms="@ + text::decimal(operation_millis),
{
}

/// Keys are kept as long as the setting says, and for ever if it says nothing.
pub proof fn lemma_keys_are_kept_as_long_as_set(settings: PostgresStoreConfigView)
    requires
        config::limits_problem(settings) is None,
    ensures
        connection::retention_millis(settings) is Some <==> settings.idempotency_retention is Some,
        connection::retention_millis(settings) matches Some(millis) ==> millis * 1_000_000
            == settings.idempotency_retention->0,
{
}

/// A migration is applied if and only if its version was not, and left out if it was
/// applied under the same name; under another name it is an error.
pub proof fn lemma_migration_is_applied_once(
    version: i32,
    name: Seq<char>,
    applied: Option<Seq<char>>,
)
    ensures
        migrations::step_for(version, name, applied) == Ok::<MigrationStep, StoreErrorView>(
            MigrationStep::Apply,
        ) <==> applied is None,
        migrations::step_for(version, name, applied) == Ok::<MigrationStep, StoreErrorView>(
            MigrationStep::Skip,
        ) <==> applied == Some(name),
        migrations::step_for(version, name, applied) is Err <==> applied is Some && applied->0
            != name,
{
}

/// A stored answer to a challenge is read as it was stored, whether it has expired or
/// not.
pub proof fn lemma_stored_answer_is_read_as_it_is(row: Http01RowView)
    ensures
        http01_ops::answer_of(row) matches Ok(answer) ==> {
            &&& answer.key.token == row.token
            &&& answer.key.host == route::normal_host(row.host)
            &&& answer.key_authorization == row.key_authorization
            &&& answer.expires_at_unix_millis == row.expires_at_unix_millis
        },
        http01_ops::answer_of(row) is Ok <==> !text::is_blank(route::normal_host(row.host))
            && !text::is_blank(row.token) && !text::is_blank(row.key_authorization)
            && row.expires_at_unix_millis > 0,
{
}

/// As many answers are dropped at once as was asked, if that number can be stored.
pub proof fn lemma_limit_is_stored_as_it_is(limit: Option<usize>)
    ensures
        http01_ops::limit_of(limit) is Ok <==> limit is None || limit->0 <= i64::MAX,
        http01_ops::limit_of(limit) matches Ok(stored) ==> (stored is Some <==> limit is Some),
        http01_ops::limit_of(limit) is Ok && limit is Some ==> http01_ops::limit_of(
            limit,
        )->Ok_0->0 == limit->0,
{
}

/// A generation can be stored if and only if it fits into a bigint, and one is read of
/// every number that is not negative.
pub proof fn lemma_generations_fit_into_a_bigint(value: nat, stored: i64)
    ensures
        mapping::stored_generation(value) is Ok <==> value <= i64::MAX,
        mapping::stored_backend_generation(value) is Ok <==> value <= i64::MAX,
        mapping::generation_of(stored) is Ok <==> stored >= 0,
        mapping::backend_generation_of(stored) is Ok <==> stored >= 0,
        mapping::stored_generation(value) matches Ok(number) ==> number == value,
        mapping::stored_backend_generation(value) matches Ok(number) ==> number == value,
        mapping::generation_of(stored) matches Ok(number) ==> number == stored,
        mapping::backend_generation_of(stored) matches Ok(number) ==> number == stored,
{
}

} // verus!

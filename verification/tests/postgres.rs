//! The store on Postgres: rows, requests and what is decided over them.
use std::time::{Duration, SystemTime};

use control_plane::config::PostgresStoreConfig;
use control_plane::ids::{
    BackendGeneration, Generation, IdempotencyKey, InstanceId, RouteBindingId, WorkloadClassId,
};
use control_plane::instance::{
    CompareAndSwapInstanceStateRequest, CreateInstanceRequest, InstanceState, InstanceValues,
    RequestInstanceDeletion, StateTransitionReason,
};
use control_plane::materialization::{
    BackendEndpoint, BeginSleepRequest, CompleteWakeRequest, FinalizeSleepRequest,
    MaterializationRecord, MaterializationState, MaterializationTarget,
    RecordMaterializationRequest, RenderedObjectRef,
};
use control_plane::postgres::connection::{
    connection_settings, parse_connection_url, session_options_text,
};
use control_plane::postgres::error::{
    map_postgres_error, map_postgres_failure, DatabaseError, PostgresFailure,
};
use control_plane::postgres::http01_ops::{expire_limit, expired_count};
use control_plane::postgres::idempotency::{
    check_replay, create_instance_fingerprint, create_route_binding_fingerprint, expire_batch,
};
use control_plane::postgres::instance_ops::{
    compare_and_swap_instance_state, create_instance_result, new_instance_row, new_route_rows,
};
use control_plane::postgres::lifecycle_ops::{
    accept_wake, activate_deferred_wake, check_deferred_target, deletion_batch,
    request_instance_deletion, AcceptWakeRequest, DeletionStep, WakeAcceptance,
};
use control_plane::postgres::mapping::{
    backend_generation_to_i64, generation_to_i64, instance_from_row, instance_state_to_db,
    materialization_from_row, materialization_id, materialization_state_to_db,
    rendered_objects_from_json, rendered_objects_to_json, unix_millis_from_system_time,
    values_from_json, values_to_json, InstanceRow,
};
use control_plane::postgres::materialization_ops::{
    backend_generation_rewind_error, begin_sleep, check_collision, complete_wake,
    complete_wake_materialization, ensure_instance_generation, finalize_sleep, marked_for_sleep,
    materialization_row, may_collide, ObjectCollision,
};
use control_plane::postgres::migrations::{map_migration_error, migration_step, MigrationStep};
use control_plane::route::{
    CreateRouteBindingRequest, PathPrefix, ProtocolRoute, RouteBindingSpec, RouteHost,
    RouteIdentity,
};
use control_plane::store::StoreError;
use control_plane::workload::{RenderedExclusivityKey, WorkloadClassVersionRef};
use serde_json::Value;

#[test]
fn parse_connection_url_rejects_invalid_urls() {
    let error = parse_connection_url("http://example.com/not-postgres")
        .expect_err("non-Postgres URL is invalid");

    assert!(matches!(error, StoreError::InvalidArgument { .. }));
}

#[test]
fn postgres_store_config_rejects_missing_url_before_provider_construction() {
    let error = PostgresStoreConfig::new(" ").expect_err("missing URL is invalid");

    assert_eq!(error.field(), "postgres.connection_url");
}

#[test]
fn connect_rejects_invalid_limits_before_parsing_or_allocating() {
    let mut config = PostgresStoreConfig::new("not a Postgres URL").unwrap();
    config.max_connections = usize::MAX;
    let error = connection_settings(&config).unwrap_err();
    assert!(matches!(error, StoreError::InvalidArgument { message }
        if message.contains("SLEEPYPODS_POSTGRES_MAX_CONNECTIONS")));

    config.max_connections = 1;
    config.statement_timeout = Duration::from_micros(999);
    let error = connection_settings(&config).unwrap_err();
    assert!(matches!(error, StoreError::InvalidArgument { message }
        if message.contains("SLEEPYPODS_POSTGRES_STATEMENT_TIMEOUT_MS")));

    config.statement_timeout = Duration::from_millis(1);
    config.idempotency_retention = Some(Duration::from_millis(i64::MAX as u64));
    let error = connection_settings(&config).unwrap_err();
    assert!(matches!(error, StoreError::InvalidArgument { message }
        if message.contains("SLEEPYPODS_POSTGRES_IDEMPOTENCY_RETENTION_MS")));
}

#[test]
fn connections_carry_the_time_limits() {
    let mut config =
        PostgresStoreConfig::new("postgres://user@db.example/app?options=-c%20a%3Db").unwrap();
    config.statement_timeout = Duration::from_millis(1500);
    config.operation_timeout = Duration::from_secs(3);
    config.connection_timeout = Duration::from_secs(7);
    config.idempotency_retention = Some(Duration::from_secs(60));
    let (settings, retention) = connection_settings(&config).expect("valid settings");
    assert_eq!(
        settings.get_options(),
        Some("-c a=b -c statement_timeout=1500 -c sleepypods.operation_timeout_ms=3000")
    );
    assert_eq!(settings.get_connect_timeout(), Some(&Duration::from_secs(7)));
    assert_eq!(settings.get_dbname(), Some("app"));
    assert_eq!(settings.get_user(), Some("user"));
    assert_eq!(retention, Some(60_000));
    assert_eq!(
        session_options_text(None, &config),
        " -c statement_timeout=1500 -c sleepypods.operation_timeout_ms=3000"
    );
}

#[test]
fn create_instance_fingerprint_is_canonical_for_normalized_routes() {
    let request = CreateInstanceRequest::new(
        IdempotencyKey::new("key-1").expect("valid key"),
        InstanceId::new("instance-1").expect("valid instance ID"),
        WorkloadClassVersionRef::new(
            WorkloadClassId::new("class-1").expect("valid class ID"),
            Generation::new(1),
        ),
    )
    .with_route_bindings(vec![RouteBindingSpec::new(
        RouteIdentity::Http {
            host: RouteHost::exact("App.Example.COM.").expect("valid host"),
            path: Some(PathPrefix::new("/api").expect("valid prefix")),
        },
        ProtocolRoute::Http,
    )]);

    let fingerprint = create_instance_fingerprint(&request).expect("fingerprint builds");

    assert_eq!(
        fingerprint["route_bindings"][0]["identity"]["host"]["host"],
        "app.example.com"
    );
}

#[test]
fn create_route_binding_fingerprint_uses_canonical_route_identity() {
    let first = CreateRouteBindingRequest::new(
        IdempotencyKey::new("key-1").expect("valid key"),
        RouteBindingId::new("route-1").expect("valid route ID"),
        InstanceId::new("instance-1").expect("valid instance ID"),
        RouteIdentity::Http {
            host: RouteHost::exact("App.Example.COM.").expect("valid host"),
            path: Some(PathPrefix::new("/api").expect("valid prefix")),
        },
        ProtocolRoute::Http,
    );
    let second = CreateRouteBindingRequest::new(
        IdempotencyKey::new("key-1").expect("valid key"),
        RouteBindingId::new("route-1").expect("valid route ID"),
        InstanceId::new("instance-1").expect("valid instance ID"),
        RouteIdentity::Http {
            host: RouteHost::exact("app.example.com").expect("valid host"),
            path: Some(PathPrefix::new("/api").expect("valid prefix")),
        },
        ProtocolRoute::Http,
    );

    assert_eq!(
        create_route_binding_fingerprint(&first).expect("fingerprint builds"),
        create_route_binding_fingerprint(&second).expect("fingerprint builds")
    );
}

#[test]
fn replays_have_to_ask_for_the_same() {
    let same = values_to_json(&values([("tenant", "acme")]));
    let again = values_to_json(&values([("tenant", "acme")]));
    let other = values_to_json(&values([("tenant", "other")]));
    assert!(check_replay("create", &same, "create", &again).is_ok());
    assert_eq!(
        check_replay("create", &same, "create", &other),
        Err(StoreError::IdempotencyConflict)
    );
    assert_eq!(
        check_replay("create", &same, "delete", &again),
        Err(StoreError::IdempotencyConflict)
    );
    assert!(expire_batch(0).is_err());
    assert_eq!(expire_batch(1), Ok(1));
}

#[test]
fn errors_of_the_client_keep_their_description() {
    let error = "port=not-a-port"
        .parse::<tokio_postgres::Config>()
        .expect_err("the port is no number");
    let shown = error.to_string();
    assert_eq!(
        map_postgres_error(error),
        StoreError::internal(&format!("Postgres query failed: {shown}"))
    );
    let error = "port=not-a-port"
        .parse::<tokio_postgres::Config>()
        .expect_err("the port is no number");
    assert_eq!(
        map_migration_error(error),
        StoreError::internal(&format!("postgres migration failed: {shown}"))
    );
}

#[test]
fn errors_of_the_database_are_told_apart() {
    let cases = [
        ("40001", "busy", None, StoreError::unavailable("busy")),
        ("57P01", "shutdown", None, StoreError::unavailable("shutdown")),
        (
            "23505",
            "duplicate",
            Some("instances_pkey"),
            StoreError::AlreadyExists {
                resource: "instance",
            },
        ),
        (
            "23505",
            "duplicate",
            Some("http01_challenges_pkey"),
            StoreError::AlreadyExists {
                resource: "HTTP-01 challenge",
            },
        ),
        (
            "23505",
            "duplicate",
            None,
            StoreError::AlreadyExists {
                resource: "Postgres record",
            },
        ),
        (
            "23503",
            "missing",
            None,
            StoreError::NotFound {
                resource: "referenced resource",
            },
        ),
        (
            "23514",
            "check",
            None,
            StoreError::invalid_argument("Postgres check constraint failed: shown"),
        ),
        (
            "42601",
            "syntax",
            None,
            StoreError::internal("Postgres query failed: code=42601 message=syntax"),
        ),
        (
            "P0001",
            "instance_id_retired",
            None,
            StoreError::invalid_argument(
                "instance ID was deleted before incarnation fencing; use a new instance ID",
            ),
        ),
    ];
    for (code, message, constraint, expected) in cases {
        assert_eq!(
            map_postgres_failure(&database_failure(code, message, None, constraint)),
            expected
        );
    }
    let closed = PostgresFailure {
        database: None,
        closed: true,
        description: "shown".to_owned(),
    };
    assert_eq!(
        map_postgres_failure(&closed),
        StoreError::unavailable("Postgres connection closed: shown")
    );
}

#[test]
fn conflicts_name_their_owner() {
    let detail = r#"{"cluster_id":"c","namespace":"n","key_name":"k",
        "owner_instance_id":"other","owner_generation":3}"#;
    assert_eq!(
        map_postgres_failure(&database_failure(
            "P0001",
            "exclusivity_conflict",
            Some(detail),
            None
        )),
        StoreError::ExclusivityConflict {
            cluster_id: "c".to_owned(),
            namespace: "n".to_owned(),
            key_name: "k".to_owned(),
            owner_instance_id: Some("other".to_owned()),
            owner_generation: Some(Generation::new(3)),
        }
    );
    assert_eq!(
        map_postgres_failure(&database_failure(
            "P0001",
            "exclusivity_conflict",
            Some("not JSON"),
            None
        )),
        StoreError::internal("Postgres query failed: code=P0001 message=exclusivity_conflict")
    );
    assert_eq!(
        map_postgres_failure(&database_failure(
            "P0001",
            "rendered_object_ref_collision",
            Some("taken"),
            None
        )),
        StoreError::invalid_argument("taken")
    );
}

#[test]
fn migrations_are_applied_once_and_under_one_name() {
    assert_eq!(migration_step(1, "initial", None), Ok(MigrationStep::Apply));
    assert_eq!(
        migration_step(1, "initial", Some("initial")),
        Ok(MigrationStep::Skip)
    );
    assert_eq!(
        migration_step(1, "initial", Some("other")),
        Err(StoreError::internal(
            "migration version 1 was already applied as \"other\", expected \"initial\""
        ))
    );
}

#[test]
fn numbers_that_do_not_fit_are_refused() {
    assert_eq!(generation_to_i64(Generation::new(7)), Ok(7));
    assert!(generation_to_i64(Generation::new(u64::MAX)).is_err());
    assert_eq!(backend_generation_to_i64(BackendGeneration::new(7)), Ok(7));
    assert!(backend_generation_to_i64(BackendGeneration::new(u64::MAX)).is_err());
    assert_eq!(expire_limit(None), Ok(None));
    assert_eq!(expire_limit(Some(9)), Ok(Some(9)));
    assert!(expire_limit(Some(usize::MAX)).is_err());
    assert_eq!(expired_count(9), Ok(9));
    assert_eq!(deletion_batch(9), Ok(9));
    assert!(deletion_batch(usize::MAX).is_err());
    let at = SystemTime::UNIX_EPOCH + Duration::from_micros(1_234_567);
    assert_eq!(unix_millis_from_system_time(at), Ok(1_234));
    let before = SystemTime::UNIX_EPOCH - Duration::from_micros(1_234_567);
    assert_eq!(unix_millis_from_system_time(before), Ok(-1_234));
}

#[test]
fn values_and_objects_are_read_back() {
    let stored = values([("tenant", "acme"), ("image", "app:1")]);
    assert_eq!(values_from_json(&values_to_json(&stored)), Ok(stored));
    assert!(values_from_json(&Value::Null).is_err());
    let number: Value = serde_json::from_str(r#"{"tenant":1}"#).expect("valid JSON");
    assert!(values_from_json(&number).is_err());

    let objects = vec![object("svc-a"), object("svc-b")];
    let json = rendered_objects_to_json(&objects);
    assert_eq!(rendered_objects_from_json(&json), Ok(objects));
    let broken: Value = serde_json::from_str(r#"[{"kind":"Service"}]"#).expect("valid JSON");
    assert!(rendered_objects_from_json(&broken).is_err());
}

#[test]
fn instances_are_read_back_as_they_were_created() {
    let request = create_request();
    let row = new_instance_row(&request).expect("the class version fits");
    let routes = new_route_rows(&request).expect("the routes are valid");
    let result = create_instance_result(&Some(row), &routes, false).expect("rows are valid");
    assert_eq!(result.instance.id.as_str(), "instance-1");
    assert_eq!(result.instance.state, InstanceState::Cold);
    assert_eq!(result.instance.generation, Generation::new(0));
    assert_eq!(result.instance.values, request.values);
    assert_eq!(result.route_bindings.len(), 1);
    assert!(!result.idempotency_replayed);
    assert!(create_instance_result(&None, &routes, true).is_err());
}

#[test]
fn rows_of_instances_are_checked() {
    assert!(instance_from_row(&instance_row("cold", 3)).is_ok());
    assert!(instance_from_row(&instance_row("frozen", 3)).is_err());
    assert!(instance_from_row(&instance_row("cold", -1)).is_err());
    for state in [
        InstanceState::Cold,
        InstanceState::Waking,
        InstanceState::Running,
        InstanceState::Draining,
        InstanceState::Failed,
        InstanceState::Deleting,
        InstanceState::Deleted,
    ] {
        let row = instance_row(instance_state_to_db(state), 3);
        assert_eq!(instance_from_row(&row).expect("valid").state, state);
    }
    assert_eq!(
        materialization_state_to_db(MaterializationState::Ready),
        "ready"
    );
}

#[test]
fn one_of_two_that_advance_an_instance_wins() {
    let row = instance_row("cold", 3);
    let request = CompareAndSwapInstanceStateRequest::new(
        InstanceId::new("instance-1").unwrap(),
        Generation::new(3),
        InstanceState::Waking,
        StateTransitionReason::WakeRequested,
    );
    let update = compare_and_swap_instance_state(&Some(row), &request).expect("it is cold");
    assert_eq!(update.state, "waking");
    assert_eq!(update.generation, 4);
    let row = instance_row(update.state, update.generation);
    assert_eq!(
        compare_and_swap_instance_state(&Some(row), &request),
        Err(StoreError::GenerationConflict {
            expected: Generation::new(3),
            actual: Generation::new(4),
        })
    );
    assert!(matches!(
        compare_and_swap_instance_state(&Some(instance_row("running", 3)), &request),
        Err(StoreError::InvalidArgument { .. })
    ));
    assert_eq!(
        compare_and_swap_instance_state(&None, &request),
        Err(StoreError::NotFound {
            resource: "instance"
        })
    );
}

#[test]
fn cold_instances_begin_to_wake() {
    let request = wake_request(3, 4);
    let accepted = accept_wake(request, &Some(instance_row("cold", 3)), false, false, Some(8))
        .expect("the wake is accepted");
    match accepted {
        WakeAcceptance::Waking {
            generation,
            pending,
        } => {
            assert_eq!(generation, 4);
            assert_eq!(pending.backend_generation, BackendGeneration::new(9));
            assert_eq!(pending.projection_generation, Generation::new(5));
        }
        other => panic!("expected a wake, got {other:?}"),
    }
}

#[test]
fn wakes_that_were_accepted_are_repeated_without_effect() {
    let accepted = accept_wake(
        wake_request(3, 4),
        &Some(instance_row("waking", 4)),
        true,
        true,
        Some(9),
    )
    .expect("it was accepted before");
    match accepted {
        WakeAcceptance::Replayed(instance) => {
            assert_eq!(instance.state, InstanceState::Waking);
            assert_eq!(instance.generation, Generation::new(4));
        }
        other => panic!("expected a repetition, got {other:?}"),
    }
}

#[test]
fn wakes_of_draining_instances_wait() {
    let accepted = accept_wake(
        wake_request(3, 5),
        &Some(instance_row("draining", 3)),
        false,
        true,
        None,
    )
    .expect("the wake is accepted");
    let intent = match accepted {
        WakeAcceptance::Deferred { intent, instance } => {
            assert_eq!(instance.state, InstanceState::Draining);
            intent
        }
        other => panic!("expected a wake that waits, got {other:?}"),
    };
    assert!(check_deferred_target(true, &intent, "", "").is_ok());
    assert!(check_deferred_target(false, &intent, "cluster-a", "apps").is_ok());
    assert!(check_deferred_target(false, &intent, "cluster-b", "apps").is_err());
    let pending = activate_deferred_wake(intent, true).expect("the instance sleeps");
    assert_eq!(pending, wake_request(3, 5).pending);
}

#[test]
fn wakes_are_refused_with_a_reason() {
    let refused = |row, request, pending, cleanup, previous| {
        accept_wake(request, &row, pending, cleanup, previous).expect_err("refused")
    };
    assert_eq!(
        refused(None, wake_request(3, 4), false, false, None),
        StoreError::NotFound {
            resource: "instance"
        }
    );
    assert_eq!(
        refused(
            Some(instance_row("waking", 4)),
            wake_request(3, 4),
            false,
            false,
            None
        ),
        StoreError::invalid_argument("wake already accepted for another target")
    );
    assert!(matches!(
        accept_wake(
            wake_request(3, 4),
            &Some(instance_row("waking", 4)),
            true,
            false,
            None
        ),
        Ok(WakeAcceptance::Replayed(_))
    ));
    assert_eq!(
        refused(
            Some(instance_row("cold", 7)),
            wake_request(3, 4),
            false,
            false,
            None
        ),
        StoreError::GenerationConflict {
            expected: Generation::new(3),
            actual: Generation::new(7),
        }
    );
    assert_eq!(
        refused(
            Some(instance_row("running", 3)),
            wake_request(3, 4),
            false,
            false,
            None
        ),
        StoreError::invalid_argument(
            "wake acceptance requires cold, failed, or draining instance"
        )
    );
    assert_eq!(
        refused(
            Some(instance_row("cold", 3)),
            wake_request(3, 4),
            false,
            true,
            None
        ),
        StoreError::unavailable("previous materialization cleanup is still pending")
    );
    assert_eq!(
        refused(
            Some(instance_row("cold", 3)),
            wake_request(3, 5),
            false,
            false,
            None
        ),
        StoreError::invalid_argument(
            "accepted wake projection does not match its next incarnation"
        )
    );
    assert_eq!(
        refused(
            Some(instance_row("failed", 3)),
            wake_request(3, 4),
            false,
            false,
            Some(i64::MAX)
        ),
        StoreError::invalid_argument("backend generation exhausted")
    );
}

#[test]
fn deletions_are_accepted_again() {
    let request = RequestInstanceDeletion {
        instance_id: InstanceId::new("instance-1").unwrap(),
        expected_generation: Generation::new(3),
    };
    let stored = |state: &str, generation| Some((state.to_owned(), generation));
    assert_eq!(
        request_instance_deletion(&request, &None),
        Ok(DeletionStep::Missing)
    );
    assert_eq!(
        request_instance_deletion(&request, &stored("running", 3)),
        Ok(DeletionStep::Begin)
    );
    assert_eq!(
        request_instance_deletion(&request, &stored("deleting", 4)),
        Ok(DeletionStep::Continue)
    );
    assert_eq!(
        request_instance_deletion(&request, &stored("deleting", 3)),
        Ok(DeletionStep::Continue)
    );
    assert!(matches!(
        request_instance_deletion(&request, &stored("running", 4)),
        Err(StoreError::GenerationConflict { .. })
    ));
}

#[test]
fn instances_sleep_over_two_generations() {
    let target = target();
    let id = InstanceId::new("instance-1").unwrap();
    let begin = BeginSleepRequest::new(id.clone(), Generation::new(3), target.clone());
    let draining = begin_sleep(&Some(instance_row("running", 3)), &begin).expect("it runs");
    assert_eq!((draining.state, draining.generation), ("draining", 4));
    let finalize = FinalizeSleepRequest::new(id, Generation::new(4), target);
    let row = instance_row(draining.state, draining.generation);
    let cold = finalize_sleep(&Some(row), &finalize).expect("it drains");
    assert_eq!((cold.state, cold.generation), ("cold", 5));
    assert!(begin_sleep(&Some(instance_row("cold", 3)), &begin).is_err());
}

#[test]
fn woken_instances_run_with_a_backend() {
    let request = complete_wake_request();
    let running = complete_wake(&Some(instance_row("waking", 4)), &request).expect("it wakes");
    assert_eq!((running.state, running.generation), ("running", 5));
    let record = complete_wake_materialization(request, Generation::new(5));
    assert_eq!(record.state, MaterializationState::Ready);
    assert_eq!(record.backend, Some(backend()));
    let row = materialization_row(&record).expect("the numbers fit");
    assert_eq!(row.materialization_id, "instance-1:cluster-a:apps");
    let read = materialization_from_row(row).expect("the row is valid");
    assert_eq!(read.instance_generation, Generation::new(5));
    assert_eq!(read.rendered_objects, vec![object("svc-a")]);
    assert_eq!(
        read.id,
        materialization_id(&InstanceId::new("instance-1").unwrap(), &target()).unwrap()
    );
    assert_eq!(read.exclusivity_keys, record.exclusivity_keys);
}

#[test]
fn materializations_are_of_the_generation_that_is_stored() {
    let request = wake_request(3, 4).pending;
    assert!(ensure_instance_generation(&request, Some(4)).is_ok());
    assert!(matches!(
        ensure_instance_generation(&request, Some(5)),
        Err(StoreError::GenerationConflict { .. })
    ));
    assert!(matches!(
        ensure_instance_generation(&request, Some(-1)),
        Err(StoreError::Internal { .. })
    ));
    assert!(matches!(
        ensure_instance_generation(&request, None),
        Err(StoreError::NotFound { .. })
    ));
}

#[test]
fn objects_of_other_instances_collide() {
    let mut request = wake_request(3, 4).pending;
    assert!(!may_collide(&request));
    request.rendered_objects = vec![object("svc-a")];
    assert!(may_collide(&request));
    let collision = Some(ObjectCollision {
        owner_instance_id: "other".to_owned(),
        object: object("svc-a"),
    });
    assert_eq!(
        check_collision(&request, &collision),
        Err(StoreError::invalid_argument(
            "rendered Kubernetes object ref collision in cluster cluster-a: v1 Service \
             apps/svc-a is already owned by active materialization for instance other"
        ))
    );
    assert_eq!(check_collision(&request, &None), Ok(()));
    request.state = MaterializationState::Deleted;
    assert!(!may_collide(&request));
}

#[test]
fn backends_do_not_go_back() {
    assert_eq!(
        backend_generation_rewind_error(BackendGeneration::new(2), Some(5)),
        StoreError::invalid_argument(
            "materialization backend generation rewind rejected: existing backend generation 5 \
             is newer than reported backend generation 2"
        )
    );
    assert!(matches!(
        backend_generation_rewind_error(BackendGeneration::new(2), None),
        StoreError::Internal { .. }
    ));
}

#[test]
fn materializations_of_other_generations_keep_an_instance_awake() {
    let record = || {
        let row = materialization_row(&wake_request(3, 4).pending).expect("the numbers fit");
        materialization_from_row(row).expect("the row is valid")
    };
    let conflicting: MaterializationRecord = record();
    assert_eq!(
        marked_for_sleep(Generation::new(4), Some(record()), &None),
        Ok(Some(record()))
    );
    assert_eq!(
        marked_for_sleep(Generation::new(4), None, &Some(record())),
        Ok(None)
    );
    assert_eq!(
        marked_for_sleep(Generation::new(9), None, &Some(conflicting)),
        Err(StoreError::GenerationConflict {
            expected: Generation::new(9),
            actual: Generation::new(4),
        })
    );
}

fn database_failure(
    code: &str,
    message: &str,
    detail: Option<&str>,
    constraint: Option<&str>,
) -> PostgresFailure {
    PostgresFailure {
        database: Some(DatabaseError {
            code: code.to_owned(),
            message: message.to_owned(),
            detail: detail.map(str::to_owned),
            constraint: constraint.map(str::to_owned),
        }),
        closed: false,
        description: "shown".to_owned(),
    }
}

fn create_request() -> CreateInstanceRequest {
    CreateInstanceRequest::new(
        IdempotencyKey::new("key-1").unwrap(),
        InstanceId::new("instance-1").unwrap(),
        WorkloadClassVersionRef::new(WorkloadClassId::new("class-1").unwrap(), Generation::new(1)),
    )
    .with_values(values([("tenant", "acme")]))
    .with_route_bindings(vec![RouteBindingSpec::new(
        RouteIdentity::Sni {
            host: RouteHost::exact("db.example.com").unwrap(),
        },
        ProtocolRoute::TlsSni,
    )])
}

fn instance_row(state: &str, generation: i64) -> InstanceRow {
    InstanceRow {
        instance_id: "instance-1".to_owned(),
        workload_class_id: "class-1".to_owned(),
        workload_class_version: 1,
        values: values_to_json(&values([("tenant", "acme")])),
        state: state.to_owned(),
        generation,
    }
}

fn wake_request(expected: u64, waking: u64) -> AcceptWakeRequest {
    let mut pending = RecordMaterializationRequest::new(
        InstanceId::new("instance-1").unwrap(),
        Generation::new(waking),
        target(),
        MaterializationState::Pending,
        BackendGeneration::new(2),
    );
    pending.projection_generation = Generation::new(waking + 1);
    AcceptWakeRequest {
        expected_generation: Generation::new(expected),
        pending,
    }
}

fn complete_wake_request() -> CompleteWakeRequest {
    let mut request = CompleteWakeRequest::new(
        InstanceId::new("instance-1").unwrap(),
        Generation::new(4),
        target(),
        backend(),
        BackendGeneration::new(2),
    );
    request.rendered_objects = vec![object("svc-a")];
    request.exclusivity_keys = vec![RenderedExclusivityKey {
        name: "volume".to_owned(),
        value: "vol-1".to_owned(),
    }];
    request
}

fn backend() -> BackendEndpoint {
    BackendEndpoint::new("http://svc-a.apps.svc.cluster.local:80").unwrap()
}

fn target() -> MaterializationTarget {
    MaterializationTarget::new("cluster-a", "apps").unwrap()
}

fn object(name: &str) -> RenderedObjectRef {
    RenderedObjectRef {
        api_version: "v1".to_owned(),
        kind: "Service".to_owned(),
        namespace: "apps".to_owned(),
        name: name.to_owned(),
    }
}

fn values<const N: usize>(pairs: [(&str, &str); N]) -> InstanceValues {
    let mut values = InstanceValues::new();
    for (key, value) in pairs {
        values.insert(key, value.to_owned());
    }
    values
}

//! The API: messages, and how calls are answered.
use std::time::{Duration, SystemTime};

use control_plane::api::certificate_watch::{
    delivery, interests, phase_millis, WatchQuery, WatchState,
};
use control_plane::api::certificates::{
    binding, binding_request_from_proto, found_metadata, metadata_request_from_proto,
    publish_request_from_proto, reencrypt_request_from_proto, remove_request_from_proto,
    require_secure, resolve_request_from_proto, resolve_response, set_binding_request_from_proto,
    store_error,
};
use control_plane::api::pb;
use control_plane::api::proxy::{
    proxy_wake_request_from_proto, route_looked_up, wake_response, ResolveStep, RouteSubscriptions,
    SubscribeInput, SubscribeStep,
};
use control_plane::api::route_events::RouteBindingChange;
use control_plane::api::server::{
    create_instance_request_from_proto, create_route_binding_request_from_proto,
    delete_instance_request_from_proto, force_delete_materialization_request_from_proto,
    force_delete_materialization_response, force_release_exclusivity_key_request_from_proto,
    instance_to_proto, placeholder_status, projection_observation_to_proto,
    reconcile_materialization_response, reconcile_materialization_step, route_binding_to_proto,
    route_identity_from_proto, route_identity_to_proto, MaterializationWorkStatus,
    ProjectionObservation, ReconcileStep, ReconciliationLease, UncertainEffect,
};
use control_plane::api::sidecar::{
    changes_routes, report_idle_error_response, report_idle_request_from_proto,
    report_idle_result_to_proto,
};
use control_plane::api::status::StatusCode;
use control_plane::api::template::{
    manifest_template_from_proto, manifest_template_to_proto, volume_source_template_from_proto,
    volume_source_template_to_proto,
};
use control_plane::api::{OPERATOR_SERVICE_NAME, OPERATOR_UNARY_METHODS};
use control_plane::auth::CallerRole;
use control_plane::certificate::{
    CertificateId, CertificateMetadata, CertificateRevision, CertificateState, TlsBinding,
    TlsBindingSnapshot, TlsCertificateChange, TlsCertificateChangeKind, TlsCertificateChangePage,
    TlsCertificateResolution, TlsCertificateValue, TlsHostname,
};
use control_plane::idle::{ReportIdleError, ReportIdleResult, ReportIdleUnavailableReason};
use control_plane::ids::{
    BackendGeneration, Generation, InstanceId, MaterializationId, RouteBindingId, WorkloadClassId,
};
use control_plane::instance::{InstanceRecord, InstanceState, InstanceValues};
use control_plane::manifest::template::RawKubernetesManifestTemplate;
use control_plane::manifest::{
    ContainerPortTemplate, ContainerTemplate, EnvVarTemplate, ManifestTemplate,
    PersistentVolumeAccessMode, PersistentVolumeReclaimPolicy, PersistentVolumeSourceTemplate,
    ServicePortTemplate, ServiceTemplate, SidecarTemplate, TemplateText, TemplateTextPart,
    VolumeTemplate, WorkloadKind, WorkloadTemplate,
};
use control_plane::materialization::{
    BackendEndpoint, MaterializationRecord, MaterializationState, MaterializationTarget,
    RenderedObjectRef,
};
use control_plane::route::{
    CachePolicy, PathPrefix, ProtocolRoute, RouteBindingRecord, RouteEntry, RouteHost,
    RouteIdentity, RouteResolution,
};
use control_plane::store::{store_error_to_status, StoreError};
use control_plane::wake::{WakeInstanceError, WakeInstanceResult, WakeUnavailableReason};
use control_plane::workload::WorkloadClassVersionRef;
use tonic::metadata::{MetadataMap, MetadataValue};

const TIMEOUT: Duration = Duration::from_secs(30);

#[test]
fn registration_rejects_invalid_replacement_without_changing_accepted_state() {
    let mut state = WatchState::new();
    state.register(&input(1, "valid.example")).unwrap();
    let mut duplicate = input(2, "valid.example");
    duplicate.hostnames.push(duplicate.hostnames[0].clone());
    let mut excessive = input(2, "valid.example");
    excessive.hostnames = vec![excessive.hostnames[0].clone(); 1025];
    for request in [
        input(1, "valid.example"),
        input(0, "valid.example"),
        input(2, "Invalid.Example"),
        duplicate,
        excessive,
        input(2, ""),
    ] {
        assert!(state.register(&request).is_err());
        match state.next_query() {
            WatchQuery::Snapshot(hosts) => assert_eq!(hosts[0].as_str(), "valid.example"),
            _ => panic!("the registration is still pending"),
        }
    }
    let told = state
        .snapshot_loaded(&Ok(snapshot("valid.example", 4)))
        .unwrap()
        .unwrap();
    match told.value {
        Some(pb::WatchTlsCertificatesValue::Snapshot(snapshot)) => {
            assert_eq!(snapshot.registration, 1);
            assert_eq!(snapshot.cursor, 4);
        }
        _ => panic!("the snapshot is told"),
    }
}

#[test]
fn busy_stores_leave_a_registration_pending() {
    let mut state = WatchState::new();
    state.register(&input(1, "valid.example")).unwrap();
    let busy = Err(StoreError::unavailable("busy"));
    assert_eq!(state.snapshot_loaded(&busy), Ok(None));
    assert!(state.awaits_setup());
    let broken = Err(StoreError::internal("broken"));
    assert_eq!(
        state.snapshot_loaded(&broken).unwrap_err().code(),
        StatusCode::Unavailable
    );
}

#[test]
fn watches_tell_of_the_hosts_that_are_watched() {
    let mut state = WatchState::new();
    state.register(&input(1, "valid.example")).unwrap();
    state
        .snapshot_loaded(&Ok(snapshot("valid.example", 4)))
        .unwrap();
    assert!(state.polls());
    match state.next_query() {
        WatchQuery::Changes { after, limit } => {
            assert_eq!(after.get(), 4);
            assert_eq!(limit, 256);
        }
        _ => panic!("changes are asked for"),
    }
    let page = TlsCertificateChangePage {
        cursor: CertificateRevision::new(6).unwrap(),
        reset: false,
        events: vec![change("valid.example", 5), change("other.example", 6)],
    };
    let told = state.changes_loaded(&Ok(page)).unwrap().unwrap();
    match told.value {
        Some(pb::WatchTlsCertificatesValue::Changes(changes)) => {
            assert_eq!(changes.cursor, 6);
            assert_eq!(changes.events.len(), 1);
            assert_eq!(changes.events[0].hostname, "valid.example");
            assert_eq!(changes.events[0].view_revision, 5);
        }
        _ => panic!("the changes are told"),
    }
}

#[test]
fn resets_end_a_watch() {
    let mut state = WatchState::new();
    state.register(&input(1, "valid.example")).unwrap();
    state
        .snapshot_loaded(&Ok(snapshot("valid.example", 4)))
        .unwrap();
    let page = TlsCertificateChangePage {
        cursor: CertificateRevision::new(9).unwrap(),
        reset: true,
        events: vec![],
    };
    let told = state.changes_loaded(&Ok(page));
    let sent = delivery(Some(told)).expect("a reset is sent");
    assert!(sent.terminal);
    assert!(sent.response.is_ok());
    let late = delivery(None).expect("lateness is sent");
    assert!(late.terminal);
    assert_eq!(
        late.response.unwrap_err().code(),
        StatusCode::DeadlineExceeded
    );
    assert!(delivery(Some(Ok(None))).is_none());
}

#[test]
fn watched_hosts_are_checked() {
    assert!(interests(&vec!["a.example".to_owned(), "b.example".to_owned()]).is_ok());
    assert!(interests(&vec![]).unwrap().is_empty());
    let many = vec!["a.example".to_owned(); 1025];
    assert_eq!(
        interests(&many).unwrap_err().code(),
        StatusCode::ResourceExhausted
    );
    let twice = vec!["a.example".to_owned(); 2];
    assert_eq!(
        interests(&twice).unwrap_err().code(),
        StatusCode::InvalidArgument
    );
    assert!(phase_millis(1) < 250);
    assert_ne!(phase_millis(1), phase_millis(2));
}

#[test]
fn certificates_are_for_native_calls_of_one_role() {
    let native = content_type("application/grpc");
    let web = content_type("application/grpc-web");
    let operator = Some(CallerRole::Operator);
    assert!(require_secure(true, &native, operator, CallerRole::Operator).is_ok());
    for (tls, metadata, caller) in [
        (false, &native, operator),
        (true, &web, operator),
        (true, &MetadataMap::new(), operator),
        (true, &native, None),
        (true, &native, Some(CallerRole::Proxy)),
    ] {
        let error = require_secure(tls, metadata, caller, CallerRole::Operator).unwrap_err();
        assert_eq!(error.code(), StatusCode::PermissionDenied);
    }
}

#[test]
fn certificate_requests_say_what_they_replace() {
    let request = pb::PublishCertificateRequest {
        certificate_id: "cert-a".to_owned(),
        expected_version: Some(3),
        bundle: Some(pb::CertificateBundle {
            chain_der: vec![vec![1]],
            private_key_pkcs8_der: vec![2],
        }),
    };
    let read = publish_request_from_proto(request.clone()).expect("valid");
    assert_eq!(read.id.as_str(), "cert-a");
    assert_eq!(read.expected_version.get(), 3);
    let mut silent = request.clone();
    silent.expected_version = None;
    assert!(publish_request_from_proto(silent).is_err());
    let mut empty = request;
    empty.bundle = None;
    assert!(publish_request_from_proto(empty).is_err());

    let unbind = pb::SetTlsBindingRequest {
        hostname: "a.example".to_owned(),
        expected_revision: Some(0),
        certificate_id: None,
    };
    assert!(set_binding_request_from_proto(&unbind).is_ok());
    let resolve = pb::ResolveTlsCertificateRequest {
        server_name: "a.example".to_owned(),
        known_view_revision: None,
    };
    assert!(resolve_request_from_proto(&resolve).is_ok());
    let empty = pb::ResolveTlsCertificateRequest {
        server_name: "".to_owned(),
        known_view_revision: None,
    };
    assert!(resolve_request_from_proto(&empty).is_err());
    assert_eq!(
        found_metadata(None).unwrap_err().code(),
        StatusCode::NotFound
    );
}

#[test]
fn other_certificate_requests_are_read() {
    let id = pb::GetCertificateMetadataRequest { certificate_id: "cert-a".to_owned() };
    assert_eq!(metadata_request_from_proto(&id).unwrap().as_str(), "cert-a");
    let host = pb::GetTlsBindingRequest { hostname: "A.Example.".to_owned() };
    assert_eq!(binding_request_from_proto(&host).unwrap().as_str(), "a.example");
    let host = pb::GetTlsBindingRequest { hostname: "*.example".to_owned() };
    let error = binding_request_from_proto(&host).unwrap_err();
    assert_eq!(error.message(), "invalid certificate resource");

    let remove = pb::RemoveCertificateRequest {
        certificate_id: "cert-a".to_owned(),
        expected_version: Some(2),
    };
    assert_eq!(remove_request_from_proto(&remove).unwrap().expected_version.get(), 2);
    let remove = pb::RemoveCertificateRequest { expected_version: None, ..remove };
    let error = remove_request_from_proto(&remove).unwrap_err();
    assert_eq!(error.message(), "expected revision is required");

    let reencrypt = pb::ReencryptCertificateRequest {
        certificate_id: "cert-a".to_owned(),
        expected_version: Some(2),
        expected_sealing_revision: Some(5),
    };
    let read = reencrypt_request_from_proto(&reencrypt).unwrap();
    assert_eq!((read.expected_version.get(), read.expected_sealing_revision.get()), (2, 5));
    let reencrypt = pb::ReencryptCertificateRequest {
        expected_sealing_revision: None,
        ..reencrypt
    };
    assert!(reencrypt_request_from_proto(&reencrypt).is_err());
}

#[test]
fn forced_requests_are_read_and_answered() {
    let delete = pb::ForceDeleteMaterializationRequest {
        materialization_id: "instance-1:cluster-a:apps".to_owned(),
        operator: "ops".to_owned(),
        reason: "stuck".to_owned(),
    };
    let read = force_delete_materialization_request_from_proto(&delete).unwrap();
    assert_eq!(read.materialization_id.as_str(), "instance-1:cluster-a:apps");
    assert_eq!((read.operator.as_str(), read.reason.as_str()), ("ops", "stuck"));
    let unnamed = pb::ForceDeleteMaterializationRequest {
        materialization_id: " ".to_owned(),
        ..delete
    };
    assert!(force_delete_materialization_request_from_proto(&unnamed).is_err());

    let release = pb::ForceReleaseExclusivityKeyRequest {
        cluster_id: "cluster-a".to_owned(),
        namespace: "apps".to_owned(),
        key_name: "disk".to_owned(),
        key_value: "disk-1".to_owned(),
        operator: "ops".to_owned(),
        reason: "stuck".to_owned(),
    };
    let read = force_release_exclusivity_key_request_from_proto(&release).unwrap();
    assert_eq!(read.target, MaterializationTarget::new("cluster-a", "apps").unwrap());
    assert_eq!((read.key_name.as_str(), read.key_value.as_str()), ("disk", "disk-1"));
    let nowhere = pb::ForceReleaseExclusivityKeyRequest { namespace: "".to_owned(), ..release };
    let error = force_release_exclusivity_key_request_from_proto(&nowhere).unwrap_err();
    assert_eq!(error.message(), "materialization target namespace must not be empty");

    let mut record = materialization(None);
    record.rendered_objects = vec![service_ref()];
    let answer = force_delete_materialization_response("m-1", Some(&record), vec![]);
    assert!(answer.found);
    assert_eq!(answer.observed_refs.len(), 1);
    assert_eq!(answer.observed_refs[0].name, "app");
    let answer = force_delete_materialization_response("m-1", None, vec![]);
    assert!(!answer.found);
    assert_eq!(answer.materialization_id, "m-1");
    assert!(answer.observed_refs.is_empty());
}

#[test]
fn reconciled_materializations_are_answered_with_their_work() {
    let observed = projection_observation_to_proto(&ProjectionObservation {
        object_ref: service_ref(),
        state: "present".to_owned(),
        reason: None,
        finalizers: vec!["keep".to_owned()],
        backend_uri: Some("http://svc".to_owned()),
    });
    assert_eq!(observed.reason, "");
    assert_eq!(observed.backend_uri, "http://svc");
    assert_eq!(observed.object.as_ref().map(|object| object.name.as_str()), Some("app"));

    let before = materialization(None);
    let mut after = materialization(Some("http://svc"));
    after.rendered_objects = vec![service_ref()];
    let lease = |attempt| ReconciliationLease {
        owner: "worker-1".to_owned(),
        expires_at: SystemTime::UNIX_EPOCH + Duration::from_millis(1_500),
        attempt,
    };
    let answer = reconcile_materialization_response(
        &before,
        Some(lease(1)),
        Some((after, Some(lease(2)))),
        true,
        vec![observed],
        Some(MaterializationWorkStatus {
            next_attempt_at_unix_millis: Some(7),
            operation_deadline_unix_millis: None,
            failure_count: 3,
            failure_kind: Some("transient".to_owned()),
            failure_message: Some("busy".to_owned()),
            wake_failure_message: None,
            uncertain_effect: Some(UncertainEffect {
                generation: Generation::new(4),
                owner: "worker-1".to_owned(),
                attempt: 2,
                effect_id: "effect-1".to_owned(),
                operation: "apply".to_owned(),
                object: service_ref(),
                expected_uid: None,
                expected_resource_version: Some("12".to_owned()),
                started_at_unix_millis: 9,
            }),
        }),
    );
    assert!(answer.found && answer.attempted);
    assert_eq!(answer.lease_owner, "worker-1");
    assert_eq!(answer.lease_expires_at_unix_millis, 1_500);
    assert_eq!(answer.lease_attempt, 2);
    assert_eq!(answer.observed_refs.len(), 1);
    assert_eq!(answer.projection_observations.len(), 1);
    assert_eq!(answer.failure_kind, "uncertain");
    assert_eq!(answer.failure_count, 3);
    let effect = answer.uncertain_effect.expect("it is told");
    assert_eq!(effect.expected_uid, "");
    assert_eq!(effect.expected_resource_version, "12");

    let answer = reconcile_materialization_response(&before, None, None, false, vec![], None);
    assert!(answer.found && !answer.attempted);
    assert_eq!(answer.lease_owner, "");
    assert_eq!(answer.failure_kind, "");
    assert!(answer.observed_refs.is_empty());
}

#[test]
fn authorization_ends_with_the_certificate() {
    for (not_after, expected) in [(1_500, 500), (900, 0)] {
        let response = resolve_response(TlsCertificateResolution {
            hostname: TlsHostname::new("a.example").unwrap(),
            view_revision: CertificateRevision::new(2).unwrap(),
            observed_at_unix_millis: 1_000,
            value: TlsCertificateValue::Unchanged {
                metadata: certificate(not_after),
            },
        });
        assert_eq!(response.authorization_ttl_millis, expected);
        assert_eq!(response.server_name, "a.example");
        assert!(matches!(
            response.value,
            Some(pb::ResolveTlsCertificateValue::Unchanged(_))
        ));
    }
    let bound = TlsBinding {
        hostname: TlsHostname::new("a.example").unwrap(),
        certificate_id: Some(CertificateId::new("cert-a").unwrap()),
        revision: CertificateRevision::new(7).unwrap(),
        last_invalidating_revision: CertificateRevision::new(7).unwrap(),
    };
    let message = binding(&bound);
    assert_eq!(message.certificate_id.as_deref(), Some("cert-a"));
    assert_eq!(message.revision, 7);
}

#[test]
fn failures_of_certificates_tell_no_material() {
    let told = store_error(&StoreError::invalid_argument("host a.example of cert-a"));
    assert_eq!(told.code(), StatusCode::InvalidArgument);
    assert_eq!(told.message(), "certificate validation failed");
    let told = store_error(&StoreError::internal("key 7 7 7"));
    assert_eq!(told.code(), StatusCode::Internal);
    assert_eq!(told.message(), "certificate operation failed");
}

#[test]
fn errors_of_the_store_become_statuses() {
    let cases = [
        (
            StoreError::invalid_argument("wrong"),
            StatusCode::InvalidArgument,
        ),
        (
            StoreError::NotFound {
                resource: "instance",
            },
            StatusCode::NotFound,
        ),
        (
            StoreError::AlreadyExists {
                resource: "instance",
            },
            StatusCode::AlreadyExists,
        ),
        (
            StoreError::GenerationConflict {
                expected: Generation::new(1),
                actual: Generation::new(2),
            },
            StatusCode::FailedPrecondition,
        ),
        (StoreError::unavailable("busy"), StatusCode::Unavailable),
        (StoreError::internal("broken"), StatusCode::Internal),
    ];
    for (error, code) in cases {
        assert_eq!(store_error_to_status(error, TIMEOUT).code(), code);
    }
    let deferred = store_error_to_status(
        StoreError::SleepDeferred {
            retry_after: Duration::from_secs(90),
        },
        TIMEOUT,
    );
    assert_eq!(deferred.code(), StatusCode::FailedPrecondition);
    assert_eq!(
        deferred.message(),
        "automatic sleep deferred for 90000 ms after activation"
    );
    assert_eq!(deferred.retry_after_millis.as_deref(), Some("30000"));
    let held = store_error_to_status(
        StoreError::ExclusivityConflict {
            cluster_id: "c".to_owned(),
            namespace: "n".to_owned(),
            key_name: "k".to_owned(),
            owner_instance_id: Some("other".to_owned()),
            owner_generation: Some(Generation::new(3)),
        },
        TIMEOUT,
    );
    assert_eq!(
        held.message(),
        "exclusivity key \"k\" is already held for target c/n by instance other generation 3"
    );
    assert_eq!(
        store_error(&StoreError::unavailable("busy")).code(),
        StatusCode::Unavailable
    );
}

#[test]
fn calls_without_a_store_are_not_implemented() {
    let status = placeholder_status("get_instance");
    assert_eq!(status.code(), StatusCode::Unimplemented);
    assert_eq!(
        status.message(),
        "get_instance transport is scaffolded; store-backed behavior is deferred"
    );
    assert_eq!(
        OPERATOR_SERVICE_NAME,
        "sleepypods.controlplane.v1.OperatorControlPlane"
    );
    assert_eq!(OPERATOR_UNARY_METHODS.len(), 20);
}

#[test]
fn instance_requests_are_read() {
    let request = pb::CreateInstanceRequest {
        idempotency_key: "key-1".to_owned(),
        instance_id: "instance-1".to_owned(),
        workload_class: Some(pb::WorkloadClassVersionRef {
            class_id: "class-1".to_owned(),
            version: 3,
        }),
        values: vec![pb::StringEntry {
            key: "tenant".to_owned(),
            value: "acme".to_owned(),
        }],
    };
    let read = create_instance_request_from_proto(&request).expect("valid");
    assert_eq!(read.instance_id.as_str(), "instance-1");
    assert_eq!(read.workload_class.version, Generation::new(3));
    assert_eq!(read.values.get("tenant").map(String::as_str), Some("acme"));
    let mut classless = request.clone();
    classless.workload_class = None;
    assert!(create_instance_request_from_proto(&classless).is_err());
    let mut keyless = request;
    keyless.idempotency_key = " ".to_owned();
    let error = create_instance_request_from_proto(&keyless).unwrap_err();
    assert_eq!(error.message(), "IdempotencyKey must not be empty");

    let delete = pb::DeleteInstanceRequest {
        instance_id: "instance-1".to_owned(),
        expected_generation: None,
    };
    assert!(delete_instance_request_from_proto(&delete).is_err());
    let delete = pb::DeleteInstanceRequest {
        instance_id: "instance-1".to_owned(),
        expected_generation: Some(3),
    };
    assert_eq!(
        delete_instance_request_from_proto(&delete)
            .expect("valid")
            .expected_generation,
        Generation::new(3)
    );

    let message = instance_to_proto(&instance(InstanceState::Draining));
    assert_eq!(message.state, pb::InstanceState::Draining);
    assert_eq!(message.generation, 4);
}

#[test]
fn route_identities_survive_the_api() {
    for identity in [
        RouteIdentity::Http {
            host: RouteHost::wildcard_suffix("*.example.com").unwrap(),
            path: Some(PathPrefix::new("/api").unwrap()),
        },
        sni("db.example.com"),
    ] {
        let message = route_identity_to_proto(&identity);
        assert_eq!(route_identity_from_proto(&message), Ok(identity));
    }
    assert!(route_identity_from_proto(&pb::RouteIdentity { kind: None }).is_err());
    let request = pb::CreateRouteBindingRequest {
        idempotency_key: "key-1".to_owned(),
        route_binding_id: "route-1".to_owned(),
        instance_id: "instance-1".to_owned(),
        identity: Some(route_identity_to_proto(&sni("db.example.com"))),
        protocol: pb::ProtocolRoute::TlsSni,
    };
    let read = create_route_binding_request_from_proto(&request).expect("valid");
    assert_eq!(read.identity, sni("db.example.com"));
    let mut unknown = request;
    unknown.protocol = pb::ProtocolRoute::Unrecognized;
    assert!(create_route_binding_request_from_proto(&unknown).is_err());
    let message = route_binding_to_proto(&RouteBindingRecord {
        id: RouteBindingId::new("route-1").unwrap(),
        instance_id: InstanceId::new("instance-1").unwrap(),
        identity: sni("db.example.com"),
        protocol: ProtocolRoute::TlsSni,
    });
    assert_eq!(message.route_binding_id, "route-1");
}

#[test]
fn templates_survive_the_api() {
    let template = template();
    let message = manifest_template_to_proto(&template);
    assert_eq!(manifest_template_from_proto(&message), Ok(template));
    let mut nameless = message.clone();
    nameless.workload.as_mut().expect("workload").name = None;
    assert!(manifest_template_from_proto(&nameless).is_err());
    let mut kindless = message.clone();
    kindless.workload.as_mut().expect("workload").kind = pb::WorkloadKind::Unspecified;
    assert!(manifest_template_from_proto(&kindless).is_err());
    let mut wide = message;
    wide.sidecar.as_mut().expect("sidecar").listen_port = 70_000;
    assert!(manifest_template_from_proto(&wide).is_err());
}

#[test]
fn materializations_of_other_targets_are_not_reconciled() {
    let id = MaterializationId::new("instance-1:cluster-a:apps").unwrap();
    let target = MaterializationTarget::new("cluster-a", "apps").unwrap();
    let elsewhere = MaterializationTarget::new("cluster-b", "apps").unwrap();
    let request = |status_only| pb::ReconcileMaterializationRequest {
        materialization_id: "instance-1:cluster-a:apps".to_owned(),
        status_only,
    };
    let record = materialization(Some("http://svc"));
    assert!(matches!(
        reconcile_materialization_step(&request(false), &id, &target, Some(&record)),
        ReconcileStep::Enqueue
    ));
    assert!(matches!(
        reconcile_materialization_step(&request(true), &id, &target, Some(&record)),
        ReconcileStep::StatusOnly
    ));
    assert!(matches!(
        reconcile_materialization_step(&request(false), &id, &elsewhere, Some(&record)),
        ReconcileStep::StatusOnly
    ));
    match reconcile_materialization_step(&request(false), &id, &target, None) {
        ReconcileStep::Reply(reply) => assert!(!reply.found),
        _ => panic!("there is nothing to reconcile"),
    }
}

#[test]
fn woken_instances_are_answered_with_their_backend() {
    let request = pb::ProxyWakeInstanceRequest {
        instance_id: "instance-1".to_owned(),
        expected_generation: 3,
        backend_generation: Some(8),
    };
    let target = MaterializationTarget::new("cluster-a", "apps").unwrap();
    let read = proxy_wake_request_from_proto(&request, target).expect("valid");
    assert_eq!(read.expected_generation, Generation::new(3));
    assert_eq!(read.backend_generation, Some(BackendGeneration::new(8)));

    let ready = wake_response(
        "instance-1",
        Ok(WakeInstanceResult::AlreadyRunning {
            instance: instance(InstanceState::Running),
            materialization: materialization(Some("http://svc")),
        }),
        TIMEOUT,
    )
    .expect("ready");
    match ready.outcome {
        Some(pb::ProxyWakeOutcome::Ready(ready)) => assert_eq!(ready.backend_uri, "http://svc"),
        _ => panic!("the instance is ready"),
    }
    let lost = wake_response(
        "instance-1",
        Ok(WakeInstanceResult::AlreadyRunning {
            instance: instance(InstanceState::Running),
            materialization: materialization(None),
        }),
        TIMEOUT,
    );
    assert_eq!(lost.unwrap_err().code(), StatusCode::FailedPrecondition);
    let waking = wake_response(
        "instance-1",
        Ok(WakeInstanceResult::AlreadyWaking {
            instance: instance(InstanceState::Waking),
        }),
        TIMEOUT,
    )
    .expect("it wakes");
    assert!(matches!(
        waking.outcome,
        Some(pb::ProxyWakeOutcome::StillWaking(_))
    ));
    let deleting = wake_response(
        "instance-1",
        Err(WakeInstanceError::Unavailable {
            instance: instance(InstanceState::Deleting),
            reason: WakeUnavailableReason::Deleting,
        }),
        TIMEOUT,
    )
    .expect("it is answered");
    assert!(matches!(
        deleting.outcome,
        Some(pb::ProxyWakeOutcome::Unavailable(_))
    ));
    let missing = wake_response("instance-1", Err(WakeInstanceError::NotFound), TIMEOUT);
    assert_eq!(missing.unwrap_err().code(), StatusCode::NotFound);
}

#[test]
fn routes_are_subscribed_to_until_they_change() {
    let mut subscriptions = RouteSubscriptions::new();
    let first = subscribe(&mut subscriptions, "route-1", sni("a.example.com"));
    let second = subscribe(&mut subscriptions, "route-2", sni("b.example.com"));
    assert_ne!(first, second);
    assert_eq!(subscriptions.len(), 2);

    let removed = RouteBindingChange::route_removed(RouteBindingId::new("route-1").unwrap());
    match subscriptions.step(SubscribeInput::Event(removed)) {
        SubscribeStep::Send(told) => {
            assert_eq!(told.len(), 1);
            match &told[0].output {
                Some(pb::ProxySubscribeOutput::RouteInvalidated(told)) => {
                    assert_eq!(told.subscription_id, first);
                    assert_eq!(
                        told.reason,
                        pb::ProxyRouteInvalidationReason::RouteRemoved
                    );
                }
                _ => panic!("the route is no more"),
            }
        }
        _ => panic!("the proxy is told"),
    }
    assert_eq!(subscriptions.len(), 1);

    let unsubscribe = pb::ProxySubscribeRequest {
        input: Some(pb::ProxySubscribeInput::Unsubscribe(
            pb::ProxyUnsubscribeRequest {
                subscription_id: second,
            },
        )),
    };
    assert!(matches!(
        subscriptions.step(SubscribeInput::Request(unsubscribe)),
        SubscribeStep::Continue
    ));
    assert_eq!(subscriptions.len(), 0);
    assert!(matches!(
        subscriptions.step(SubscribeInput::Ended),
        SubscribeStep::End
    ));
}

#[test]
fn closer_routes_invalidate_the_ones_that_were_found() {
    let mut subscriptions = RouteSubscriptions::new();
    let request = sni("db.example.com");
    subscriptions
        .ready_loaded(
            "request-1".to_owned(),
            request.clone(),
            RouteIdentity::Sni {
                host: RouteHost::wildcard_suffix("*.example.com").unwrap(),
            },
            entry("route-1"),
            Ok(None),
            TIMEOUT,
        )
        .expect("resolved");
    let unrelated = RouteBindingChange::route_changed(
        RouteBindingId::new("route-2").unwrap(),
        sni("other.example.com"),
        ProtocolRoute::TlsSni,
    );
    assert!(matches!(
        subscriptions.step(SubscribeInput::Event(unrelated)),
        SubscribeStep::Continue | SubscribeStep::Send(_)
    ));
    assert_eq!(subscriptions.len(), 1);
    let closer = RouteBindingChange::route_changed(
        RouteBindingId::new("route-3").unwrap(),
        request,
        ProtocolRoute::TlsSni,
    );
    assert!(matches!(
        subscriptions.step(SubscribeInput::Event(closer)),
        SubscribeStep::Send(_)
    ));
    assert_eq!(subscriptions.len(), 0);
}

#[test]
fn lookups_are_answered_or_followed() {
    let target = MaterializationTarget::new("cluster-a", "apps").unwrap();
    let identity = sni("db.example.com");
    let miss = route_looked_up(
        "request-1".to_owned(),
        &identity,
        target.clone(),
        Ok(RouteResolution::Miss {
            negative_cache: CachePolicy::new(Duration::from_millis(1_500)),
        }),
        TIMEOUT,
    )
    .expect("a miss");
    match miss {
        ResolveStep::Respond(response) => match response.output {
            Some(pb::ProxySubscribeOutput::RouteMiss(miss)) => {
                assert_eq!(miss.request_id, "request-1");
                assert_eq!(
                    miss.negative_cache_policy.expect("a policy").ttl_millis,
                    1_500
                );
            }
            _ => panic!("a miss is told"),
        },
        _ => panic!("a miss needs nothing more"),
    }
    let found = route_looked_up(
        "request-1".to_owned(),
        &identity,
        target.clone(),
        Ok(RouteResolution::Resolved {
            matched_identity: identity.clone(),
            entry: entry("route-1"),
        }),
        TIMEOUT,
    )
    .expect("a route");
    assert!(matches!(found, ResolveStep::LoadReady { .. }));
    let failed = route_looked_up(
        "request-1".to_owned(),
        &identity,
        target,
        Err(StoreError::unavailable("busy")),
        TIMEOUT,
    );
    assert!(failed.is_err());
}

#[test]
fn volume_sources_survive_their_messages() {
    let host_path = PersistentVolumeSourceTemplate::HostPath {
        path: TemplateText::literal("/srv"),
        type_: Some(TemplateText::literal("Directory")),
    };
    let csi = |driver| PersistentVolumeSourceTemplate::Csi {
        driver,
        volume_handle: TemplateText::instance_value("volume"),
        fs_type: Some(TemplateText::literal("ext4")),
        read_only: true,
        volume_attributes: control_plane::string_map::StringMap::new(),
        controller_publish_secret_ref: None,
        node_stage_secret_ref: None,
        node_publish_secret_ref: None,
        controller_expand_secret_ref: None,
        node_expand_secret_ref: None,
    };
    for source in [host_path, csi(TemplateText::literal("csi.example.com"))] {
        let message = volume_source_template_to_proto(&source);
        assert_eq!(volume_source_template_from_proto(&message).unwrap(), source);
    }
    let nothing = pb::PersistentVolumeSourceTemplate { kind: None };
    let refused = volume_source_template_from_proto(&nothing).unwrap_err();
    assert_eq!(refused.code(), StatusCode::InvalidArgument);
    let pathless = pb::PersistentVolumeSourceTemplate {
        kind: Some(pb::PersistentVolumeSourceKind::HostPath(
            pb::HostPathVolumeSourceTemplate {
                path: None,
                type_: None,
            },
        )),
    };
    let refused = volume_source_template_from_proto(&pathless).unwrap_err();
    assert_eq!(refused.code(), StatusCode::InvalidArgument);
}

#[test]
fn idle_reports_are_answered() {
    let request = pb::SidecarReportIdleRequest {
        instance_id: "instance-1".to_owned(),
        expected_generation: 4,
        active_count: 0,
        pod_uid: "pod-a".to_owned(),
    };
    let read = report_idle_request_from_proto(request.clone()).expect("valid");
    assert_eq!(read.pod_uid, "pod-a");
    let mut blank = request;
    blank.instance_id = " ".to_owned();
    assert!(report_idle_request_from_proto(blank).is_err());

    let accepted = ReportIdleResult::Accepted {
        instance: instance(InstanceState::Draining),
    };
    assert!(changes_routes(&accepted));
    assert!(matches!(
        report_idle_result_to_proto(&accepted).outcome,
        Some(pb::SidecarReportIdleOutcome::Accepted(_))
    ));
    let cold = ReportIdleResult::Unavailable {
        instance: instance(InstanceState::Cold),
        reason: ReportIdleUnavailableReason::Cold,
    };
    assert!(!changes_routes(&cold));
    match report_idle_result_to_proto(&cold).outcome {
        Some(pb::SidecarReportIdleOutcome::Unavailable(told)) => {
            assert_eq!(told.reason, pb::SidecarReportIdleUnavailableReason::Cold);
        }
        _ => panic!("the instance is cold"),
    }
    let conflict = report_idle_error_response(
        "instance-1",
        ReportIdleError::GenerationConflict {
            expected: Generation::new(4),
            actual: Generation::new(6),
        },
        TIMEOUT,
    )
    .expect("a conflict is an answer");
    assert!(matches!(
        conflict.outcome,
        Some(pb::SidecarReportIdleOutcome::GenerationConflict(_))
    ));
    let missing = report_idle_error_response("instance-1", ReportIdleError::NotFound, TIMEOUT);
    assert_eq!(missing.unwrap_err().code(), StatusCode::NotFound);
    let busy = report_idle_error_response(
        "instance-1",
        ReportIdleError::ActiveRequestsPresent { active_count: 2 },
        TIMEOUT,
    );
    assert!(busy.is_err());
}

fn subscribe(
    subscriptions: &mut RouteSubscriptions,
    route_binding_id: &str,
    identity: RouteIdentity,
) -> String {
    let request = pb::ProxySubscribeRequest {
        input: Some(pb::ProxySubscribeInput::SubscribeRoute(
            pb::ProxySubscribeRouteRequest {
                request_id: "request-1".to_owned(),
                identity: Some(route_identity_to_proto(&identity)),
            },
        )),
    };
    let request_id = match subscriptions.step(SubscribeInput::Request(request)) {
        SubscribeStep::Resolve {
            request_id,
            identity: asked,
        } => {
            assert_eq!(asked, identity);
            request_id
        }
        _ => panic!("the route is looked up"),
    };
    let response = subscriptions
        .ready_loaded(
            request_id,
            identity.clone(),
            identity,
            entry(route_binding_id),
            Ok(Some(materialization(Some("http://svc")))),
            TIMEOUT,
        )
        .expect("resolved");
    match response.output {
        Some(pb::ProxySubscribeOutput::RouteResolved(resolved)) => {
            let route = resolved.route.expect("a route");
            assert_eq!(route.backend_uri.as_deref(), Some("http://svc"));
            assert_eq!(
                resolved.cache_policy.expect("a policy").ttl_millis,
                10_000
            );
            resolved.subscription_id
        }
        _ => panic!("the route is told"),
    }
}

fn input(id: u64, host: &str) -> pb::WatchTlsCertificatesRequest {
    pb::WatchTlsCertificatesRequest {
        registration: id,
        hostnames: vec![host.into()],
    }
}

fn snapshot(host: &str, revision: u64) -> TlsBindingSnapshot {
    TlsBindingSnapshot {
        revision: CertificateRevision::new(revision).unwrap(),
        bindings: vec![TlsBinding {
            hostname: TlsHostname::new(host).unwrap(),
            certificate_id: None,
            revision: CertificateRevision::zero(),
            last_invalidating_revision: CertificateRevision::zero(),
        }],
    }
}

fn change(host: &str, revision: u64) -> TlsCertificateChange {
    TlsCertificateChange {
        hostname: Some(TlsHostname::new(host).unwrap()),
        revision: CertificateRevision::new(revision).unwrap(),
        certificate_id: None,
        kind: TlsCertificateChangeKind::Bound,
    }
}

fn certificate(not_after_unix_millis: i64) -> CertificateMetadata {
    CertificateMetadata {
        id: CertificateId::new("cert-a").unwrap(),
        version: CertificateRevision::new(1).unwrap(),
        state: CertificateState::Active,
        not_before_unix_millis: 0,
        not_after_unix_millis,
        dns_names: vec!["a.example".to_owned()],
        leaf_sha256: vec![0; 32],
        sealing_key_id: None,
        sealing_revision: CertificateRevision::new(1).unwrap(),
    }
}

fn content_type(value: &'static str) -> MetadataMap {
    let mut metadata = MetadataMap::new();
    metadata.insert("content-type", MetadataValue::from_static(value));
    metadata
}

fn sni(host: &str) -> RouteIdentity {
    RouteIdentity::Sni {
        host: RouteHost::exact(host).unwrap(),
    }
}

fn entry(route_binding_id: &str) -> RouteEntry {
    RouteEntry {
        route_binding_id: RouteBindingId::new(route_binding_id).unwrap(),
        instance_id: InstanceId::new("instance-1").unwrap(),
        instance_state: InstanceState::Running,
        instance_generation: Generation::new(4),
        backend: None,
        backend_generation: None,
    }
}

fn instance(state: InstanceState) -> InstanceRecord {
    InstanceRecord {
        id: InstanceId::new("instance-1").unwrap(),
        workload_class: WorkloadClassVersionRef::new(
            WorkloadClassId::new("class-1").unwrap(),
            Generation::new(1),
        ),
        values: InstanceValues::new(),
        state,
        generation: Generation::new(4),
    }
}

fn materialization(uri: Option<&str>) -> MaterializationRecord {
    MaterializationRecord {
        id: MaterializationId::new("instance-1:cluster-a:apps").unwrap(),
        instance_id: InstanceId::new("instance-1").unwrap(),
        instance_generation: Generation::new(4),
        projection_generation: Generation::new(4),
        target: MaterializationTarget::new("cluster-a", "apps").unwrap(),
        state: MaterializationState::Ready,
        backend: uri.map(|uri| BackendEndpoint::new(uri).unwrap()),
        backend_generation: BackendGeneration::new(8),
        rendered_objects: vec![],
        exclusivity_keys: vec![],
    }
}

fn service_ref() -> RenderedObjectRef {
    RenderedObjectRef {
        api_version: "v1".to_owned(),
        kind: "Service".to_owned(),
        namespace: "apps".to_owned(),
        name: "app".to_owned(),
    }
}

fn template() -> ManifestTemplate {
    let mut attributes = control_plane::string_map::StringMap::new();
    attributes.insert("tenant", TemplateText::instance_value("tenant"));
    ManifestTemplate {
        workload: WorkloadTemplate {
            kind: WorkloadKind::StatefulSet,
            name: TemplateText::from_parts(vec![
                TemplateTextPart::literal("db-"),
                TemplateTextPart::instance_value("tenant"),
            ]),
            replicas: Some(1),
            app_container: ContainerTemplate {
                name: "postgres".to_owned(),
                image: TemplateText::literal("postgres:17"),
                ports: vec![ContainerPortTemplate {
                    name: Some("postgres".to_owned()),
                    container_port: 5432,
                }],
                env: vec![EnvVarTemplate {
                    name: "TENANT".to_owned(),
                    value: TemplateText::instance_value("tenant"),
                }],
            },
        },
        sidecar: SidecarTemplate {
            name: "sleepypods-sidecar".to_owned(),
            image: TemplateText::literal("sleepypods/sidecar:test"),
            listen_port: 15000,
            mode: Some("http".to_owned()),
        },
        service: Some(ServiceTemplate {
            name: TemplateText::literal("db"),
            ports: vec![ServicePortTemplate {
                name: None,
                port: 5432,
                target_port: 5432,
            }],
        }),
        volumes: vec![VolumeTemplate {
            name: "data".to_owned(),
            mount_path: TemplateText::literal("/data"),
            pv_name: TemplateText::literal("pv"),
            pvc_name: TemplateText::literal("pvc"),
            access_modes: vec![PersistentVolumeAccessMode::ReadWriteOnce],
            capacity: TemplateText::literal("10Gi"),
            reclaim_policy: PersistentVolumeReclaimPolicy::Retain,
            storage_class_name: None,
            source: PersistentVolumeSourceTemplate::Csi {
                driver: TemplateText::literal("csi.example.com"),
                volume_handle: TemplateText::instance_value("volume"),
                fs_type: None,
                read_only: true,
                volume_attributes: attributes,
                controller_publish_secret_ref: None,
                node_stage_secret_ref: None,
                node_publish_secret_ref: None,
                controller_expand_secret_ref: None,
                node_expand_secret_ref: None,
            },
        }],
        raw_objects: vec![RawKubernetesManifestTemplate {
            manifest: TemplateText::literal("kind: ConfigMap"),
        }],
    }
}

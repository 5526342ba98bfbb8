//! Instances: what is asked for, and the states they go through.
use control_plane::ids::{Generation, IdempotencyKey, InstanceId, WorkloadClassId};
use control_plane::instance::{
    validate_instance_state_transition, CreateInstanceRequest, InstanceState, InstanceValues,
    StateTransitionReason,
};
use control_plane::manifest::{
    ContainerPortTemplate, ContainerTemplate, ManifestTemplate, ServicePortTemplate,
    ServiceTemplate, SidecarTemplate, TemplateText, WorkloadKind, WorkloadTemplate,
};
use control_plane::sleep_policy::{IdleTimeoutOverridePolicy, WorkloadSleepPolicy};
use control_plane::workload::{
    WorkloadClassVersion, WorkloadClassVersionRef, WorkloadValueFieldRule, WorkloadValueSchema,
};

#[test]
fn create_instance_validation_applies_schema_defaults() {
    let request = create_request().with_values(values([("tenant", "acme")]));
    let validated = request
        .validate_values_against(&workload_class(
            WorkloadValueSchema::new(false)
                .with_field("tenant", WorkloadValueFieldRule::required())
                .with_field(
                    "image",
                    WorkloadValueFieldRule::optional_with_default("example/app:1"),
                ),
        ))
        .expect("defaulted values are valid");

    assert_eq!(
        validated.values,
        values([("image", "example/app:1"), ("tenant", "acme")])
    );
}

#[test]
fn replica_contract_rejects_zero_and_multiple_replicas_at_class_validation() {
    for kind in [
        WorkloadKind::Deployment,
        WorkloadKind::StatefulSet,
    ] {
        for replicas in [0, 2] {
            let mut class = workload_class(WorkloadValueSchema::new(true));
            class.template.workload.kind = kind;
            class.template.workload.replicas = Some(replicas);
            assert!(
                class.validate().is_err(),
                "{kind:?} replicas={replicas} must fail class validation"
            );
        }
    }
}

#[test]
fn replica_contract_rejects_instances_pinned_to_legacy_invalid_classes() {
    for kind in [
        WorkloadKind::Deployment,
        WorkloadKind::StatefulSet,
    ] {
        for replicas in [0, 2] {
            let mut class = workload_class(WorkloadValueSchema::new(true));
            class.template.workload.kind = kind;
            class.template.workload.replicas = Some(replicas);
            assert!(create_request().validate_values_against(&class).is_err());
        }
    }
}

#[test]
fn create_instance_validation_rejects_missing_required_values() {
    let error = create_request()
        .validate_values_against(&workload_class(
            WorkloadValueSchema::new(false)
                .with_field("tenant", WorkloadValueFieldRule::required()),
        ))
        .expect_err("missing required value is rejected");

    assert_eq!(
        error.to_string(),
        "missing required instance value \"tenant\""
    );
}

#[test]
fn create_instance_validation_rejects_unknown_values_when_extra_is_disallowed() {
    let error = create_request()
        .with_values(values([("extra", "value")]))
        .validate_values_against(&workload_class(WorkloadValueSchema::new(false)))
        .expect_err("unknown value is rejected");

    assert_eq!(error.to_string(), "unknown instance value \"extra\"");
}

#[test]
fn create_instance_validation_allows_unknown_values_when_extra_is_allowed() {
    let validated = create_request()
        .with_values(values([("tenant", "acme")]))
        .validate_values_against(&workload_class(WorkloadValueSchema::new(true).with_field(
            "image",
            WorkloadValueFieldRule::optional_with_default("example/app:1"),
        )))
        .expect("unknown value is allowed");

    assert_eq!(
        validated.values,
        values([("image", "example/app:1"), ("tenant", "acme")])
    );
}

#[test]
fn create_instance_validation_resolves_defaulted_sleep_policy_override() {
    let validated = create_request()
        .validate_values_against(&workload_class_with_sleep_policy(
            WorkloadValueSchema::new(false).with_field(
                "idle_ms",
                WorkloadValueFieldRule::optional_with_default("120000"),
            ),
            override_sleep_policy(),
        ))
        .expect("defaulted override is valid");

    assert_eq!(validated.values, values([("idle_ms", "120000")]));
}

#[test]
fn create_instance_validation_rejects_malformed_sleep_policy_override() {
    let error = create_request()
        .with_values(values([("idle_ms", "two-minutes")]))
        .validate_values_against(&workload_class_with_sleep_policy(
            WorkloadValueSchema::new(false)
                .with_field("idle_ms", WorkloadValueFieldRule::optional()),
            override_sleep_policy(),
        ))
        .expect_err("malformed override is rejected");

    assert_eq!(
        error.to_string(),
        "idle timeout override value \"idle_ms\"=\"two-minutes\" is not a decimal millisecond value"
    );
}

#[test]
fn create_instance_validation_rejects_out_of_bounds_sleep_policy_override() {
    let error = create_request()
        .with_values(values([("idle_ms", "50000")]))
        .validate_values_against(&workload_class_with_sleep_policy(
            WorkloadValueSchema::new(false)
                .with_field("idle_ms", WorkloadValueFieldRule::optional()),
            override_sleep_policy(),
        ))
        .expect_err("out-of-bounds override is rejected");

    assert_eq!(
        error.to_string(),
        "idle timeout override value \"idle_ms\"=50000 is outside allowed range 60000..=600000"
    );
}

#[test]
fn instance_state_validator_accepts_lifecycle_edges() {
    for (current, next, reason) in [
        (
            InstanceState::Cold,
            InstanceState::Waking,
            StateTransitionReason::WakeRequested,
        ),
        (
            InstanceState::Cold,
            InstanceState::Deleting,
            StateTransitionReason::DeleteRequested,
        ),
        (
            InstanceState::Waking,
            InstanceState::Running,
            StateTransitionReason::MaterializationReady,
        ),
        (
            InstanceState::Waking,
            InstanceState::Deleting,
            StateTransitionReason::DeleteRequested,
        ),
        (
            InstanceState::Running,
            InstanceState::Draining,
            StateTransitionReason::SleepRequested,
        ),
        (
            InstanceState::Running,
            InstanceState::Draining,
            StateTransitionReason::IdleReported,
        ),
        (
            InstanceState::Running,
            InstanceState::Deleting,
            StateTransitionReason::DeleteRequested,
        ),
        (
            InstanceState::Draining,
            InstanceState::Cold,
            StateTransitionReason::DrainCompleted,
        ),
        (
            InstanceState::Draining,
            InstanceState::Waking,
            StateTransitionReason::WakeRequested,
        ),
        (
            InstanceState::Draining,
            InstanceState::Deleting,
            StateTransitionReason::DeleteRequested,
        ),
        (
            InstanceState::Failed,
            InstanceState::Waking,
            StateTransitionReason::WakeRequested,
        ),
        (
            InstanceState::Failed,
            InstanceState::Deleting,
            StateTransitionReason::DeleteRequested,
        ),
        (
            InstanceState::Deleting,
            InstanceState::Deleted,
            StateTransitionReason::DeleteFinalized,
        ),
    ] {
        validate_instance_state_transition(current, next, &reason)
            .expect("transition should be allowed");
    }

    validate_instance_state_transition(
        InstanceState::Waking,
        InstanceState::Failed,
        &StateTransitionReason::FailureReported("readiness timeout".to_owned()),
    )
    .expect("waking failures should be allowed");
}

#[test]
fn instance_state_validator_rejects_nonsensical_edges() {
    for (current, next, reason) in [
        (
            InstanceState::Cold,
            InstanceState::Running,
            StateTransitionReason::MaterializationReady,
        ),
        (
            InstanceState::Running,
            InstanceState::Waking,
            StateTransitionReason::WakeRequested,
        ),
        (
            InstanceState::Failed,
            InstanceState::Running,
            StateTransitionReason::MaterializationReady,
        ),
        (
            InstanceState::Deleting,
            InstanceState::Running,
            StateTransitionReason::MaterializationReady,
        ),
        (
            InstanceState::Waking,
            InstanceState::Draining,
            StateTransitionReason::SleepRequested,
        ),
        (
            InstanceState::Deleted,
            InstanceState::Waking,
            StateTransitionReason::WakeRequested,
        ),
        (
            InstanceState::Deleting,
            InstanceState::Deleted,
            StateTransitionReason::DeleteRequested,
        ),
    ] {
        let error = validate_instance_state_transition(current, next, &reason)
            .expect_err("transition should be rejected");
        assert_eq!(error.current, current);
        assert_eq!(error.next, next);
        assert_eq!(error.reason, reason);
    }
}

fn create_request() -> CreateInstanceRequest {
    CreateInstanceRequest::new(
        IdempotencyKey::new("key-1").expect("valid key"),
        InstanceId::new("instance-1").expect("valid instance ID"),
        WorkloadClassVersionRef::new(
            WorkloadClassId::new("class-1").expect("valid class ID"),
            Generation::new(1),
        ),
    )
}

fn workload_class(value_schema: WorkloadValueSchema) -> WorkloadClassVersion {
    workload_class_with_sleep_policy(value_schema, default_sleep_policy())
}

fn workload_class_with_sleep_policy(
    value_schema: WorkloadValueSchema,
    sleep_policy: WorkloadSleepPolicy,
) -> WorkloadClassVersion {
    WorkloadClassVersion {
        reference: WorkloadClassVersionRef::new(
            WorkloadClassId::new("class-1").expect("valid class ID"),
            Generation::new(1),
        ),
        template_generation: Generation::new(1),
        template: test_manifest_template(),
        default_values: InstanceValues::new(),
        value_schema,
        sleep_policy,
        exclusivity_keys: vec![],
    }
}

fn default_sleep_policy() -> WorkloadSleepPolicy {
    WorkloadSleepPolicy::new(300_000, 5_000, 30_000).expect("valid sleep policy")
}

fn override_sleep_policy() -> WorkloadSleepPolicy {
    default_sleep_policy()
        .with_idle_timeout_override(
            IdleTimeoutOverridePolicy::new("idle_ms", 60_000, 600_000)
                .expect("valid override policy"),
        )
        .expect("override attaches")
}

fn test_manifest_template() -> ManifestTemplate {
    ManifestTemplate {
        workload: WorkloadTemplate {
            kind: WorkloadKind::Deployment,
            name: TemplateText::literal("app"),
            replicas: None,
            app_container: ContainerTemplate {
                name: "app".to_owned(),
                image: TemplateText::literal("example/app:1"),
                ports: vec![ContainerPortTemplate {
                    name: Some("http".to_owned()),
                    container_port: 8080,
                }],
                env: Vec::new(),
            },
        },
        sidecar: SidecarTemplate {
            name: "sleepypods-sidecar".to_owned(),
            image: TemplateText::literal("sleepypods/sidecar:test"),
            listen_port: 15000,
            mode: None,
        },
        service: Some(ServiceTemplate {
            name: TemplateText::literal("app"),
            ports: vec![ServicePortTemplate {
                name: Some("http".to_owned()),
                port: 80,
                target_port: 8080,
            }],
        }),
        volumes: Vec::new(),
        raw_objects: Vec::new(),
    }
}

fn values<const N: usize>(pairs: [(&str, &str); N]) -> InstanceValues {
    let mut values = InstanceValues::new();
    for (key, value) in pairs {
        values.insert(key, value.to_owned());
    }
    values
}

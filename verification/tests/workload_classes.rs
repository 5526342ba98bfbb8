//! Workload classes: how they are stored, sent and asked for.
use control_plane::api::pb;
use control_plane::api::server::{
    create_workload_class_request_from_proto, get_workload_class_version_request,
    workload_class_to_proto,
};
use control_plane::ids::{
    Generation, IdempotencyKey, InstanceId, MaterializationId, WorkloadClassId,
};
use control_plane::instance::{CreateInstanceRequest, InstanceValues};
use control_plane::kube_materializer::idle_membership::member_selector;
use control_plane::kube_materializer::{pvc_timeout_message, readiness_timeout_message};
use control_plane::manifest::{
    ContainerPortTemplate, ContainerTemplate, ManifestTemplate, PersistentVolumeAccessMode,
    PersistentVolumeReclaimPolicy, PersistentVolumeSourceTemplate, SidecarTemplate, TemplateText,
    VolumeTemplate, WorkloadKind, WorkloadTemplate,
};
use control_plane::manifest::template::CsiSecretRefTemplate;
use control_plane::materialization::RenderedObjectRef;
use control_plane::materializer::IdleMemberIdentity;
use control_plane::postgres::instance_ops::{
    admit_instance, check_workload_class, stored_workload_class,
};
use control_plane::postgres::mapping::{
    values_to_json, workload_class_version_from_row, WorkloadClassRow,
};
use control_plane::sleep_policy::WorkloadSleepPolicy;
use control_plane::store::StoreError;
use control_plane::string_map::StringMap;
use control_plane::workload::{
    WorkloadClassVersion, WorkloadClassVersionRef, WorkloadExclusivityKeyTemplate,
    WorkloadValueFieldRule, WorkloadValueSchema,
};

#[test]
fn instances_take_the_values_of_their_class() {
    let admitted = admit_instance(request("acme"), &Some(class(1))).expect("the values are valid");
    assert_eq!(admitted.values.get("tenant").map(String::as_str), Some("acme"));
    assert_eq!(admitted.values.get("image").map(String::as_str), Some("example/app:1"));

    assert_eq!(
        admit_instance(request("acme"), &None),
        Err(StoreError::NotFound { resource: "workload class version" }),
    );
    let unnamed = CreateInstanceRequest { values: InstanceValues::new(), ..request("acme") };
    assert!(matches!(
        admit_instance(unnamed, &Some(class(1))),
        Err(StoreError::InvalidArgument { .. }),
    ));
}

#[test]
fn classes_are_checked_before_they_are_stored() {
    assert_eq!(check_workload_class(&class(1)), Ok(()));
    assert!(matches!(
        check_workload_class(&class(2)),
        Err(StoreError::InvalidArgument { .. }),
    ));
}

#[test]
fn classes_are_stored_once() {
    assert_eq!(stored_workload_class(true, Some(class(1)), &class(1)), Ok(class(1)));
    assert_eq!(stored_workload_class(true, Some(class(1)), &class(2)), Ok(class(1)));
    assert_eq!(stored_workload_class(false, Some(class(1)), &class(1)), Ok(class(1)));
    assert_eq!(
        stored_workload_class(false, Some(class(1)), &class(2)),
        Err(StoreError::AlreadyExists { resource: "workload class version" }),
    );
    assert_eq!(
        stored_workload_class(false, None, &class(1)),
        Err(StoreError::NotFound { resource: "workload class version" }),
    );
}

#[test]
fn versions_are_the_same_in_every_field_or_not_at_all() {
    assert!(class(1).is_same_as(&class(1)));
    assert!(!class(1).is_same_as(&class(2)));

    let mut other = class(1);
    other.reference.version = Generation::new(9);
    assert!(!class(1).is_same_as(&other));

    let mut other = class(1);
    other.template.sidecar.listen_port += 1;
    assert!(!class(1).is_same_as(&other));

    let mut other = class(1);
    other.template.workload.app_container.image = TemplateText::literal("example/other:1");
    assert!(!class(1).is_same_as(&other));

    let mut other = class(1);
    other.default_values.insert("region", "us".to_owned());
    assert!(!class(1).is_same_as(&other));
    other.default_values.insert("region", "eu".to_owned());
    assert!(class(1).is_same_as(&other));
    other.default_values.insert("another", "value".to_owned());
    assert!(!class(1).is_same_as(&other));

    let mut other = class(1);
    other.value_schema.allow_extra = !other.value_schema.allow_extra;
    assert!(!class(1).is_same_as(&other));

    let mut other = class(1);
    other.sleep_policy.idle_timeout_ms += 1;
    assert!(!class(1).is_same_as(&other));

    let mut other = class(1);
    other.exclusivity_keys.clear();
    assert!(!class(1).is_same_as(&other));
}

#[test]
fn volumes_tell_versions_apart() {
    let with_source = |source: PersistentVolumeSourceTemplate| {
        let mut version = class(1);
        version.template.volumes.push(VolumeTemplate {
            name: "data".to_owned(),
            mount_path: TemplateText::literal("/data"),
            pv_name: TemplateText::literal("pv"),
            pvc_name: TemplateText::literal("pvc"),
            access_modes: vec![PersistentVolumeAccessMode::ReadWriteOnce],
            capacity: TemplateText::literal("1Gi"),
            reclaim_policy: PersistentVolumeReclaimPolicy::Retain,
            storage_class_name: None,
            source,
        });
        version
    };
    let csi = |secret: Option<Box<CsiSecretRefTemplate>>| PersistentVolumeSourceTemplate::Csi {
        driver: TemplateText::literal("driver"),
        volume_handle: TemplateText::instance_value("disk"),
        fs_type: None,
        read_only: false,
        volume_attributes: StringMap::new(),
        controller_publish_secret_ref: None,
        node_stage_secret_ref: None,
        node_publish_secret_ref: None,
        controller_expand_secret_ref: None,
        node_expand_secret_ref: secret,
    };
    let host_path = || PersistentVolumeSourceTemplate::HostPath {
        path: TemplateText::literal("/srv"),
        type_: None,
    };
    let secret = || {
        Some(Box::new(CsiSecretRefTemplate {
            name: TemplateText::literal("secret"),
            namespace: TemplateText::literal("apps"),
        }))
    };
    assert!(with_source(csi(None)).is_same_as(&with_source(csi(None))));
    assert!(with_source(csi(secret())).is_same_as(&with_source(csi(secret()))));
    assert!(!with_source(csi(None)).is_same_as(&with_source(csi(secret()))));
    assert!(!with_source(csi(None)).is_same_as(&with_source(host_path())));
    assert!(with_source(host_path()).is_same_as(&with_source(host_path())));
    assert!(!with_source(host_path()).is_same_as(&class(1)));
}

#[test]
fn rows_of_classes_are_read() {
    assert_eq!(workload_class_version_from_row(class_row(1)), Ok(class(1)));
    assert!(matches!(
        workload_class_version_from_row(class_row(-1)),
        Err(StoreError::Internal { .. }),
    ));
}

#[test]
fn classes_survive_the_api() {
    let sent = workload_class_to_proto(&class(1));
    let received = create_workload_class_request_from_proto(
        &pb::CreateWorkloadClassVersionRequest {
            idempotency_key: "key-1".to_owned(),
            class_id: "class-1".to_owned(),
            version: 1,
            template_generation: sent.template_generation,
            template: sent.template,
            default_values: sent.default_values,
            value_schema: sent.value_schema,
            sleep_policy: sent.sleep_policy,
            exclusivity_keys: sent.exclusivity_keys,
        },
    )
    .expect("what was sent is valid");
    assert_eq!(received.workload_class_version, class(1));

    let asked = get_workload_class_version_request(&sent.reference).expect("it is named");
    assert_eq!(asked.reference, class(1).reference);
}

#[test]
fn waits_say_what_they_wait_for() {
    assert_eq!(
        pvc_timeout_message("apps", "data"),
        "timed out waiting for PersistentVolumeClaim apps/data to become Bound",
    );
    assert_eq!(
        readiness_timeout_message(&RenderedObjectRef {
            api_version: "v1".to_owned(),
            kind: "Service".to_owned(),
            namespace: "apps".to_owned(),
            name: "app".to_owned(),
        }),
        "timed out waiting for ready EndpointSlice endpoints for Service apps/app",
    );
    assert_eq!(
        member_selector(&IdleMemberIdentity {
            instance_id: InstanceId::new("instance-1").expect("valid instance ID"),
            instance_generation: Generation::new(4),
            materialization_id: MaterializationId::new("m-1").expect("valid materialization ID"),
            pod_uid: "pod-1".to_owned(),
        }),
        "sleepypods.io/instance-id=instance-1",
    );
}

fn request(tenant: &str) -> CreateInstanceRequest {
    let mut values = InstanceValues::new();
    values.insert("tenant", tenant.to_owned());
    CreateInstanceRequest::new(
        IdempotencyKey::new("key-1").expect("valid idempotency key"),
        InstanceId::new("instance-1").expect("valid instance ID"),
        reference(),
    )
    .with_values(values)
}

fn reference() -> WorkloadClassVersionRef {
    WorkloadClassVersionRef::new(
        WorkloadClassId::new("class-1").expect("valid class ID"),
        Generation::new(1),
    )
}

fn class_row(version: i64) -> WorkloadClassRow {
    let stored = class(1);
    WorkloadClassRow {
        class_id: "class-1".to_owned(),
        version,
        template_generation: 3,
        default_values: values_to_json(&stored.default_values),
        template: stored.template,
        value_schema: stored.value_schema,
        sleep_policy: stored.sleep_policy,
        exclusivity_keys: stored.exclusivity_keys,
    }
}

fn class(replicas: u32) -> WorkloadClassVersion {
    let mut default_values = InstanceValues::new();
    default_values.insert("region", "eu".to_owned());
    WorkloadClassVersion {
        reference: reference(),
        template_generation: Generation::new(3),
        template: ManifestTemplate {
            workload: WorkloadTemplate {
                kind: WorkloadKind::Deployment,
                name: TemplateText::literal("app"),
                replicas: Some(replicas),
                app_container: ContainerTemplate {
                    name: "app".to_owned(),
                    image: TemplateText::instance_value("image"),
                    ports: vec![ContainerPortTemplate {
                        name: None,
                        container_port: 8080,
                    }],
                    env: Vec::new(),
                },
            },
            sidecar: SidecarTemplate {
                name: "sleepypods-sidecar".to_owned(),
                image: TemplateText::literal("sleepypods/sidecar:test"),
                listen_port: 15000,
                mode: None,
            },
            service: None,
            volumes: Vec::new(),
            raw_objects: Vec::new(),
        },
        default_values,
        value_schema: WorkloadValueSchema::new(true)
            .with_field("tenant", WorkloadValueFieldRule::required())
            .with_field(
                "image",
                WorkloadValueFieldRule::optional_with_default("example/app:1"),
            ),
        sleep_policy: WorkloadSleepPolicy::new(300_000, 5_000, 30_000).expect("valid policy"),
        exclusivity_keys: vec![WorkloadExclusivityKeyTemplate::new(
            "disk",
            TemplateText::instance_value("disk"),
        )],
    }
}

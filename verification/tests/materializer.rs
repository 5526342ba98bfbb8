//! Applying manifests to a cluster, and taking them away again.
use std::sync::{Arc, Mutex};

use control_plane::ids::{Generation, InstanceId, WorkloadClassId};
use control_plane::instance::{InstanceRecord, InstanceState, InstanceValues};
use control_plane::manifest::{
    render_manifests, ContainerPortTemplate, ContainerTemplate, EnvVarTemplate, KubernetesObject,
    ManifestTemplate, PersistentVolumeAccessMode, PersistentVolumeReclaimPolicy,
    PersistentVolumeSourceTemplate, RenderManifestRequest, RenderedManifest, ServicePortTemplate,
    ServiceTemplate, SidecarTemplate, TemplateText, TemplateTextPart, VolumeTemplate, WorkloadKind,
    WorkloadTemplate,
};
use control_plane::materialization::{BackendEndpoint, RenderedObjectRef};
use control_plane::materializer::{
    delete_order, delete_outcome, readiness_outcome, rendered_object_ref, AppliedMaterialization,
    ApplyRun, ApplyStep, DeleteRun, KubernetesClientError, KubernetesMaterializer,
    MaterializerError,
};
use control_plane::sleep_policy::ResolvedSleepPolicy;
use control_plane::string_map::StringMap;
use control_plane::workload::WorkloadClassVersionRef;

#[derive(Clone, Debug, Default)]
struct FakeKubernetesClient {
    inner: Arc<Mutex<FakeState>>,
}

#[derive(Clone, Debug, Default)]
struct FakeState {
    operations: Vec<FakeOperation>,
    applied_objects: Vec<KubernetesObject>,
    readiness_backend: Option<BackendEndpoint>,
    fail_pvc_wait: Option<(String, String)>,
    fail_delete: Option<RenderedObjectRef>,
    fail_apply: Option<RenderedObjectRef>,
    fail_readiness: bool,
}

#[derive(Clone, Debug, PartialEq, Eq)]
enum FakeOperation {
    Apply(RenderedObjectRef),
    WaitPvcBound { namespace: String, name: String },
    WaitReadiness(Vec<RenderedObjectRef>),
    Delete(RenderedObjectRef),
}

#[test]
fn applies_stateful_manifest_with_pvc_bound_wait_before_service_and_workload() {
    let client = FakeKubernetesClient::default();
    let materializer = KubernetesMaterializer::new(client.clone());
    let manifest = stateful_manifest();

    let refs = apply_manifest(&materializer, &manifest)
        .expect("stateful manifest applies");

    assert_eq!(
        client.operations(),
        vec![
            FakeOperation::Apply(object_ref("v1", "PersistentVolume", "", "pv-acme")),
            FakeOperation::Apply(object_ref(
                "v1",
                "PersistentVolumeClaim",
                "data",
                "pvc-acme"
            )),
            FakeOperation::WaitPvcBound {
                namespace: "data".to_owned(),
                name: "pvc-acme".to_owned(),
            },
            FakeOperation::Apply(object_ref("v1", "Service", "data", "db-acme")),
            FakeOperation::Apply(object_ref("apps/v1", "StatefulSet", "data", "db-acme")),
        ]
    );
    assert_eq!(
        refs,
        vec![
            object_ref("v1", "PersistentVolume", "", "pv-acme"),
            object_ref("v1", "PersistentVolumeClaim", "data", "pvc-acme"),
            object_ref("v1", "Service", "data", "db-acme"),
            object_ref("apps/v1", "StatefulSet", "data", "db-acme"),
        ]
    );
}

#[test]
fn applies_deployment_service_before_workload_and_returns_refs_in_apply_order() {
    let client = FakeKubernetesClient::default();
    let materializer = KubernetesMaterializer::new(client.clone());
    let manifest = deployment_manifest();

    let refs = apply_manifest(&materializer, &manifest)
        .expect("deployment manifest applies");

    assert_eq!(
        client.operations(),
        vec![
            FakeOperation::Apply(object_ref("v1", "Service", "apps", "svc-acme")),
            FakeOperation::Apply(object_ref("apps/v1", "Deployment", "apps", "app-acme")),
        ]
    );
    assert_eq!(
        refs,
        vec![
            object_ref("v1", "Service", "apps", "svc-acme"),
            object_ref("apps/v1", "Deployment", "apps", "app-acme"),
        ]
    );
}

#[test]
fn applies_deployment_manifest_until_ready_after_all_objects_and_returns_backend() {
    let client = FakeKubernetesClient::default();
    let backend = backend_endpoint("http://svc-acme.apps.svc.cluster.local:80");
    client.set_readiness_backend(backend.clone());
    let materializer = KubernetesMaterializer::new(client.clone());
    let manifest = deployment_manifest();
    let refs = vec![
        object_ref("v1", "Service", "apps", "svc-acme"),
        object_ref("apps/v1", "Deployment", "apps", "app-acme"),
    ];

    let applied = apply_manifest_until_ready(&materializer, &manifest)
        .expect("deployment manifest applies and becomes ready");

    assert_eq!(
        applied,
        AppliedMaterialization {
            rendered_objects: refs.clone(),
            backend
        }
    );
    assert_eq!(
        client.operations(),
        vec![
            FakeOperation::Apply(refs[0].clone()),
            FakeOperation::Apply(refs[1].clone()),
            FakeOperation::WaitReadiness(refs),
        ]
    );
}

#[test]
fn applies_stateful_manifest_until_ready_after_pvc_bound_service_and_workload() {
    let client = FakeKubernetesClient::default();
    let backend = backend_endpoint("tcp://db-acme.data.svc.cluster.local:5432");
    client.set_readiness_backend(backend.clone());
    let materializer = KubernetesMaterializer::new(client.clone());
    let manifest = stateful_manifest();
    let refs = vec![
        object_ref("v1", "PersistentVolume", "", "pv-acme"),
        object_ref("v1", "PersistentVolumeClaim", "data", "pvc-acme"),
        object_ref("v1", "Service", "data", "db-acme"),
        object_ref("apps/v1", "StatefulSet", "data", "db-acme"),
    ];

    let applied = apply_manifest_until_ready(&materializer, &manifest)
        .expect("stateful manifest applies and becomes ready");

    assert_eq!(
        applied,
        AppliedMaterialization {
            rendered_objects: refs.clone(),
            backend
        }
    );
    assert_eq!(
        client.operations(),
        vec![
            FakeOperation::Apply(refs[0].clone()),
            FakeOperation::Apply(refs[1].clone()),
            FakeOperation::WaitPvcBound {
                namespace: "data".to_owned(),
                name: "pvc-acme".to_owned(),
            },
            FakeOperation::Apply(refs[2].clone()),
            FakeOperation::Apply(refs[3].clone()),
            FakeOperation::WaitReadiness(refs),
        ]
    );
}

#[test]
fn apply_failure_returns_typed_error_for_failed_object() {
    let client = FakeKubernetesClient::default();
    let service_ref = object_ref("v1", "Service", "apps", "svc-acme");
    client.fail_apply(service_ref.clone());
    let materializer = KubernetesMaterializer::new(client.clone());

    let error = apply_manifest(&materializer, &deployment_manifest())
        .expect_err("service apply failure stops materialization");

    assert_eq!(
        error,
        MaterializerError::Apply {
            object: service_ref.clone(),
            source: KubernetesClientError::new("apply failed"),
        }
    );
    assert_eq!(client.operations(), vec![FakeOperation::Apply(service_ref)]);
}

#[test]
fn pvc_bound_wait_failure_prevents_service_and_workload_apply() {
    let client = FakeKubernetesClient::default();
    client.fail_pvc_wait("data", "pvc-acme");
    let materializer = KubernetesMaterializer::new(client.clone());

    let error = apply_manifest(&materializer, &stateful_manifest())
        .expect_err("pvc wait failure stops materialization");

    assert_eq!(
        error,
        MaterializerError::PvcBoundWait {
            namespace: "data".to_owned(),
            name: "pvc-acme".to_owned(),
            source: KubernetesClientError::new("pvc did not bind"),
        }
    );
    assert_eq!(
        client.operations(),
        vec![
            FakeOperation::Apply(object_ref("v1", "PersistentVolume", "", "pv-acme")),
            FakeOperation::Apply(object_ref(
                "v1",
                "PersistentVolumeClaim",
                "data",
                "pvc-acme"
            )),
            FakeOperation::WaitPvcBound {
                namespace: "data".to_owned(),
                name: "pvc-acme".to_owned(),
            },
        ]
    );
}

#[test]
fn pvc_bound_wait_failure_prevents_readiness_wait() {
    let client = FakeKubernetesClient::default();
    client.fail_pvc_wait("data", "pvc-acme");
    let materializer = KubernetesMaterializer::new(client.clone());

    let error = apply_manifest_until_ready(&materializer, &stateful_manifest())
        .expect_err("pvc wait failure stops ready materialization");

    assert_eq!(
        error,
        MaterializerError::PvcBoundWait {
            namespace: "data".to_owned(),
            name: "pvc-acme".to_owned(),
            source: KubernetesClientError::new("pvc did not bind"),
        }
    );
    assert_eq!(
        client.operations(),
        vec![
            FakeOperation::Apply(object_ref("v1", "PersistentVolume", "", "pv-acme")),
            FakeOperation::Apply(object_ref(
                "v1",
                "PersistentVolumeClaim",
                "data",
                "pvc-acme"
            )),
            FakeOperation::WaitPvcBound {
                namespace: "data".to_owned(),
                name: "pvc-acme".to_owned(),
            },
        ]
    );
}

#[test]
fn readiness_wait_failure_returns_typed_error_with_rendered_refs() {
    let client = FakeKubernetesClient::default();
    client.fail_readiness();
    let materializer = KubernetesMaterializer::new(client.clone());
    let refs = vec![
        object_ref("v1", "Service", "apps", "svc-acme"),
        object_ref("apps/v1", "Deployment", "apps", "app-acme"),
    ];

    let error = apply_manifest_until_ready(&materializer, &deployment_manifest())
        .expect_err("readiness wait failure stops ready materialization");

    assert_eq!(
        error,
        MaterializerError::ReadinessWait {
            rendered_objects: refs.clone(),
            source: KubernetesClientError::new("readiness wait failed"),
        }
    );
    assert_eq!(
        client.operations(),
        vec![
            FakeOperation::Apply(refs[0].clone()),
            FakeOperation::Apply(refs[1].clone()),
            FakeOperation::WaitReadiness(refs),
        ]
    );
}

#[test]
fn deletes_rendered_refs_in_reverse_order() {
    let client = FakeKubernetesClient::default();
    let materializer = KubernetesMaterializer::new(client.clone());
    let refs = apply_manifest(
        &KubernetesMaterializer::new(FakeKubernetesClient::default()),
        &stateful_manifest(),
    )
            .expect("refs are derived");

    delete_rendered_objects(&materializer, &refs)
        .expect("refs delete");

    assert_eq!(
        client.operations(),
        vec![
            FakeOperation::Delete(object_ref("apps/v1", "StatefulSet", "data", "db-acme")),
            FakeOperation::Delete(object_ref("v1", "Service", "data", "db-acme")),
            FakeOperation::Delete(object_ref(
                "v1",
                "PersistentVolumeClaim",
                "data",
                "pvc-acme"
            )),
            FakeOperation::Delete(object_ref("v1", "PersistentVolume", "", "pv-acme")),
        ]
    );
}

#[test]
fn object_refs_use_expected_api_versions_kinds_names_and_namespaces() {
    let manifest = stateful_manifest();
    let refs = manifest
        .objects
        .iter()
        .map(|object| rendered_object_ref(&object.object))
        .collect::<Vec<_>>();

    assert_eq!(
        refs,
        vec![
            object_ref("v1", "PersistentVolume", "", "pv-acme"),
            object_ref("v1", "PersistentVolumeClaim", "data", "pvc-acme"),
            object_ref("v1", "Service", "data", "db-acme"),
            object_ref("apps/v1", "StatefulSet", "data", "db-acme"),
        ]
    );
}

#[test]
fn delete_failure_returns_typed_error_and_stops() {
    let client = FakeKubernetesClient::default();
    let materializer = KubernetesMaterializer::new(client.clone());
    let service_ref = object_ref("v1", "Service", "apps", "svc-acme");
    let workload_ref = object_ref("apps/v1", "Deployment", "apps", "app-acme");
    client.fail_delete(service_ref.clone());

    let error = delete_rendered_objects(&materializer, &vec![service_ref.clone(), workload_ref.clone()])
        .expect_err("delete failure stops cleanup");

    assert_eq!(
        error,
        MaterializerError::Delete {
            object: service_ref.clone(),
            source: KubernetesClientError::new("delete failed"),
        }
    );
    assert_eq!(
        client.operations(),
        vec![
            FakeOperation::Delete(workload_ref),
            FakeOperation::Delete(service_ref),
        ]
    );
}

#[test]
fn deletion_goes_backwards_and_ends_with_a_failure() {
    let first = object_ref("v1", "PersistentVolume", "", "pv-acme");
    let second = object_ref("v1", "Service", "apps", "svc-acme");
    let third = object_ref("apps/v1", "Deployment", "apps", "app-acme");
    let objects = vec![first.clone(), second.clone(), third.clone()];
    assert_eq!(
        delete_order(&objects),
        vec![third.clone(), second.clone(), first.clone()]
    );
    assert_eq!(delete_outcome(&first, Ok(())), Ok(()));

    let mut run = DeleteRun::start(&objects);
    for object in [&third, &second, &first] {
        assert_eq!(run.next_object(), Some(object));
        assert!(!run.is_complete());
        assert_eq!(run.step_done(Ok(())), Ok(()));
    }
    assert_eq!(run.next_object(), None);
    assert!(run.is_complete());

    let mut run = DeleteRun::start(&objects);
    assert_eq!(run.step_done(Ok(())), Ok(()));
    assert_eq!(
        run.step_done(Err(KubernetesClientError::new("held"))),
        Err(MaterializerError::Delete {
            object: second,
            source: KubernetesClientError::new("held"),
        })
    );
    assert_eq!(run.next_object(), None);
    assert!(!run.is_complete());
    assert!(DeleteRun::start(&vec![]).is_complete());
}

#[test]
fn applied_objects_retain_ownership_and_generation_labels() {
    let client = FakeKubernetesClient::default();
    let materializer = KubernetesMaterializer::new(client.clone());

    apply_manifest(&materializer, &deployment_manifest())
        .expect("deployment applies");

    for object in client.applied_objects() {
        let labels = object_labels(&object);
        assert_eq!(labels.get("sleepypods.io/instance-id").expect("label"),
            "instance-a");
        assert_eq!(labels.get("sleepypods.io/instance-generation").expect("label"),
            "7");
    }
}

#[test]
fn stale_object_generation_manifest_is_rejected_before_apply() {
    let client = FakeKubernetesClient::default();
    let materializer = KubernetesMaterializer::new(client.clone());
    let mut manifest = deployment_manifest();
    let deployment = manifest
        .objects
        .iter_mut()
        .find_map(|object| match &mut object.object {
            KubernetesObject::Deployment(deployment) => Some(deployment),
            _ => None,
        })
        .expect("deployment object");
    deployment.metadata.labels.insert(
        "sleepypods.io/instance-generation",
        "6".to_owned(),
    );

    let error = apply_manifest(&materializer, &manifest)
        .expect_err("stale generation label is rejected");

    assert_invalid_manifest(
        error,
        "Deployment apps/app-acme metadata sleepypods.io/instance-generation must be \"7\"",
    );
    assert!(
        client.operations().is_empty(),
        "stale manifest must not be applied"
    );
}

#[test]
fn stale_template_generation_manifest_is_rejected_before_apply() {
    let client = FakeKubernetesClient::default();
    let materializer = KubernetesMaterializer::new(client.clone());
    let mut manifest = deployment_manifest();
    let deployment = manifest
        .objects
        .iter_mut()
        .find_map(|object| match &mut object.object {
            KubernetesObject::Deployment(deployment) => Some(deployment),
            _ => None,
        })
        .expect("deployment object");
    deployment.spec.template.metadata.annotations.insert(
        "sleepypods.io/template-generation",
        "2".to_owned(),
    );

    let error = apply_manifest(&materializer, &manifest)
        .expect_err("stale template generation annotation is rejected");

    assert_invalid_manifest(
        error,
        "Deployment apps/app-acme pod template metadata sleepypods.io/template-generation must be \"3\"",
    );
    assert!(
        client.operations().is_empty(),
        "stale manifest must not be applied"
    );
}

impl FakeKubernetesClient {
    fn apply_object(&self, object: &KubernetesObject) -> Result<(), KubernetesClientError> {
        let object_ref = rendered_object_ref(object);
        let mut inner = self.inner.lock().expect("fake client lock not poisoned");
        inner
            .operations
            .push(FakeOperation::Apply(object_ref.clone()));
        inner.applied_objects.push(object.clone());

        if inner.fail_apply.as_ref() == Some(&object_ref) {
            Err(KubernetesClientError::new("apply failed"))
        } else {
            Ok(())
        }
    }

    fn delete_object(&self, object: &RenderedObjectRef) -> Result<(), KubernetesClientError> {
        let mut inner = self.inner.lock().expect("fake client lock not poisoned");
        inner.operations.push(FakeOperation::Delete(object.clone()));

        if inner.fail_delete.as_ref() == Some(object) {
            Err(KubernetesClientError::new("delete failed"))
        } else {
            Ok(())
        }
    }

    fn wait_for_pvc_bound(&self, namespace: &str, name: &str) -> Result<(), KubernetesClientError> {
        let mut inner = self.inner.lock().expect("fake client lock not poisoned");
        inner.operations.push(FakeOperation::WaitPvcBound {
            namespace: namespace.to_owned(),
            name: name.to_owned(),
        });

        if inner.fail_pvc_wait.as_ref() == Some(&(namespace.to_owned(), name.to_owned())) {
            Err(KubernetesClientError::new("pvc did not bind"))
        } else {
            Ok(())
        }
    }

    fn wait_for_readiness(
        &self,
        objects: &Vec<RenderedObjectRef>,
    ) -> Result<BackendEndpoint, KubernetesClientError> {
        let mut inner = self.inner.lock().expect("fake client lock not poisoned");
        inner
            .operations
            .push(FakeOperation::WaitReadiness(objects.clone()));

        if inner.fail_readiness {
            Err(KubernetesClientError::new("readiness wait failed"))
        } else {
            Ok(inner
                .readiness_backend
                .clone()
                .unwrap_or_else(default_backend_endpoint))
        }
    }
}

type Materializer = KubernetesMaterializer<FakeKubernetesClient>;

fn apply_manifest(
    materializer: &Materializer,
    manifest: &RenderedManifest,
) -> Result<Vec<RenderedObjectRef>, MaterializerError> {
    let client = materializer.client();
    let mut run = ApplyRun::start(manifest)?;
    while let Some(step) = run.next_step() {
        let result = match step {
            ApplyStep::Apply { object, .. } => client.apply_object(object),
            ApplyStep::WaitForPvcBound { namespace, name } => {
                client.wait_for_pvc_bound(namespace, name)
            }
        };
        run.step_done(result)?;
    }
    Ok(run.finish())
}

fn apply_manifest_until_ready(
    materializer: &Materializer,
    manifest: &RenderedManifest,
) -> Result<AppliedMaterialization, MaterializerError> {
    let rendered_objects = apply_manifest(materializer, manifest)?;
    let readiness = materializer.client().wait_for_readiness(&rendered_objects);
    readiness_outcome(rendered_objects, readiness)
}

fn delete_rendered_objects(
    materializer: &Materializer,
    objects: &Vec<RenderedObjectRef>,
) -> Result<(), MaterializerError> {
    let mut run = DeleteRun::start(objects);
    while let Some(object) = run.next_object() {
        let result = materializer.client().delete_object(object);
        run.step_done(result)?;
    }
    assert!(run.is_complete());
    Ok(())
}

impl FakeKubernetesClient {
    fn operations(&self) -> Vec<FakeOperation> {
        self.inner
            .lock()
            .expect("fake client lock not poisoned")
            .operations
            .clone()
    }

    fn applied_objects(&self) -> Vec<KubernetesObject> {
        self.inner
            .lock()
            .expect("fake client lock not poisoned")
            .applied_objects
            .clone()
    }

    fn fail_pvc_wait(&self, namespace: &str, name: &str) {
        self.inner
            .lock()
            .expect("fake client lock not poisoned")
            .fail_pvc_wait = Some((namespace.to_owned(), name.to_owned()));
    }

    fn fail_apply(&self, object: RenderedObjectRef) {
        self.inner
            .lock()
            .expect("fake client lock not poisoned")
            .fail_apply = Some(object);
    }

    fn fail_delete(&self, object: RenderedObjectRef) {
        self.inner
            .lock()
            .expect("fake client lock not poisoned")
            .fail_delete = Some(object);
    }

    fn set_readiness_backend(&self, backend: BackendEndpoint) {
        self.inner
            .lock()
            .expect("fake client lock not poisoned")
            .readiness_backend = Some(backend);
    }

    fn fail_readiness(&self) {
        self.inner
            .lock()
            .expect("fake client lock not poisoned")
            .fail_readiness = true;
    }
}

fn deployment_manifest() -> RenderedManifest {
    render_manifests(RenderManifestRequest {
        template: &deployment_template(),
        instance: &instance("instance-a", 7, values([("tenant", "acme")])),
        sleep_policy: resolved_sleep_policy(),
        namespace: "apps",
        template_generation: Some(Generation::new(3)),
    })
    .expect("deployment renders")
}

fn stateful_manifest() -> RenderedManifest {
    render_manifests(RenderManifestRequest {
        template: &stateful_template(),
        instance: &instance(
            "postgres-a",
            2,
            values([("tenant", "acme"), ("volume", "provider-vol-123")]),
        ),
        sleep_policy: resolved_sleep_policy(),
        namespace: "data",
        template_generation: None,
    })
    .expect("stateful workload renders")
}

fn resolved_sleep_policy() -> ResolvedSleepPolicy {
    ResolvedSleepPolicy {
        idle_timeout_ms: 300_000,
        idle_retry_backoff_ms: 5_000,
        drain_grace_timeout_ms: 30_000,
    }
}

fn deployment_template() -> ManifestTemplate {
    ManifestTemplate {
        workload: WorkloadTemplate {
            kind: WorkloadKind::Deployment,
            name: composed("app-", "tenant"),
            replicas: None,
            app_container: ContainerTemplate {
                name: "app".to_owned(),
                image: TemplateText::literal("example/app:1"),
                ports: vec![ContainerPortTemplate {
                    name: Some("http".to_owned()),
                    container_port: 8080,
                }],
                env: vec![EnvVarTemplate {
                    name: "TENANT".to_owned(),
                    value: TemplateText::instance_value("tenant"),
                }],
            },
        },
        service: Some(ServiceTemplate {
            name: composed("svc-", "tenant"),
            ports: vec![ServicePortTemplate {
                name: Some("http".to_owned()),
                port: 80,
                target_port: 8080,
            }],
        }),
        sidecar: sidecar_template(),
        volumes: Vec::new(),
        raw_objects: Vec::new(),
    }
}

fn stateful_template() -> ManifestTemplate {
    ManifestTemplate {
        workload: WorkloadTemplate {
            kind: WorkloadKind::StatefulSet,
            name: composed("db-", "tenant"),
            replicas: Some(1),
            app_container: ContainerTemplate {
                name: "postgres".to_owned(),
                image: TemplateText::literal("postgres:17"),
                ports: vec![ContainerPortTemplate {
                    name: Some("postgres".to_owned()),
                    container_port: 5432,
                }],
                env: Vec::new(),
            },
        },
        service: Some(ServiceTemplate {
            name: composed("db-", "tenant"),
            ports: vec![ServicePortTemplate {
                name: Some("postgres".to_owned()),
                port: 5432,
                target_port: 5432,
            }],
        }),
        sidecar: sidecar_template(),
        volumes: vec![VolumeTemplate {
            name: "data".to_owned(),
            mount_path: TemplateText::literal("/var/lib/postgresql/data"),
            pv_name: composed("pv-", "tenant"),
            pvc_name: composed("pvc-", "tenant"),
            access_modes: vec![PersistentVolumeAccessMode::ReadWriteOnce],
            capacity: TemplateText::literal("10Gi"),
            reclaim_policy: PersistentVolumeReclaimPolicy::Retain,
            storage_class_name: Some(TemplateText::literal("manual")),
            source: PersistentVolumeSourceTemplate::Csi {
                driver: TemplateText::literal("csi.example.com"),
                volume_handle: TemplateText::instance_value("volume"),
                fs_type: Some(TemplateText::literal("ext4")),
                read_only: false,
                volume_attributes: StringMap::new(),
                controller_publish_secret_ref: None,
                node_stage_secret_ref: None,
                node_publish_secret_ref: None,
                controller_expand_secret_ref: None,
                node_expand_secret_ref: None,
            },
        }],
        raw_objects: Vec::new(),
    }
}

fn sidecar_template() -> SidecarTemplate {
    SidecarTemplate {
        name: "sleepypods-sidecar".to_owned(),
        image: TemplateText::literal("sleepypods/sidecar:test"),
        listen_port: 15000,
        mode: None,
    }
}

fn object_ref(api_version: &str, kind: &str, namespace: &str, name: &str) -> RenderedObjectRef {
    RenderedObjectRef {
        api_version: api_version.to_owned(),
        kind: kind.to_owned(),
        namespace: namespace.to_owned(),
        name: name.to_owned(),
    }
}

fn backend_endpoint(uri: &str) -> BackendEndpoint {
    BackendEndpoint::new(uri).expect("valid backend endpoint")
}

fn default_backend_endpoint() -> BackendEndpoint {
    backend_endpoint("http://ready.backend")
}

fn object_labels(object: &KubernetesObject) -> &StringMap<String> {
    match object {
        KubernetesObject::Deployment(object) => &object.metadata.labels,
        KubernetesObject::StatefulSet(object) => &object.metadata.labels,
        KubernetesObject::Service(object) => &object.metadata.labels,
        KubernetesObject::PersistentVolume(object) => &object.metadata.labels,
        KubernetesObject::PersistentVolumeClaim(object) => &object.metadata.labels,
    }
}

fn assert_invalid_manifest(error: MaterializerError, expected_message: &str) {
    match error {
        MaterializerError::InvalidManifest { message } => {
            assert!(
                message.contains(expected_message),
                "message {message:?} should contain {expected_message:?}"
            );
        }
        other => panic!("expected invalid manifest error, got {other:?}"),
    }
}

fn composed(prefix: &str, field: &str) -> TemplateText {
    TemplateText::from_parts(vec![
        TemplateTextPart::literal(prefix),
        TemplateTextPart::instance_value(field),
    ])
}

fn instance(id: &str, generation: u64, values: InstanceValues) -> InstanceRecord {
    InstanceRecord {
        id: InstanceId::new(id).expect("valid instance ID"),
        workload_class: WorkloadClassVersionRef::new(
            WorkloadClassId::new("web").expect("valid class ID"),
            Generation::new(1),
        ),
        values,
        state: InstanceState::Cold,
        generation: Generation::new(generation),
    }
}

fn values<const N: usize>(pairs: [(&str, &str); N]) -> InstanceValues {
    let mut values = InstanceValues::new();
    for (key, value) in pairs {
        values.insert(key, value.to_owned());
    }
    values
}

//! From a template and an instance to Kubernetes objects.
use vstd::prelude::*;
use vstd::string::*;

use super::objects::ApplyOrder;
use super::objects::Container;
use super::objects::ContainerPort;
use super::objects::ContainerPortView;
use super::objects::ContainerView;
use super::objects::CsiPersistentVolumeSource;
use super::objects::CsiPersistentVolumeSourceView;
use super::objects::Deployment;
use super::objects::DeploymentSpec;
use super::objects::DeploymentSpecView;
use super::objects::DeploymentView;
use super::objects::EnvVar;
use super::objects::EnvVarView;
use super::objects::HostPathPersistentVolumeSource;
use super::objects::HostPathPersistentVolumeSourceView;
use super::objects::KubernetesObject;
use super::objects::KubernetesObjectView;
use super::objects::LabelSelector;
use super::objects::LabelSelectorView;
use super::objects::ObjectMeta;
use super::objects::ObjectMetaView;
use super::objects::PersistentVolume;
use super::objects::PersistentVolumeClaim;
use super::objects::PersistentVolumeClaimRef;
use super::objects::PersistentVolumeClaimRefView;
use super::objects::PersistentVolumeClaimSpec;
use super::objects::PersistentVolumeClaimSpecView;
use super::objects::PersistentVolumeClaimView;
use super::objects::PersistentVolumeClaimVolumeSource;
use super::objects::PersistentVolumeClaimVolumeSourceView;
use super::objects::PersistentVolumeSource;
use super::objects::PersistentVolumeSourceView;
use super::objects::PersistentVolumeSpec;
use super::objects::PersistentVolumeSpecView;
use super::objects::PersistentVolumeView;
use super::objects::PodSpec;
use super::objects::PodSpecView;
use super::objects::PodTemplateMetadata;
use super::objects::PodTemplateMetadataView;
use super::objects::PodTemplateSpec;
use super::objects::PodTemplateSpecView;
use super::objects::PodVolume;
use super::objects::PodVolumeView;
use super::objects::RenderedManifest;
use super::objects::RenderedManifestObject;
use super::objects::RenderedManifestObjectView;
use super::objects::RenderedManifestView;
use super::objects::Service;
use super::objects::ServicePort;
use super::objects::ServicePortView;
use super::objects::ServiceSpec;
use super::objects::ServiceSpecView;
use super::objects::ServiceView;
use super::objects::StatefulSet;
use super::objects::StatefulSetSpec;
use super::objects::StatefulSetSpecView;
use super::objects::StatefulSetView;
use super::objects::VolumeMount;
use super::objects::VolumeMountView;
use super::objects::VolumeResourceRequirements;
use super::objects::VolumeResourceRequirementsView;
use super::template;
use super::template::ContainerPortTemplate;
use super::template::ContainerPortTemplateView;
use super::template::ContainerTemplate;
use super::template::ContainerTemplateView;
use super::template::EnvVarTemplate;
use super::template::EnvVarTemplateView;
use super::template::ManifestTemplate;
use super::template::ManifestTemplateView;
use super::template::PersistentVolumeAccessMode;
use super::template::PersistentVolumeReclaimPolicy;
use super::template::PersistentVolumeSourceTemplate;
use super::template::ServicePortTemplateView;
use super::template::ServiceTemplate;
use super::template::SidecarTemplate;
use super::template::SidecarTemplateView;
use super::template::TemplateText;
use super::template::TemplateTextPartView;
use super::template::VolumeTemplate;
use super::template::WorkloadKind;
use super::template::WorkloadTemplateView;
use super::ManifestRenderError;
use super::ManifestRenderErrorView;
use super::RenderManifestRequest;
use super::ANNOTATION_TEMPLATE_GENERATION;
use super::LABEL_INSTANCE_GENERATION;
use super::LABEL_INSTANCE_ID;
use super::LABEL_WORKLOAD_CLASS_ID;
use super::LABEL_WORKLOAD_CLASS_VERSION;
use super::LABEL_WORKLOAD_NAME;
use crate::ids::Generation;
use crate::instance::InstanceRecord;
use crate::instance::InstanceValues;
use crate::kubernetes_name;
use crate::outcome;
use crate::sleep_policy::ResolvedSleepPolicy;
use crate::string_map;
use crate::string_map::StringMap;
use crate::text;

verus! {

/// A volume once its texts are rendered.
#[derive(Debug, PartialEq, Eq)]
pub struct RenderedVolume {
    pub volume_name: String,
    pub mount_path: String,
    pub pv_name: String,
    pub pvc_name: String,
    pub access_modes: Vec<PersistentVolumeAccessMode>,
    pub capacity: String,
    pub reclaim_policy: PersistentVolumeReclaimPolicy,
    pub storage_class_name: Option<String>,
    pub source: PersistentVolumeSource,
}

/// What a [`RenderedVolume`] holds.
#[verifier::ext_equal]
pub struct RenderedVolumeView {
    pub volume_name: Seq<char>,
    pub mount_path: Seq<char>,
    pub pv_name: Seq<char>,
    pub pvc_name: Seq<char>,
    pub access_modes: Seq<PersistentVolumeAccessMode>,
    pub capacity: Seq<char>,
    pub reclaim_policy: PersistentVolumeReclaimPolicy,
    pub storage_class_name: Option<Seq<char>>,
    pub source: PersistentVolumeSourceView,
}

impl DeepView for RenderedVolume {
    type V = RenderedVolumeView;

    open spec fn deep_view(&self) -> RenderedVolumeView {
        RenderedVolumeView {
            volume_name: self.volume_name.deep_view(),
            mount_path: self.mount_path.deep_view(),
            pv_name: self.pv_name.deep_view(),
            pvc_name: self.pvc_name.deep_view(),
            access_modes: self.access_modes.deep_view(),
            capacity: self.capacity.deep_view(),
            reclaim_policy: self.reclaim_policy.deep_view(),
            storage_class_name: self.storage_class_name.deep_view(),
            source: self.source.deep_view(),
        }
    }
}

/// The sidecar's ports.
#[derive(Clone, Copy, Debug, PartialEq, Eq, Structural)]
pub struct SidecarRenderConfig {
    pub listen_port: u16,
    pub app_port: u16,
}

impl DeepView for SidecarRenderConfig {
    type V = SidecarRenderConfig;

    open spec fn deep_view(&self) -> SidecarRenderConfig {
        *self
    }
}

/// A field with a problem.
pub open spec fn invalid_field(field: Seq<char>, message: Seq<char>) -> ManifestRenderErrorView {
    ManifestRenderErrorView::InvalidField { field, message }
}

/// A text that must not be blank once rendered.
pub open spec fn non_empty_text(
    field: Seq<char>,
    parts: Seq<TemplateTextPartView>,
    values: Map<Seq<char>, Seq<char>>,
) -> Result<Seq<char>, ManifestRenderErrorView> {
    match template::rendered_text(parts, values) {
        Err(error) => Err(error),
        Ok(value) => if text::is_blank(value) {
            Err(invalid_field(field, "rendered value must not be empty"@))
        } else {
            Ok(value)
        },
    }
}

/// What is wrong with a text that must not be blank, where it is given.
pub open spec fn optional_text_problem(
    field: Seq<char>,
    parts: Option<Seq<TemplateTextPartView>>,
    values: Map<Seq<char>, Seq<char>>,
) -> Option<ManifestRenderErrorView> {
    match parts {
        Some(parts) => outcome::err_of(non_empty_text(field, parts, values)),
        None => None,
    }
}

/// A text that may be left out.
pub open spec fn optional_text(
    parts: Option<Seq<TemplateTextPartView>>,
    values: Map<Seq<char>, Seq<char>>,
) -> Option<Seq<char>> {
    match parts {
        Some(parts) => Some(template::parts_text(parts, values)),
        None => None,
    }
}

/// What is wrong with a name.
pub open spec fn name_problem(field: Seq<char>, value: Seq<char>) -> Option<
    ManifestRenderErrorView,
> {
    if kubernetes_name::dns_label(value) {
        None
    } else {
        Some(ManifestRenderErrorView::InvalidName { field, value })
    }
}

/// The name of an object: a text that is a DNS label.
pub open spec fn object_name(
    field: Seq<char>,
    parts: Seq<TemplateTextPartView>,
    values: Map<Seq<char>, Seq<char>>,
) -> Result<Seq<char>, ManifestRenderErrorView> {
    match non_empty_text(field, parts, values) {
        Err(error) => Err(error),
        Ok(value) => match name_problem(field, value) {
            Some(error) => Err(error),
            None => Ok(value),
        },
    }
}

/// What is wrong with a port.
pub open spec fn port_problem(field: Seq<char>, port: u16) -> Option<ManifestRenderErrorView> {
    if port == 0 {
        Some(invalid_field(field, "port must be between 1 and 65535"@))
    } else {
        None
    }
}

/// What is wrong with a label.
pub open spec fn label_problem(field: Seq<char>, value: Seq<char>) -> Option<
    ManifestRenderErrorView,
> {
    if kubernetes_name::label_value(value) {
        None
    } else {
        Some(
            invalid_field(
                field,
                "label value "@ + text::debug_text(value)
                    + " is not Kubernetes label-value-safe"@,
            ),
        )
    }
}

/// The labels by which pods are selected.
pub open spec fn selector_label_map(
    instance: InstanceRecord,
    workload_name: Seq<char>,
) -> Map<Seq<char>, Seq<char>> {
    Map::empty().insert(LABEL_INSTANCE_ID@, instance.id@).insert(LABEL_WORKLOAD_NAME@, workload_name)
}

/// The labels that every object carries.
pub open spec fn metadata_label_map(
    instance: InstanceRecord,
    workload_name: Seq<char>,
) -> Map<Seq<char>, Seq<char>> {
    Map::empty().insert(LABEL_INSTANCE_ID@, instance.id@).insert(
        LABEL_INSTANCE_GENERATION@,
        text::decimal(instance.generation@),
    ).insert(LABEL_WORKLOAD_CLASS_ID@, instance.workload_class.class_id@).insert(
        LABEL_WORKLOAD_CLASS_VERSION@,
        text::decimal(instance.workload_class.version@),
    ).insert(LABEL_WORKLOAD_NAME@, workload_name)
}

/// What is wrong with the labels, in the order in which they are made.
pub open spec fn metadata_label_problem(
    instance: InstanceRecord,
    workload_name: Seq<char>,
) -> Option<ManifestRenderErrorView> {
    outcome::first_of(
        label_problem(LABEL_INSTANCE_ID@, instance.id@),
        outcome::first_of(
            label_problem(LABEL_INSTANCE_GENERATION@, text::decimal(instance.generation@)),
            outcome::first_of(
                label_problem(LABEL_WORKLOAD_CLASS_ID@, instance.workload_class.class_id@),
                outcome::first_of(
                    label_problem(
                        LABEL_WORKLOAD_CLASS_VERSION@,
                        text::decimal(instance.workload_class.version@),
                    ),
                    label_problem(LABEL_WORKLOAD_NAME@, workload_name),
                ),
            ),
        ),
    )
}

/// The annotations that every object carries.
pub open spec fn annotation_map(template_generation: Option<Generation>) -> Map<
    Seq<char>,
    Seq<char>,
> {
    match template_generation {
        Some(generation) => Map::empty().insert(
            ANNOTATION_TEMPLATE_GENERATION@,
            text::decimal(generation@),
        ),
        None => Map::empty(),
    }
}

/// Whether a container opens a port.
pub open spec fn opens_port(ports: Seq<ContainerPortTemplateView>, port: u16) -> bool {
    exists|i: int| 0 <= i < ports.len() && (#[trigger] ports[i]).container_port == port
}

/// What is wrong with the way the sidecar stands between service and
/// application.
pub open spec fn sidecar_problem(
    template: ManifestTemplateView,
    values: Map<Seq<char>, Seq<char>>,
) -> Option<ManifestRenderErrorView> {
    let listen_port = template.sidecar.listen_port;
    let app_ports = template.workload.app_container.ports;
    if listen_port == 0 {
        port_problem("sidecar.listen_port"@, listen_port)
    } else {
        match template.service {
            None => Some(
                invalid_field(
                    "service"@,
                    "sidecar-routed workloads require a service template"@,
                ),
            ),
            Some(service) => if service.ports.len() != 1 {
                Some(
                    invalid_field(
                        "service.ports"@,
                        "exactly one service port is supported for sidecar-routed workloads"@,
                    ),
                )
            } else {
                let app_port = service.ports[0].target_port;
                if app_port == 0 {
                    port_problem("service.ports.target_port"@, app_port)
                } else if app_port == listen_port {
                    Some(
                        invalid_field(
                            "service.ports.target_port"@,
                            "original app target port must differ from the sidecar listen port"@,
                        ),
                    )
                } else if !opens_port(app_ports, 0) && !opens_port(app_ports, app_port) {
                    Some(
                        invalid_field(
                            "service.ports.target_port"@,
                            "target port "@ + text::decimal(app_port as nat)
                                + " must match an app container port"@,
                        ),
                    )
                } else {
                    outcome::first_of(
                        outcome::err_of(
                            non_empty_text("sidecar.image"@, template.sidecar.image, values),
                        ),
                        name_problem("sidecar.name"@, template.sidecar.name),
                    )
                }
            },
        }
    }
}

/// Whether no access mode occurs twice.
pub open spec fn distinct_modes(modes: Seq<PersistentVolumeAccessMode>) -> bool {
    forall|i: int, j: int| 0 <= i < j < modes.len() ==> #[trigger] modes[i] != #[trigger] modes[j]
}

/// What is wrong with a list of access modes.
pub open spec fn modes_problem(modes: Seq<PersistentVolumeAccessMode>) -> Option<
    ManifestRenderErrorView,
> {
    if modes.len() == 0 {
        Some(invalid_field("volume.access_modes"@, "at least one access mode is required"@))
    } else if !distinct_modes(modes) {
        Some(invalid_field("volume.access_modes"@, "access modes must not contain duplicates"@))
    } else {
        None
    }
}

/// What is wrong with a path that must be absolute.
pub open spec fn absolute_problem(
    field: Seq<char>,
    what: Seq<char>,
    path: Seq<char>,
) -> Option<ManifestRenderErrorView> {
    if text::has_prefix(path, "/"@) {
        None
    } else {
        Some(invalid_field(field, what + text::debug_text(path) + " must be absolute"@))
    }
}

/// The problem of each volume attribute, in key order.
pub open spec fn attribute_problems(
    attributes: Seq<(Seq<char>, Seq<TemplateTextPartView>)>,
    values: Map<Seq<char>, Seq<char>>,
) -> Seq<Option<ManifestRenderErrorView>> {
    attributes.map_values(
        |pair: (Seq<char>, Seq<TemplateTextPartView>)|
            outcome::err_of(
                non_empty_text("volume.source.csi.volume_attributes"@, pair.1, values),
            ),
    )
}

/// The rendered volume attributes, in key order.
pub open spec fn rendered_attributes(
    attributes: Seq<(Seq<char>, Seq<TemplateTextPartView>)>,
    values: Map<Seq<char>, Seq<char>>,
) -> Seq<(Seq<char>, Seq<char>)> {
    attributes.map_values(
        |pair: (Seq<char>, Seq<TemplateTextPartView>)|
            (pair.0, template::parts_text(pair.1, values)),
    )
}

/// What is wrong with the source of a volume.
pub open spec fn source_problem(
    source: PersistentVolumeSourceTemplate,
    values: Map<Seq<char>, Seq<char>>,
) -> Option<ManifestRenderErrorView> {
    match source {
        PersistentVolumeSourceTemplate::Csi {
            driver,
            volume_handle,
            fs_type,
            volume_attributes,
            ..
        } => outcome::first_of(
            outcome::first_problem(attribute_problems(volume_attributes.pairs(), values), 0),
            outcome::first_of(
                outcome::err_of(
                    non_empty_text("volume.source.csi.driver"@, driver.deep_view(), values),
                ),
                outcome::first_of(
                    outcome::err_of(
                        non_empty_text(
                            "volume.source.csi.volume_handle"@,
                            volume_handle.deep_view(),
                            values,
                        ),
                    ),
                    optional_text_problem(
                        "volume.source.csi.fs_type"@,
                        fs_type.deep_view(),
                        values,
                    ),
                ),
            ),
        ),
        PersistentVolumeSourceTemplate::HostPath { path, type_ } => outcome::first_of(
            outcome::err_of(
                non_empty_text("volume.source.host_path.path"@, path.deep_view(), values),
            ),
            outcome::first_of(
                absolute_problem(
                    "volume.source.host_path.path"@,
                    "hostPath path "@,
                    template::parts_text(path.deep_view(), values),
                ),
                optional_text_problem("volume.source.host_path.type"@, type_.deep_view(), values),
            ),
        ),
    }
}

/// The source of a volume once its texts are rendered.
pub open spec fn rendered_source(
    source: PersistentVolumeSourceTemplate,
    values: Map<Seq<char>, Seq<char>>,
) -> PersistentVolumeSourceView {
    match source {
        PersistentVolumeSourceTemplate::Csi {
            driver,
            volume_handle,
            fs_type,
            read_only,
            volume_attributes,
            ..
        } => PersistentVolumeSourceView::Csi(
            CsiPersistentVolumeSourceView {
                driver: template::parts_text(driver.deep_view(), values),
                volume_handle: template::parts_text(volume_handle.deep_view(), values),
                fs_type: optional_text(fs_type.deep_view(), values),
                read_only,
                volume_attributes: string_map::map_of_pairs(
                    rendered_attributes(volume_attributes.pairs(), values),
                ),
            },
        ),
        PersistentVolumeSourceTemplate::HostPath { path, type_ } => {
            PersistentVolumeSourceView::HostPath(
                HostPathPersistentVolumeSourceView {
                    path: template::parts_text(path.deep_view(), values),
                    type_: optional_text(type_.deep_view(), values),
                },
            )
        },
    }
}

/// What is wrong with a volume.
pub open spec fn volume_problem(
    volume: VolumeTemplate,
    values: Map<Seq<char>, Seq<char>>,
) -> Option<ManifestRenderErrorView> {
    let view = volume.deep_view();
    outcome::first_of(
        name_problem("volume.name"@, view.name),
        outcome::first_of(
            modes_problem(view.access_modes),
            outcome::first_of(
                outcome::err_of(non_empty_text("volume.mount_path"@, view.mount_path, values)),
                outcome::first_of(
                    absolute_problem(
                        "volume.mount_path"@,
                        "mount path "@,
                        template::parts_text(view.mount_path, values),
                    ),
                    outcome::first_of(
                        outcome::err_of(object_name("volume.pv_name"@, view.pv_name, values)),
                        outcome::first_of(
                            outcome::err_of(object_name("volume.pvc_name"@, view.pvc_name, values)),
                            outcome::first_of(
                                outcome::err_of(
                                    non_empty_text("volume.capacity"@, view.capacity, values),
                                ),
                                outcome::first_of(
                                    optional_text_problem(
                                        "volume.storage_class_name"@,
                                        view.storage_class_name,
                                        values,
                                    ),
                                    source_problem(volume.source, values),
                                ),
                            ),
                        ),
                    ),
                ),
            ),
        ),
    )
}

/// A volume once its texts are rendered.
pub open spec fn rendered_volume(
    volume: VolumeTemplate,
    values: Map<Seq<char>, Seq<char>>,
) -> RenderedVolumeView {
    let view = volume.deep_view();
    RenderedVolumeView {
        volume_name: view.name,
        mount_path: template::parts_text(view.mount_path, values),
        pv_name: template::parts_text(view.pv_name, values),
        pvc_name: template::parts_text(view.pvc_name, values),
        access_modes: view.access_modes,
        capacity: template::parts_text(view.capacity, values),
        reclaim_policy: view.reclaim_policy,
        storage_class_name: optional_text(view.storage_class_name, values),
        source: rendered_source(volume.source, values),
    }
}

/// The problem of each volume.
pub open spec fn volume_problems(
    volumes: Seq<VolumeTemplate>,
    values: Map<Seq<char>, Seq<char>>,
) -> Seq<Option<ManifestRenderErrorView>> {
    volumes.map_values(|volume: VolumeTemplate| volume_problem(volume, values))
}

/// The volumes once their texts are rendered.
pub open spec fn rendered_volumes(
    volumes: Seq<VolumeTemplate>,
    values: Map<Seq<char>, Seq<char>>,
) -> Seq<RenderedVolumeView> {
    volumes.map_values(|volume: VolumeTemplate| rendered_volume(volume, values))
}

/// The problem of each port of the application.
pub open spec fn container_port_problems(ports: Seq<ContainerPortTemplateView>) -> Seq<
    Option<ManifestRenderErrorView>,
> {
    ports.map_values(
        |port: ContainerPortTemplateView|
            port_problem("container.ports.container_port"@, port.container_port),
    )
}

/// The problem of each environment variable.
pub open spec fn env_problems(
    env: Seq<EnvVarTemplateView>,
    values: Map<Seq<char>, Seq<char>>,
) -> Seq<Option<ManifestRenderErrorView>> {
    env.map_values(
        |var: EnvVarTemplateView| outcome::err_of(template::rendered_text(var.value, values)),
    )
}

/// What is wrong with the application container.
pub open spec fn app_container_problem(
    container: ContainerTemplateView,
    values: Map<Seq<char>, Seq<char>>,
) -> Option<ManifestRenderErrorView> {
    outcome::first_of(
        name_problem("container.name"@, container.name),
        outcome::first_of(
            outcome::err_of(non_empty_text("container.image"@, container.image, values)),
            outcome::first_of(
                outcome::first_problem(container_port_problems(container.ports), 0),
                outcome::first_problem(env_problems(container.env, values), 0),
            ),
        ),
    )
}

/// The application container.
pub open spec fn rendered_app_container(
    container: ContainerTemplateView,
    values: Map<Seq<char>, Seq<char>>,
    volumes: Seq<RenderedVolumeView>,
) -> ContainerView {
    ContainerView {
        name: container.name,
        image: template::parts_text(container.image, values),
        ports: container.ports.map_values(
            |port: ContainerPortTemplateView|
                ContainerPortView { name: port.name, container_port: port.container_port },
        ),
        env: container.env.map_values(
            |var: EnvVarTemplateView|
                EnvVarView { name: var.name, value: template::parts_text(var.value, values) },
        ),
        volume_mounts: volumes.map_values(
            |volume: RenderedVolumeView|
                VolumeMountView { name: volume.volume_name, mount_path: volume.mount_path },
        ),
    }
}

/// Where the sidecar reaches the control plane from a namespace.
pub open spec fn control_plane_endpoint(namespace: Seq<char>) -> Seq<char> {
    "http://sleepypods-control-plane."@ + namespace + ".svc.cluster.local:50051"@
}

/// The sidecar container.
pub open spec fn rendered_sidecar(
    sidecar: SidecarTemplateView,
    instance: InstanceRecord,
    config: SidecarRenderConfig,
    sleep_policy: ResolvedSleepPolicy,
    namespace: Seq<char>,
) -> ContainerView {
    let values = instance.values.deep_view();
    ContainerView {
        name: sidecar.name,
        image: template::parts_text(sidecar.image, values),
        ports: seq![
            ContainerPortView { name: Some("sleepypods"@), container_port: config.listen_port },
        ],
        env: seq![
            EnvVarView {
                name: "SLEEPYPODS_LISTEN_PORT"@,
                value: text::decimal(config.listen_port as nat),
            },
            EnvVarView {
                name: "SLEEPYPODS_SIDECAR_LISTEN_ADDR"@,
                value: "0.0.0.0:"@ + text::decimal(config.listen_port as nat),
            },
            EnvVarView {
                name: "SLEEPYPODS_APP_PORT"@,
                value: text::decimal(config.app_port as nat),
            },
            EnvVarView { name: "SLEEPYPODS_INSTANCE_ID"@, value: instance.id@ },
            EnvVarView {
                name: "SLEEPYPODS_INSTANCE_GENERATION"@,
                value: text::decimal(instance.generation@),
            },
            EnvVarView {
                name: "SLEEPYPODS_CONTROL_PLANE_ENDPOINT"@,
                value: control_plane_endpoint(namespace),
            },
            EnvVarView {
                name: "SLEEPYPODS_IDLE_TIMEOUT_MS"@,
                value: text::decimal(sleep_policy.idle_timeout_ms as nat),
            },
            EnvVarView {
                name: "SLEEPYPODS_IDLE_RETRY_BACKOFF_MS"@,
                value: text::decimal(sleep_policy.idle_retry_backoff_ms as nat),
            },
            EnvVarView {
                name: "SLEEPYPODS_DRAIN_GRACE_TIMEOUT_MS"@,
                value: text::decimal(sleep_policy.drain_grace_timeout_ms as nat),
            },
        ],
        volume_mounts: Seq::empty(),
    }
}

/// The problem of each port of the service.
pub open spec fn service_port_problems(ports: Seq<ServicePortTemplateView>) -> Seq<
    Option<ManifestRenderErrorView>,
> {
    ports.map_values(
        |port: ServicePortTemplateView|
            outcome::first_of(
                port_problem("service.ports.port"@, port.port),
                port_problem("service.ports.target_port"@, port.target_port),
            ),
    )
}

/// The ports of the service: each leads to the sidecar.
pub open spec fn rendered_service_ports(
    ports: Seq<ServicePortTemplateView>,
    sidecar_port: u16,
) -> Seq<ServicePortView> {
    ports.map_values(
        |port: ServicePortTemplateView|
            ServicePortView { name: port.name, port: port.port, target_port: sidecar_port },
    )
}

/// What is wrong with the number of replicas.
pub open spec fn replicas_problem(workload: WorkloadTemplateView) -> Option<
    ManifestRenderErrorView,
> {
    match (workload.kind, workload.replicas) {
        (WorkloadKind::StatefulSet, Some(replicas)) if replicas > 1 => Some(
            ManifestRenderErrorView::InvalidReplicas {
                kind: WorkloadKind::StatefulSet,
                replicas,
                message: "StatefulSet replicas above one are not supported in V1"@,
            },
        ),
        _ => None,
    }
}

/// What is wrong with a request, in the order in which it is found.
pub open spec fn manifest_problem(request: RenderManifestRequest<'_>) -> Option<
    ManifestRenderErrorView,
> {
    let template = request.template.deep_view();
    let values = request.instance.values.deep_view();
    let workload_name = template::parts_text(template.workload.name, values);
    outcome::first_of(
        name_problem("namespace"@, request.namespace@),
        outcome::first_of(
            outcome::err_of(object_name("workload.name"@, template.workload.name, values)),
            outcome::first_of(
                match template.service {
                    Some(service) => outcome::err_of(
                        object_name("service.name"@, service.name, values),
                    ),
                    None => None,
                },
                outcome::first_of(
                    metadata_label_problem(*request.instance, workload_name),
                    outcome::first_of(
                        sidecar_problem(template, values),
                        outcome::first_of(
                            outcome::first_problem(
                                volume_problems(request.template.volumes@, values),
                                0,
                            ),
                            outcome::first_of(
                                outcome::first_problem(
                                    service_port_problems(template.service->0.ports),
                                    0,
                                ),
                                outcome::first_of(
                                    app_container_problem(template.workload.app_container, values),
                                    replicas_problem(template.workload),
                                ),
                            ),
                        ),
                    ),
                ),
            ),
        ),
    )
}

/// The metadata of an object of the request.
pub open spec fn object_meta(
    request: RenderManifestRequest<'_>,
    name: Seq<char>,
    namespaced: bool,
) -> ObjectMetaView {
    ObjectMetaView {
        name,
        namespace: if namespaced {
            Some(request.namespace@)
        } else {
            None
        },
        labels: metadata_label_map(*request.instance, workload_name(request)),
        annotations: annotation_map(request.template_generation),
    }
}

/// The name of the workload.
pub open spec fn workload_name(request: RenderManifestRequest<'_>) -> Seq<char> {
    template::parts_text(
        request.template.deep_view().workload.name,
        request.instance.values.deep_view(),
    )
}

/// The name of the service.
pub open spec fn service_name(request: RenderManifestRequest<'_>) -> Seq<char> {
    template::parts_text(
        request.template.deep_view().service->0.name,
        request.instance.values.deep_view(),
    )
}

/// The PersistentVolume of a volume.
pub open spec fn persistent_volume(
    request: RenderManifestRequest<'_>,
    volume: RenderedVolumeView,
) -> RenderedManifestObjectView {
    RenderedManifestObjectView {
        apply_order: ApplyOrder::PersistentVolume,
        object: KubernetesObjectView::PersistentVolume(
            PersistentVolumeView {
                metadata: object_meta(request, volume.pv_name, false),
                spec: PersistentVolumeSpecView {
                    capacity: volume.capacity,
                    access_modes: volume.access_modes,
                    persistent_volume_reclaim_policy: volume.reclaim_policy,
                    storage_class_name: volume.storage_class_name,
                    claim_ref: PersistentVolumeClaimRefView {
                        namespace: request.namespace@,
                        name: volume.pvc_name,
                    },
                    source: volume.source,
                },
            },
        ),
    }
}

/// The PersistentVolumeClaim of a volume.
pub open spec fn persistent_volume_claim(
    request: RenderManifestRequest<'_>,
    volume: RenderedVolumeView,
) -> RenderedManifestObjectView {
    RenderedManifestObjectView {
        apply_order: ApplyOrder::PersistentVolumeClaim,
        object: KubernetesObjectView::PersistentVolumeClaim(
            PersistentVolumeClaimView {
                metadata: object_meta(request, volume.pvc_name, true),
                spec: PersistentVolumeClaimSpecView {
                    access_modes: volume.access_modes,
                    resources: VolumeResourceRequirementsView { requests_storage: volume.capacity },
                    storage_class_name: volume.storage_class_name,
                    volume_name: volume.pv_name,
                },
            },
        ),
    }
}

/// The sidecar's ports for a request.
pub open spec fn sidecar_ports(template: ManifestTemplateView) -> SidecarRenderConfig {
    SidecarRenderConfig {
        listen_port: template.sidecar.listen_port,
        app_port: template.service->0.ports[0].target_port,
    }
}

/// The Service in front of the workload.
pub open spec fn rendered_service(
    request: RenderManifestRequest<'_>,
) -> RenderedManifestObjectView {
    let template = request.template.deep_view();
    RenderedManifestObjectView {
        apply_order: ApplyOrder::Service,
        object: KubernetesObjectView::Service(
            ServiceView {
                metadata: object_meta(request, service_name(request), true),
                spec: ServiceSpecView {
                    selector: selector_label_map(*request.instance, workload_name(request)),
                    ports: rendered_service_ports(
                        template.service->0.ports,
                        template.sidecar.listen_port,
                    ),
                },
            },
        ),
    }
}

/// The pods of the workload.
pub open spec fn rendered_pod_template(request: RenderManifestRequest<'_>) -> PodTemplateSpecView {
    let template = request.template.deep_view();
    let values = request.instance.values.deep_view();
    let volumes = rendered_volumes(request.template.volumes@, values);
    PodTemplateSpecView {
        metadata: PodTemplateMetadataView {
            labels: metadata_label_map(*request.instance, workload_name(request)),
            annotations: annotation_map(request.template_generation),
        },
        spec: PodSpecView {
            containers: seq![
                rendered_app_container(template.workload.app_container, values, volumes),
                rendered_sidecar(
                    template.sidecar,
                    *request.instance,
                    sidecar_ports(template),
                    request.sleep_policy,
                    request.namespace@,
                ),
            ],
            volumes: volumes.map_values(
                |volume: RenderedVolumeView|
                    PodVolumeView {
                        name: volume.volume_name,
                        persistent_volume_claim: PersistentVolumeClaimVolumeSourceView {
                            claim_name: volume.pvc_name,
                        },
                    },
            ),
        },
    }
}

/// How many replicas are asked for; one where none is given.
pub open spec fn replica_count(workload: WorkloadTemplateView) -> u32 {
    match workload.replicas {
        Some(replicas) => replicas,
        None => 1u32,
    }
}

/// The controller of the pods.
pub open spec fn rendered_workload(
    request: RenderManifestRequest<'_>,
) -> RenderedManifestObjectView {
    let template = request.template.deep_view();
    let metadata = object_meta(request, workload_name(request), true);
    let selector = LabelSelectorView {
        match_labels: selector_label_map(*request.instance, workload_name(request)),
    };
    RenderedManifestObjectView {
        apply_order: ApplyOrder::Workload,
        object: match template.workload.kind {
            WorkloadKind::Deployment => KubernetesObjectView::Deployment(
                DeploymentView {
                    metadata,
                    spec: DeploymentSpecView {
                        replicas: replica_count(template.workload),
                        selector,
                        template: rendered_pod_template(request),
                    },
                },
            ),
            WorkloadKind::StatefulSet => KubernetesObjectView::StatefulSet(
                StatefulSetView {
                    metadata,
                    spec: StatefulSetSpecView {
                        replicas: replica_count(template.workload),
                        service_name: service_name(request),
                        selector,
                        template: rendered_pod_template(request),
                    },
                },
            ),
        },
    }
}

/// The objects of a request: the volumes, their claims, the service and the
/// workload.
pub open spec fn rendered_objects(request: RenderManifestRequest<'_>) -> Seq<
    RenderedManifestObjectView,
> {
    let volumes = rendered_volumes(
        request.template.volumes@,
        request.instance.values.deep_view(),
    );
    volumes.map_values(|volume: RenderedVolumeView| persistent_volume(request, volume))
        + volumes.map_values(|volume: RenderedVolumeView| persistent_volume_claim(request, volume))
        + seq![rendered_service(request), rendered_workload(request)]
}

/// What a request renders to.
pub open spec fn rendered_manifest(request: RenderManifestRequest<'_>) -> Result<
    RenderedManifestView,
    ManifestRenderErrorView,
> {
    match manifest_problem(request) {
        Some(error) => Err(error),
        None => Ok(
            RenderedManifestView {
                instance_generation: request.instance.generation@,
                template_generation: request.template_generation.deep_view(),
                objects: rendered_objects(request),
            },
        ),
    }
}

fn field_error(field: &'static str, message: &str) -> (r: ManifestRenderError)
    ensures
        r.deep_view() == invalid_field(field@, message@),
{
    ManifestRenderError::InvalidField { field, message: message.to_owned() }
}

fn render_non_empty(field: &'static str, template: &TemplateText, values: &InstanceValues) -> (r:
    Result<String, ManifestRenderError>)
    ensures
        outcome::of(r) == non_empty_text(field@, template.deep_view(), values.deep_view()),
{
    match template.render(values) {
        Err(error) => Err(error),
        Ok(value) => {
            if text::blank(value.as_str()) {
                return Err(field_error(field, "rendered value must not be empty"));
            }
            Ok(value)
        },
    }
}

fn render_optional(
    field: &'static str,
    template: &Option<TemplateText>,
    values: &InstanceValues,
) -> (r: Result<Option<String>, ManifestRenderError>)
    ensures
        outcome::of(r) == match optional_text_problem(
            field@,
            template.deep_view(),
            values.deep_view(),
        ) {
            Some(error) => Err(error),
            None => Ok(optional_text(template.deep_view(), values.deep_view())),
        },
{
    match template {
        None => Ok(None),
        Some(template) => match render_non_empty(field, template, values) {
            Err(error) => Err(error),
            Ok(value) => Ok(Some(value)),
        },
    }
}

fn validate_dns_label(field: &'static str, value: &str) -> (r: Result<(), ManifestRenderError>)
    ensures
        outcome::problem(r) == name_problem(field@, value@),
{
    if kubernetes_name::is_dns_label(value) {
        Ok(())
    } else {
        Err(ManifestRenderError::InvalidName { field, value: value.to_owned() })
    }
}

fn validate_namespace(namespace: &str) -> (r: Result<(), ManifestRenderError>)
    ensures
        outcome::problem(r) == name_problem("namespace"@, namespace@),
{
    validate_dns_label("namespace", namespace)
}

fn render_object_name(field: &'static str, template: &TemplateText, values: &InstanceValues) -> (r:
    Result<String, ManifestRenderError>)
    ensures
        outcome::of(r) == object_name(field@, template.deep_view(), values.deep_view()),
{
    match render_non_empty(field, template, values) {
        Err(error) => Err(error),
        Ok(value) => match validate_dns_label(field, value.as_str()) {
            Err(error) => Err(error),
            Ok(()) => Ok(value),
        },
    }
}

fn validate_port(field: &'static str, value: u16) -> (r: Result<(), ManifestRenderError>)
    ensures
        outcome::problem(r) == port_problem(field@, value),
{
    if value == 0 {
        Err(field_error(field, "port must be between 1 and 65535"))
    } else {
        Ok(())
    }
}

fn validate_label_value(field: &'static str, value: &str) -> (r: Result<(), ManifestRenderError>)
    ensures
        outcome::problem(r) == label_problem(field@, value@),
{
    if kubernetes_name::is_label_value(value) {
        Ok(())
    } else {
        let shown = text::quoted(value);
        let message = text::join3(
            "label value ",
            shown.as_str(),
            " is not Kubernetes label-value-safe",
        );
        Err(ManifestRenderError::InvalidField { field, message })
    }
}

fn insert_label(
    labels: &mut StringMap<String>,
    field: &'static str,
    value: &str,
) -> (r: Result<(), ManifestRenderError>)
    ensures
        outcome::problem(r) == label_problem(field@, value@),
        r is Ok ==> final(labels).deep_view() == old(labels).deep_view().insert(field@, value@),
{
    match validate_label_value(field, value) {
        Err(error) => Err(error),
        Ok(()) => {
            labels.insert(field, value.to_owned());
            Ok(())
        },
    }
}

fn selector_labels(instance: &InstanceRecord, workload_name: &str) -> (r: Result<
    StringMap<String>,
    ManifestRenderError,
>)
    ensures
        outcome::of(r) == match outcome::first_of(
            label_problem(LABEL_INSTANCE_ID@, instance.id@),
            label_problem(LABEL_WORKLOAD_NAME@, workload_name@),
        ) {
            Some(error) => Err(error),
            None => Ok(selector_label_map(*instance, workload_name@)),
        },
{
    let mut labels: StringMap<String> = StringMap::new();
    if let Err(error) = insert_label(&mut labels, LABEL_INSTANCE_ID, instance.id.as_str()) {
        return Err(error);
    }
    if let Err(error) = insert_label(&mut labels, LABEL_WORKLOAD_NAME, workload_name) {
        return Err(error);
    }
    Ok(labels)
}

fn metadata_labels(instance: &InstanceRecord, workload_name: &str) -> (r: Result<
    StringMap<String>,
    ManifestRenderError,
>)
    ensures
        outcome::of(r) == match metadata_label_problem(*instance, workload_name@) {
            Some(error) => Err(error),
            None => Ok(metadata_label_map(*instance, workload_name@)),
        },
{
    let mut labels: StringMap<String> = StringMap::new();
    let generation = instance.generation.to_string();
    let class_version = instance.workload_class.version.to_string();
    if let Err(error) = insert_label(&mut labels, LABEL_INSTANCE_ID, instance.id.as_str()) {
        return Err(error);
    }
    if let Err(error) = insert_label(&mut labels, LABEL_INSTANCE_GENERATION, generation.as_str()) {
        return Err(error);
    }
    if let Err(error) = insert_label(
        &mut labels,
        LABEL_WORKLOAD_CLASS_ID,
        instance.workload_class.class_id.as_str(),
    ) {
        return Err(error);
    }
    if let Err(error) = insert_label(
        &mut labels,
        LABEL_WORKLOAD_CLASS_VERSION,
        class_version.as_str(),
    ) {
        return Err(error);
    }
    if let Err(error) = insert_label(&mut labels, LABEL_WORKLOAD_NAME, workload_name) {
        return Err(error);
    }
    Ok(labels)
}

fn metadata_annotations(template_generation: Option<Generation>) -> (r: StringMap<String>)
    ensures
        r.deep_view() == annotation_map(template_generation),
{
    let mut annotations: StringMap<String> = StringMap::new();
    if let Some(generation) = template_generation {
        annotations.insert(ANNOTATION_TEMPLATE_GENERATION, generation.to_string());
    }
    annotations
}

fn has_port(ports: &Vec<ContainerPortTemplate>, port: u16) -> (r: bool)
    ensures
        r == opens_port(ports.deep_view(), port),
{
    let mut i: usize = 0;
    while i < ports.len()
        invariant
            0 <= i <= ports.len(),
            forall|j: int| 0 <= j < i ==> (#[trigger] ports.deep_view()[j]).container_port != port,
        decreases ports.len() - i,
    {
        assert(ports.deep_view()[i as int].container_port == ports@[i as int].container_port);
        if ports[i].container_port == port {
            return true;
        }
        i = i + 1;
    }
    false
}

fn render_sidecar_config(template: &ManifestTemplate, values: &InstanceValues) -> (r: Result<
    SidecarRenderConfig,
    ManifestRenderError,
>)
    ensures
        outcome::of(r) == match sidecar_problem(template.deep_view(), values.deep_view()) {
            Some(error) => Err(error),
            None => Ok(sidecar_ports(template.deep_view())),
        },
{
    let listen_port: u16 = template.sidecar.listen_port;
    if let Err(error) = validate_port("sidecar.listen_port", listen_port) {
        return Err(error);
    }
    match &template.service {
        None => Err(field_error("service", "sidecar-routed workloads require a service template")),
        Some(service) => {
            if service.ports.len() != 1 {
                return Err(
                    field_error(
                        "service.ports",
                        "exactly one service port is supported for sidecar-routed workloads",
                    ),
                );
            }
            let app_port: u16 = service.ports[0].target_port;
            assert(template.deep_view().service->0.ports[0].target_port == app_port);
            if let Err(error) = validate_port("service.ports.target_port", app_port) {
                return Err(error);
            }
            if app_port == listen_port {
                return Err(
                    field_error(
                        "service.ports.target_port",
                        "original app target port must differ from the sidecar listen port",
                    ),
                );
            }
            let app_ports = &template.workload.app_container.ports;
            if !has_port(app_ports, 0) && !has_port(app_ports, app_port) {
                let shown = text::number(app_port as u64);
                let message = text::join3(
                    "target port ",
                    shown.as_str(),
                    " must match an app container port",
                );
                return Err(
                    ManifestRenderError::InvalidField {
                        field: "service.ports.target_port",
                        message,
                    },
                );
            }
            if let Err(error) = render_non_empty("sidecar.image", &template.sidecar.image, values) {
                return Err(error);
            }
            if let Err(error) = validate_dns_label("sidecar.name", template.sidecar.name.as_str()) {
                return Err(error);
            }
            Ok(SidecarRenderConfig { listen_port, app_port })
        },
    }
}

fn has_duplicate_mode(modes: &Vec<PersistentVolumeAccessMode>) -> (r: bool)
    ensures
        r == !distinct_modes(modes.deep_view()),
{
    assert(modes.deep_view() =~= modes@);
    let mut i: usize = 0;
    while i < modes.len()
        invariant
            0 <= i <= modes.len(),
            forall|a: int, b: int|
                0 <= a < b < modes.len() && a < i ==> #[trigger] modes@[a] != #[trigger] modes@[b],
            modes.deep_view() == modes@,
        decreases modes.len() - i,
    {
        let mut j: usize = i + 1;
        while j < modes.len()
            invariant
                i < j <= modes.len(),
                forall|b: int| i < b < j ==> modes@[i as int] != #[trigger] modes@[b],
                modes.deep_view() == modes@,
            decreases modes.len() - j,
        {
            if modes[i] == modes[j] {
                assert(modes.deep_view()[i as int] == modes.deep_view()[j as int]);
                return true;
            }
            j = j + 1;
        }
        i = i + 1;
    }
    false
}

fn validate_access_modes(modes: &Vec<PersistentVolumeAccessMode>) -> (r: Result<
    (),
    ManifestRenderError,
>)
    ensures
        outcome::problem(r) == modes_problem(modes.deep_view()),
{
    if modes.len() == 0 {
        return Err(field_error("volume.access_modes", "at least one access mode is required"));
    }
    if has_duplicate_mode(modes) {
        return Err(field_error("volume.access_modes", "access modes must not contain duplicates"));
    }
    Ok(())
}

fn validate_absolute(field: &'static str, what: &str, path: &str) -> (r: Result<
    (),
    ManifestRenderError,
>)
    ensures
        outcome::problem(r) == absolute_problem(field@, what@, path@),
{
    if text::starts_with(path, "/") {
        return Ok(());
    }
    let shown = text::quoted(path);
    let message = text::join3(what, shown.as_str(), " must be absolute");
    Err(ManifestRenderError::InvalidField { field, message })
}

fn render_attributes(attributes: &StringMap<TemplateText>, values: &InstanceValues) -> (r: Result<
    StringMap<String>,
    ManifestRenderError,
>)
    ensures
        outcome::of(r) == match outcome::first_problem(
            attribute_problems(attributes.pairs(), values.deep_view()),
            0,
        ) {
            Some(error) => Err(error),
            None => Ok(
                string_map::map_of_pairs(
                    rendered_attributes(attributes.pairs(), values.deep_view()),
                ),
            ),
        },
{
    let ghost pairs = attributes.pairs();
    let ghost known = values.deep_view();
    let ghost problems = attribute_problems(pairs, known);
    let ghost goal = rendered_attributes(pairs, known);
    let mut rendered: StringMap<String> = StringMap::new();
    let count: usize = attributes.len();
    let mut i: usize = 0;
    assert(goal.take(0) =~= Seq::empty());
    while i < count
        invariant
            0 <= i <= count,
            count == pairs.len(),
            pairs == attributes.pairs(),
            known == values.deep_view(),
            problems == attribute_problems(pairs, known),
            goal == rendered_attributes(pairs, known),
            outcome::first_problem(problems, 0) == outcome::first_problem(problems, i as int),
            rendered.deep_view() == string_map::map_of_pairs(goal.take(i as int)),
        decreases count - i,
    {
        let key = attributes.key_at(i);
        let value = attributes.value_at(i);
        match render_non_empty("volume.source.csi.volume_attributes", value, values) {
            Err(error) => {
                return Err(error);
            },
            Ok(value) => {
                rendered.insert(key, value);
            },
        }
        assert(goal.take(i + 1).drop_last() =~= goal.take(i as int));
        i = i + 1;
    }
    assert(goal.take(i as int) =~= goal);
    Ok(rendered)
}

fn render_source(source: &PersistentVolumeSourceTemplate, values: &InstanceValues) -> (r: Result<
    PersistentVolumeSource,
    ManifestRenderError,
>)
    ensures
        outcome::of(r) == match source_problem(*source, values.deep_view()) {
            Some(error) => Err(error),
            None => Ok(rendered_source(*source, values.deep_view())),
        },
{
    match source {
        PersistentVolumeSourceTemplate::Csi {
            driver,
            volume_handle,
            fs_type,
            read_only,
            volume_attributes,
            ..
        } => {
            let volume_attributes = match render_attributes(volume_attributes, values) {
                Err(error) => {
                    return Err(error);
                },
                Ok(attributes) => attributes,
            };
            let driver = match render_non_empty("volume.source.csi.driver", driver, values) {
                Err(error) => {
                    return Err(error);
                },
                Ok(driver) => driver,
            };
            let volume_handle = match render_non_empty(
                "volume.source.csi.volume_handle",
                volume_handle,
                values,
            ) {
                Err(error) => {
                    return Err(error);
                },
                Ok(handle) => handle,
            };
            let fs_type = match render_optional("volume.source.csi.fs_type", fs_type, values) {
                Err(error) => {
                    return Err(error);
                },
                Ok(fs_type) => fs_type,
            };
            Ok(
                PersistentVolumeSource::Csi(
                    CsiPersistentVolumeSource {
                        driver,
                        volume_handle,
                        fs_type,
                        read_only: *read_only,
                        volume_attributes,
                    },
                ),
            )
        },
        PersistentVolumeSourceTemplate::HostPath { path, type_ } => {
            let path = match render_non_empty("volume.source.host_path.path", path, values) {
                Err(error) => {
                    return Err(error);
                },
                Ok(path) => path,
            };
            if let Err(error) = validate_absolute(
                "volume.source.host_path.path",
                "hostPath path ",
                path.as_str(),
            ) {
                return Err(error);
            }
            let type_ = match render_optional("volume.source.host_path.type", type_, values) {
                Err(error) => {
                    return Err(error);
                },
                Ok(type_) => type_,
            };
            Ok(PersistentVolumeSource::HostPath(HostPathPersistentVolumeSource { path, type_ }))
        },
    }
}

fn render_volume(template: &VolumeTemplate, values: &InstanceValues) -> (r: Result<
    RenderedVolume,
    ManifestRenderError,
>)
    ensures
        outcome::of(r) == match volume_problem(*template, values.deep_view()) {
            Some(error) => Err(error),
            None => Ok(rendered_volume(*template, values.deep_view())),
        },
{
    if let Err(error) = validate_dns_label("volume.name", template.name.as_str()) {
        return Err(error);
    }
    if let Err(error) = validate_access_modes(&template.access_modes) {
        return Err(error);
    }
    let mount_path = match render_non_empty("volume.mount_path", &template.mount_path, values) {
        Err(error) => {
            return Err(error);
        },
        Ok(path) => path,
    };
    if let Err(error) = validate_absolute("volume.mount_path", "mount path ", mount_path.as_str()) {
        return Err(error);
    }
    let pv_name = match render_object_name("volume.pv_name", &template.pv_name, values) {
        Err(error) => {
            return Err(error);
        },
        Ok(name) => name,
    };
    let pvc_name = match render_object_name("volume.pvc_name", &template.pvc_name, values) {
        Err(error) => {
            return Err(error);
        },
        Ok(name) => name,
    };
    let capacity = match render_non_empty("volume.capacity", &template.capacity, values) {
        Err(error) => {
            return Err(error);
        },
        Ok(capacity) => capacity,
    };
    let storage_class_name = match render_optional(
        "volume.storage_class_name",
        &template.storage_class_name,
        values,
    ) {
        Err(error) => {
            return Err(error);
        },
        Ok(name) => name,
    };
    let source = match render_source(&template.source, values) {
        Err(error) => {
            return Err(error);
        },
        Ok(source) => source,
    };
    let access_modes = template.access_modes.clone();
    assert(access_modes.deep_view() =~= template.access_modes.deep_view());
    Ok(
        RenderedVolume {
            volume_name: template.name.clone(),
            mount_path,
            pv_name,
            pvc_name,
            access_modes,
            capacity,
            reclaim_policy: template.reclaim_policy,
            storage_class_name,
            source,
        },
    )
}

fn render_volumes(volumes: &Vec<VolumeTemplate>, values: &InstanceValues) -> (r: Result<
    Vec<RenderedVolume>,
    ManifestRenderError,
>)
    ensures
        outcome::of(r) == match outcome::first_problem(
            volume_problems(volumes@, values.deep_view()),
            0,
        ) {
            Some(error) => Err(error),
            None => Ok(rendered_volumes(volumes@, values.deep_view())),
        },
{
    let ghost known = values.deep_view();
    let ghost problems = volume_problems(volumes@, known);
    let mut rendered: Vec<RenderedVolume> = Vec::new();
    let mut i: usize = 0;
    while i < volumes.len()
        invariant
            0 <= i <= volumes.len(),
            known == values.deep_view(),
            problems == volume_problems(volumes@, known),
            outcome::first_problem(problems, 0) == outcome::first_problem(problems, i as int),
            rendered.len() == i,
            forall|j: int|
                0 <= j < i ==> (#[trigger] rendered@[j]).deep_view() == rendered_volume(
                    volumes@[j],
                    known,
                ),
        decreases volumes.len() - i,
    {
        match render_volume(&volumes[i], values) {
            Err(error) => {
                return Err(error);
            },
            Ok(volume) => {
                rendered.push(volume);
            },
        }
        i = i + 1;
    }
    assert(rendered.deep_view() =~= rendered_volumes(volumes@, known));
    Ok(rendered)
}

fn render_container_ports(ports: &Vec<ContainerPortTemplate>) -> (r: Result<
    Vec<ContainerPort>,
    ManifestRenderError,
>)
    ensures
        outcome::of(r) == match outcome::first_problem(
            container_port_problems(ports.deep_view()),
            0,
        ) {
            Some(error) => Err(error),
            None => Ok(
                ports.deep_view().map_values(
                    |port: ContainerPortTemplateView|
                        ContainerPortView { name: port.name, container_port: port.container_port },
                ),
            ),
        },
{
    let ghost problems = container_port_problems(ports.deep_view());
    let mut rendered: Vec<ContainerPort> = Vec::new();
    let mut i: usize = 0;
    while i < ports.len()
        invariant
            0 <= i <= ports.len(),
            problems == container_port_problems(ports.deep_view()),
            outcome::first_problem(problems, 0) == outcome::first_problem(problems, i as int),
            rendered.len() == i,
            forall|j: int|
                0 <= j < i ==> (#[trigger] rendered@[j]).deep_view() == (ContainerPortView {
                    name: ports@[j].deep_view().name,
                    container_port: ports@[j].container_port,
                }),
        decreases ports.len() - i,
    {
        assert(problems[i as int] == port_problem(
            "container.ports.container_port"@,
            ports@[i as int].container_port,
        ));
        let port = &ports[i];
        if let Err(error) = validate_port("container.ports.container_port", port.container_port) {
            return Err(error);
        }
        let name = port.name.clone();
        assert(name.deep_view() == port.name.deep_view());
        rendered.push(ContainerPort { name, container_port: port.container_port });
        i = i + 1;
    }
    assert(rendered.deep_view() =~= ports.deep_view().map_values(
        |port: ContainerPortTemplateView|
            ContainerPortView { name: port.name, container_port: port.container_port },
    ));
    Ok(rendered)
}

fn render_env(env: &Vec<EnvVarTemplate>, values: &InstanceValues) -> (r: Result<
    Vec<EnvVar>,
    ManifestRenderError,
>)
    ensures
        outcome::of(r) == match outcome::first_problem(
            env_problems(env.deep_view(), values.deep_view()),
            0,
        ) {
            Some(error) => Err(error),
            None => Ok(
                env.deep_view().map_values(
                    |var: EnvVarTemplateView|
                        EnvVarView {
                            name: var.name,
                            value: template::parts_text(var.value, values.deep_view()),
                        },
                ),
            ),
        },
{
    let ghost known = values.deep_view();
    let ghost problems = env_problems(env.deep_view(), known);
    let mut rendered: Vec<EnvVar> = Vec::new();
    let mut i: usize = 0;
    while i < env.len()
        invariant
            0 <= i <= env.len(),
            known == values.deep_view(),
            problems == env_problems(env.deep_view(), known),
            outcome::first_problem(problems, 0) == outcome::first_problem(problems, i as int),
            rendered.len() == i,
            forall|j: int|
                0 <= j < i ==> (#[trigger] rendered@[j]).deep_view() == (EnvVarView {
                    name: env@[j].name@,
                    value: template::parts_text(env@[j].value.deep_view(), known),
                }),
        decreases env.len() - i,
    {
        let var = &env[i];
        assert(problems[i as int] == outcome::err_of(
            template::rendered_text(var.value.deep_view(), known),
        ));
        match var.value.render(values) {
            Err(error) => {
                return Err(error);
            },
            Ok(value) => {
                rendered.push(EnvVar { name: var.name.clone(), value });
            },
        }
        i = i + 1;
    }
    assert(rendered.deep_view() =~= env.deep_view().map_values(
        |var: EnvVarTemplateView|
            EnvVarView { name: var.name, value: template::parts_text(var.value, known) },
    ));
    Ok(rendered)
}

fn volume_mounts(volumes: &Vec<RenderedVolume>) -> (r: Vec<VolumeMount>)
    ensures
        r.deep_view() == volumes.deep_view().map_values(
            |volume: RenderedVolumeView|
                VolumeMountView { name: volume.volume_name, mount_path: volume.mount_path },
        ),
{
    let mut mounts: Vec<VolumeMount> = Vec::new();
    let mut i: usize = 0;
    while i < volumes.len()
        invariant
            0 <= i <= volumes.len(),
            mounts.len() == i,
            forall|j: int|
                0 <= j < i ==> (#[trigger] mounts@[j]).deep_view() == (VolumeMountView {
                    name: volumes@[j].volume_name@,
                    mount_path: volumes@[j].mount_path@,
                }),
        decreases volumes.len() - i,
    {
        mounts.push(
            VolumeMount {
                name: volumes[i].volume_name.clone(),
                mount_path: volumes[i].mount_path.clone(),
            },
        );
        i = i + 1;
    }
    assert(mounts.deep_view() =~= volumes.deep_view().map_values(
        |volume: RenderedVolumeView|
            VolumeMountView { name: volume.volume_name, mount_path: volume.mount_path },
    ));
    mounts
}

fn render_app_container(
    template: &ContainerTemplate,
    values: &InstanceValues,
    volumes: &Vec<RenderedVolume>,
) -> (r: Result<Container, ManifestRenderError>)
    ensures
        outcome::of(r) == match app_container_problem(template.deep_view(), values.deep_view()) {
            Some(error) => Err(error),
            None => Ok(
                rendered_app_container(
                    template.deep_view(),
                    values.deep_view(),
                    volumes.deep_view(),
                ),
            ),
        },
{
    if let Err(error) = validate_dns_label("container.name", template.name.as_str()) {
        return Err(error);
    }
    let image = match render_non_empty("container.image", &template.image, values) {
        Err(error) => {
            return Err(error);
        },
        Ok(image) => image,
    };
    let ports = match render_container_ports(&template.ports) {
        Err(error) => {
            return Err(error);
        },
        Ok(ports) => ports,
    };
    let env = match render_env(&template.env, values) {
        Err(error) => {
            return Err(error);
        },
        Ok(env) => env,
    };
    Ok(
        Container {
            name: template.name.clone(),
            image,
            ports,
            env,
            volume_mounts: volume_mounts(volumes),
        },
    )
}

fn env_var(name: &str, value: String) -> (r: EnvVar)
    ensures
        r.deep_view() == (EnvVarView { name: name@, value: value@ }),
{
    EnvVar { name: name.to_owned(), value }
}

fn render_sidecar_container(
    template: &SidecarTemplate,
    instance: &InstanceRecord,
    config: SidecarRenderConfig,
    sleep_policy: ResolvedSleepPolicy,
    namespace: &str,
) -> (r: Result<Container, ManifestRenderError>)
    ensures
        outcome::of(r) == match non_empty_text(
            "sidecar.image"@,
            template.image.deep_view(),
            instance.values.deep_view(),
        ) {
            Err(error) => Err(error),
            Ok(_) => Ok(
                rendered_sidecar(
                    template.deep_view(),
                    *instance,
                    config,
                    sleep_policy,
                    namespace@,
                ),
            ),
        },
{
    let image = match render_non_empty("sidecar.image", &template.image, &instance.values) {
        Err(error) => {
            return Err(error);
        },
        Ok(image) => image,
    };
    let listen_port = text::number(config.listen_port as u64);
    let listen_addr = text::join2("0.0.0.0:", listen_port.as_str());
    let endpoint = text::join3(
        "http://sleepypods-control-plane.",
        namespace,
        ".svc.cluster.local:50051",
    );
    let ports = vec![
        ContainerPort { name: Some("sleepypods".to_owned()), container_port: config.listen_port },
    ];
    let env = vec![
        env_var("SLEEPYPODS_LISTEN_PORT", listen_port),
        env_var("SLEEPYPODS_SIDECAR_LISTEN_ADDR", listen_addr),
        env_var("SLEEPYPODS_APP_PORT", text::number(config.app_port as u64)),
        env_var("SLEEPYPODS_INSTANCE_ID", instance.id.to_string()),
        env_var("SLEEPYPODS_INSTANCE_GENERATION", instance.generation.to_string()),
        env_var("SLEEPYPODS_CONTROL_PLANE_ENDPOINT", endpoint),
        env_var("SLEEPYPODS_IDLE_TIMEOUT_MS", text::number(sleep_policy.idle_timeout_ms)),
        env_var(
            "SLEEPYPODS_IDLE_RETRY_BACKOFF_MS",
            text::number(sleep_policy.idle_retry_backoff_ms),
        ),
        env_var(
            "SLEEPYPODS_DRAIN_GRACE_TIMEOUT_MS",
            text::number(sleep_policy.drain_grace_timeout_ms),
        ),
    ];
    let container = Container {
        name: template.name.clone(),
        image,
        ports,
        env,
        volume_mounts: Vec::new(),
    };
    proof {
        let goal = rendered_sidecar(
            template.deep_view(),
            *instance,
            config,
            sleep_policy,
            namespace@,
        );
        assert(container.ports.deep_view() =~= goal.ports);
        assert(container.env.deep_view() =~= goal.env);
        assert(container.volume_mounts.deep_view() =~= goal.volume_mounts);
    }
    Ok(container)
}

fn render_service_ports(template: &ServiceTemplate, sidecar_listen_port: u16) -> (r: Result<
    Vec<ServicePort>,
    ManifestRenderError,
>)
    ensures
        outcome::of(r) == match outcome::first_problem(
            service_port_problems(template.ports.deep_view()),
            0,
        ) {
            Some(error) => Err(error),
            None => Ok(rendered_service_ports(template.ports.deep_view(), sidecar_listen_port)),
        },
{
    let ports = &template.ports;
    let ghost problems = service_port_problems(ports.deep_view());
    let mut rendered: Vec<ServicePort> = Vec::new();
    let mut i: usize = 0;
    while i < ports.len()
        invariant
            0 <= i <= ports.len(),
            *ports == template.ports,
            problems == service_port_problems(ports.deep_view()),
            outcome::first_problem(problems, 0) == outcome::first_problem(problems, i as int),
            rendered.len() == i,
            forall|j: int|
                0 <= j < i ==> (#[trigger] rendered@[j]).deep_view() == (ServicePortView {
                    name: ports@[j].deep_view().name,
                    port: ports@[j].port,
                    target_port: sidecar_listen_port,
                }),
        decreases ports.len() - i,
    {
        let port = &ports[i];
        assert(problems[i as int] == outcome::first_of(
            port_problem("service.ports.port"@, port.port),
            port_problem("service.ports.target_port"@, port.target_port),
        ));
        if let Err(error) = validate_port("service.ports.port", port.port) {
            return Err(error);
        }
        if let Err(error) = validate_port("service.ports.target_port", port.target_port) {
            return Err(error);
        }
        let name = port.name.clone();
        assert(name.deep_view() == port.name.deep_view());
        rendered.push(ServicePort { name, port: port.port, target_port: sidecar_listen_port });
        i = i + 1;
    }
    assert(rendered.deep_view() =~= rendered_service_ports(ports.deep_view(), sidecar_listen_port));
    Ok(rendered)
}

fn pod_volumes(volumes: &Vec<RenderedVolume>) -> (r: Vec<PodVolume>)
    ensures
        r.deep_view() == volumes.deep_view().map_values(
            |volume: RenderedVolumeView|
                PodVolumeView {
                    name: volume.volume_name,
                    persistent_volume_claim: PersistentVolumeClaimVolumeSourceView {
                        claim_name: volume.pvc_name,
                    },
                },
        ),
{
    let mut rendered: Vec<PodVolume> = Vec::new();
    let mut i: usize = 0;
    while i < volumes.len()
        invariant
            0 <= i <= volumes.len(),
            rendered.len() == i,
            forall|j: int|
                0 <= j < i ==> (#[trigger] rendered@[j]).deep_view() == (PodVolumeView {
                    name: volumes@[j].volume_name@,
                    persistent_volume_claim: PersistentVolumeClaimVolumeSourceView {
                        claim_name: volumes@[j].pvc_name@,
                    },
                }),
        decreases volumes.len() - i,
    {
        rendered.push(
            PodVolume {
                name: volumes[i].volume_name.clone(),
                persistent_volume_claim: PersistentVolumeClaimVolumeSource {
                    claim_name: volumes[i].pvc_name.clone(),
                },
            },
        );
        i = i + 1;
    }
    assert(rendered.deep_view() =~= volumes.deep_view().map_values(
        |volume: RenderedVolumeView|
            PodVolumeView {
                name: volume.volume_name,
                persistent_volume_claim: PersistentVolumeClaimVolumeSourceView {
                    claim_name: volume.pvc_name,
                },
            },
    ));
    rendered
}

fn optional_copy(value: &Option<String>) -> (r: Option<String>)
    ensures
        r.deep_view() == value.deep_view(),
{
    match value {
        Some(value) => Some(value.clone()),
        None => None,
    }
}

fn modes_copy(modes: &Vec<PersistentVolumeAccessMode>) -> (r: Vec<PersistentVolumeAccessMode>)
    ensures
        r.deep_view() == modes.deep_view(),
{
    let r = modes.clone();
    assert(r.deep_view() =~= modes.deep_view());
    r
}

fn meta(
    name: &str,
    namespace: Option<&str>,
    labels: &StringMap<String>,
    annotations: &StringMap<String>,
) -> (r: ObjectMeta)
    ensures
        r.deep_view() == (ObjectMetaView {
            name: name@,
            namespace: match namespace {
                Some(namespace) => Some(namespace@),
                None => None,
            },
            labels: labels.deep_view(),
            annotations: annotations.deep_view(),
        }),
{
    ObjectMeta {
        name: name.to_owned(),
        namespace: match namespace {
            Some(namespace) => Some(namespace.to_owned()),
            None => None,
        },
        labels: string_map::copy_of(labels),
        annotations: string_map::copy_of(annotations),
    }
}

fn push_volume_objects(
    request: &RenderManifestRequest<'_>,
    volumes: &Vec<RenderedVolume>,
    labels: &StringMap<String>,
    annotations: &StringMap<String>,
) -> (objects: Vec<RenderedManifestObject>)
    requires
        labels.deep_view() == metadata_label_map(*request.instance, workload_name(*request)),
        annotations.deep_view() == annotation_map(request.template_generation),
    ensures
        objects.deep_view() == volumes.deep_view().map_values(
            |volume: RenderedVolumeView| persistent_volume(*request, volume),
        ) + volumes.deep_view().map_values(
            |volume: RenderedVolumeView| persistent_volume_claim(*request, volume),
        ),
{
    let mut objects: Vec<RenderedManifestObject> = Vec::new();
    let count: usize = volumes.len();
    let mut i: usize = 0;
    while i < count
        invariant
            0 <= i <= count,
            count == volumes.len(),
            objects.len() == i,
            labels.deep_view() == metadata_label_map(*request.instance, workload_name(*request)),
            annotations.deep_view() == annotation_map(request.template_generation),
            forall|j: int|
                0 <= j < i ==> (#[trigger] objects@[j]).deep_view() == persistent_volume(
                    *request,
                    volumes@[j].deep_view(),
                ),
        decreases count - i,
    {
        let rendered = &volumes[i];
        let object = RenderedManifestObject {
            apply_order: ApplyOrder::PersistentVolume,
            object: KubernetesObject::PersistentVolume(
                PersistentVolume {
                    metadata: meta(rendered.pv_name.as_str(), None, labels, annotations),
                    spec: PersistentVolumeSpec {
                        capacity: rendered.capacity.clone(),
                        access_modes: modes_copy(&rendered.access_modes),
                        persistent_volume_reclaim_policy: rendered.reclaim_policy,
                        storage_class_name: optional_copy(&rendered.storage_class_name),
                        claim_ref: PersistentVolumeClaimRef {
                            namespace: request.namespace.to_owned(),
                            name: rendered.pvc_name.clone(),
                        },
                        source: rendered.source.clone(),
                    },
                },
            ),
        };
        assert(object.deep_view() == persistent_volume(*request, rendered.deep_view()));
        objects.push(object);
        i = i + 1;
    }
    let mut i: usize = 0;
    while i < count
        invariant
            0 <= i <= count,
            count == volumes.len(),
            objects.len() == count + i,
            labels.deep_view() == metadata_label_map(*request.instance, workload_name(*request)),
            annotations.deep_view() == annotation_map(request.template_generation),
            forall|j: int|
                0 <= j < count ==> (#[trigger] objects@[j]).deep_view() == persistent_volume(
                    *request,
                    volumes@[j].deep_view(),
                ),
            forall|j: int|
                count <= j < count + i ==> (#[trigger] objects@[j]).deep_view()
                    == persistent_volume_claim(*request, volumes@[j - count].deep_view()),
        decreases count - i,
    {
        let rendered = &volumes[i];
        let object = RenderedManifestObject {
            apply_order: ApplyOrder::PersistentVolumeClaim,
            object: KubernetesObject::PersistentVolumeClaim(
                PersistentVolumeClaim {
                    metadata: meta(
                        rendered.pvc_name.as_str(),
                        Some(request.namespace),
                        labels,
                        annotations,
                    ),
                    spec: PersistentVolumeClaimSpec {
                        access_modes: modes_copy(&rendered.access_modes),
                        resources: VolumeResourceRequirements {
                            requests_storage: rendered.capacity.clone(),
                        },
                        storage_class_name: optional_copy(&rendered.storage_class_name),
                        volume_name: rendered.pv_name.clone(),
                    },
                },
            ),
        };
        assert(object.deep_view() == persistent_volume_claim(*request, rendered.deep_view()));
        objects.push(object);
        i = i + 1;
    }
    assert(objects.deep_view() =~= volumes.deep_view().map_values(
        |volume: RenderedVolumeView| persistent_volume(*request, volume),
    ) + volumes.deep_view().map_values(
        |volume: RenderedVolumeView| persistent_volume_claim(*request, volume),
    ));
    objects
}

/// The Kubernetes objects of an instance: first the volumes, then their claims,
/// then the service and last the workload, each with the labels of the
/// instance. The service leads to the sidecar, and the sidecar to the port of
/// the application.
#[verifier::rlimit(50)]
pub fn render_manifests(request: RenderManifestRequest<'_>) -> (r: Result<
    RenderedManifest,
    ManifestRenderError,
>)
    ensures
        outcome::of(r) == rendered_manifest(request),
{
    let template = request.template;
    let instance = request.instance;
    let values = &instance.values;
    if let Err(error) = validate_namespace(request.namespace) {
        return Err(error);
    }
    let name = match render_object_name("workload.name", &template.workload.name, values) {
        Err(error) => {
            return Err(error);
        },
        Ok(name) => name,
    };
    let service_name = match &template.service {
        None => None,
        Some(service) => match render_object_name("service.name", &service.name, values) {
            Err(error) => {
                return Err(error);
            },
            Ok(name) => Some(name),
        },
    };
    let selector = match selector_labels(instance, name.as_str()) {
        Err(error) => {
            proof {
                kubernetes_name::lemma_dns_label_is_label_value(name@);
            }
            return Err(error);
        },
        Ok(labels) => labels,
    };
    let labels = match metadata_labels(instance, name.as_str()) {
        Err(error) => {
            return Err(error);
        },
        Ok(labels) => labels,
    };
    let annotations = metadata_annotations(request.template_generation);
    let sidecar = match render_sidecar_config(template, values) {
        Err(error) => {
            return Err(error);
        },
        Ok(config) => config,
    };
    let volumes = match render_volumes(&template.volumes, values) {
        Err(error) => {
            return Err(error);
        },
        Ok(volumes) => volumes,
    };
    let mut objects = push_volume_objects(&request, &volumes, &labels, &annotations);
    let ghost volume_objects = objects.deep_view();
    let (service, service_name) = match (&template.service, service_name) {
        (Some(service), Some(name)) => (service, name),
        _ => {
            return Err(
                field_error("service", "sidecar-routed workloads require a service template"),
            );
        },
    };
    let service_ports = match render_service_ports(service, sidecar.listen_port) {
        Err(error) => {
            return Err(error);
        },
        Ok(ports) => ports,
    };
    let service_object = RenderedManifestObject {
        apply_order: ApplyOrder::Service,
        object: KubernetesObject::Service(
            Service {
                metadata: meta(
                    service_name.as_str(),
                    Some(request.namespace),
                    &labels,
                    &annotations,
                ),
                spec: ServiceSpec {
                    selector: string_map::copy_of(&selector),
                    ports: service_ports,
                },
            },
        ),
    };
    assert(service_object.deep_view() == rendered_service(request));
    objects.push(service_object);
    let app = match render_app_container(&template.workload.app_container, values, &volumes) {
        Err(error) => {
            return Err(error);
        },
        Ok(container) => container,
    };
    let proxy = match render_sidecar_container(
        &template.sidecar,
        instance,
        sidecar,
        request.sleep_policy,
        request.namespace,
    ) {
        Err(error) => {
            return Err(error);
        },
        Ok(container) => container,
    };
    let metadata = meta(name.as_str(), Some(request.namespace), &labels, &annotations);
    let pod_template = PodTemplateSpec {
        metadata: PodTemplateMetadata { labels, annotations },
        spec: PodSpec { containers: vec![app, proxy], volumes: pod_volumes(&volumes) },
    };
    assert(pod_template.spec.containers.deep_view() =~= rendered_pod_template(
        request,
    ).spec.containers);
    assert(pod_template.deep_view() == rendered_pod_template(request));
    let replicas: u32 = match template.workload.replicas {
        Some(replicas) => replicas,
        None => 1,
    };
    let workload = match template.workload.kind {
        WorkloadKind::Deployment => KubernetesObject::Deployment(
            Deployment {
                metadata,
                spec: DeploymentSpec {
                    replicas,
                    selector: LabelSelector { match_labels: selector },
                    template: pod_template,
                },
            },
        ),
        WorkloadKind::StatefulSet => {
            if replicas > 1 {
                return Err(
                    ManifestRenderError::InvalidReplicas {
                        kind: WorkloadKind::StatefulSet,
                        replicas,
                        message: "StatefulSet replicas above one are not supported in V1".to_owned(),
                    },
                );
            }
            KubernetesObject::StatefulSet(
                StatefulSet {
                    metadata,
                    spec: StatefulSetSpec {
                        replicas,
                        service_name,
                        selector: LabelSelector { match_labels: selector },
                        template: pod_template,
                    },
                },
            )
        },
    };
    let workload_object = RenderedManifestObject {
        apply_order: ApplyOrder::Workload,
        object: workload,
    };
    assert(workload_object.deep_view() == rendered_workload(request));
    objects.push(workload_object);
    assert(objects.deep_view() =~= rendered_objects(request));
    Ok(
        RenderedManifest {
            instance_generation: instance.generation,
            template_generation: request.template_generation,
            objects,
        },
    )
}

} // verus!

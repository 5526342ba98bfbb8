//! Kubernetes objects as JSON.
use serde_json::Value;
use vstd::prelude::*;

use super::objects::Container;
use super::objects::ContainerPort;
use super::objects::ContainerPortView;
use super::objects::ContainerView;
use super::objects::CsiPersistentVolumeSource;
use super::objects::CsiPersistentVolumeSourceView;
use super::objects::DeploymentSpec;
use super::objects::DeploymentSpecView;
use super::objects::EnvVar;
use super::objects::EnvVarView;
use super::objects::HostPathPersistentVolumeSource;
use super::objects::HostPathPersistentVolumeSourceView;
use super::objects::KubernetesObject;
use super::objects::KubernetesObjectView;
use super::objects::LabelSelector;
use super::objects::LabelSelectorView;
use super::objects::ObjectMeta;
use super::objects::ObjectMetaView;
use super::objects::PersistentVolumeClaimRef;
use super::objects::PersistentVolumeClaimRefView;
use super::objects::PersistentVolumeClaimSpec;
use super::objects::PersistentVolumeClaimSpecView;
use super::objects::PersistentVolumeClaimVolumeSource;
use super::objects::PersistentVolumeClaimVolumeSourceView;
use super::objects::PersistentVolumeSource;
use super::objects::PersistentVolumeSourceView;
use super::objects::PersistentVolumeSpec;
use super::objects::PersistentVolumeSpecView;
use super::objects::PodSpec;
use super::objects::PodSpecView;
use super::objects::PodTemplateMetadata;
use super::objects::PodTemplateMetadataView;
use super::objects::PodTemplateSpec;
use super::objects::PodTemplateSpecView;
use super::objects::PodVolume;
use super::objects::PodVolumeView;
use super::objects::RenderedManifest;
use super::objects::RenderedManifestObject;
use super::objects::ServicePort;
use super::objects::ServicePortView;
use super::objects::ServiceSpec;
use super::objects::ServiceSpecView;
use super::objects::StatefulSetSpec;
use super::objects::StatefulSetSpecView;
use super::objects::VolumeMount;
use super::objects::VolumeMountView;
use super::template::PersistentVolumeAccessMode;
use super::template::PersistentVolumeReclaimPolicy;
use crate::json;
use crate::json::Json;

verus! {

/// An environment variable.
pub open spec fn env_json(env: EnvVarView) -> Json {
    let object = Map::empty()
        .insert("name"@, Json::Text(env.name))
        .insert("value"@, Json::Text(env.value));
    Json::Object(object)
}

fn env_var_to_value(env: &EnvVar) -> (r: Value)
    ensures
        json::json_of(r) == env_json(env.deep_view()),
{
    let mut object = json::no_members();
    json::put_text(&mut object, "name", env.name.as_str());
    json::put_text(&mut object, "value", env.value.as_str());
    json::object_value(object)
}

/// A port of a container.
pub open spec fn container_port_json(container_port: ContainerPortView) -> Json {
    let object = json::with_optional_text(Map::empty(), "name"@, container_port.name);
    let object = object
        .insert("containerPort"@, Json::Number(container_port.container_port as u64));
    Json::Object(object)
}

fn container_port_to_value(container_port: &ContainerPort) -> (r: Value)
    ensures
        json::json_of(r) == container_port_json(container_port.deep_view()),
{
    let mut object = json::no_members();
    json::put_optional_text(&mut object, "name", &container_port.name);
    json::put_number(&mut object, "containerPort", container_port.container_port as u64);
    json::object_value(object)
}

/// Where a volume is mounted.
pub open spec fn mount_json(mount: VolumeMountView) -> Json {
    let object = Map::empty()
        .insert("name"@, Json::Text(mount.name))
        .insert("mountPath"@, Json::Text(mount.mount_path));
    Json::Object(object)
}

fn volume_mount_to_value(mount: &VolumeMount) -> (r: Value)
    ensures
        json::json_of(r) == mount_json(mount.deep_view()),
{
    let mut object = json::no_members();
    json::put_text(&mut object, "name", mount.name.as_str());
    json::put_text(&mut object, "mountPath", mount.mount_path.as_str());
    json::object_value(object)
}

/// Ports of a container, in their order.
pub open spec fn container_ports_json(container_ports: Seq<ContainerPortView>) -> Json {
    Json::Array(container_ports.map_values(|item: ContainerPortView| container_port_json(item)))
}

fn container_ports_to_value(container_ports: &Vec<ContainerPort>) -> (r: Value)
    ensures
        json::json_of(r) == container_ports_json(container_ports.deep_view()),
{
    let mut values: Vec<Value> = Vec::new();
    let mut i: usize = 0;
    while i < container_ports.len()
        invariant
            0 <= i <= container_ports.len(),
            values.len() == i,
            forall|j: int|
                0 <= j < i ==> json::json_of(#[trigger] values@[j]) == container_port_json(
                    container_ports@[j].deep_view(),
                ),
        decreases container_ports.len() - i,
    {
        values.push(container_port_to_value(&container_ports[i]));
        i = i + 1;
    }
    assert(Seq::new(values@.len(), |j: int| json::json_of(values@[j])) =~= container_ports.deep_view().map_values(
        |item: ContainerPortView| container_port_json(item),
    ));
    json::array_value(values)
}

/// Environment variables, in their order.
pub open spec fn env_vars_json(env_vars: Seq<EnvVarView>) -> Json {
    Json::Array(env_vars.map_values(|item: EnvVarView| env_json(item)))
}

fn env_vars_to_value(env_vars: &Vec<EnvVar>) -> (r: Value)
    ensures
        json::json_of(r) == env_vars_json(env_vars.deep_view()),
{
    let mut values: Vec<Value> = Vec::new();
    let mut i: usize = 0;
    while i < env_vars.len()
        invariant
            0 <= i <= env_vars.len(),
            values.len() == i,
            forall|j: int|
                0 <= j < i ==> json::json_of(#[trigger] values@[j]) == env_json(
                    env_vars@[j].deep_view(),
                ),
        decreases env_vars.len() - i,
    {
        values.push(env_var_to_value(&env_vars[i]));
        i = i + 1;
    }
    assert(Seq::new(values@.len(), |j: int| json::json_of(values@[j])) =~= env_vars.deep_view().map_values(
        |item: EnvVarView| env_json(item),
    ));
    json::array_value(values)
}

/// Volume mounts, in their order.
pub open spec fn mounts_json(mounts: Seq<VolumeMountView>) -> Json {
    Json::Array(mounts.map_values(|item: VolumeMountView| mount_json(item)))
}

fn mounts_to_value(mounts: &Vec<VolumeMount>) -> (r: Value)
    ensures
        json::json_of(r) == mounts_json(mounts.deep_view()),
{
    let mut values: Vec<Value> = Vec::new();
    let mut i: usize = 0;
    while i < mounts.len()
        invariant
            0 <= i <= mounts.len(),
            values.len() == i,
            forall|j: int|
                0 <= j < i ==> json::json_of(#[trigger] values@[j]) == mount_json(
                    mounts@[j].deep_view(),
                ),
        decreases mounts.len() - i,
    {
        values.push(volume_mount_to_value(&mounts[i]));
        i = i + 1;
    }
    assert(Seq::new(values@.len(), |j: int| json::json_of(values@[j])) =~= mounts.deep_view().map_values(
        |item: VolumeMountView| mount_json(item),
    ));
    json::array_value(values)
}

/// A container.
pub open spec fn container_json(container: ContainerView) -> Json {
    let object = Map::empty()
        .insert("name"@, Json::Text(container.name))
        .insert("image"@, Json::Text(container.image))
        .insert("ports"@, container_ports_json(container.ports))
        .insert("env"@, env_vars_json(container.env))
        .insert("volumeMounts"@, mounts_json(container.volume_mounts));
    Json::Object(object)
}

fn container_to_value(container: &Container) -> (r: Value)
    ensures
        json::json_of(r) == container_json(container.deep_view()),
{
    let mut object = json::no_members();
    json::put_text(&mut object, "name", container.name.as_str());
    json::put_text(&mut object, "image", container.image.as_str());
    json::put(&mut object, "ports", container_ports_to_value(&container.ports));
    json::put(&mut object, "env", env_vars_to_value(&container.env));
    json::put(&mut object, "volumeMounts", mounts_to_value(&container.volume_mounts));
    json::object_value(object)
}

/// The claim behind a volume of a pod.
pub open spec fn claim_source_json(claim_source: PersistentVolumeClaimVolumeSourceView) -> Json {
    let object = Map::empty()
        .insert("claimName"@, Json::Text(claim_source.claim_name));
    Json::Object(object)
}

fn claim_source_to_value(claim_source: &PersistentVolumeClaimVolumeSource) -> (r: Value)
    ensures
        json::json_of(r) == claim_source_json(claim_source.deep_view()),
{
    let mut object = json::no_members();
    json::put_text(&mut object, "claimName", claim_source.claim_name.as_str());
    json::object_value(object)
}

/// A volume of a pod.
pub open spec fn volume_json(volume: PodVolumeView) -> Json {
    let object = Map::empty()
        .insert("name"@, Json::Text(volume.name))
        .insert("persistentVolumeClaim"@, claim_source_json(volume.persistent_volume_claim));
    Json::Object(object)
}

fn pod_volume_to_value(volume: &PodVolume) -> (r: Value)
    ensures
        json::json_of(r) == volume_json(volume.deep_view()),
{
    let mut object = json::no_members();
    json::put_text(&mut object, "name", volume.name.as_str());
    json::put(&mut object, "persistentVolumeClaim", claim_source_to_value(&volume.persistent_volume_claim));
    json::object_value(object)
}

/// Containers, in their order.
pub open spec fn containers_json(containers: Seq<ContainerView>) -> Json {
    Json::Array(containers.map_values(|item: ContainerView| container_json(item)))
}

fn containers_to_value(containers: &Vec<Container>) -> (r: Value)
    ensures
        json::json_of(r) == containers_json(containers.deep_view()),
{
    let mut values: Vec<Value> = Vec::new();
    let mut i: usize = 0;
    while i < containers.len()
        invariant
            0 <= i <= containers.len(),
            values.len() == i,
            forall|j: int|
                0 <= j < i ==> json::json_of(#[trigger] values@[j]) == container_json(
                    containers@[j].deep_view(),
                ),
        decreases containers.len() - i,
    {
        values.push(container_to_value(&containers[i]));
        i = i + 1;
    }
    assert(Seq::new(values@.len(), |j: int| json::json_of(values@[j])) =~= containers.deep_view().map_values(
        |item: ContainerView| container_json(item),
    ));
    json::array_value(values)
}

/// Volumes of a pod, in their order.
pub open spec fn pod_volumes_json(pod_volumes: Seq<PodVolumeView>) -> Json {
    Json::Array(pod_volumes.map_values(|item: PodVolumeView| volume_json(item)))
}

fn pod_volumes_to_value(pod_volumes: &Vec<PodVolume>) -> (r: Value)
    ensures
        json::json_of(r) == pod_volumes_json(pod_volumes.deep_view()),
{
    let mut values: Vec<Value> = Vec::new();
    let mut i: usize = 0;
    while i < pod_volumes.len()
        invariant
            0 <= i <= pod_volumes.len(),
            values.len() == i,
            forall|j: int|
                0 <= j < i ==> json::json_of(#[trigger] values@[j]) == volume_json(
                    pod_volumes@[j].deep_view(),
                ),
        decreases pod_volumes.len() - i,
    {
        values.push(pod_volume_to_value(&pod_volumes[i]));
        i = i + 1;
    }
    assert(Seq::new(values@.len(), |j: int| json::json_of(values@[j])) =~= pod_volumes.deep_view().map_values(
        |item: PodVolumeView| volume_json(item),
    ));
    json::array_value(values)
}

/// The metadata of pods.
pub open spec fn pod_metadata_json(pod_metadata: PodTemplateMetadataView) -> Json {
    let object = Map::empty()
        .insert("labels"@, json::text_map(pod_metadata.labels))
        .insert("annotations"@, json::text_map(pod_metadata.annotations));
    Json::Object(object)
}

fn pod_template_metadata_to_value(pod_metadata: &PodTemplateMetadata) -> (r: Value)
    ensures
        json::json_of(r) == pod_metadata_json(pod_metadata.deep_view()),
{
    let mut object = json::no_members();
    json::put(&mut object, "labels", json::text_map_value(&pod_metadata.labels));
    json::put(&mut object, "annotations", json::text_map_value(&pod_metadata.annotations));
    json::object_value(object)
}

/// What pods run.
pub open spec fn pod_spec_json(pod_spec: PodSpecView) -> Json {
    let object = Map::empty()
        .insert("containers"@, containers_json(pod_spec.containers))
        .insert("volumes"@, pod_volumes_json(pod_spec.volumes));
    Json::Object(object)
}

fn pod_spec_to_value(pod_spec: &PodSpec) -> (r: Value)
    ensures
        json::json_of(r) == pod_spec_json(pod_spec.deep_view()),
{
    let mut object = json::no_members();
    json::put(&mut object, "containers", containers_to_value(&pod_spec.containers));
    json::put(&mut object, "volumes", pod_volumes_to_value(&pod_spec.volumes));
    json::object_value(object)
}

/// Pods to be started.
pub open spec fn pod_template_json(pod_template: PodTemplateSpecView) -> Json {
    let object = Map::empty()
        .insert("metadata"@, pod_metadata_json(pod_template.metadata))
        .insert("spec"@, pod_spec_json(pod_template.spec));
    Json::Object(object)
}

fn pod_template_to_value(pod_template: &PodTemplateSpec) -> (r: Value)
    ensures
        json::json_of(r) == pod_template_json(pod_template.deep_view()),
{
    let mut object = json::no_members();
    json::put(&mut object, "metadata", pod_template_metadata_to_value(&pod_template.metadata));
    json::put(&mut object, "spec", pod_spec_to_value(&pod_template.spec));
    json::object_value(object)
}

/// Labels that select pods.
pub open spec fn selector_json(selector: LabelSelectorView) -> Json {
    let object = Map::empty()
        .insert("matchLabels"@, json::text_map(selector.match_labels));
    Json::Object(object)
}

fn label_selector_to_value(selector: &LabelSelector) -> (r: Value)
    ensures
        json::json_of(r) == selector_json(selector.deep_view()),
{
    let mut object = json::no_members();
    json::put(&mut object, "matchLabels", json::text_map_value(&selector.match_labels));
    json::object_value(object)
}

/// The metadata of an object.
pub open spec fn metadata_json(metadata: ObjectMetaView) -> Json {
    let object = Map::empty()
        .insert("name"@, Json::Text(metadata.name));
    let object = json::with_optional_text(object, "namespace"@, metadata.namespace);
    let object = object
        .insert("labels"@, json::text_map(metadata.labels))
        .insert("annotations"@, json::text_map(metadata.annotations));
    Json::Object(object)
}

fn metadata_to_value(metadata: &ObjectMeta) -> (r: Value)
    ensures
        json::json_of(r) == metadata_json(metadata.deep_view()),
{
    let mut object = json::no_members();
    json::put_text(&mut object, "name", metadata.name.as_str());
    json::put_optional_text(&mut object, "namespace", &metadata.namespace);
    json::put(&mut object, "labels", json::text_map_value(&metadata.labels));
    json::put(&mut object, "annotations", json::text_map_value(&metadata.annotations));
    json::object_value(object)
}

/// A port of a service.
pub open spec fn service_port_json(service_port: ServicePortView) -> Json {
    let object = json::with_optional_text(Map::empty(), "name"@, service_port.name);
    let object = object
        .insert("port"@, Json::Number(service_port.port as u64))
        .insert("targetPort"@, Json::Number(service_port.target_port as u64));
    Json::Object(object)
}

fn service_port_to_value(service_port: &ServicePort) -> (r: Value)
    ensures
        json::json_of(r) == service_port_json(service_port.deep_view()),
{
    let mut object = json::no_members();
    json::put_optional_text(&mut object, "name", &service_port.name);
    json::put_number(&mut object, "port", service_port.port as u64);
    json::put_number(&mut object, "targetPort", service_port.target_port as u64);
    json::object_value(object)
}

/// Ports of a service, in their order.
pub open spec fn service_ports_json(service_ports: Seq<ServicePortView>) -> Json {
    Json::Array(service_ports.map_values(|item: ServicePortView| service_port_json(item)))
}

fn service_ports_to_value(service_ports: &Vec<ServicePort>) -> (r: Value)
    ensures
        json::json_of(r) == service_ports_json(service_ports.deep_view()),
{
    let mut values: Vec<Value> = Vec::new();
    let mut i: usize = 0;
    while i < service_ports.len()
        invariant
            0 <= i <= service_ports.len(),
            values.len() == i,
            forall|j: int|
                0 <= j < i ==> json::json_of(#[trigger] values@[j]) == service_port_json(
                    service_ports@[j].deep_view(),
                ),
        decreases service_ports.len() - i,
    {
        values.push(service_port_to_value(&service_ports[i]));
        i = i + 1;
    }
    assert(Seq::new(values@.len(), |j: int| json::json_of(values@[j])) =~= service_ports.deep_view().map_values(
        |item: ServicePortView| service_port_json(item),
    ));
    json::array_value(values)
}

/// A volume of a CSI driver.
pub open spec fn csi_source_json(csi_source: CsiPersistentVolumeSourceView) -> Json {
    let object = Map::empty()
        .insert("driver"@, Json::Text(csi_source.driver))
        .insert("volumeHandle"@, Json::Text(csi_source.volume_handle));
    let object = json::with_optional_text(object, "fsType"@, csi_source.fs_type);
    let object = object
        .insert("readOnly"@, Json::Bool(csi_source.read_only))
        .insert("volumeAttributes"@, json::text_map(csi_source.volume_attributes));
    Json::Object(object)
}

fn csi_source_to_value(csi_source: &CsiPersistentVolumeSource) -> (r: Value)
    ensures
        json::json_of(r) == csi_source_json(csi_source.deep_view()),
{
    let mut object = json::no_members();
    json::put_text(&mut object, "driver", csi_source.driver.as_str());
    json::put_text(&mut object, "volumeHandle", csi_source.volume_handle.as_str());
    json::put_optional_text(&mut object, "fsType", &csi_source.fs_type);
    json::put(&mut object, "readOnly", json::bool_value(csi_source.read_only));
    json::put(&mut object, "volumeAttributes", json::text_map_value(&csi_source.volume_attributes));
    json::object_value(object)
}

/// A directory of the host.
pub open spec fn host_path_source_json(
    host_path_source: HostPathPersistentVolumeSourceView,
) -> Json {
    let object = Map::empty()
        .insert("path"@, Json::Text(host_path_source.path));
    let object = json::with_optional_text(object, "type"@, host_path_source.type_);
    Json::Object(object)
}

fn host_path_source_to_value(host_path_source: &HostPathPersistentVolumeSource) -> (r: Value)
    ensures
        json::json_of(r) == host_path_source_json(host_path_source.deep_view()),
{
    let mut object = json::no_members();
    json::put_text(&mut object, "path", host_path_source.path.as_str());
    json::put_optional_text(&mut object, "type", &host_path_source.type_);
    json::object_value(object)
}

/// The name of an access mode.
pub open spec fn access_mode_name(mode: PersistentVolumeAccessMode) -> Seq<char> {
    match mode {
        PersistentVolumeAccessMode::ReadWriteOnce => "ReadWriteOnce"@,
        PersistentVolumeAccessMode::ReadOnlyMany => "ReadOnlyMany"@,
        PersistentVolumeAccessMode::ReadWriteMany => "ReadWriteMany"@,
    }
}

/// Access modes by their names, in their order.
pub open spec fn access_modes_json(modes: Seq<PersistentVolumeAccessMode>) -> Json {
    Json::Array(
        modes.map_values(|mode: PersistentVolumeAccessMode| Json::Text(access_mode_name(mode))),
    )
}

fn access_mode_to_str(mode: PersistentVolumeAccessMode) -> (r: &'static str)
    ensures
        r@ == access_mode_name(mode),
{
    match mode {
        PersistentVolumeAccessMode::ReadWriteOnce => "ReadWriteOnce",
        PersistentVolumeAccessMode::ReadOnlyMany => "ReadOnlyMany",
        PersistentVolumeAccessMode::ReadWriteMany => "ReadWriteMany",
    }
}

fn access_modes_to_value(modes: &Vec<PersistentVolumeAccessMode>) -> (r: Value)
    ensures
        json::json_of(r) == access_modes_json(modes.deep_view()),
{
    let mut values: Vec<Value> = Vec::new();
    let mut i: usize = 0;
    while i < modes.len()
        invariant
            0 <= i <= modes.len(),
            values.len() == i,
            forall|j: int|
                0 <= j < i ==> json::json_of(#[trigger] values@[j]) == Json::Text(
                    access_mode_name(modes@[j]),
                ),
        decreases modes.len() - i,
    {
        values.push(json::text_value(access_mode_to_str(modes[i])));
        i = i + 1;
    }
    assert(Seq::new(values@.len(), |j: int| json::json_of(values@[j])) =~= modes.deep_view().map_values(
        |mode: PersistentVolumeAccessMode| Json::Text(access_mode_name(mode)),
    ));
    json::array_value(values)
}

/// The name of a reclaim policy.
pub open spec fn reclaim_policy_name(policy: PersistentVolumeReclaimPolicy) -> Seq<char> {
    match policy {
        PersistentVolumeReclaimPolicy::Retain => "Retain"@,
        PersistentVolumeReclaimPolicy::Delete => "Delete"@,
    }
}

fn reclaim_policy_to_str(policy: PersistentVolumeReclaimPolicy) -> (r: &'static str)
    ensures
        r@ == reclaim_policy_name(policy),
{
    match policy {
        PersistentVolumeReclaimPolicy::Retain => "Retain",
        PersistentVolumeReclaimPolicy::Delete => "Delete",
    }
}

/// The claim that a volume is for.
pub open spec fn claim_ref_json(claim_ref: PersistentVolumeClaimRefView) -> Json {
    let object = Map::empty()
        .insert("namespace"@, Json::Text(claim_ref.namespace))
        .insert("name"@, Json::Text(claim_ref.name));
    Json::Object(object)
}

fn claim_ref_to_value(claim_ref: &PersistentVolumeClaimRef) -> (r: Value)
    ensures
        json::json_of(r) == claim_ref_json(claim_ref.deep_view()),
{
    let mut object = json::no_members();
    json::put_text(&mut object, "namespace", claim_ref.namespace.as_str());
    json::put_text(&mut object, "name", claim_ref.name.as_str());
    json::object_value(object)
}

/// An object with one text member.
pub open spec fn single_text_json(name: Seq<char>, value: Seq<char>) -> Json {
    Json::Object(Map::empty().insert(name, Json::Text(value)))
}

fn single_text_value(name: &str, value: &str) -> (r: Value)
    ensures
        json::json_of(r) == single_text_json(name@, value@),
{
    let mut object = json::no_members();
    json::put_text(&mut object, name, value);
    json::object_value(object)
}

/// What a PersistentVolume asks for.
pub open spec fn volume_spec_json(spec: PersistentVolumeSpecView) -> Json {
    let common = json::with_optional_text(
        Map::empty().insert("capacity"@, single_text_json("storage"@, spec.capacity)).insert(
            "accessModes"@,
            access_modes_json(spec.access_modes),
        ).insert(
            "persistentVolumeReclaimPolicy"@,
            Json::Text(reclaim_policy_name(spec.persistent_volume_reclaim_policy)),
        ),
        "storageClassName"@,
        spec.storage_class_name,
    ).insert("claimRef"@, claim_ref_json(spec.claim_ref));
    Json::Object(
        match spec.source {
            PersistentVolumeSourceView::Csi(source) => common.insert(
                "csi"@,
                csi_source_json(source),
            ),
            PersistentVolumeSourceView::HostPath(source) => common.insert(
                "hostPath"@,
                host_path_source_json(source),
            ),
        },
    )
}

fn volume_spec_to_value(spec: &PersistentVolumeSpec) -> (r: Value)
    ensures
        json::json_of(r) == volume_spec_json(spec.deep_view()),
{
    let mut object = json::no_members();
    json::put(&mut object, "capacity", single_text_value("storage", spec.capacity.as_str()));
    json::put(&mut object, "accessModes", access_modes_to_value(&spec.access_modes));
    json::put_text(
        &mut object,
        "persistentVolumeReclaimPolicy",
        reclaim_policy_to_str(spec.persistent_volume_reclaim_policy),
    );
    json::put_optional_text(&mut object, "storageClassName", &spec.storage_class_name);
    json::put(&mut object, "claimRef", claim_ref_to_value(&spec.claim_ref));
    match &spec.source {
        PersistentVolumeSource::Csi(source) => {
            json::put(&mut object, "csi", csi_source_to_value(source));
        },
        PersistentVolumeSource::HostPath(source) => {
            json::put(&mut object, "hostPath", host_path_source_to_value(source));
        },
    }
    json::object_value(object)
}

/// What a claim asks for.
pub open spec fn claim_spec_json(spec: PersistentVolumeClaimSpecView) -> Json {
    Json::Object(
        json::with_optional_text(
            Map::empty().insert("accessModes"@, access_modes_json(spec.access_modes)).insert(
                "resources"@,
                Json::Object(
                    Map::empty().insert(
                        "requests"@,
                        single_text_json("storage"@, spec.resources.requests_storage),
                    ),
                ),
            ),
            "storageClassName"@,
            spec.storage_class_name,
        ).insert("volumeName"@, Json::Text(spec.volume_name)),
    )
}

fn claim_spec_to_value(spec: &PersistentVolumeClaimSpec) -> (r: Value)
    ensures
        json::json_of(r) == claim_spec_json(spec.deep_view()),
{
    let mut resources = json::no_members();
    json::put(
        &mut resources,
        "requests",
        single_text_value("storage", spec.resources.requests_storage.as_str()),
    );
    let mut object = json::no_members();
    json::put(&mut object, "accessModes", access_modes_to_value(&spec.access_modes));
    json::put(&mut object, "resources", json::object_value(resources));
    json::put_optional_text(&mut object, "storageClassName", &spec.storage_class_name);
    json::put_text(&mut object, "volumeName", spec.volume_name.as_str());
    json::object_value(object)
}

/// Where a service leads.
pub open spec fn service_spec_json(service_spec: ServiceSpecView) -> Json {
    let object = Map::empty()
        .insert("selector"@, json::text_map(service_spec.selector))
        .insert("ports"@, service_ports_json(service_spec.ports));
    Json::Object(object)
}

fn service_spec_to_value(service_spec: &ServiceSpec) -> (r: Value)
    ensures
        json::json_of(r) == service_spec_json(service_spec.deep_view()),
{
    let mut object = json::no_members();
    json::put(&mut object, "selector", json::text_map_value(&service_spec.selector));
    json::put(&mut object, "ports", service_ports_to_value(&service_spec.ports));
    json::object_value(object)
}

/// What a Deployment keeps running.
pub open spec fn deployment_spec_json(deployment_spec: DeploymentSpecView) -> Json {
    let object = Map::empty()
        .insert("replicas"@, Json::Number(deployment_spec.replicas as u64))
        .insert("selector"@, selector_json(deployment_spec.selector))
        .insert("template"@, pod_template_json(deployment_spec.template));
    Json::Object(object)
}

fn deployment_spec_to_value(deployment_spec: &DeploymentSpec) -> (r: Value)
    ensures
        json::json_of(r) == deployment_spec_json(deployment_spec.deep_view()),
{
    let mut object = json::no_members();
    json::put_number(&mut object, "replicas", deployment_spec.replicas as u64);
    json::put(&mut object, "selector", label_selector_to_value(&deployment_spec.selector));
    json::put(&mut object, "template", pod_template_to_value(&deployment_spec.template));
    json::object_value(object)
}

/// What a StatefulSet keeps running.
pub open spec fn stateful_set_spec_json(stateful_set_spec: StatefulSetSpecView) -> Json {
    let object = Map::empty()
        .insert("replicas"@, Json::Number(stateful_set_spec.replicas as u64))
        .insert("serviceName"@, Json::Text(stateful_set_spec.service_name))
        .insert("selector"@, selector_json(stateful_set_spec.selector))
        .insert("template"@, pod_template_json(stateful_set_spec.template));
    Json::Object(object)
}

fn stateful_set_spec_to_value(stateful_set_spec: &StatefulSetSpec) -> (r: Value)
    ensures
        json::json_of(r) == stateful_set_spec_json(stateful_set_spec.deep_view()),
{
    let mut object = json::no_members();
    json::put_number(&mut object, "replicas", stateful_set_spec.replicas as u64);
    json::put_text(&mut object, "serviceName", stateful_set_spec.service_name.as_str());
    json::put(&mut object, "selector", label_selector_to_value(&stateful_set_spec.selector));
    json::put(&mut object, "template", pod_template_to_value(&stateful_set_spec.template));
    json::object_value(object)
}

/// An object by its API version, kind, metadata and spec.
pub open spec fn kubernetes_json(
    api_version: Seq<char>,
    kind: Seq<char>,
    metadata: ObjectMetaView,
    spec: Json,
) -> Json {
    Json::Object(
        Map::empty().insert("apiVersion"@, Json::Text(api_version)).insert(
            "kind"@,
            Json::Text(kind),
        ).insert("metadata"@, metadata_json(metadata)).insert("spec"@, spec),
    )
}

fn object_to_value(api_version: &str, kind: &str, metadata: &ObjectMeta, spec: Value) -> (r: Value)
    ensures
        json::json_of(r) == kubernetes_json(
            api_version@,
            kind@,
            metadata.deep_view(),
            json::json_of(spec),
        ),
{
    let mut object = json::no_members();
    json::put_text(&mut object, "apiVersion", api_version);
    json::put_text(&mut object, "kind", kind);
    json::put(&mut object, "metadata", metadata_to_value(metadata));
    json::put(&mut object, "spec", spec);
    json::object_value(object)
}

/// The spec of an object.
pub open spec fn object_spec_json(object: KubernetesObjectView) -> Json {
    match object {
        KubernetesObjectView::Deployment(object) => deployment_spec_json(object.spec),
        KubernetesObjectView::StatefulSet(object) => stateful_set_spec_json(object.spec),
        KubernetesObjectView::Service(object) => service_spec_json(object.spec),
        KubernetesObjectView::PersistentVolume(object) => volume_spec_json(object.spec),
        KubernetesObjectView::PersistentVolumeClaim(object) => claim_spec_json(object.spec),
    }
}

/// An object as the API server takes it.
pub open spec fn object_json(object: KubernetesObjectView) -> Json {
    kubernetes_json(
        object.api_version(),
        object.kind(),
        object.metadata(),
        object_spec_json(object),
    )
}

impl KubernetesObject {
    /// The object as the API server takes it.
    pub fn to_kubernetes_json(&self) -> (r: Value)
        ensures
            json::json_of(r) == object_json(self.deep_view()),
    {
        let spec = match self {
            KubernetesObject::Deployment(object) => deployment_spec_to_value(&object.spec),
            KubernetesObject::StatefulSet(object) => stateful_set_spec_to_value(&object.spec),
            KubernetesObject::Service(object) => service_spec_to_value(&object.spec),
            KubernetesObject::PersistentVolume(object) => volume_spec_to_value(&object.spec),
            KubernetesObject::PersistentVolumeClaim(object) => claim_spec_to_value(&object.spec),
        };
        object_to_value(self.api_version(), self.kind(), self.metadata(), spec)
    }
}

impl RenderedManifestObject {
    pub fn to_kubernetes_json(&self) -> (r: Value)
        ensures
            json::json_of(r) == object_json(self.deep_view().object),
    {
        self.object.to_kubernetes_json()
    }
}

impl RenderedManifest {
    /// The objects as the API server takes them, in their order.
    pub fn to_kubernetes_json_values(&self) -> (r: Vec<Value>)
        ensures
            r.len() == self.objects.len(),
            forall|i: int|
                0 <= i < r.len() ==> json::json_of(#[trigger] r@[i]) == object_json(
                    self.deep_view().objects[i].object,
                ),
    {
        let mut values: Vec<Value> = Vec::new();
        let mut i: usize = 0;
        while i < self.objects.len()
            invariant
                0 <= i <= self.objects.len(),
                values.len() == i,
                forall|j: int|
                    0 <= j < i ==> json::json_of(#[trigger] values@[j]) == object_json(
                        self.deep_view().objects[j].object,
                    ),
            decreases self.objects.len() - i,
        {
            assert(self.deep_view().objects[i as int] == self.objects@[i as int].deep_view());
            values.push(self.objects[i].to_kubernetes_json());
            i = i + 1;
        }
        values
    }
}

} // verus!

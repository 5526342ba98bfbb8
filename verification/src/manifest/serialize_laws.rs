//! What the JSON of rendered objects says: every field, under its own name.
use vstd::prelude::*;

use super::objects::ContainerPortView;
use super::objects::ContainerView;
use super::objects::CsiPersistentVolumeSourceView;
use super::objects::EnvVarView;
use super::objects::HostPathPersistentVolumeSourceView;
use super::objects::KubernetesObjectView;
use super::objects::ObjectMetaView;
use super::objects::PersistentVolumeClaimSpecView;
use super::objects::PersistentVolumeSourceView;
use super::objects::PersistentVolumeSpecView;
use super::objects::PodTemplateSpecView;
use super::objects::PodVolumeView;
use super::objects::ServicePortView;
use super::objects::ServiceSpecView;
use super::objects::VolumeMountView;
use super::serialize;
use super::template::PersistentVolumeAccessMode;
use super::template::PersistentVolumeReclaimPolicy;
use crate::json;
use crate::json::Json;

verus! {

/// The member of a JSON object, if there is one.
pub open spec fn at(value: Json, name: Seq<char>) -> Option<Json> {
    match value {
        Json::Object(members) => if members.contains_key(name) {
            Some(members[name])
        } else {
            None
        },
        _ => None,
    }
}

/// The text of a member, if it is one.
pub open spec fn text_at(value: Json, name: Seq<char>) -> Option<Seq<char>> {
    match at(value, name) {
        Some(Json::Text(text)) => Some(text),
        _ => None,
    }
}

/// Whether a member is a number.
pub open spec fn is_number_at(value: Json, name: Seq<char>, number: int) -> bool {
    match at(value, name) {
        Some(Json::Number(found)) => found == number,
        _ => false,
    }
}

/// The items of a member, if it is an array.
pub open spec fn items_at(value: Json, name: Seq<char>) -> Option<Seq<Json>> {
    match at(value, name) {
        Some(Json::Array(items)) => Some(items),
        _ => None,
    }
}

/// Whether a member is an object with just these texts.
pub open spec fn are_texts_at(
    value: Json,
    name: Seq<char>,
    texts: Map<Seq<char>, Seq<char>>,
) -> bool {
    match at(value, name) {
        Some(Json::Object(members)) => forall|key: Seq<char>|
            {
                &&& #[trigger] members.contains_key(key) <==> texts.contains_key(key)
                &&& texts.contains_key(key) ==> members[key] == Json::Text(texts[key])
            },
        _ => false,
    }
}

proof fn lemma_text_map(texts: Map<Seq<char>, Seq<char>>)
    ensures
        ({
            let members = json::text_map(texts)->Object_0;
            &&& json::text_map(texts) is Object
            &&& forall|key: Seq<char>|
                {
                    &&& #[trigger] members.contains_key(key) <==> texts.contains_key(key)
                    &&& texts.contains_key(key) ==> members[key] == Json::Text(texts[key])
                }
        }),
{
}

/// Whether a JSON object says what a variable of the environment is.
pub open spec fn says_env(value: Json, env: EnvVarView) -> bool {
    text_at(value, "name"@) == Some(env.name) && text_at(value, "value"@) == Some(env.value)
}

/// Whether a JSON object says what a port of a container is.
pub open spec fn says_container_port(value: Json, port: ContainerPortView) -> bool {
    text_at(value, "name"@) == port.name && is_number_at(
        value,
        "containerPort"@,
        port.container_port as int,
    )
}

/// Whether a JSON object says where a volume is mounted.
pub open spec fn says_mount(value: Json, mount: VolumeMountView) -> bool {
    text_at(value, "name"@) == Some(mount.name) && text_at(value, "mountPath"@) == Some(
        mount.mount_path,
    )
}

/// Whether a JSON object says what a container is.
pub open spec fn says_container(value: Json, container: ContainerView) -> bool {
    &&& text_at(value, "name"@) == Some(container.name)
    &&& text_at(value, "image"@) == Some(container.image)
    &&& items_at(value, "ports"@) is Some
    &&& items_at(value, "ports"@)->0.len() == container.ports.len()
    &&& forall|i: int|
        0 <= i < container.ports.len() ==> says_container_port(
            items_at(value, "ports"@)->0[i],
            #[trigger] container.ports[i],
        )
    &&& items_at(value, "env"@) is Some
    &&& items_at(value, "env"@)->0.len() == container.env.len()
    &&& forall|i: int|
        0 <= i < container.env.len() ==> says_env(
            items_at(value, "env"@)->0[i],
            #[trigger] container.env[i],
        )
    &&& items_at(value, "volumeMounts"@) is Some
    &&& items_at(value, "volumeMounts"@)->0.len() == container.volume_mounts.len()
    &&& forall|i: int|
        0 <= i < container.volume_mounts.len() ==> says_mount(
            items_at(value, "volumeMounts"@)->0[i],
            #[trigger] container.volume_mounts[i],
        )
}

/// A container is written with its name and image, and with each of its ports,
/// variables and mounts, in their order.
pub proof fn lemma_container_is_written(container: ContainerView)
    ensures
        says_container(serialize::container_json(container), container),
{
    reveal_strlit("name");
    reveal_strlit("image");
    reveal_strlit("ports");
    reveal_strlit("env");
    reveal_strlit("volumeMounts");
    reveal_strlit("value");
    reveal_strlit("containerPort");
    reveal_strlit("mountPath");
    assert("name"@.len() == 4);
    assert("image"@.len() == 5 && "image"@[0] == 'i');
    assert("ports"@.len() == 5 && "ports"@[0] == 'p');
    assert("env"@.len() == 3);
    assert("volumeMounts"@.len() == 12);
    assert("value"@.len() == 5 && "value"@[0] == 'v');
    assert("containerPort"@.len() == 13);
    assert("mountPath"@.len() == 9);
    let value = serialize::container_json(container);
    assert(items_at(value, "ports"@)->0 == container.ports.map_values(
        |item: ContainerPortView| serialize::container_port_json(item),
    ));
    assert(items_at(value, "env"@)->0 == container.env.map_values(
        |item: EnvVarView| serialize::env_json(item),
    ));
    assert(items_at(value, "volumeMounts"@)->0 == container.volume_mounts.map_values(
        |item: VolumeMountView| serialize::mount_json(item),
    ));
}

/// Whether a JSON object says which claim a volume of a pod is.
pub open spec fn says_volume(value: Json, volume: PodVolumeView) -> bool {
    &&& text_at(value, "name"@) == Some(volume.name)
    &&& at(value, "persistentVolumeClaim"@) is Some
    &&& text_at(at(value, "persistentVolumeClaim"@)->0, "claimName"@) == Some(
        volume.persistent_volume_claim.claim_name,
    )
}

/// Whether a JSON object says what pods are made of.
pub open spec fn says_pods(value: Json, template: PodTemplateSpecView) -> bool {
    &&& at(value, "metadata"@) is Some
    &&& are_texts_at(at(value, "metadata"@)->0, "labels"@, template.metadata.labels)
    &&& are_texts_at(at(value, "metadata"@)->0, "annotations"@, template.metadata.annotations)
    &&& at(value, "spec"@) is Some
    &&& items_at(at(value, "spec"@)->0, "containers"@) is Some
    &&& items_at(at(value, "spec"@)->0, "containers"@)->0.len() == template.spec.containers.len()
    &&& forall|i: int|
        0 <= i < template.spec.containers.len() ==> says_container(
            items_at(at(value, "spec"@)->0, "containers"@)->0[i],
            #[trigger] template.spec.containers[i],
        )
    &&& items_at(at(value, "spec"@)->0, "volumes"@) is Some
    &&& items_at(at(value, "spec"@)->0, "volumes"@)->0.len() == template.spec.volumes.len()
    &&& forall|i: int|
        0 <= i < template.spec.volumes.len() ==> says_volume(
            items_at(at(value, "spec"@)->0, "volumes"@)->0[i],
            #[trigger] template.spec.volumes[i],
        )
}

/// Pods are written with their labels and annotations, and with each of their
/// containers and volumes, in their order.
pub proof fn lemma_pods_are_written(template: PodTemplateSpecView)
    ensures
        says_pods(serialize::pod_template_json(template), template),
{
    reveal_strlit("metadata");
    reveal_strlit("spec");
    reveal_strlit("labels");
    reveal_strlit("annotations");
    reveal_strlit("containers");
    reveal_strlit("volumes");
    reveal_strlit("name");
    reveal_strlit("persistentVolumeClaim");
    reveal_strlit("claimName");
    assert("metadata"@.len() == 8);
    assert("spec"@.len() == 4 && "spec"@[0] == 's');
    assert("labels"@.len() == 6);
    assert("annotations"@.len() == 11);
    assert("containers"@.len() == 10);
    assert("volumes"@.len() == 7);
    assert("name"@.len() == 4 && "name"@[0] == 'n');
    assert("persistentVolumeClaim"@.len() == 21);
    assert("claimName"@.len() == 9);
    let value = serialize::pod_template_json(template);
    lemma_text_map(template.metadata.labels);
    lemma_text_map(template.metadata.annotations);
    let containers = items_at(at(value, "spec"@)->0, "containers"@)->0;
    assert(containers == template.spec.containers.map_values(
        |item: ContainerView| serialize::container_json(item),
    ));
    assert forall|i: int| 0 <= i < template.spec.containers.len() implies says_container(
        containers[i],
        #[trigger] template.spec.containers[i],
    ) by {
        lemma_container_is_written(template.spec.containers[i]);
    }
    let volumes = items_at(at(value, "spec"@)->0, "volumes"@)->0;
    assert(volumes == template.spec.volumes.map_values(
        |item: PodVolumeView| serialize::volume_json(item),
    ));
}

/// Whether a JSON object says what a port of a service is.
pub open spec fn says_service_port(value: Json, port: ServicePortView) -> bool {
    &&& text_at(value, "name"@) == port.name
    &&& is_number_at(value, "port"@, port.port as int)
    &&& is_number_at(value, "targetPort"@, port.target_port as int)
}

/// A service is written with its selector and with each of its ports, in their order.
pub proof fn lemma_service_is_written(spec: ServiceSpecView)
    ensures
        ({
            let value = serialize::service_spec_json(spec);
            &&& are_texts_at(value, "selector"@, spec.selector)
            &&& items_at(value, "ports"@) is Some
            &&& items_at(value, "ports"@)->0.len() == spec.ports.len()
            &&& forall|i: int|
                0 <= i < spec.ports.len() ==> says_service_port(
                    items_at(value, "ports"@)->0[i],
                    #[trigger] spec.ports[i],
                )
        }),
{
    reveal_strlit("selector");
    reveal_strlit("ports");
    reveal_strlit("name");
    reveal_strlit("port");
    reveal_strlit("targetPort");
    assert("selector"@.len() == 8);
    assert("ports"@.len() == 5);
    assert("name"@.len() == 4 && "name"@[0] == 'n');
    assert("port"@.len() == 4 && "port"@[0] == 'p');
    assert("targetPort"@.len() == 10);
    let value = serialize::service_spec_json(spec);
    lemma_text_map(spec.selector);
    assert(items_at(value, "ports"@)->0 == spec.ports.map_values(
        |item: ServicePortView| serialize::service_port_json(item),
    ));
}

/// Whether a text is the name of an access mode.
pub open spec fn is_mode_name(name: Seq<char>, mode: PersistentVolumeAccessMode) -> bool {
    match mode {
        PersistentVolumeAccessMode::ReadWriteOnce => name == "ReadWriteOnce"@,
        PersistentVolumeAccessMode::ReadOnlyMany => name == "ReadOnlyMany"@,
        PersistentVolumeAccessMode::ReadWriteMany => name == "ReadWriteMany"@,
    }
}

/// Whether a member lists access modes.
pub open spec fn are_modes_at(value: Json, modes: Seq<PersistentVolumeAccessMode>) -> bool {
    &&& items_at(value, "accessModes"@) is Some
    &&& items_at(value, "accessModes"@)->0.len() == modes.len()
    &&& forall|i: int|
        0 <= i < modes.len() ==> items_at(value, "accessModes"@)->0[i] is Text && is_mode_name(
            items_at(value, "accessModes"@)->0[i]->Text_0,
            #[trigger] modes[i],
        )
}

/// Whether a JSON object says what a CSI volume is.
pub open spec fn says_csi(value: Json, source: CsiPersistentVolumeSourceView) -> bool {
    &&& text_at(value, "driver"@) == Some(source.driver)
    &&& text_at(value, "volumeHandle"@) == Some(source.volume_handle)
    &&& text_at(value, "fsType"@) == source.fs_type
    &&& at(value, "readOnly"@) == Some(Json::Bool(source.read_only))
    &&& are_texts_at(value, "volumeAttributes"@, source.volume_attributes)
}

/// Whether a JSON object says what path of a host a volume is.
pub open spec fn says_host_path(value: Json, source: HostPathPersistentVolumeSourceView) -> bool {
    text_at(value, "path"@) == Some(source.path) && text_at(value, "type"@) == source.type_
}

proof fn lemma_csi_is_written(source: CsiPersistentVolumeSourceView)
    ensures
        says_csi(serialize::csi_source_json(source), source),
{
    reveal_strlit("driver");
    reveal_strlit("volumeHandle");
    reveal_strlit("fsType");
    reveal_strlit("readOnly");
    reveal_strlit("volumeAttributes");
    assert("driver"@.len() == 6 && "driver"@[0] == 'd');
    assert("volumeHandle"@.len() == 12);
    assert("fsType"@.len() == 6 && "fsType"@[0] == 'f');
    assert("readOnly"@.len() == 8);
    assert("volumeAttributes"@.len() == 16);
    lemma_text_map(source.volume_attributes);
}

proof fn lemma_host_path_is_written(source: HostPathPersistentVolumeSourceView)
    ensures
        says_host_path(serialize::host_path_source_json(source), source),
{
    reveal_strlit("path");
    reveal_strlit("type");
    assert("path"@.len() == 4 && "path"@[0] == 'p');
    assert("type"@.len() == 4 && "type"@[0] == 't');
}

/// A volume is written with its capacity, its modes, its policy, its class, the claim
/// that it is for, and where it is.
pub proof fn lemma_volume_is_written(spec: PersistentVolumeSpecView)
    ensures
        ({
            let value = serialize::volume_spec_json(spec);
            &&& at(value, "capacity"@) is Some
            &&& text_at(at(value, "capacity"@)->0, "storage"@) == Some(spec.capacity)
            &&& are_modes_at(value, spec.access_modes)
            &&& text_at(value, "persistentVolumeReclaimPolicy"@) == Some(
                match spec.persistent_volume_reclaim_policy {
                    PersistentVolumeReclaimPolicy::Retain => "Retain"@,
                    PersistentVolumeReclaimPolicy::Delete => "Delete"@,
                },
            )
            &&& text_at(value, "storageClassName"@) == spec.storage_class_name
            &&& at(value, "claimRef"@) is Some
            &&& text_at(at(value, "claimRef"@)->0, "namespace"@) == Some(spec.claim_ref.namespace)
            &&& text_at(at(value, "claimRef"@)->0, "name"@) == Some(spec.claim_ref.name)
            &&& spec.source matches PersistentVolumeSourceView::Csi(source) ==> at(
                value,
                "csi"@,
            ) is Some && at(value, "hostPath"@) is None && says_csi(at(value, "csi"@)->0, source)
            &&& spec.source matches PersistentVolumeSourceView::HostPath(source) ==> at(
                value,
                "hostPath"@,
            ) is Some && at(value, "csi"@) is None && says_host_path(
                at(value, "hostPath"@)->0,
                source,
            )
        }),
{
    reveal_strlit("capacity");
    reveal_strlit("accessModes");
    reveal_strlit("persistentVolumeReclaimPolicy");
    reveal_strlit("storageClassName");
    reveal_strlit("claimRef");
    reveal_strlit("csi");
    reveal_strlit("hostPath");
    reveal_strlit("namespace");
    reveal_strlit("name");
    assert("capacity"@.len() == 8 && "capacity"@[0] == 'c' && "capacity"@[1] == 'a');
    assert("accessModes"@.len() == 11);
    assert("persistentVolumeReclaimPolicy"@.len() == 29);
    assert("storageClassName"@.len() == 16);
    assert("claimRef"@.len() == 8 && "claimRef"@[0] == 'c' && "claimRef"@[1] == 'l');
    assert("csi"@.len() == 3);
    assert("hostPath"@.len() == 8 && "hostPath"@[0] == 'h');
    assert("namespace"@.len() == 9);
    assert("name"@.len() == 4);
    match spec.source {
        PersistentVolumeSourceView::Csi(source) => lemma_csi_is_written(source),
        PersistentVolumeSourceView::HostPath(source) => lemma_host_path_is_written(source),
    }
    let value = serialize::volume_spec_json(spec);
    assert(items_at(value, "accessModes"@)->0 == spec.access_modes.map_values(
        |mode: PersistentVolumeAccessMode| Json::Text(serialize::access_mode_name(mode)),
    ));
}

/// A claim is written with its modes, what it asks for, its class and its volume.
pub proof fn lemma_claim_is_written(spec: PersistentVolumeClaimSpecView)
    ensures
        ({
            let value = serialize::claim_spec_json(spec);
            &&& are_modes_at(value, spec.access_modes)
            &&& at(value, "resources"@) is Some
            &&& at(at(value, "resources"@)->0, "requests"@) is Some
            &&& text_at(at(at(value, "resources"@)->0, "requests"@)->0, "storage"@) == Some(
                spec.resources.requests_storage,
            )
            &&& text_at(value, "storageClassName"@) == spec.storage_class_name
            &&& text_at(value, "volumeName"@) == Some(spec.volume_name)
        }),
{
    reveal_strlit("accessModes");
    reveal_strlit("resources");
    reveal_strlit("storageClassName");
    reveal_strlit("volumeName");
    assert("accessModes"@.len() == 11);
    assert("resources"@.len() == 9);
    assert("storageClassName"@.len() == 16);
    assert("volumeName"@.len() == 10);
    let value = serialize::claim_spec_json(spec);
    assert(items_at(value, "accessModes"@)->0 == spec.access_modes.map_values(
        |mode: PersistentVolumeAccessMode| Json::Text(serialize::access_mode_name(mode)),
    ));
}

/// Whether a JSON object says what metadata is.
pub open spec fn says_metadata(value: Json, metadata: ObjectMetaView) -> bool {
    &&& text_at(value, "name"@) == Some(metadata.name)
    &&& text_at(value, "namespace"@) == metadata.namespace
    &&& are_texts_at(value, "labels"@, metadata.labels)
    &&& are_texts_at(value, "annotations"@, metadata.annotations)
}

proof fn lemma_metadata_is_written(metadata: ObjectMetaView)
    ensures
        says_metadata(serialize::metadata_json(metadata), metadata),
{
    reveal_strlit("name");
    reveal_strlit("namespace");
    reveal_strlit("labels");
    reveal_strlit("annotations");
    assert("name"@.len() == 4);
    assert("namespace"@.len() == 9);
    assert("labels"@.len() == 6);
    assert("annotations"@.len() == 11);
    lemma_text_map(metadata.labels);
    lemma_text_map(metadata.annotations);
}

/// An object is written with its version, its kind and its metadata, and with what is
/// written of its kind.
pub proof fn lemma_object_is_written(object: KubernetesObjectView)
    ensures
        ({
            let value = serialize::object_json(object);
            &&& text_at(value, "apiVersion"@) == Some(object.api_version())
            &&& text_at(value, "kind"@) == Some(object.kind())
            &&& at(value, "metadata"@) is Some
            &&& says_metadata(at(value, "metadata"@)->0, object.metadata())
            &&& at(value, "spec"@) == Some(
                match object {
                    KubernetesObjectView::Deployment(inner) => serialize::deployment_spec_json(
                        inner.spec,
                    ),
                    KubernetesObjectView::StatefulSet(inner) => serialize::stateful_set_spec_json(
                        inner.spec,
                    ),
                    KubernetesObjectView::Service(inner) => serialize::service_spec_json(
                        inner.spec,
                    ),
                    KubernetesObjectView::PersistentVolume(inner) => serialize::volume_spec_json(
                        inner.spec,
                    ),
                    KubernetesObjectView::PersistentVolumeClaim(inner) => {
                        serialize::claim_spec_json(inner.spec)
                    },
                },
            )
        }),
{
    reveal_strlit("apiVersion");
    reveal_strlit("kind");
    reveal_strlit("metadata");
    reveal_strlit("spec");
    assert("apiVersion"@.len() == 10);
    assert("kind"@.len() == 4 && "kind"@[0] == 'k');
    assert("metadata"@.len() == 8);
    assert("spec"@.len() == 4 && "spec"@[0] == 's');
    lemma_metadata_is_written(object.metadata());
}

/// A workload is written with how many replicas it asks for, the pods that it selects
/// and those that it makes and, as a stateful set, with the service that governs it.
pub proof fn lemma_workload_is_written(object: KubernetesObjectView)
    ensures
        object matches KubernetesObjectView::Deployment(inner) ==> {
            let value = serialize::deployment_spec_json(inner.spec);
            &&& is_number_at(value, "replicas"@, inner.spec.replicas as int)
            &&& at(value, "selector"@) is Some
            &&& are_texts_at(
                at(value, "selector"@)->0,
                "matchLabels"@,
                inner.spec.selector.match_labels,
            )
            &&& at(value, "template"@) is Some
            &&& says_pods(at(value, "template"@)->0, inner.spec.template)
        },
        object matches KubernetesObjectView::StatefulSet(inner) ==> {
            let value = serialize::stateful_set_spec_json(inner.spec);
            &&& is_number_at(value, "replicas"@, inner.spec.replicas as int)
            &&& text_at(value, "serviceName"@) == Some(inner.spec.service_name)
            &&& at(value, "selector"@) is Some
            &&& are_texts_at(
                at(value, "selector"@)->0,
                "matchLabels"@,
                inner.spec.selector.match_labels,
            )
            &&& at(value, "template"@) is Some
            &&& says_pods(at(value, "template"@)->0, inner.spec.template)
        },
{
    reveal_strlit("replicas");
    reveal_strlit("selector");
    reveal_strlit("template");
    reveal_strlit("serviceName");
    assert("replicas"@.len() == 8 && "replicas"@[0] == 'r');
    assert("selector"@.len() == 8 && "selector"@[0] == 's');
    assert("template"@.len() == 8 && "template"@[0] == 't');
    assert("serviceName"@.len() == 11);
    match object {
        KubernetesObjectView::Deployment(inner) => {
            lemma_text_map(inner.spec.selector.match_labels);
            lemma_pods_are_written(inner.spec.template);
        },
        KubernetesObjectView::StatefulSet(inner) => {
            lemma_text_map(inner.spec.selector.match_labels);
            lemma_pods_are_written(inner.spec.template);
        },
        _ => {},
    }
}

} // verus!

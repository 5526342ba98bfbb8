//! What holds of templates as they are sent: what is read of them, and what is refused.
use vstd::prelude::*;

use super::pb;
use super::template;
use crate::manifest::template::ContainerTemplateView;
use crate::manifest::template::CsiSecretRefTemplateView;
use crate::manifest::template::ManifestTemplateView;
use crate::manifest::template::PersistentVolumeAccessMode;
use crate::manifest::template::PersistentVolumeReclaimPolicy;
use crate::manifest::template::PersistentVolumeSourceTemplateView;
use crate::manifest::template::ServiceTemplateView;
use crate::manifest::template::TemplateTextPartView;
use crate::manifest::template::VolumeTemplateView;
use crate::manifest::template::WorkloadKind;
use crate::outcome;

verus! {

/// Whether a part of a text is the one that was sent.
pub open spec fn is_part(part: TemplateTextPartView, sent: pb::TemplateTextPartView) -> bool {
    match sent.kind {
        Some(pb::TemplateTextPartKindView::Literal(value)) => part
            == TemplateTextPartView::Literal(value),
        Some(pb::TemplateTextPartKindView::InstanceValue(field)) => part
            == TemplateTextPartView::InstanceValue(field),
        None => false,
    }
}

/// Whether a text is the one that was sent, part by part.
pub open spec fn is_text(
    text: Seq<TemplateTextPartView>,
    sent: Option<pb::TemplateTextView>,
) -> bool {
    &&& sent is Some
    &&& text.len() == sent->0.parts.len()
    &&& forall|i: int| 0 <= i < text.len() ==> is_part(#[trigger] text[i], sent->0.parts[i])
}

/// Whether a text, if there is one, is the one that was sent, if one was.
pub open spec fn is_optional_text(
    text: Option<Seq<TemplateTextPartView>>,
    sent: Option<pb::TemplateTextView>,
) -> bool {
    (text is None && sent is None) || (text is Some && is_text(text->0, sent))
}

/// Whether a text says something: it has parts, and each is of some kind.
pub open spec fn says(sent: pb::TemplateTextView) -> bool {
    sent.parts.len() > 0 && forall|i: int|
        0 <= i < sent.parts.len() ==> (#[trigger] sent.parts[i]).kind is Some
}

/// Whether a text was sent that says something.
pub open spec fn is_said(sent: Option<pb::TemplateTextView>) -> bool {
    sent is Some && says(sent->0)
}

/// Whether a text says something, if one was sent.
pub open spec fn is_said_if_sent(sent: Option<pb::TemplateTextView>) -> bool {
    sent is Some ==> says(sent->0)
}

proof fn lemma_text(sent: pb::TemplateTextView)
    ensures
        template::text_problem(sent) is None <==> says(sent),
        says(sent) ==> is_text(template::text_of(sent), Some(sent)),
{
    let problems = template::part_problems(sent.parts);
    outcome::lemma_no_first_problem(problems, 0);
    assert forall|i: int| 0 <= i < sent.parts.len() implies (#[trigger] problems[i]) is None == (
    sent.parts[i].kind is Some) by {}
    if template::text_problem(sent) is None {
        assert forall|i: int| 0 <= i < sent.parts.len() implies (
        #[trigger] sent.parts[i]).kind is Some by {
            assert(problems[i] is None);
        }
    }
    if says(sent) {
        assert forall|i: int| 0 <= i < problems.len() implies (#[trigger] problems[i]) is None by {
            assert(sent.parts[i].kind is Some);
        }
        let text = template::text_of(sent);
        assert forall|i: int| 0 <= i < text.len() implies is_part(
            #[trigger] text[i],
            sent.parts[i],
        ) by {
            assert(sent.parts[i].kind is Some);
        }
    }
}

proof fn lemma_required_text(sent: Option<pb::TemplateTextView>, field: Seq<char>)
    ensures
        template::required_text_problem(sent, field) is None <==> is_said(sent),
        is_said(sent) ==> is_text(template::text_of(sent->0), sent),
{
    if sent is Some {
        lemma_text(sent->0);
    }
}

proof fn lemma_optional_text(sent: Option<pb::TemplateTextView>)
    ensures
        template::optional_text_problem(sent) is None <==> is_said_if_sent(sent),
        is_said_if_sent(sent) ==> is_optional_text(template::optional_text_of(sent), sent),
{
    if sent is Some {
        lemma_text(sent->0);
    }
}

/// Whether all that a container needs was sent, and its ports are ports.
pub open spec fn is_container_complete(sent: pb::ContainerTemplateView) -> bool {
    &&& sent.name.len() > 0
    &&& is_said(sent.image)
    &&& forall|i: int| 0 <= i < sent.ports.len() ==> (#[trigger] sent.ports[i]).container_port <= 65535
    &&& forall|i: int|
        0 <= i < sent.env.len() ==> (#[trigger] sent.env[i]).name.len() > 0 && is_said(
            sent.env[i].value,
        )
}

/// Whether a container is the one that was sent.
pub open spec fn is_container(
    container: ContainerTemplateView,
    sent: pb::ContainerTemplateView,
) -> bool {
    &&& container.name == sent.name
    &&& is_text(container.image, sent.image)
    &&& container.ports.len() == sent.ports.len()
    &&& forall|i: int|
        0 <= i < sent.ports.len() ==> container.ports[i].name == (#[trigger] sent.ports[i]).name
            && container.ports[i].container_port == sent.ports[i].container_port
    &&& container.env.len() == sent.env.len()
    &&& forall|i: int|
        0 <= i < sent.env.len() ==> container.env[i].name == (#[trigger] sent.env[i]).name
            && is_text(container.env[i].value, sent.env[i].value)
}

proof fn lemma_container(sent: pb::ContainerTemplateView)
    ensures
        template::container_problem(sent) is None <==> is_container_complete(sent),
        is_container_complete(sent) ==> is_container(template::container_of(sent), sent),
{
    lemma_required_text(sent.image, "template.container.image"@);
    let ports = template::container_port_problems(sent.ports);
    outcome::lemma_no_first_problem(ports, 0);
    assert forall|i: int| 0 <= i < sent.ports.len() implies (#[trigger] ports[i]) is None == (
    sent.ports[i].container_port <= 65535) by {}
    let env = template::env_var_problems(sent.env);
    outcome::lemma_no_first_problem(env, 0);
    assert forall|i: int| 0 <= i < sent.env.len() implies (#[trigger] env[i]) is None == (
    sent.env[i].name.len() > 0 && is_said(sent.env[i].value)) && (is_said(sent.env[i].value)
        ==> is_text(template::env_var_of(sent.env[i]).value, sent.env[i].value)) by {
        lemma_required_text(sent.env[i].value, "template.container.env.value"@);
    }
    if template::container_problem(sent) is None {
        assert forall|i: int| 0 <= i < sent.ports.len() implies (
        #[trigger] sent.ports[i]).container_port <= 65535 by {
            assert(ports[i] is None);
        }
        assert forall|i: int| 0 <= i < sent.env.len() implies (#[trigger] sent.env[i]).name.len()
            > 0 && is_said(sent.env[i].value) by {
            assert(env[i] is None);
        }
    }
    if is_container_complete(sent) {
        assert forall|i: int| 0 <= i < ports.len() implies (#[trigger] ports[i]) is None by {
            assert(sent.ports[i].container_port <= 65535);
        }
        assert forall|i: int| 0 <= i < env.len() implies (#[trigger] env[i]) is None by {
            assert(sent.env[i].name.len() > 0);
        }
        let container = template::container_of(sent);
        assert forall|i: int| 0 <= i < sent.env.len() implies container.env[i].name == (
        #[trigger] sent.env[i]).name && is_text(container.env[i].value, sent.env[i].value) by {
            assert(env[i] is None);
        }
    }
}

/// Whether all that a service needs was sent, and its ports are ports.
pub open spec fn is_service_complete(sent: pb::ServiceTemplateView) -> bool {
    &&& is_said(sent.name)
    &&& forall|i: int|
        0 <= i < sent.ports.len() ==> (#[trigger] sent.ports[i]).port <= 65535
            && sent.ports[i].target_port <= 65535
}

/// Whether a service is the one that was sent.
pub open spec fn is_service(service: ServiceTemplateView, sent: pb::ServiceTemplateView) -> bool {
    &&& is_text(service.name, sent.name)
    &&& service.ports.len() == sent.ports.len()
    &&& forall|i: int|
        0 <= i < sent.ports.len() ==> service.ports[i].name == (#[trigger] sent.ports[i]).name
            && service.ports[i].port == sent.ports[i].port && service.ports[i].target_port
            == sent.ports[i].target_port
}

proof fn lemma_service(sent: pb::ServiceTemplateView)
    ensures
        template::service_problem(sent) is None <==> is_service_complete(sent),
        is_service_complete(sent) ==> is_service(template::service_of(sent), sent),
{
    lemma_required_text(sent.name, "template.service.name"@);
    let ports = template::service_port_problems(sent.ports);
    outcome::lemma_no_first_problem(ports, 0);
    assert forall|i: int| 0 <= i < sent.ports.len() implies (#[trigger] ports[i]) is None == (
    sent.ports[i].port <= 65535 && sent.ports[i].target_port <= 65535) by {}
    if template::service_problem(sent) is None {
        assert forall|i: int| 0 <= i < sent.ports.len() implies (#[trigger] sent.ports[i]).port
            <= 65535 && sent.ports[i].target_port <= 65535 by {
            assert(ports[i] is None);
        }
    }
    if is_service_complete(sent) {
        assert forall|i: int| 0 <= i < ports.len() implies (#[trigger] ports[i]) is None by {
            assert(sent.ports[i].port <= 65535);
        }
    }
}

/// Whether a secret, if there is one, is the one that was sent, if one was.
pub open spec fn is_secret(
    secret: Option<CsiSecretRefTemplateView>,
    sent: Option<pb::CsiSecretRefTemplateView>,
) -> bool {
    &&& secret is Some <==> sent is Some
    &&& secret is Some ==> is_text(secret->0.name, sent->0.name) && is_text(
        secret->0.namespace,
        sent->0.namespace,
    )
}

proof fn lemma_secret(
    sent: Option<pb::CsiSecretRefTemplateView>,
    name_field: Seq<char>,
    namespace_field: Seq<char>,
)
    ensures
        template::secret_problem(sent, name_field, namespace_field) is None <==> (sent is Some
            ==> is_said(sent->0.name) && is_said(sent->0.namespace)),
        template::secret_problem(sent, name_field, namespace_field) is None ==> is_secret(
            template::secret_of(sent),
            sent,
        ),
{
    if sent is Some {
        lemma_required_text(sent->0.name, name_field);
        lemma_required_text(sent->0.namespace, namespace_field);
    }
}

/// Whether attributes are those that were sent: each key that was sent has one, and each
/// is what was sent for its key.
pub open spec fn are_attributes(
    attributes: Map<Seq<char>, Seq<TemplateTextPartView>>,
    sent: Seq<pb::TextEntryView>,
) -> bool {
    &&& forall|i: int|
        0 <= i < sent.len() ==> attributes.contains_key((#[trigger] sent[i]).key)
    &&& forall|key: Seq<char>| #[trigger]
        attributes.contains_key(key) ==> exists|i: int|
            0 <= i < sent.len() && (#[trigger] sent[i]).key == key && is_text(
                attributes[key],
                Some(sent[i].value),
            )
}

proof fn lemma_attributes(sent: Seq<pb::TextEntryView>)
    requires
        forall|i: int| 0 <= i < sent.len() ==> says((#[trigger] sent[i]).value),
    ensures
        are_attributes(template::attributes_of(sent), sent),
    decreases sent.len(),
{
    if sent.len() > 0 {
        let before = sent.drop_last();
        let last = sent.last();
        assert forall|i: int| 0 <= i < before.len() implies says(
            (#[trigger] before[i]).value,
        ) by {
            assert(before[i] == sent[i]);
        }
        lemma_attributes(before);
        assert(template::attribute_pairs(sent).drop_last() =~= template::attribute_pairs(before));
        let attributes = template::attributes_of(sent);
        let earlier = template::attributes_of(before);
        assert(sent[sent.len() - 1] == last);
        lemma_text(last.value);
        assert(attributes == earlier.insert(last.key, template::text_of(last.value)));
        assert forall|i: int| 0 <= i < sent.len() implies attributes.contains_key(
            (#[trigger] sent[i]).key,
        ) by {
            if i < before.len() {
                assert(before[i] == sent[i]);
            }
        }
        assert forall|key: Seq<char>| #[trigger] attributes.contains_key(key) implies exists|
            i: int,
        |
            0 <= i < sent.len() && (#[trigger] sent[i]).key == key && is_text(
                attributes[key],
                Some(sent[i].value),
            ) by {
            if key == last.key {
                assert(is_text(attributes[key], Some(sent[sent.len() - 1].value)));
            } else {
                assert(earlier.contains_key(key));
                let i = choose|i: int|
                    0 <= i < before.len() && (#[trigger] before[i]).key == key && is_text(
                        earlier[key],
                        Some(before[i].value),
                    );
                assert(sent[i] == before[i]);
            }
        }
    }
}

/// Whether the source of a volume is the one that was sent.
pub open spec fn is_source(
    source: PersistentVolumeSourceTemplateView,
    sent: pb::PersistentVolumeSourceTemplateView,
) -> bool {
    match (source, sent.kind) {
        (
            PersistentVolumeSourceTemplateView::Csi {
                driver,
                volume_handle,
                fs_type,
                read_only,
                volume_attributes,
                controller_publish_secret_ref,
                node_stage_secret_ref,
                node_publish_secret_ref,
                controller_expand_secret_ref,
                node_expand_secret_ref,
            },
            Some(pb::PersistentVolumeSourceKindView::Csi(csi)),
        ) => {
            &&& is_text(driver, csi.driver)
            &&& is_text(volume_handle, csi.volume_handle)
            &&& is_optional_text(fs_type, csi.fs_type)
            &&& read_only == csi.read_only
            &&& are_attributes(volume_attributes, csi.volume_attributes)
            &&& is_secret(controller_publish_secret_ref, csi.controller_publish_secret_ref)
            &&& is_secret(node_stage_secret_ref, csi.node_stage_secret_ref)
            &&& is_secret(node_publish_secret_ref, csi.node_publish_secret_ref)
            &&& is_secret(controller_expand_secret_ref, csi.controller_expand_secret_ref)
            &&& is_secret(node_expand_secret_ref, csi.node_expand_secret_ref)
        },
        (
            PersistentVolumeSourceTemplateView::HostPath { path, type_ },
            Some(pb::PersistentVolumeSourceKindView::HostPath(host_path)),
        ) => is_text(path, host_path.path) && is_optional_text(type_, host_path.type_),
        _ => false,
    }
}

/// The source of a volume that passed is read as it was sent.
pub proof fn lemma_source_is_read_as_sent(sent: pb::PersistentVolumeSourceTemplateView)
    requires
        template::source_problem(sent) is None,
    ensures
        is_source(template::source_of(sent), sent),
{
    match sent.kind {
        Some(pb::PersistentVolumeSourceKindView::Csi(csi)) => {
            lemma_required_text(csi.driver, "template.volumes.source.csi.driver"@);
            lemma_required_text(csi.volume_handle, "template.volumes.source.csi.volume_handle"@);
            lemma_optional_text(csi.fs_type);
            let attributes = template::attribute_problems(csi.volume_attributes);
            outcome::lemma_no_first_problem(attributes, 0);
            assert forall|i: int| 0 <= i < csi.volume_attributes.len() implies says(
                (#[trigger] csi.volume_attributes[i]).value,
            ) by {
                assert(attributes[i] is None);
                lemma_text(csi.volume_attributes[i].value);
            }
            lemma_attributes(csi.volume_attributes);
            lemma_secret(
                csi.controller_publish_secret_ref,
                "template.volumes.source.csi.controller_publish_secret_ref.name"@,
                "template.volumes.source.csi.controller_publish_secret_ref.namespace"@,
            );
            lemma_secret(
                csi.node_stage_secret_ref,
                "template.volumes.source.csi.node_stage_secret_ref.name"@,
                "template.volumes.source.csi.node_stage_secret_ref.namespace"@,
            );
            lemma_secret(
                csi.node_publish_secret_ref,
                "template.volumes.source.csi.node_publish_secret_ref.name"@,
                "template.volumes.source.csi.node_publish_secret_ref.namespace"@,
            );
            lemma_secret(
                csi.controller_expand_secret_ref,
                "template.volumes.source.csi.controller_expand_secret_ref.name"@,
                "template.volumes.source.csi.controller_expand_secret_ref.namespace"@,
            );
            lemma_secret(
                csi.node_expand_secret_ref,
                "template.volumes.source.csi.node_expand_secret_ref.name"@,
                "template.volumes.source.csi.node_expand_secret_ref.namespace"@,
            );
        },
        Some(pb::PersistentVolumeSourceKindView::HostPath(host_path)) => {
            lemma_required_text(host_path.path, "template.volumes.source.host_path.path"@);
            lemma_optional_text(host_path.type_);
        },
        None => {},
    }
}

/// Whether an access mode is the one that was sent.
pub open spec fn is_mode(
    mode: PersistentVolumeAccessMode,
    sent: pb::PersistentVolumeAccessMode,
) -> bool {
    match sent {
        pb::PersistentVolumeAccessMode::ReadWriteOnce => mode
            == PersistentVolumeAccessMode::ReadWriteOnce,
        pb::PersistentVolumeAccessMode::ReadOnlyMany => mode
            == PersistentVolumeAccessMode::ReadOnlyMany,
        pb::PersistentVolumeAccessMode::ReadWriteMany => mode
            == PersistentVolumeAccessMode::ReadWriteMany,
        _ => false,
    }
}

/// Whether a volume is the one that was sent.
pub open spec fn is_volume(volume: VolumeTemplateView, sent: pb::VolumeTemplateView) -> bool {
    &&& volume.name == sent.name
    &&& is_text(volume.mount_path, sent.mount_path)
    &&& is_text(volume.pv_name, sent.pv_name)
    &&& is_text(volume.pvc_name, sent.pvc_name)
    &&& is_text(volume.capacity, sent.capacity)
    &&& is_optional_text(volume.storage_class_name, sent.storage_class_name)
    &&& volume.access_modes.len() == sent.access_modes.len()
    &&& forall|i: int|
        0 <= i < sent.access_modes.len() ==> is_mode(
            volume.access_modes[i],
            #[trigger] sent.access_modes[i],
        )
    &&& sent.reclaim_policy == pb::PersistentVolumeReclaimPolicy::Retain ==> volume.reclaim_policy
        == PersistentVolumeReclaimPolicy::Retain
    &&& sent.reclaim_policy == pb::PersistentVolumeReclaimPolicy::Delete ==> volume.reclaim_policy
        == PersistentVolumeReclaimPolicy::Delete
    &&& sent.source is Some
    &&& is_source(volume.source, sent.source->0)
}

/// A volume that passed is read as it was sent; it has a name, and every text, mode,
/// policy and source that it needs.
pub proof fn lemma_volume_is_read_as_sent(sent: pb::VolumeTemplateView)
    requires
        template::volume_problem(sent) is None,
    ensures
        is_volume(template::volume_of(sent), sent),
        sent.name.len() > 0,
        sent.reclaim_policy == pb::PersistentVolumeReclaimPolicy::Retain || sent.reclaim_policy
            == pb::PersistentVolumeReclaimPolicy::Delete,
{
    lemma_required_text(sent.mount_path, "template.volumes.mount_path"@);
    lemma_required_text(sent.pv_name, "template.volumes.pv_name"@);
    lemma_required_text(sent.pvc_name, "template.volumes.pvc_name"@);
    lemma_required_text(sent.capacity, "template.volumes.capacity"@);
    lemma_optional_text(sent.storage_class_name);
    lemma_source_is_read_as_sent(sent.source->0);
    let modes = template::access_mode_problems(sent.access_modes);
    outcome::lemma_no_first_problem(modes, 0);
    let volume = template::volume_of(sent);
    assert forall|i: int| 0 <= i < sent.access_modes.len() implies is_mode(
        volume.access_modes[i],
        #[trigger] sent.access_modes[i],
    ) by {
        assert(modes[i] is None);
        assert(modes[i] == template::access_mode_problem(sent.access_modes[i]));
    }
}

/// Whether a template is the one that was sent.
pub open spec fn is_template(read: ManifestTemplateView, sent: pb::ManifestTemplateView) -> bool {
    &&& sent.workload is Some
    &&& sent.workload->0.kind == pb::WorkloadKind::Deployment ==> read.workload.kind
        == WorkloadKind::Deployment
    &&& sent.workload->0.kind == pb::WorkloadKind::StatefulSet ==> read.workload.kind
        == WorkloadKind::StatefulSet
    &&& is_text(read.workload.name, sent.workload->0.name)
    &&& read.workload.replicas == sent.workload->0.replicas
    &&& sent.workload->0.app_container is Some
    &&& is_container(read.workload.app_container, sent.workload->0.app_container->0)
    &&& sent.sidecar is Some
    &&& read.sidecar.name == sent.sidecar->0.name
    &&& is_text(read.sidecar.image, sent.sidecar->0.image)
    &&& read.sidecar.listen_port == sent.sidecar->0.listen_port
    &&& read.sidecar.mode == sent.sidecar->0.mode
    &&& read.service is Some <==> sent.service is Some
    &&& read.service is Some ==> is_service(read.service->0, sent.service->0)
    &&& read.volumes.len() == sent.volumes.len()
    &&& forall|i: int|
        0 <= i < sent.volumes.len() ==> is_volume(read.volumes[i], #[trigger] sent.volumes[i])
    &&& read.raw_objects.len() == sent.raw_objects.len()
    &&& forall|i: int|
        0 <= i < sent.raw_objects.len() ==> is_text(
            read.raw_objects[i].manifest,
            (#[trigger] sent.raw_objects[i]).manifest,
        )
}

/// A template that passed is read as it was sent, field by field.
pub proof fn lemma_template_is_read_as_sent(sent: pb::ManifestTemplateView)
    requires
        template::manifest_template_problem(sent) is None,
    ensures
        is_template(template::manifest_template_of(sent), sent),
{
    let workload = sent.workload->0;
    lemma_required_text(workload.name, "template.workload.name"@);
    lemma_container(workload.app_container->0);
    lemma_required_text(sent.sidecar->0.image, "template.sidecar.image"@);
    if sent.service is Some {
        lemma_service(sent.service->0);
    }
    let read = template::manifest_template_of(sent);
    let volumes = template::volume_problems(sent.volumes);
    outcome::lemma_no_first_problem(volumes, 0);
    assert forall|i: int| 0 <= i < sent.volumes.len() implies is_volume(
        read.volumes[i],
        #[trigger] sent.volumes[i],
    ) by {
        assert(volumes[i] is None);
        lemma_volume_is_read_as_sent(sent.volumes[i]);
    }
    let raw_objects = template::raw_object_problems(sent.raw_objects);
    outcome::lemma_no_first_problem(raw_objects, 0);
    assert forall|i: int| 0 <= i < sent.raw_objects.len() implies is_text(
        read.raw_objects[i].manifest,
        (#[trigger] sent.raw_objects[i]).manifest,
    ) by {
        assert(raw_objects[i] is None);
        lemma_required_text(sent.raw_objects[i].manifest, "template.raw_objects.manifest"@);
    }
}

/// A template without volumes and raw objects passes if and only if its kind is one, its
/// names and images say something, its containers, its sidecar and its service are
/// complete, and every port is one.
pub proof fn lemma_complete_template_passes(sent: pb::ManifestTemplateView)
    requires
        sent.volumes.len() == 0,
        sent.raw_objects.len() == 0,
    ensures
        template::manifest_template_problem(sent) is None <==> {
            &&& sent.workload is Some
            &&& sent.workload->0.kind == pb::WorkloadKind::Deployment || sent.workload->0.kind
                == pb::WorkloadKind::StatefulSet
            &&& is_said(sent.workload->0.name)
            &&& sent.workload->0.app_container is Some
            &&& is_container_complete(sent.workload->0.app_container->0)
            &&& sent.sidecar is Some
            &&& sent.sidecar->0.name.len() > 0
            &&& is_said(sent.sidecar->0.image)
            &&& sent.sidecar->0.listen_port <= 65535
            &&& sent.service is Some ==> is_service_complete(sent.service->0)
        },
{
    let workload = sent.workload->0;
    lemma_required_text(workload.name, "template.workload.name"@);
    lemma_container(workload.app_container->0);
    lemma_required_text(sent.sidecar->0.image, "template.sidecar.image"@);
    lemma_service(sent.service->0);
}

} // verus!

//! What is rendered and what is refused.
use vstd::prelude::*;

use super::render;
use super::template;
use super::template::ContainerTemplateView;
use super::template::ManifestTemplateView;
use super::template::PersistentVolumeAccessMode;
use super::template::PersistentVolumeSourceTemplate;
use super::template::TemplateTextPartView;
use super::template::VolumeTemplate;
use super::template::WorkloadKind;
use super::RenderManifestRequest;
use crate::instance::InstanceRecord;
use crate::kubernetes_name;
use crate::outcome;
use crate::text;

verus! {

/// Whether a text has all the values that it needs.
pub open spec fn renders(
    parts: Seq<TemplateTextPartView>,
    values: Map<Seq<char>, Seq<char>>,
) -> bool {
    template::rendered_text(parts, values) is Ok
}

/// Whether a text has all the values that it needs and comes to more than white space.
pub open spec fn says(
    parts: Seq<TemplateTextPartView>,
    values: Map<Seq<char>, Seq<char>>,
) -> bool {
    renders(parts, values) && !text::is_blank(template::rendered_text(parts, values)->Ok_0)
}

/// Whether a text that may be left out is, or says something.
pub open spec fn says_if_given(
    parts: Option<Seq<TemplateTextPartView>>,
    values: Map<Seq<char>, Seq<char>>,
) -> bool {
    parts is Some ==> says(parts->0, values)
}

/// Whether a text comes to a DNS label.
pub open spec fn names(
    parts: Seq<TemplateTextPartView>,
    values: Map<Seq<char>, Seq<char>>,
) -> bool {
    says(parts, values) && kubernetes_name::dns_label(
        template::rendered_text(parts, values)->Ok_0,
    )
}

/// Whether a text comes to an absolute path.
pub open spec fn leads(
    parts: Seq<TemplateTextPartView>,
    values: Map<Seq<char>, Seq<char>>,
) -> bool {
    says(parts, values) && template::rendered_text(parts, values)->Ok_0.len() > 0
        && template::rendered_text(parts, values)->Ok_0[0] == '/'
}

proof fn lemma_leads(
    field: Seq<char>,
    what: Seq<char>,
    parts: Seq<TemplateTextPartView>,
    values: Map<Seq<char>, Seq<char>>,
)
    ensures
        says(parts, values) ==> (leads(parts, values) <==> render::absolute_problem(
            field,
            what,
            template::parts_text(parts, values),
        ) is None),
{
    reveal_strlit("/");
    let path = template::parts_text(parts, values);
    if path.len() > 0 {
        assert("/"@ =~= seq!['/']);
        if path[0] == '/' {
            assert(path.take(1) =~= "/"@);
        } else if text::has_prefix(path, "/"@) {
            assert(path.take(1)[0] == '/');
        }
    }
}

/// Whether there are access modes, and none is given twice.
pub open spec fn are_modes(modes: Seq<PersistentVolumeAccessMode>) -> bool {
    modes.len() > 0 && modes.no_duplicates()
}

/// Whether the source of a volume can be rendered.
pub open spec fn is_source_in_order(
    source: PersistentVolumeSourceTemplate,
    values: Map<Seq<char>, Seq<char>>,
) -> bool {
    match source {
        PersistentVolumeSourceTemplate::Csi {
            driver,
            volume_handle,
            fs_type,
            volume_attributes,
            ..
        } => {
            &&& says(driver.deep_view(), values)
            &&& says(volume_handle.deep_view(), values)
            &&& says_if_given(fs_type.deep_view(), values)
            &&& forall|i: int|
                0 <= i < volume_attributes.pairs().len() ==> says(
                    (#[trigger] volume_attributes.pairs()[i]).1,
                    values,
                )
        },
        PersistentVolumeSourceTemplate::HostPath { path, type_ } => leads(
            path.deep_view(),
            values,
        ) && says_if_given(type_.deep_view(), values),
    }
}

proof fn lemma_source(
    source: PersistentVolumeSourceTemplate,
    values: Map<Seq<char>, Seq<char>>,
)
    ensures
        render::source_problem(source, values) is None <==> is_source_in_order(source, values),
{
    match source {
        PersistentVolumeSourceTemplate::Csi { volume_attributes, .. } => {
            let pairs = volume_attributes.pairs();
            let problems = render::attribute_problems(pairs, values);
            outcome::lemma_no_first_problem(problems, 0);
            assert forall|i: int| 0 <= i < pairs.len() implies (#[trigger] problems[i]) is None
                == says(pairs[i].1, values) by {}
            if outcome::first_problem(problems, 0) is None {
                assert forall|i: int| 0 <= i < pairs.len() implies says(
                    (#[trigger] pairs[i]).1,
                    values,
                ) by {
                    assert(problems[i] is None);
                }
            } else {
                let i = choose|i: int| 0 <= i < problems.len() && (#[trigger] problems[i]) is Some;
                assert(!says(pairs[i].1, values));
            }
        },
        PersistentVolumeSourceTemplate::HostPath { path, .. } => {
            lemma_leads(
                "volume.source.host_path.path"@,
                "hostPath path "@,
                path.deep_view(),
                values,
            );
        },
    }
}

/// Whether a volume can be rendered.
pub open spec fn is_volume_in_order(
    volume: VolumeTemplate,
    values: Map<Seq<char>, Seq<char>>,
) -> bool {
    let view = volume.deep_view();
    &&& kubernetes_name::dns_label(view.name)
    &&& are_modes(view.access_modes)
    &&& leads(view.mount_path, values)
    &&& names(view.pv_name, values)
    &&& names(view.pvc_name, values)
    &&& says(view.capacity, values)
    &&& says_if_given(view.storage_class_name, values)
    &&& is_source_in_order(volume.source, values)
}

/// A volume is refused if and only if one of its texts lacks a value or says nothing, a
/// name is no DNS label, a path is not absolute, or its access modes are none or not
/// different.
pub proof fn lemma_volume_in_order_passes(
    volume: VolumeTemplate,
    values: Map<Seq<char>, Seq<char>>,
)
    ensures
        render::volume_problem(volume, values) is None <==> is_volume_in_order(volume, values),
{
    let view = volume.deep_view();
    lemma_source(volume.source, values);
    lemma_leads("volume.mount_path"@, "mount path "@, view.mount_path, values);
    if render::distinct_modes(view.access_modes) {
        assert(view.access_modes.no_duplicates());
    }
}

/// Whether the application container can be rendered.
pub open spec fn is_container_in_order(
    container: ContainerTemplateView,
    values: Map<Seq<char>, Seq<char>>,
) -> bool {
    &&& kubernetes_name::dns_label(container.name)
    &&& says(container.image, values)
    &&& forall|i: int|
        0 <= i < container.ports.len() ==> (#[trigger] container.ports[i]).container_port > 0
    &&& forall|i: int|
        0 <= i < container.env.len() ==> renders((#[trigger] container.env[i]).value, values)
}

proof fn lemma_container(container: ContainerTemplateView, values: Map<Seq<char>, Seq<char>>)
    ensures
        render::app_container_problem(container, values) is None <==> is_container_in_order(
            container,
            values,
        ),
{
    let ports = render::container_port_problems(container.ports);
    outcome::lemma_no_first_problem(ports, 0);
    let env = render::env_problems(container.env, values);
    outcome::lemma_no_first_problem(env, 0);
    assert forall|i: int| 0 <= i < container.ports.len() implies (#[trigger] ports[i]) is None == (
    container.ports[i].container_port > 0) by {}
    assert forall|i: int| 0 <= i < container.env.len() implies (#[trigger] env[i]) is None
        == renders(container.env[i].value, values) by {}
    if render::app_container_problem(container, values) is None {
        assert forall|i: int| 0 <= i < container.ports.len() implies (
        #[trigger] container.ports[i]).container_port > 0 by {
            assert(ports[i] is None);
        }
        assert forall|i: int| 0 <= i < container.env.len() implies renders(
            (#[trigger] container.env[i]).value,
            values,
        ) by {
            assert(env[i] is None);
        }
    }
    if is_container_in_order(container, values) {
        assert forall|i: int| 0 <= i < ports.len() implies (#[trigger] ports[i]) is None by {
            assert(container.ports[i].container_port > 0);
        }
        assert forall|i: int| 0 <= i < env.len() implies (#[trigger] env[i]) is None by {
            assert(renders(container.env[i].value, values));
        }
    }
}

/// Whether the sidecar can stand between the service and the application: the service has
/// one port, it leads to a port that the application opens, and that is not the sidecar's.
pub open spec fn is_sidecar_in_order(
    template: ManifestTemplateView,
    values: Map<Seq<char>, Seq<char>>,
) -> bool {
    &&& template.sidecar.listen_port > 0
    &&& kubernetes_name::dns_label(template.sidecar.name)
    &&& says(template.sidecar.image, values)
    &&& template.service is Some
    &&& names(template.service->0.name, values)
    &&& template.service->0.ports.len() == 1
    &&& template.service->0.ports[0].port > 0
    &&& template.service->0.ports[0].target_port > 0
    &&& template.service->0.ports[0].target_port != template.sidecar.listen_port
    &&& exists|i: int|
        0 <= i < template.workload.app_container.ports.len() && (
        #[trigger] template.workload.app_container.ports[i]).container_port
            == template.service->0.ports[0].target_port
}

/// Whether what an instance is labelled with may be a label.
pub open spec fn are_labels(instance: InstanceRecord, workload_name: Seq<char>) -> bool {
    &&& kubernetes_name::label_value(instance.id@)
    &&& kubernetes_name::label_value(text::decimal(instance.generation@))
    &&& kubernetes_name::label_value(instance.workload_class.class_id@)
    &&& kubernetes_name::label_value(text::decimal(instance.workload_class.version@))
    &&& kubernetes_name::label_value(workload_name)
}

/// A manifest is rendered if and only if its namespace and names are DNS labels, its
/// labels may be labels, its volumes, its application and its sidecar are in order, and a
/// stateful set does not ask for more than one replica.
pub proof fn lemma_request_in_order_is_rendered(request: RenderManifestRequest<'_>)
    ensures
        ({
            let template = request.template.deep_view();
            let values = request.instance.values.deep_view();
            render::rendered_manifest(request) is Ok <==> {
                &&& kubernetes_name::dns_label(request.namespace@)
                &&& names(template.workload.name, values)
                &&& are_labels(
                    *request.instance,
                    template::rendered_text(template.workload.name, values)->Ok_0,
                )
                &&& is_sidecar_in_order(template, values)
                &&& forall|i: int|
                    0 <= i < request.template.volumes@.len() ==> is_volume_in_order(
                        #[trigger] request.template.volumes@[i],
                        values,
                    )
                &&& is_container_in_order(template.workload.app_container, values)
                &&& template.workload.kind == WorkloadKind::StatefulSet
                    && template.workload.replicas is Some ==> template.workload.replicas->0 <= 1
            }
        }),
{
    let template = request.template.deep_view();
    let values = request.instance.values.deep_view();
    let app = template.workload.app_container;
    lemma_container(app, values);
    let volumes = render::volume_problems(request.template.volumes@, values);
    outcome::lemma_no_first_problem(volumes, 0);
    assert forall|i: int| 0 <= i < volumes.len() implies (#[trigger] volumes[i]) is None
        == is_volume_in_order(request.template.volumes@[i], values) by {
        lemma_volume_in_order_passes(request.template.volumes@[i], values);
    }
    if outcome::first_problem(volumes, 0) is None {
        assert forall|i: int|
            0 <= i < request.template.volumes@.len() implies is_volume_in_order(
            #[trigger] request.template.volumes@[i],
            values,
        ) by {
            assert(volumes[i] is None);
        }
    } else {
        let i = choose|i: int| 0 <= i < volumes.len() && (#[trigger] volumes[i]) is Some;
        assert(!is_volume_in_order(request.template.volumes@[i], values));
    }
    if template.service is Some {
        let service = template.service->0;
        let ports = render::service_port_problems(service.ports);
        outcome::lemma_no_first_problem(ports, 0);
        if service.ports.len() == 1 {
            assert(ports.len() == 1);
            assert(ports[0] is None == (service.ports[0].port > 0 && service.ports[0].target_port
                > 0));
            if ports[0] is None {
                assert forall|i: int| 0 <= i < ports.len() implies (
                #[trigger] ports[i]) is None by {
                    assert(i == 0);
                }
            }
            let target = service.ports[0].target_port;
            if is_container_in_order(app, values) {
                assert(!render::opens_port(app.ports, 0)) by {
                    if render::opens_port(app.ports, 0) {
                        let i = choose|i: int|
                            0 <= i < app.ports.len() && (#[trigger] app.ports[i]).container_port
                                == 0;
                        assert(app.ports[i].container_port > 0);
                    }
                }
            }
            if render::opens_port(app.ports, target) {
                let i = choose|i: int|
                    0 <= i < app.ports.len() && (#[trigger] app.ports[i]).container_port == target;
                assert(template.workload.app_container.ports[i].container_port == target);
            }
        }
    }
}

} // verus!

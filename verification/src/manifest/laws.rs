//! What holds of every manifest that is rendered.
use vstd::prelude::*;

use super::objects::ApplyOrder;
use super::objects::EnvVarView;
use super::objects::KubernetesObjectView;
use super::objects::PodTemplateSpecView;
use super::objects::RenderedManifestObjectView;
use super::render;
use super::template;
use super::template::PersistentVolumeSourceTemplateView;
use super::template::WorkloadKind;
use super::ManifestRenderErrorView;
use super::RenderManifestRequest;
use super::ANNOTATION_TEMPLATE_GENERATION;
use super::LABEL_INSTANCE_GENERATION;
use super::LABEL_INSTANCE_ID;
use super::LABEL_WORKLOAD_CLASS_ID;
use super::LABEL_WORKLOAD_CLASS_VERSION;
use super::LABEL_WORKLOAD_NAME;
use crate::kubernetes_name;
use crate::outcome;
use crate::string_map;
use crate::text;

verus! {

/// The objects that a request renders to.
pub open spec fn objects_of(request: RenderManifestRequest<'_>) -> Seq<RenderedManifestObjectView> {
    render::rendered_manifest(request)->Ok_0.objects
}

/// How many kinds of objects are applied before those of an order.
pub open spec fn rank(order: ApplyOrder) -> int {
    match order {
        ApplyOrder::PersistentVolume => 0,
        ApplyOrder::PersistentVolumeClaim => 1,
        ApplyOrder::Service => 2,
        ApplyOrder::Workload => 3,
    }
}

/// The name of an object.
pub open spec fn name_of(object: KubernetesObjectView) -> Seq<char> {
    match object {
        KubernetesObjectView::Deployment(object) => object.metadata.name,
        KubernetesObjectView::StatefulSet(object) => object.metadata.name,
        KubernetesObjectView::Service(object) => object.metadata.name,
        KubernetesObjectView::PersistentVolume(object) => object.metadata.name,
        KubernetesObjectView::PersistentVolumeClaim(object) => object.metadata.name,
    }
}

/// The pods of a workload; other objects have none.
pub open spec fn pods_of(object: KubernetesObjectView) -> Option<PodTemplateSpecView> {
    match object {
        KubernetesObjectView::Deployment(object) => Some(object.spec.template),
        KubernetesObjectView::StatefulSet(object) => Some(object.spec.template),
        _ => None,
    }
}

/// The labels by which an object selects pods; some select none.
pub open spec fn selector_of(object: KubernetesObjectView) -> Option<Map<Seq<char>, Seq<char>>> {
    match object {
        KubernetesObjectView::Deployment(object) => Some(object.spec.selector.match_labels),
        KubernetesObjectView::StatefulSet(object) => Some(object.spec.selector.match_labels),
        KubernetesObjectView::Service(object) => Some(object.spec.selector),
        _ => None,
    }
}

/// A sequence without a first problem has none at all.
proof fn lemma_no_problem<E>(problems: Seq<Option<E>>, from: int, i: int)
    requires
        0 <= from <= i < problems.len(),
        outcome::first_problem(problems, from) is None,
    ensures
        problems[i] is None,
    decreases i - from,
{
    if from < i {
        lemma_no_problem(problems, from + 1, i);
    }
}

/// How many volumes a request has.
pub open spec fn volume_count(request: RenderManifestRequest<'_>) -> int {
    request.template.volumes@.len() as int
}

/// A manifest holds a volume and a claim for each volume of the template, one
/// service and one workload.
pub proof fn lemma_manifest_is_complete(request: RenderManifestRequest<'_>)
    requires
        render::rendered_manifest(request) is Ok,
    ensures
        objects_of(request).len() == 2 * volume_count(request) + 2,
        objects_of(request)[2 * volume_count(request)].object is Service,
        pods_of(objects_of(request).last().object) == Some(render::rendered_pod_template(request)),
{
}

/// Objects come in the order in which they are applied.
pub proof fn lemma_objects_are_in_apply_order(
    request: RenderManifestRequest<'_>,
    i: int,
    j: int,
)
    requires
        render::rendered_manifest(request) is Ok,
        0 <= i <= j < objects_of(request).len(),
    ensures
        rank(objects_of(request)[i].apply_order) <= rank(objects_of(request)[j].apply_order),
{
}

/// Every object has a name that is a DNS label.
pub proof fn lemma_names_are_dns_labels(request: RenderManifestRequest<'_>, i: int)
    requires
        render::rendered_manifest(request) is Ok,
        0 <= i < objects_of(request).len(),
    ensures
        kubernetes_name::dns_label(name_of(objects_of(request)[i].object)),
{
    let n = volume_count(request);
    let values = request.instance.values.deep_view();
    if i < 2 * n {
        let at = if i < n {
            i
        } else {
            i - n
        };
        let problems = render::volume_problems(request.template.volumes@, values);
        lemma_no_problem(problems, 0, at);
        assert(problems[at] == render::volume_problem(request.template.volumes@[at], values));
    }
}

/// Whatever selects pods selects those of the workload, and does so for every
/// generation of the instance.
pub proof fn lemma_pods_are_selected(request: RenderManifestRequest<'_>, i: int)
    requires
        render::rendered_manifest(request) is Ok,
        0 <= i < objects_of(request).len(),
        selector_of(objects_of(request)[i].object) is Some,
    ensures
        selector_of(objects_of(request)[i].object)->0.submap_of(
            render::rendered_pod_template(request).metadata.labels,
        ),
        !selector_of(objects_of(request)[i].object)->0.contains_key(LABEL_INSTANCE_GENERATION@),
{
    lemma_labels_differ();
}

/// What comes to the service goes to the sidecar, which has a port of its own, and
/// from there to a port that the application opens.
pub proof fn lemma_traffic_goes_through_the_sidecar(request: RenderManifestRequest<'_>, i: int)
    requires
        render::rendered_manifest(request) is Ok,
        0 <= i < objects_of(request).len(),
    ensures
        objects_of(request)[i].object matches KubernetesObjectView::Service(service) ==> {
            let ports = render::sidecar_ports(request.template.deep_view());
            let containers = render::rendered_pod_template(request).spec.containers;
            &&& service.spec.ports.len() == 1
            &&& service.spec.ports[0].target_port == ports.listen_port
            &&& containers[1].ports.len() == 1
            &&& containers[1].ports[0].container_port == ports.listen_port
            &&& ports.app_port != ports.listen_port
            &&& exists|k: int|
                0 <= k < containers[0].ports.len() && (#[trigger] containers[0].ports[k]).container_port
                    == ports.app_port
        },
{
    let template = request.template.deep_view();
    let ports = template.workload.app_container.ports;
    let app_port = render::sidecar_ports(template).app_port;
    if render::opens_port(ports, 0) {
        let k = choose|k: int|
            0 <= k < ports.len() && (#[trigger] ports[k]).container_port == 0;
        let problems = render::container_port_problems(ports);
        lemma_no_problem(problems, 0, k);
        assert(problems[k] == render::port_problem(
            "container.ports.container_port"@,
            ports[k].container_port,
        ));
    }
    let k = choose|k: int|
        0 <= k < ports.len() && (#[trigger] ports[k]).container_port == app_port;
    let containers = render::rendered_pod_template(request).spec.containers;
    assert(containers[0].ports[k].container_port == ports[k].container_port);
}

/// The pods use the claim of each volume, the claim names the volume, and the volume
/// is kept for the claim.
pub proof fn lemma_volumes_are_claimed(request: RenderManifestRequest<'_>, k: int)
    requires
        render::rendered_manifest(request) is Ok,
        0 <= k < volume_count(request),
    ensures
        ({
            let pods = render::rendered_pod_template(request).spec;
            let volume = objects_of(request)[k].object->PersistentVolume_0;
            let claim =
                objects_of(request)[volume_count(request) + k].object->PersistentVolumeClaim_0;
            &&& objects_of(request)[k].object is PersistentVolume
            &&& objects_of(request)[volume_count(request) + k].object is PersistentVolumeClaim
            &&& volume.spec.claim_ref.name == claim.metadata.name
            &&& Some(volume.spec.claim_ref.namespace) == claim.metadata.namespace
            &&& claim.spec.volume_name == volume.metadata.name
            &&& pods.volumes[k].persistent_volume_claim.claim_name == claim.metadata.name
            &&& pods.containers[0].volume_mounts[k].name == pods.volumes[k].name
        }),
{
}

/// The service by which the pods of a stateful set are named is the service of the
/// same manifest.
pub proof fn lemma_stateful_set_is_governed_by_its_service(
    request: RenderManifestRequest<'_>,
    i: int,
    j: int,
)
    requires
        render::rendered_manifest(request) is Ok,
        0 <= i < objects_of(request).len(),
        0 <= j < objects_of(request).len(),
        objects_of(request)[i].object is StatefulSet,
        objects_of(request)[j].object is Service,
    ensures
        objects_of(request)[i].object->StatefulSet_0.spec.service_name
            == objects_of(request)[j].object->Service_0.metadata.name,
{
}

/// The namespace of an object; some have none.
pub open spec fn namespace_of(object: KubernetesObjectView) -> Option<Seq<char>> {
    match object {
        KubernetesObjectView::Deployment(object) => object.metadata.namespace,
        KubernetesObjectView::StatefulSet(object) => object.metadata.namespace,
        KubernetesObjectView::Service(object) => object.metadata.namespace,
        KubernetesObjectView::PersistentVolume(object) => object.metadata.namespace,
        KubernetesObjectView::PersistentVolumeClaim(object) => object.metadata.namespace,
    }
}

/// The labels of an object.
pub open spec fn labels_of(object: KubernetesObjectView) -> Map<Seq<char>, Seq<char>> {
    match object {
        KubernetesObjectView::Deployment(object) => object.metadata.labels,
        KubernetesObjectView::StatefulSet(object) => object.metadata.labels,
        KubernetesObjectView::Service(object) => object.metadata.labels,
        KubernetesObjectView::PersistentVolume(object) => object.metadata.labels,
        KubernetesObjectView::PersistentVolumeClaim(object) => object.metadata.labels,
    }
}

/// The annotations of an object.
pub open spec fn annotations_of(object: KubernetesObjectView) -> Map<Seq<char>, Seq<char>> {
    match object {
        KubernetesObjectView::Deployment(object) => object.metadata.annotations,
        KubernetesObjectView::StatefulSet(object) => object.metadata.annotations,
        KubernetesObjectView::Service(object) => object.metadata.annotations,
        KubernetesObjectView::PersistentVolume(object) => object.metadata.annotations,
        KubernetesObjectView::PersistentVolumeClaim(object) => object.metadata.annotations,
    }
}

/// How many pods a workload asks for.
pub open spec fn replicas_of(object: KubernetesObjectView) -> Option<u32> {
    match object {
        KubernetesObjectView::Deployment(object) => Some(object.spec.replicas),
        KubernetesObjectView::StatefulSet(object) => Some(object.spec.replicas),
        _ => None,
    }
}

/// Whether an environment gives a variable a value.
pub open spec fn sets(env: Seq<EnvVarView>, name: Seq<char>, value: Seq<char>) -> bool {
    exists|k: int| 0 <= k < env.len() && (#[trigger] env[k]).name == name && env[k].value == value
}

/// A manifest says for which generations of the instance and of the template it is.
pub proof fn lemma_manifest_names_its_generations(request: RenderManifestRequest<'_>)
    requires
        render::rendered_manifest(request) is Ok,
    ensures
        render::rendered_manifest(request)->Ok_0.instance_generation
            == request.instance.generation@,
        request.template_generation is None
            <==> render::rendered_manifest(request)->Ok_0.template_generation is None,
        request.template_generation matches Some(generation) ==> render::rendered_manifest(
            request,
        )->Ok_0.template_generation == Some(generation@),
{
}

/// The service and the workload are called what the template calls them, with the
/// values of the instance. The workload is of the kind that the template names and has
/// as many pods as it says, one where it says nothing.
pub proof fn lemma_objects_are_named_by_the_template(request: RenderManifestRequest<'_>, i: int)
    requires
        render::rendered_manifest(request) is Ok,
        0 <= i < objects_of(request).len(),
    ensures
        ({
            let template = request.template.deep_view();
            let values = request.instance.values.deep_view();
            let object = objects_of(request)[i].object;
            &&& object is Service ==> template.service is Some && template::rendered_text(
                template.service->0.name,
                values,
            ) == Ok::<Seq<char>, ManifestRenderErrorView>(name_of(object))
            &&& pods_of(object) is Some ==> {
                &&& template::rendered_text(template.workload.name, values) == Ok::<
                    Seq<char>,
                    ManifestRenderErrorView,
                >(name_of(object))
                &&& (object is Deployment) == (template.workload.kind
                    == WorkloadKind::Deployment)
                &&& (object is StatefulSet) == (template.workload.kind
                    == WorkloadKind::StatefulSet)
                &&& template.workload.replicas is Some ==> replicas_of(object)
                    == template.workload.replicas
                &&& template.workload.replicas is None ==> replicas_of(object) == Some(1u32)
            }
        }),
{
}

/// Everything but the volumes themselves lives in the namespace of the request.
pub proof fn lemma_objects_live_in_the_namespace(request: RenderManifestRequest<'_>, i: int)
    requires
        render::rendered_manifest(request) is Ok,
        0 <= i < objects_of(request).len(),
    ensures
        objects_of(request)[i].object is PersistentVolume ==> namespace_of(
            objects_of(request)[i].object,
        ) is None,
        !(objects_of(request)[i].object is PersistentVolume) ==> namespace_of(
            objects_of(request)[i].object,
        ) == Some(request.namespace@),
{
}

/// The labels of every object, and of the pods, tell the instance and its generation,
/// the class and its version, and the workload of the manifest.
pub proof fn lemma_labels_tell_whose_an_object_is(
    request: RenderManifestRequest<'_>,
    i: int,
    j: int,
)
    requires
        render::rendered_manifest(request) is Ok,
        0 <= i < objects_of(request).len(),
        0 <= j < objects_of(request).len(),
        pods_of(objects_of(request)[j].object) is Some,
    ensures
        ({
            let labels = labels_of(objects_of(request)[i].object);
            let workload = objects_of(request)[j].object;
            &&& labels.dom() == set![
                LABEL_INSTANCE_ID@,
                LABEL_INSTANCE_GENERATION@,
                LABEL_WORKLOAD_CLASS_ID@,
                LABEL_WORKLOAD_CLASS_VERSION@,
                LABEL_WORKLOAD_NAME@,
            ]
            &&& labels[LABEL_INSTANCE_ID@] == request.instance.id@
            &&& labels[LABEL_INSTANCE_GENERATION@] == text::decimal(request.instance.generation@)
            &&& labels[LABEL_WORKLOAD_CLASS_ID@] == request.instance.workload_class.class_id@
            &&& labels[LABEL_WORKLOAD_CLASS_VERSION@] == text::decimal(
                request.instance.workload_class.version@,
            )
            &&& labels[LABEL_WORKLOAD_NAME@] == name_of(workload)
            &&& pods_of(workload)->0.metadata.labels == labels
        }),
{
    lemma_labels_differ();
    let labels = labels_of(objects_of(request)[i].object);
    assert(labels.dom() =~= set![
        LABEL_INSTANCE_ID@,
        LABEL_INSTANCE_GENERATION@,
        LABEL_WORKLOAD_CLASS_ID@,
        LABEL_WORKLOAD_CLASS_VERSION@,
        LABEL_WORKLOAD_NAME@,
    ]);
}

proof fn lemma_labels_differ()
    ensures
        LABEL_INSTANCE_ID@.len() == 25,
        LABEL_INSTANCE_GENERATION@.len() == 33,
        LABEL_WORKLOAD_CLASS_ID@.len() == 31,
        LABEL_WORKLOAD_CLASS_VERSION@.len() == 36,
        LABEL_WORKLOAD_NAME@.len() == 27,
{
    reveal_strlit("sleepypods.io/instance-id");
    reveal_strlit("sleepypods.io/instance-generation");
    reveal_strlit("sleepypods.io/workload-class-id");
    reveal_strlit("sleepypods.io/workload-class-version");
    reveal_strlit("sleepypods.io/workload-name");
}

/// Pods are selected by the instance and the workload, and by nothing else.
pub proof fn lemma_selectors_name_instance_and_workload(
    request: RenderManifestRequest<'_>,
    i: int,
    j: int,
)
    requires
        render::rendered_manifest(request) is Ok,
        0 <= i < objects_of(request).len(),
        0 <= j < objects_of(request).len(),
        selector_of(objects_of(request)[i].object) is Some,
        pods_of(objects_of(request)[j].object) is Some,
    ensures
        ({
            let selector = selector_of(objects_of(request)[i].object)->0;
            &&& selector.dom() == set![LABEL_INSTANCE_ID@, LABEL_WORKLOAD_NAME@]
            &&& selector[LABEL_INSTANCE_ID@] == request.instance.id@
            &&& selector[LABEL_WORKLOAD_NAME@] == name_of(objects_of(request)[j].object)
            &&& selector.submap_of(pods_of(objects_of(request)[j].object)->0.metadata.labels)
        }),
{
    lemma_labels_differ();
    assert(selector_of(objects_of(request)[i].object)->0.dom() =~= set![
        LABEL_INSTANCE_ID@,
        LABEL_WORKLOAD_NAME@,
    ]);
}

/// The annotations of every object, and of the pods, tell the generation of the
/// template, where it is known, and nothing else.
pub proof fn lemma_annotations_tell_the_template(request: RenderManifestRequest<'_>, i: int)
    requires
        render::rendered_manifest(request) is Ok,
        0 <= i < objects_of(request).len(),
    ensures
        ({
            let object = objects_of(request)[i].object;
            &&& request.template_generation is None ==> annotations_of(object).dom()
                == Set::<Seq<char>>::empty()
            &&& request.template_generation matches Some(generation) ==> {
                &&& annotations_of(object).dom() == set![ANNOTATION_TEMPLATE_GENERATION@]
                &&& annotations_of(object)[ANNOTATION_TEMPLATE_GENERATION@] == text::decimal(
                    generation@,
                )
            }
            &&& pods_of(object) matches Some(pods) ==> pods.metadata.annotations == annotations_of(
                object,
            )
        }),
{
    let object = objects_of(request)[i].object;
    if request.template_generation is None {
        assert(annotations_of(object).dom() =~= Set::<Seq<char>>::empty());
    } else {
        assert(annotations_of(object).dom() =~= set![ANNOTATION_TEMPLATE_GENERATION@]);
    }
}

/// The application runs in the first container, as its template says: under its name,
/// from its image, with its ports and its environment.
pub proof fn lemma_application_runs_as_its_template_says(
    request: RenderManifestRequest<'_>,
    i: int,
)
    requires
        render::rendered_manifest(request) is Ok,
        0 <= i < objects_of(request).len(),
        pods_of(objects_of(request)[i].object) is Some,
    ensures
        ({
            let template = request.template.deep_view().workload.app_container;
            let values = request.instance.values.deep_view();
            let pods = pods_of(objects_of(request)[i].object)->0.spec;
            let app = pods.containers[0];
            &&& pods.containers.len() == 2
            &&& app.name == template.name
            &&& template::rendered_text(template.image, values) == Ok::<
                Seq<char>,
                ManifestRenderErrorView,
            >(app.image)
            &&& app.ports.len() == template.ports.len()
            &&& forall|k: int|
                0 <= k < app.ports.len() ==> (#[trigger] app.ports[k]).name == template.ports[k].name
                    && app.ports[k].container_port == template.ports[k].container_port
            &&& app.env.len() == template.env.len()
            &&& forall|k: int|
                0 <= k < app.env.len() ==> (#[trigger] app.env[k]).name == template.env[k].name
                    && template::rendered_text(template.env[k].value, values) == Ok::<
                    Seq<char>,
                    ManifestRenderErrorView,
                >(app.env[k].value)
        }),
{
    let template = request.template.deep_view().workload.app_container;
    let values = request.instance.values.deep_view();
    let app = pods_of(objects_of(request)[i].object)->0.spec.containers[0];
    assert forall|k: int| 0 <= k < app.env.len() implies (#[trigger] app.env[k]).name
        == template.env[k].name && template::rendered_text(template.env[k].value, values) == Ok::<
        Seq<char>,
        ManifestRenderErrorView,
    >(app.env[k].value) by {
        let problems = render::env_problems(template.env, values);
        lemma_no_problem(problems, 0, k);
        assert(problems[k] == outcome::err_of(
            template::rendered_text(template.env[k].value, values),
        ));
    }
}

/// The sidecar runs in the second container, from its image, and is told where to
/// listen, where the application listens, for which instance it stands, where the
/// control plane is and what the sleep policy is. It mounts nothing.
pub proof fn lemma_sidecar_is_told_its_task(request: RenderManifestRequest<'_>, i: int)
    requires
        render::rendered_manifest(request) is Ok,
        0 <= i < objects_of(request).len(),
        pods_of(objects_of(request)[i].object) is Some,
    ensures
        ({
            let template = request.template.deep_view();
            let values = request.instance.values.deep_view();
            let sidecar = pods_of(objects_of(request)[i].object)->0.spec.containers[1];
            let listen = text::decimal(template.sidecar.listen_port as nat);
            &&& sidecar.name == template.sidecar.name
            &&& template::rendered_text(template.sidecar.image, values) == Ok::<
                Seq<char>,
                ManifestRenderErrorView,
            >(sidecar.image)
            &&& sidecar.ports.len() == 1
            &&& sidecar.ports[0].container_port == template.sidecar.listen_port
            &&& sidecar.volume_mounts.len() == 0
            &&& sidecar.env.len() == 9
            &&& sets(sidecar.env, "SLEEPYPODS_LISTEN_PORT"@, listen)
            &&& sets(sidecar.env, "SLEEPYPODS_SIDECAR_LISTEN_ADDR"@, "0.0.0.0:"@ + listen)
            &&& sets(
                sidecar.env,
                "SLEEPYPODS_APP_PORT"@,
                text::decimal(template.service->0.ports[0].target_port as nat),
            )
            &&& sets(sidecar.env, "SLEEPYPODS_INSTANCE_ID"@, request.instance.id@)
            &&& sets(
                sidecar.env,
                "SLEEPYPODS_INSTANCE_GENERATION"@,
                text::decimal(request.instance.generation@),
            )
            &&& sets(
                sidecar.env,
                "SLEEPYPODS_CONTROL_PLANE_ENDPOINT"@,
                "http://sleepypods-control-plane."@ + request.namespace@
                    + ".svc.cluster.local:50051"@,
            )
            &&& sets(
                sidecar.env,
                "SLEEPYPODS_IDLE_TIMEOUT_MS"@,
                text::decimal(request.sleep_policy.idle_timeout_ms as nat),
            )
            &&& sets(
                sidecar.env,
                "SLEEPYPODS_IDLE_RETRY_BACKOFF_MS"@,
                text::decimal(request.sleep_policy.idle_retry_backoff_ms as nat),
            )
            &&& sets(
                sidecar.env,
                "SLEEPYPODS_DRAIN_GRACE_TIMEOUT_MS"@,
                text::decimal(request.sleep_policy.drain_grace_timeout_ms as nat),
            )
        }),
{
    let env = pods_of(objects_of(request)[i].object)->0.spec.containers[1].env;
    assert(env[0].name == "SLEEPYPODS_LISTEN_PORT"@);
    assert(env[1].name == "SLEEPYPODS_SIDECAR_LISTEN_ADDR"@);
    assert(env[2].name == "SLEEPYPODS_APP_PORT"@);
    assert(env[3].name == "SLEEPYPODS_INSTANCE_ID"@);
    assert(env[4].name == "SLEEPYPODS_INSTANCE_GENERATION"@);
    assert(env[5].name == "SLEEPYPODS_CONTROL_PLANE_ENDPOINT"@);
    assert(env[6].name == "SLEEPYPODS_IDLE_TIMEOUT_MS"@);
    assert(env[7].name == "SLEEPYPODS_IDLE_RETRY_BACKOFF_MS"@);
    assert(env[8].name == "SLEEPYPODS_DRAIN_GRACE_TIMEOUT_MS"@);
}

/// The service is reached at the port that the template publishes, and hands what
/// comes there to the port at which the sidecar of the pods listens. The sidecar hands
/// it on to the port at which the template says the application is.
pub proof fn lemma_service_leads_to_the_sidecar(
    request: RenderManifestRequest<'_>,
    i: int,
    j: int,
)
    requires
        render::rendered_manifest(request) is Ok,
        0 <= i < objects_of(request).len(),
        0 <= j < objects_of(request).len(),
        objects_of(request)[i].object is Service,
        pods_of(objects_of(request)[j].object) is Some,
    ensures
        ({
            let published = request.template.deep_view().service->0.ports;
            let service = objects_of(request)[i].object->Service_0;
            let containers = pods_of(objects_of(request)[j].object)->0.spec.containers;
            &&& published.len() == 1
            &&& service.spec.ports.len() == 1
            &&& service.spec.ports[0].port == published[0].port
            &&& service.spec.ports[0].name == published[0].name
            &&& service.spec.ports[0].port != 0
            &&& service.spec.ports[0].target_port == containers[1].ports[0].container_port
            &&& published[0].target_port != containers[1].ports[0].container_port
            &&& exists|k: int|
                0 <= k < containers[0].ports.len() && (#[trigger] containers[0].ports[k]).container_port
                    == published[0].target_port
        }),
{
    lemma_traffic_goes_through_the_sidecar(request, i);
    let ports = request.template.deep_view().service->0.ports;
    let problems = render::service_port_problems(ports);
    lemma_no_problem(problems, 0, 0);
    assert(problems[0] == outcome::first_of(
        render::port_problem("service.ports.port"@, ports[0].port),
        render::port_problem("service.ports.target_port"@, ports[0].target_port),
    ));
}

/// Each volume of the template becomes a volume and a claim of its size, modes, class
/// and source, and is mounted in the application where the template says.
pub proof fn lemma_volumes_are_as_their_template_says(
    request: RenderManifestRequest<'_>,
    k: int,
    j: int,
)
    requires
        render::rendered_manifest(request) is Ok,
        0 <= k < volume_count(request),
        0 <= j < objects_of(request).len(),
        pods_of(objects_of(request)[j].object) is Some,
    ensures
        ({
            let template = request.template.volumes@[k].deep_view();
            let values = request.instance.values.deep_view();
            let pods = pods_of(objects_of(request)[j].object)->0.spec;
            let volume = objects_of(request)[k].object->PersistentVolume_0;
            let claim =
                objects_of(request)[volume_count(request) + k].object->PersistentVolumeClaim_0;
            &&& template::rendered_text(template.pv_name, values) == Ok::<
                Seq<char>,
                ManifestRenderErrorView,
            >(volume.metadata.name)
            &&& template::rendered_text(template.pvc_name, values) == Ok::<
                Seq<char>,
                ManifestRenderErrorView,
            >(claim.metadata.name)
            &&& template::rendered_text(template.capacity, values) == Ok::<
                Seq<char>,
                ManifestRenderErrorView,
            >(volume.spec.capacity)
            &&& claim.spec.resources.requests_storage == volume.spec.capacity
            &&& volume.spec.access_modes == template.access_modes
            &&& claim.spec.access_modes == template.access_modes
            &&& volume.spec.persistent_volume_reclaim_policy == template.reclaim_policy
            &&& claim.spec.storage_class_name == volume.spec.storage_class_name
            &&& (template.storage_class_name is Some) == (volume.spec.storage_class_name is Some)
            &&& template.storage_class_name matches Some(name) ==> template::rendered_text(
                name,
                values,
            ) == Ok::<Seq<char>, ManifestRenderErrorView>(volume.spec.storage_class_name->0)
            &&& volume.spec.claim_ref.name == claim.metadata.name
            &&& volume.spec.claim_ref.namespace == request.namespace@
            &&& claim.spec.volume_name == volume.metadata.name
            &&& pods.volumes.len() == volume_count(request)
            &&& pods.containers[0].volume_mounts.len() == volume_count(request)
            &&& pods.volumes[k].name == template.name
            &&& pods.volumes[k].persistent_volume_claim.claim_name == claim.metadata.name
            &&& pods.containers[0].volume_mounts[k].name == template.name
            &&& template::rendered_text(template.mount_path, values) == Ok::<
                Seq<char>,
                ManifestRenderErrorView,
            >(pods.containers[0].volume_mounts[k].mount_path)
        }),
{
    let values = request.instance.values.deep_view();
    let problems = render::volume_problems(request.template.volumes@, values);
    lemma_no_problem(problems, 0, k);
    assert(problems[k] == render::volume_problem(request.template.volumes@[k], values));
    let rendered = render::rendered_volumes(request.template.volumes@, values);
    assert(rendered[k] == render::rendered_volume(request.template.volumes@[k], values));
}

/// The data of a volume lives where the template says: with the driver and handle it
/// names, read-only where it says so, or at the path of the host.
pub proof fn lemma_volumes_live_where_their_template_says(
    request: RenderManifestRequest<'_>,
    k: int,
)
    requires
        render::rendered_manifest(request) is Ok,
        0 <= k < volume_count(request),
    ensures
        ({
            let template = request.template.volumes@[k].deep_view().source;
            let values = request.instance.values.deep_view();
            let source = objects_of(request)[k].object->PersistentVolume_0.spec.source;
            match template {
                PersistentVolumeSourceTemplateView::Csi {
                    driver,
                    volume_handle,
                    fs_type,
                    read_only,
                    ..
                } => {
                    &&& source is Csi
                    &&& template::rendered_text(driver, values) == Ok::<
                        Seq<char>,
                        ManifestRenderErrorView,
                    >(source->Csi_0.driver)
                    &&& template::rendered_text(volume_handle, values) == Ok::<
                        Seq<char>,
                        ManifestRenderErrorView,
                    >(source->Csi_0.volume_handle)
                    &&& (fs_type is Some) == (source->Csi_0.fs_type is Some)
                    &&& fs_type matches Some(fs_type) ==> template::rendered_text(fs_type, values)
                        == Ok::<Seq<char>, ManifestRenderErrorView>(source->Csi_0.fs_type->0)
                    &&& source->Csi_0.read_only == read_only
                },
                PersistentVolumeSourceTemplateView::HostPath { path, type_ } => {
                    &&& source is HostPath
                    &&& template::rendered_text(path, values) == Ok::<
                        Seq<char>,
                        ManifestRenderErrorView,
                    >(source->HostPath_0.path)
                    &&& (type_ is Some) == (source->HostPath_0.type_ is Some)
                    &&& type_ matches Some(type_) ==> template::rendered_text(type_, values)
                        == Ok::<Seq<char>, ManifestRenderErrorView>(source->HostPath_0.type_->0)
                },
            }
        }),
{
    let values = request.instance.values.deep_view();
    let problems = render::volume_problems(request.template.volumes@, values);
    lemma_no_problem(problems, 0, k);
    assert(problems[k] == render::volume_problem(request.template.volumes@[k], values));
    let rendered = render::rendered_volumes(request.template.volumes@, values);
    assert(rendered[k] == render::rendered_volume(request.template.volumes@[k], values));
}

/// The attributes of a volume are those of its template, each with the values of the
/// instance.
pub proof fn lemma_attributes_are_those_of_the_template(
    request: RenderManifestRequest<'_>,
    k: int,
    key: Seq<char>,
)
    requires
        render::rendered_manifest(request) is Ok,
        0 <= k < volume_count(request),
        request.template.volumes@[k].deep_view().source is Csi,
    ensures
        ({
            let template = request.template.volumes@[k].deep_view().source->volume_attributes;
            let values = request.instance.values.deep_view();
            let attributes =
                objects_of(request)[k].object->PersistentVolume_0.spec.source->Csi_0.volume_attributes;
            &&& attributes.contains_key(key) == template.contains_key(key)
            &&& template.contains_key(key) ==> template::rendered_text(template[key], values)
                == Ok::<Seq<char>, ManifestRenderErrorView>(attributes[key])
        }),
{
    let values = request.instance.values.deep_view();
    let problems = render::volume_problems(request.template.volumes@, values);
    lemma_no_problem(problems, 0, k);
    assert(problems[k] == render::volume_problem(request.template.volumes@[k], values));
    let rendered = render::rendered_volumes(request.template.volumes@, values);
    assert(rendered[k] == render::rendered_volume(request.template.volumes@[k], values));
    let pairs = request.template.volumes@[k].source->volume_attributes.pairs();
    assert forall|i: int| 0 <= i < pairs.len() implies render::non_empty_text(
        "volume.source.csi.volume_attributes"@,
        (#[trigger] pairs[i]).1,
        values,
    ) is Ok by {
        lemma_no_problem(render::attribute_problems(pairs, values), 0, i);
        assert(render::attribute_problems(pairs, values)[i] == outcome::err_of(
            render::non_empty_text("volume.source.csi.volume_attributes"@, pairs[i].1, values),
        ));
    }
    lemma_rendered_attributes(pairs, values, key);
}

proof fn lemma_rendered_attributes(
    pairs: Seq<(Seq<char>, Seq<template::TemplateTextPartView>)>,
    values: Map<Seq<char>, Seq<char>>,
    key: Seq<char>,
)
    requires
        forall|i: int|
            0 <= i < pairs.len() ==> render::non_empty_text(
                "volume.source.csi.volume_attributes"@,
                (#[trigger] pairs[i]).1,
                values,
            ) is Ok,
    ensures
        ({
            let before = string_map::map_of_pairs(pairs);
            let after = string_map::map_of_pairs(render::rendered_attributes(pairs, values));
            &&& after.contains_key(key) == before.contains_key(key)
            &&& before.contains_key(key) ==> template::rendered_text(before[key], values) == Ok::<
                Seq<char>,
                ManifestRenderErrorView,
            >(after[key])
        }),
    decreases pairs.len(),
{
    if pairs.len() > 0 {
        let rest = pairs.drop_last();
        assert forall|i: int| 0 <= i < rest.len() implies render::non_empty_text(
            "volume.source.csi.volume_attributes"@,
            (#[trigger] rest[i]).1,
            values,
        ) is Ok by {
            assert(rest[i] == pairs[i]);
        }
        lemma_rendered_attributes(rest, values, key);
        let rendered = render::rendered_attributes(pairs, values);
        assert(rendered.drop_last() =~= render::rendered_attributes(rest, values));
        assert(pairs.last() == pairs[pairs.len() - 1]);
        assert(rendered.last() == (
            pairs.last().0,
            template::parts_text(pairs.last().1, values),
        ));
    }
}

} // verus!

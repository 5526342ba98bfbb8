//! What holds of live objects and of what the client is told.
use vstd::prelude::*;

use crate::json;
use crate::json::Json;
use crate::kube_materializer;
use crate::kube_materializer::idle_membership;
use crate::kube_materializer::idle_membership::LiveMetadataView;
use crate::kube_materializer::idle_membership::LivePodView;
use crate::kube_materializer::idle_membership::MembershipStepView;
use crate::kube_materializer::idle_membership::OwnerReferenceView;
use crate::kube_materializer::idle_membership::PodConditionView;
use crate::kube_materializer::KubeFailureView;
use crate::kube_materializer::KubeMaterializerClientConfigView;
use crate::kube_materializer::LiveServiceView;
use crate::manifest::objects::KubernetesObjectView;
use crate::materialization::RenderedObjectRefView;
use crate::materializer;
use crate::materializer::IdleMemberIdentityView;
use crate::text;

verus! {

/// The version of an API is what stands behind the last slash, and the group what
/// stands before it; without a slash there is no group.
pub proof fn lemma_version_is_behind_the_last_slash(api_version: Seq<char>)
    ensures
        !kube_materializer::split_version(api_version).1.contains('/'),
        api_version.contains('/') ==> kube_materializer::split_version(api_version).0.push('/')
            + kube_materializer::split_version(api_version).1 == api_version,
        !api_version.contains('/') ==> kube_materializer::split_version(api_version).0.len() == 0
            && kube_materializer::split_version(api_version).1 == api_version,
    decreases api_version.len(),
{
    let (group, version) = kube_materializer::split_version(api_version);
    if api_version.len() == 0 {
        assert(version =~= api_version);
    } else if api_version.last() == '/' {
        assert(api_version[api_version.len() - 1] == '/');
        assert(group.push('/') + version =~= api_version);
    } else {
        let before = api_version.drop_last();
        lemma_version_is_behind_the_last_slash(before);
        let (before_group, before_version) = kube_materializer::split_version(before);
        assert(version =~= before_version.push(api_version.last()));
        assert forall|i: int| 0 <= i < version.len() implies version[i] != '/' by {
            if i < before_version.len() {
                assert(before_version[i] == version[i]);
                assert(before_version.contains(before_version[i]));
            }
        }
        if api_version.contains('/') {
            let at = choose|at: int| 0 <= at < api_version.len() && api_version[at] == '/';
            assert(before[at] == '/');
            assert(before_group.push('/') + before_version == before);
            assert(api_version =~= before.push(api_version.last()));
            assert(group.push('/') + version =~= (before_group.push('/') + before_version).push(
                api_version.last(),
            ));
        } else {
            assert forall|i: int| 0 <= i < before.len() implies before[i] != '/' by {
                assert(api_version[i] == before[i]);
            }
            assert(version =~= api_version);
        }
    }
}

/// Every rendered object is known to the API by its own kind and version, if it
/// lives in a namespace just where its kind does.
pub proof fn lemma_rendered_objects_are_known_to_the_api(object: KubernetesObjectView)
    requires
        (materializer::object_ref(object).namespace.len() == 0) == (object is PersistentVolume),
    ensures
        kube_materializer::api_resource_of(materializer::object_ref(object)) is Ok,
        kube_materializer::api_resource_of(materializer::object_ref(object))->Ok_0.kind
            == object.kind(),
        kube_materializer::api_resource_of(materializer::object_ref(object))->Ok_0.api_version
            == object.api_version(),
        kube_materializer::api_resource_of(materializer::object_ref(object))->Ok_0.plural == (
        match object {
            KubernetesObjectView::Deployment(_) => "deployments"@,
            KubernetesObjectView::StatefulSet(_) => "statefulsets"@,
            KubernetesObjectView::Service(_) => "services"@,
            KubernetesObjectView::PersistentVolume(_) => "persistentvolumes"@,
            KubernetesObjectView::PersistentVolumeClaim(_) => "persistentvolumeclaims"@,
        }),
        kube_materializer::api_resource_of(materializer::object_ref(object))->Ok_0.version
            == "v1"@,
        kube_materializer::api_resource_of(materializer::object_ref(object))->Ok_0.group == (
        if object is Deployment || object is StatefulSet {
            "apps"@
        } else {
            ""@
        }),
{
    lemma_kinds_differ();
    lemma_version_is_behind_the_last_slash("apps/v1"@);
    lemma_version_is_behind_the_last_slash("v1"@);
    reveal_strlit("apps/v1");
    reveal_strlit("apps");
    reveal_strlit("v1");
    reveal_strlit("");
    let (group, version) = kube_materializer::split_version("apps/v1"@);
    assert("apps/v1"@[4] == '/');
    let whole = group.push('/') + version;
    assert(whole[group.len() as int] == '/');
    assert(group.len() == 4) by {
        if group.len() < 4 {
            assert("apps/v1"@[group.len() as int] != '/');
        }
        if group.len() > 4 {
            assert("apps/v1"@[group.len() as int] != '/');
        }
    }
    assert(group =~= "apps"@) by {
        assert forall|i: int| 0 <= i < 4 implies group[i] == "apps"@[i] by {
            assert(whole[i] == group[i]);
        }
    }
    assert(version =~= "v1"@) by {
        assert(version.len() == 2);
        assert forall|i: int| 0 <= i < 2 implies version[i] == "v1"@[i] by {
            assert(whole[i + 5] == version[i]);
        }
    }
    assert(!"v1"@.contains('/'));
    assert(kube_materializer::split_version("v1"@).0 =~= ""@);
}

/// No other object is known to the API than a workload, a service or a claim in a
/// namespace, and a volume outside any.
pub proof fn lemma_only_rendered_kinds_are_known(object: RenderedObjectRefView)
    ensures
        kube_materializer::api_resource_of(object) is Ok <==> {
            ||| object.namespace.len() > 0 && object.api_version == "apps/v1"@ && (object.kind
                == "Deployment"@ || object.kind == "StatefulSet"@)
            ||| object.namespace.len() > 0 && object.api_version == "v1"@ && (object.kind
                == "Service"@ || object.kind == "PersistentVolumeClaim"@)
            ||| object.namespace.len() == 0 && object.api_version == "v1"@ && object.kind
                == "PersistentVolume"@
        },
        kube_materializer::api_resource_of(object) matches Err(error) ==> !error.retryable,
{
    lemma_kinds_differ();
}

proof fn lemma_kinds_differ()
    ensures
        "apps/v1"@ != "v1"@,
        "Deployment"@ != "StatefulSet"@,
        "Deployment"@ != "Service"@,
        "StatefulSet"@ != "Service"@,
        "Service"@ != "PersistentVolume"@,
        "Service"@ != "PersistentVolumeClaim"@,
        "PersistentVolume"@ != "PersistentVolumeClaim"@,
{
    reveal_strlit("apps/v1");
    reveal_strlit("v1");
    reveal_strlit("Deployment");
    reveal_strlit("StatefulSet");
    reveal_strlit("Service");
    reveal_strlit("PersistentVolume");
    reveal_strlit("PersistentVolumeClaim");
    assert("apps/v1"@.len() == 7);
    assert("v1"@.len() == 2);
    assert("Deployment"@.len() == 10);
    assert("StatefulSet"@.len() == 11);
    assert("Service"@.len() == 7);
    assert("PersistentVolume"@.len() == 16);
    assert("PersistentVolumeClaim"@.len() == 21);
}

/// The endpoints that are waited for are those of the service, and the controller
/// that is looked at is the workload.
pub proof fn lemma_service_and_workload_are_told_apart(object: KubernetesObjectView)
    ensures
        kube_materializer::is_service(materializer::object_ref(object)) <==> object is Service,
        idle_membership::is_workload(materializer::object_ref(object)) <==> object is Deployment
            || object is StatefulSet,
{
    lemma_kinds_differ();
}

/// The annotation of a service decides how it is reached, and the setting only where
/// there is none; what is no scheme is refused.
pub proof fn lemma_annotation_decides_the_scheme(
    annotations: Option<Map<Seq<char>, Seq<char>>>,
    config: KubeMaterializerClientConfigView,
)
    ensures
        kube_materializer::scheme_of(annotations, config) matches Ok(scheme)
            ==> kube_materializer::is_scheme(scheme),
        annotations is Some && annotations->0.contains_key("sleepypods.io/backend-scheme"@) ==> (
        kube_materializer::scheme_of(annotations, config) is Ok
            <==> kube_materializer::is_scheme(
            annotations->0["sleepypods.io/backend-scheme"@],
        )),
        kube_materializer::scheme_of(annotations, config) is Ok && annotations is Some
            && annotations->0.contains_key("sleepypods.io/backend-scheme"@)
            ==> kube_materializer::scheme_of(annotations, config)->Ok_0
            == annotations->0["sleepypods.io/backend-scheme"@],
        annotations is None || !annotations->0.contains_key("sleepypods.io/backend-scheme"@) ==> (
        kube_materializer::scheme_of(annotations, config) is Ok <==> kube_materializer::is_scheme(
            config.backend_scheme,
        )),
        kube_materializer::scheme_of(annotations, config) is Ok && (annotations is None
            || !annotations->0.contains_key("sleepypods.io/backend-scheme"@))
            ==> kube_materializer::scheme_of(annotations, config)->Ok_0 == config.backend_scheme,
        (kube_materializer::scheme_of(annotations, config) matches Err(error)
            ==> !error.retryable),
{
}

/// A service is reached at its first port, by its name in its namespace.
pub proof fn lemma_service_is_reached_by_its_name(
    service: LiveServiceView,
    config: KubeMaterializerClientConfigView,
)
    ensures
        kube_materializer::backend_of(service, config) is Ok
            <==> kube_materializer::scheme_of(service.annotations, config) is Ok
            && service.name is Some && service.namespace is Some && service.ports is Some
            && service.ports->0.len() > 0 && service.ports->0[0] > 0,
        kube_materializer::backend_of(service, config) is Ok ==> kube_materializer::backend_of(
            service,
            config,
        )->Ok_0 == kube_materializer::scheme_of(service.annotations, config)->Ok_0 + "://"@
            + service.name->0 + "."@ + service.namespace->0 + ".svc.cluster.local:"@
            + text::decimal(service.ports->0[0] as nat),
        (kube_materializer::backend_of(service, config) matches Err(error) ==> !error.retryable),
{
}

/// An endpoint counts as ready unless it says that it is not, and one is enough.
pub proof fn lemma_one_ready_endpoint_is_enough(endpoints: Seq<Option<bool>>)
    ensures
        endpoints.contains(None) ==> kube_materializer::has_ready(endpoints),
        endpoints.contains(Some(true)) ==> kube_materializer::has_ready(endpoints),
        kube_materializer::has_ready(endpoints) ==> endpoints.contains(None)
            || endpoints.contains(Some(true)),
{
    if endpoints.contains(None) {
        let i = choose|i: int| 0 <= i < endpoints.len() && endpoints[i] == None::<bool>;
        assert(kube_materializer::is_ready(endpoints[i]));
    }
    if endpoints.contains(Some(true)) {
        let i = choose|i: int| 0 <= i < endpoints.len() && endpoints[i] == Some(true);
        assert(kube_materializer::is_ready(endpoints[i]));
    }
    if kube_materializer::has_ready(endpoints) {
        let i = choose|i: int|
            0 <= i < endpoints.len() && kube_materializer::is_ready(#[trigger] endpoints[i]);
        match endpoints[i] {
            None => assert(endpoints.contains(None)),
            Some(ready) => assert(endpoints.contains(Some(true))),
        }
    }
}

/// A wait never goes on past its time, nor past the next look.
pub proof fn lemma_wait_keeps_its_time(left: Option<u128>, poll_interval: u128)
    ensures
        kube_materializer::poll_delay(left, poll_interval) is Some <==> left is Some && left->0
            > 0,
        kube_materializer::poll_delay(left, poll_interval) matches Some(delay) ==> delay
            <= left->0 && delay <= poll_interval && (delay == left->0 || delay == poll_interval),
{
}

/// What the client is told of a failure is what was said of it, and it is tried again
/// just where that may help.
pub proof fn lemma_failure_is_reported_as_it_was(failure: KubeFailureView)
    ensures
        kube_materializer::reported(failure).message == failure.message,
        failure.kind is Hyper || failure.kind is Service || failure.kind is ReadEvents
            ==> kube_materializer::reported(failure).retryable,
        failure.kind is Other ==> !kube_materializer::reported(failure).retryable,
        failure.kind is Api && failure.kind->Api_conflict ==> kube_materializer::reported(
            failure,
        ).retryable,
        failure.kind is Api && !failure.kind->Api_conflict ==> (kube_materializer::reported(
            failure,
        ).retryable <==> failure.kind->Api_code == 429 || failure.kind->Api_code / 100 == 5),
        !(failure.kind is Api) ==> !kube_materializer::says_not_found(failure.kind),
        failure.kind is Api ==> (kube_materializer::says_not_found(failure.kind)
            <==> failure.kind->Api_not_found),
{
}

/// Settings are accepted if and only if each of them is in order; the one that is
/// refused is named.
pub proof fn lemma_settings_in_order_are_accepted(config: KubeMaterializerClientConfigView)
    ensures
        kube_materializer::config_problem(config) is None <==> {
            &&& !text::is_blank(config.field_manager)
            &&& kube_materializer::is_scheme(config.backend_scheme)
            &&& config.delete_timeout > 0
            &&& config.pvc_bound_timeout > 0
            &&& config.readiness_timeout > 0
            &&& config.poll_interval > 0
        },
        kube_materializer::config_problem(config) == Some("delete_timeout"@)
            ==> config.delete_timeout == 0,
        kube_materializer::config_problem(config) == Some("pvc_bound_timeout"@)
            ==> config.pvc_bound_timeout == 0,
        kube_materializer::config_problem(config) == Some("readiness_timeout"@)
            ==> config.readiness_timeout == 0,
        kube_materializer::config_problem(config) == Some("poll_interval"@)
            ==> config.poll_interval == 0,
        kube_materializer::config_problem(config) == Some("field_manager"@) ==> text::is_blank(
            config.field_manager,
        ),
        kube_materializer::config_problem(config) == Some("backend_scheme"@)
            ==> !kube_materializer::is_scheme(config.backend_scheme),
{
    reveal_strlit("field_manager");
    reveal_strlit("backend_scheme");
    reveal_strlit("delete_timeout");
    reveal_strlit("pvc_bound_timeout");
    reveal_strlit("readiness_timeout");
    reveal_strlit("poll_interval");
    assert("field_manager"@[0] == 'f');
    assert("backend_scheme"@[0] == 'b');
    assert("delete_timeout"@[0] == 'd');
    assert("pvc_bound_timeout"@[1] == 'v');
    assert("readiness_timeout"@[0] == 'r');
    assert("poll_interval"@[1] == 'o');
    assert("pvc_bound_timeout"@[0] == 'p');
    assert("poll_interval"@[0] == 'p');
}

/// A scheme begins with a letter, and goes on as long as its characters do.
pub proof fn lemma_scheme_grows_by_its_characters(scheme: Seq<char>, c: char)
    requires
        scheme.len() > 0,
    ensures
        kube_materializer::is_scheme(scheme.push(c)) <==> kube_materializer::is_scheme(scheme) && (
        'a' <= c <= 'z' || 'A' <= c <= 'Z' || '0' <= c <= '9' || c == '+' || c == '-' || c == '.'),
        kube_materializer::is_scheme(seq![c]) <==> 'a' <= c <= 'z' || 'A' <= c <= 'Z',
        !kube_materializer::is_scheme(Seq::empty()),
{
    let longer = scheme.push(c);
    if kube_materializer::is_scheme(longer) {
        assert forall|i: int| 1 <= i < scheme.len() implies kube_materializer::is_letter(
            #[trigger] scheme[i],
        ) || text::is_digit(scheme[i]) || scheme[i] == '+' || scheme[i] == '-' || scheme[i]
            == '.' by {
            assert(longer[i] == scheme[i]);
        }
        assert(longer[0] == scheme[0]);
        assert(longer[scheme.len() as int] == c);
    }
    if kube_materializer::is_scheme(scheme) {
        assert(longer[0] == scheme[0]);
        assert(longer[scheme.len() as int] == c);
    }
    assert(seq![c][0] == c);
}

/// Whether an object tells that it belongs to the incarnation that reports.
pub open spec fn tells(metadata: LiveMetadataView, identity: IdleMemberIdentityView) -> bool {
    &&& metadata.labels is Some
    &&& metadata.labels->0.contains_pair("sleepypods.io/instance-id"@, identity.instance_id)
    &&& metadata.labels->0.contains_pair(
        "sleepypods.io/instance-generation"@,
        text::decimal(identity.instance_generation),
    )
    &&& metadata.labels->0.contains_pair("app.kubernetes.io/managed-by"@, "sleepypods"@)
    &&& metadata.annotations is Some
    &&& metadata.annotations->0.contains_pair(
        "sleepypods.io/materialization-id"@,
        identity.materialization_id,
    )
}

/// Whether a pod runs and says that it is ready.
pub open spec fn runs(pod: LivePodView) -> bool {
    &&& pod.status is Some
    &&& pod.status->0.phase == Some("Running"@)
    &&& pod.status->0.conditions is Some
    &&& pod.status->0.conditions->0.contains(
        PodConditionView { type_: "Ready"@, status: "True"@ },
    )
}

proof fn lemma_runs(pod: LivePodView)
    ensures
        runs(pod) <==> idle_membership::is_ready(pod.status),
{
    if pod.status is Some && pod.status->0.conditions is Some {
        let conditions = pod.status->0.conditions->0;
        let ready = PodConditionView { type_: "Ready"@, status: "True"@ };
        if conditions.contains(ready) {
            let i = choose|i: int| 0 <= i < conditions.len() && conditions[i] == ready;
            assert(idle_membership::says_ready(conditions[i]));
        }
        if idle_membership::one_says_ready(conditions) {
            let i = choose|i: int|
                0 <= i < conditions.len() && idle_membership::says_ready(#[trigger] conditions[i]);
            assert(conditions[i] =~= ready);
            assert(conditions.contains(ready));
        }
    }
}

/// Whether an owner is a controller of this kind.
pub open spec fn is_controller(owner: OwnerReferenceView, kind: Seq<char>) -> bool {
    owner.controller == Some(true) && owner.kind == kind && owner.api_version == "apps/v1"@
}

proof fn lemma_first_controller(owners: Seq<OwnerReferenceView>, kind: Seq<char>)
    ensures
        match idle_membership::first_controller(owners, kind) {
            Some(owner) => is_controller(owner, kind) && owners.contains(owner),
            None => forall|i: int|
                0 <= i < owners.len() ==> !is_controller(#[trigger] owners[i], kind),
        },
        (forall|i: int, j: int|
            #![trigger owners[i], owners[j]]
            0 <= i < owners.len() && 0 <= j < owners.len() && is_controller(owners[i], kind)
                && is_controller(owners[j], kind) ==> i == j) ==> forall|i: int|
            0 <= i < owners.len() && is_controller(#[trigger] owners[i], kind)
                ==> idle_membership::first_controller(owners, kind) == Some(owners[i]),
    decreases owners.len(),
{
    if owners.len() > 0 {
        let rest = owners.skip(1);
        lemma_first_controller(rest, kind);
        if !idle_membership::controls(owners[0], kind) {
            match idle_membership::first_controller(rest, kind) {
                Some(owner) => {
                    let i = choose|i: int| 0 <= i < rest.len() && rest[i] == owner;
                    assert(owners[i + 1] == owner);
                },
                None => {
                    assert forall|i: int| 0 <= i < owners.len() implies !is_controller(
                        #[trigger] owners[i],
                        kind,
                    ) by {
                        if i > 0 {
                            assert(rest[i - 1] == owners[i]);
                        }
                    }
                },
            }
        } else {
            assert(owners.contains(owners[0]));
        }
        if forall|i: int, j: int|
            #![trigger owners[i], owners[j]]
            0 <= i < owners.len() && 0 <= j < owners.len() && is_controller(owners[i], kind)
                && is_controller(owners[j], kind) ==> i == j {
            assert forall|i: int, j: int|
                #![trigger rest[i], rest[j]]
                0 <= i < rest.len() && 0 <= j < rest.len() && is_controller(rest[i], kind)
                    && is_controller(rest[j], kind) implies i == j by {
                assert(rest[i] == owners[i + 1] && rest[j] == owners[j + 1]);
            }
            assert forall|i: int|
                0 <= i < owners.len() && is_controller(#[trigger] owners[i], kind) implies
                idle_membership::first_controller(owners, kind) == Some(owners[i]) by {
                if i > 0 {
                    assert(!is_controller(owners[0], kind));
                    assert(rest[i - 1] == owners[i]);
                }
            }
        }
    }
}

/// Whether one of the owners of an object is the controller that has this UID.
pub open spec fn is_owned(metadata: LiveMetadataView, kind: Seq<char>, uid: Seq<char>) -> bool {
    metadata.owners is Some && exists|i: int|
        0 <= i < metadata.owners->0.len() && is_controller(
            #[trigger] metadata.owners->0[i],
            kind,
        ) && metadata.owners->0[i].uid == uid
}

/// Whether an object has one controller of a kind, with this UID.
pub open spec fn is_owned_alone(
    metadata: LiveMetadataView,
    kind: Seq<char>,
    uid: Seq<char>,
) -> bool {
    &&& is_owned(metadata, kind, uid)
    &&& forall|i: int, j: int|
        #![trigger metadata.owners->0[i], metadata.owners->0[j]]
        0 <= i < metadata.owners->0.len() && 0 <= j < metadata.owners->0.len() && is_controller(
            metadata.owners->0[i],
            kind,
        ) && is_controller(metadata.owners->0[j], kind) ==> i == j
}

proof fn lemma_owner_problem(metadata: LiveMetadataView, kind: Seq<char>, uid: Seq<char>)
    ensures
        idle_membership::owner_problem(metadata, kind, uid) is None ==> is_owned(
            metadata,
            kind,
            uid,
        ),
        is_owned_alone(metadata, kind, uid) ==> idle_membership::owner_problem(
            metadata,
            kind,
            uid,
        ) is None,
{
    if metadata.owners is Some {
        let owners = metadata.owners->0;
        lemma_first_controller(owners, kind);
        if idle_membership::owner_problem(metadata, kind, uid) is None {
            let owner = idle_membership::first_controller(owners, kind)->0;
            let i = choose|i: int| 0 <= i < owners.len() && owners[i] == owner;
            assert(is_controller(metadata.owners->0[i], kind));
        }
        if is_owned_alone(metadata, kind, uid) {
            let i = choose|i: int|
                0 <= i < owners.len() && is_controller(#[trigger] owners[i], kind)
                    && owners[i].uid == uid;
            assert(idle_membership::first_controller(owners, kind) == Some(owners[i]));
        }
    }
}

/// A member is accepted only if it is the one pod, the one that reports, runs, is
/// ready and is not leaving, tells the incarnation of the report, and belongs to the
/// controller: at once, or through the replica set that is looked at next.
pub proof fn lemma_member_is_the_one_that_reports(
    workload_kind: Seq<char>,
    controller: LiveMetadataView,
    pods: Seq<LivePodView>,
    identity: IdleMemberIdentityView,
)
    requires
        idle_membership::membership_of(workload_kind, controller, pods, identity) is Ok,
    ensures
        pods.len() == 1,
        identity.pod_uid.len() > 0,
        pods[0].metadata.uid == Some(identity.pod_uid),
        !pods[0].metadata.deleting,
        tells(pods[0].metadata, identity),
        runs(pods[0]),
        controller.uid is Some,
        workload_kind == "StatefulSet"@ ==> idle_membership::membership_of(
            workload_kind,
            controller,
            pods,
            identity,
        )->Ok_0 is Owned && is_owned(pods[0].metadata, "StatefulSet"@, controller.uid->0),
        workload_kind != "StatefulSet"@ ==> idle_membership::membership_of(
            workload_kind,
            controller,
            pods,
            identity,
        )->Ok_0 is LoadReplicaSet && is_owned(
            pods[0].metadata,
            "ReplicaSet"@,
            idle_membership::membership_of(
                workload_kind,
                controller,
                pods,
                identity,
            )->Ok_0->LoadReplicaSet_uid,
        ),
{
    lemma_runs(pods[0]);
    if workload_kind == "StatefulSet"@ {
        lemma_owner_problem(pods[0].metadata, "StatefulSet"@, controller.uid->0);
    } else {
        let owner = idle_membership::owner_of(pods[0].metadata, "ReplicaSet"@)->Ok_0;
        lemma_owner_problem(pods[0].metadata, "ReplicaSet"@, owner.uid);
    }
}

/// The one pod of a stateful set that reports, runs, is ready and is not leaving, and
/// tells the incarnation of the report, is accepted.
pub proof fn lemma_member_in_order_is_accepted(
    controller: LiveMetadataView,
    pod: LivePodView,
    identity: IdleMemberIdentityView,
)
    requires
        identity.pod_uid.len() > 0,
        pod.metadata.uid == Some(identity.pod_uid),
        !pod.metadata.deleting,
        tells(pod.metadata, identity),
        runs(pod),
        controller.uid is Some,
        is_owned_alone(pod.metadata, "StatefulSet"@, controller.uid->0),
    ensures
        idle_membership::membership_of(
            "StatefulSet"@,
            controller,
            seq![pod],
            identity,
        ) == Ok::<_, materializer::KubernetesClientErrorView>(MembershipStepView::Owned),
{
    lemma_runs(pod);
    lemma_owner_problem(pod.metadata, "StatefulSet"@, controller.uid->0);
    assert(seq![pod][0] == pod);
}

/// The replica set behind a pod is accepted only if it is the one that owns the pod, is
/// not leaving, and belongs to the controller; and it is accepted if its one deployment
/// is the controller.
pub proof fn lemma_replica_set_belongs_to_the_controller(
    replica_set: LiveMetadataView,
    owner_uid: Seq<char>,
    controller_uid: Option<Seq<char>>,
)
    ensures
        idle_membership::replica_set_problem(replica_set, owner_uid, controller_uid) is None ==> {
            &&& replica_set.uid == Some(owner_uid)
            &&& !replica_set.deleting
            &&& controller_uid is Some
            &&& is_owned(replica_set, "Deployment"@, controller_uid->0)
        },
        replica_set.uid == Some(owner_uid) && !replica_set.deleting && controller_uid is Some
            && is_owned_alone(replica_set, "Deployment"@, controller_uid->0)
            ==> idle_membership::replica_set_problem(
            replica_set,
            owner_uid,
            controller_uid,
        ) is None,
{
    if controller_uid is Some {
        lemma_owner_problem(replica_set, "Deployment"@, controller_uid->0);
    }
}

/// Whether a member of a member of a JSON object is this value.
pub open spec fn holds_at(data: Json, outer: Seq<char>, inner: Seq<char>, value: Json) -> bool {
    json::json_member(data, outer) is Some && json::json_member(
        json::json_member(data, outer)->0,
        inner,
    ) == Some(value)
}

/// A controller is accepted if and only if it is not leaving, tells the incarnation of
/// the report, asks for one replica and, as a deployment, recreates its pod.
pub proof fn lemma_controller_asks_for_one_replica(
    metadata: LiveMetadataView,
    data: Json,
    kind: Seq<char>,
    identity: IdleMemberIdentityView,
)
    ensures
        idle_membership::controller_problem(metadata, data, kind, identity) is None <==> {
            &&& !metadata.deleting
            &&& tells(metadata, identity)
            &&& holds_at(data, "spec"@, "replicas"@, Json::Number(1))
            &&& kind == "Deployment"@ ==> json::json_member(data, "spec"@) is Some && holds_at(
                json::json_member(data, "spec"@)->0,
                "strategy"@,
                "type"@,
                Json::Text("Recreate"@),
            )
        },
{
}

/// A controller counts as unchanged if and only if it is the same object in the same
/// version.
pub proof fn lemma_unchanged_is_the_same_version(
    before: LiveMetadataView,
    after: LiveMetadataView,
)
    ensures
        idle_membership::change_problem(before, after) is None <==> before.uid == after.uid
            && before.resource_version == after.resource_version,
        idle_membership::change_problem(before, before) is None,
{
}

} // verus!

//! Whether a pod that reports to be idle is the only member of its instance.
use vstd::prelude::*;

use crate::json;
use crate::json::Json;
use crate::manifest::LABEL_INSTANCE_GENERATION;
use crate::manifest::LABEL_INSTANCE_ID;
use crate::materialization::RenderedObjectRef;
use crate::materialization::RenderedObjectRefView;
use crate::materializer;
use crate::materializer::IdleMemberIdentity;
use crate::materializer::IdleMemberIdentityView;
use crate::materializer::KubernetesClientError;
use crate::materializer::KubernetesClientErrorView;
use crate::outcome;
use crate::string_map::StringMap;
use crate::text;

verus! {

pub const LABEL_MANAGED_BY: &'static str = "app.kubernetes.io/managed-by";

pub const LABEL_MANAGED_BY_VALUE: &'static str = "sleepypods";

pub const ANNOTATION_MATERIALIZATION_ID: &'static str = "sleepypods.io/materialization-id";

/// The owner of a live object.
#[derive(Debug, PartialEq, Eq)]
pub struct OwnerReference {
    pub controller: Option<bool>,
    pub kind: String,
    pub api_version: String,
    pub name: String,
    pub uid: String,
}

/// What an [`OwnerReference`] holds.
#[verifier::ext_equal]
pub struct OwnerReferenceView {
    pub controller: Option<bool>,
    pub kind: Seq<char>,
    pub api_version: Seq<char>,
    pub name: Seq<char>,
    pub uid: Seq<char>,
}

impl DeepView for OwnerReference {
    type V = OwnerReferenceView;

    open spec fn deep_view(&self) -> OwnerReferenceView {
        OwnerReferenceView {
            controller: self.controller.deep_view(),
            kind: self.kind.deep_view(),
            api_version: self.api_version.deep_view(),
            name: self.name.deep_view(),
            uid: self.uid.deep_view(),
        }
    }
}

impl Clone for OwnerReference {
    fn clone(&self) -> (r: Self)
        ensures
            r.deep_view() == self.deep_view(),
    {
        OwnerReference {
            controller: self.controller,
            kind: self.kind.clone(),
            api_version: self.api_version.clone(),
            name: self.name.clone(),
            uid: self.uid.clone(),
        }
    }
}

/// What is read from the metadata of a live object.
#[derive(Debug, PartialEq, Eq)]
pub struct LiveMetadata {
    pub uid: Option<String>,
    pub resource_version: Option<String>,
    pub deleting: bool,
    pub labels: Option<StringMap<String>>,
    pub annotations: Option<StringMap<String>>,
    pub owners: Option<Vec<OwnerReference>>,
}

/// What a [`LiveMetadata`] holds.
#[verifier::ext_equal]
pub struct LiveMetadataView {
    pub uid: Option<Seq<char>>,
    pub resource_version: Option<Seq<char>>,
    pub deleting: bool,
    pub labels: Option<Map<Seq<char>, Seq<char>>>,
    pub annotations: Option<Map<Seq<char>, Seq<char>>>,
    pub owners: Option<Seq<OwnerReferenceView>>,
}

impl DeepView for LiveMetadata {
    type V = LiveMetadataView;

    open spec fn deep_view(&self) -> LiveMetadataView {
        LiveMetadataView {
            uid: self.uid.deep_view(),
            resource_version: self.resource_version.deep_view(),
            deleting: self.deleting.deep_view(),
            labels: self.labels.deep_view(),
            annotations: self.annotations.deep_view(),
            owners: self.owners.deep_view(),
        }
    }
}

/// A condition of a pod.
#[derive(Debug, PartialEq, Eq)]
pub struct PodCondition {
    pub type_: String,
    pub status: String,
}

/// What a [`PodCondition`] holds.
#[verifier::ext_equal]
pub struct PodConditionView {
    pub type_: Seq<char>,
    pub status: Seq<char>,
}

impl DeepView for PodCondition {
    type V = PodConditionView;

    open spec fn deep_view(&self) -> PodConditionView {
        PodConditionView {
            type_: self.type_.deep_view(),
            status: self.status.deep_view(),
        }
    }
}

impl Clone for PodCondition {
    fn clone(&self) -> (r: Self)
        ensures
            r.deep_view() == self.deep_view(),
    {
        PodCondition {
            type_: self.type_.clone(),
            status: self.status.clone(),
        }
    }
}

/// The status of a pod.
#[derive(Debug, PartialEq, Eq)]
pub struct PodStatus {
    pub phase: Option<String>,
    pub conditions: Option<Vec<PodCondition>>,
}

/// What a [`PodStatus`] holds.
#[verifier::ext_equal]
pub struct PodStatusView {
    pub phase: Option<Seq<char>>,
    pub conditions: Option<Seq<PodConditionView>>,
}

impl DeepView for PodStatus {
    type V = PodStatusView;

    open spec fn deep_view(&self) -> PodStatusView {
        PodStatusView {
            phase: self.phase.deep_view(),
            conditions: self.conditions.deep_view(),
        }
    }
}

/// What is read from a live pod.
#[derive(Debug, PartialEq, Eq)]
pub struct LivePod {
    pub metadata: LiveMetadata,
    pub status: Option<PodStatus>,
}

/// What a [`LivePod`] holds.
#[verifier::ext_equal]
pub struct LivePodView {
    pub metadata: LiveMetadataView,
    pub status: Option<PodStatusView>,
}

impl DeepView for LivePod {
    type V = LivePodView;

    open spec fn deep_view(&self) -> LivePodView {
        LivePodView {
            metadata: self.metadata.deep_view(),
            status: self.status.deep_view(),
        }
    }
}

/// What is said of a member that cannot put its instance to sleep.
pub open spec fn unsupported_error(reason: Seq<char>) -> KubernetesClientErrorView {
    materializer::permanent("automatic sleep membership check failed: "@ + reason)
}

fn unsupported(reason: &str) -> (r: KubernetesClientError)
    ensures
        r@ == unsupported_error(reason@),
{
    let message = text::join2("automatic sleep membership check failed: ", reason);
    KubernetesClientError::new(message.as_str())
}

/// Whether a reference is to a workload.
pub open spec fn is_workload(object: RenderedObjectRefView) -> bool {
    object.api_version == "apps/v1"@ && (object.kind == "Deployment"@ || object.kind
        == "StatefulSet"@)
}

/// How many references are to workloads.
pub open spec fn workload_count(objects: Seq<RenderedObjectRefView>) -> nat
    decreases objects.len(),
{
    if objects.len() == 0 {
        0
    } else {
        workload_count(objects.drop_last()) + if is_workload(objects.last()) {
            1nat
        } else {
            0nat
        }
    }
}

fn workload_ref(object: &RenderedObjectRef) -> (r: bool)
    ensures
        r == is_workload(object.deep_view()),
{
    text::same(object.api_version.as_str(), "apps/v1") && (text::same(
        object.kind.as_str(),
        "Deployment",
    ) || text::same(object.kind.as_str(), "StatefulSet"))
}

/// The one workload among rendered objects.
pub fn idle_workload(objects: &Vec<RenderedObjectRef>) -> (r: Result<
    &RenderedObjectRef,
    KubernetesClientError,
>)
    ensures
        match r {
            Ok(found) => workload_count(objects.deep_view()) == 1 && objects.deep_view().contains(
                found.deep_view(),
            ) && is_workload(found.deep_view()),
            Err(error) => workload_count(objects.deep_view()) != 1 && error@ == if workload_count(
                objects.deep_view(),
            ) == 0 {
                unsupported_error("workload is missing"@)
            } else {
                unsupported_error("multiple workload controllers are unsupported"@)
            },
        },
{
    let ghost view = objects.deep_view();
    let mut found: Option<&RenderedObjectRef> = None;
    let mut i: usize = 0;
    assert(view.take(0) =~= Seq::empty());
    while i < objects.len()
        invariant
            0 <= i <= objects.len(),
            view == objects.deep_view(),
            match found {
                Some(found) => workload_count(view.take(i as int)) == 1 && view.contains(
                    found.deep_view(),
                ) && is_workload(found.deep_view()),
                None => workload_count(view.take(i as int)) == 0,
            },
        decreases objects.len() - i,
    {
        let object = &objects[i];
        proof {
            assert(view.take(i + 1).drop_last() =~= view.take(i as int));
            assert(view.take(i + 1).last() == view[i as int]);
            assert(view[i as int] == object.deep_view());
        }
        if workload_ref(object) {
            if found.is_some() {
                proof {
                    lemma_workload_count(view, i + 1);
                }
                return Err(unsupported("multiple workload controllers are unsupported"));
            }
            found = Some(object);
        }
        i = i + 1;
    }
    assert(view.take(i as int) =~= view);
    match found {
        Some(found) => Ok(found),
        None => Err(unsupported("workload is missing")),
    }
}

proof fn lemma_workload_count(objects: Seq<RenderedObjectRefView>, at: int)
    requires
        0 <= at <= objects.len(),
    ensures
        workload_count(objects.take(at)) <= workload_count(objects),
    decreases objects.len() - at,
{
    if at < objects.len() {
        assert(objects.take(at + 1).drop_last() =~= objects.take(at));
        lemma_workload_count(objects, at + 1);
    } else {
        assert(objects.take(at) =~= objects);
    }
}

/// The selector for the pods of an instance, of every generation.
pub fn member_selector(identity: &IdleMemberIdentity) -> (r: String)
    ensures
        r@ == "sleepypods.io/instance-id="@ + identity.deep_view().instance_id,
{
    text::join2("sleepypods.io/instance-id=", identity.instance_id.as_str())
}

/// Whether a value stands under a key.
pub open spec fn has_value(
    values: Option<Map<Seq<char>, Seq<char>>>,
    key: Seq<char>,
    value: Seq<char>,
) -> bool {
    values matches Some(values) && values.contains_key(key) && values[key] == value
}

fn matches_value(values: &Option<StringMap<String>>, key: &str, value: &str) -> (r: bool)
    ensures
        r == has_value(values.deep_view(), key@, value@),
{
    match values {
        None => false,
        Some(values) => match values.get(key) {
            None => false,
            Some(found) => text::same(found.as_str(), value),
        },
    }
}

/// Whether an object belongs to the incarnation of an instance that reports.
pub open spec fn belongs(metadata: LiveMetadataView, identity: IdleMemberIdentityView) -> bool {
    &&& has_value(metadata.labels, "sleepypods.io/instance-id"@, identity.instance_id)
    &&& has_value(
        metadata.labels,
        "sleepypods.io/instance-generation"@,
        text::decimal(identity.instance_generation),
    )
    &&& has_value(metadata.labels, "app.kubernetes.io/managed-by"@, "sleepypods"@)
    &&& has_value(
        metadata.annotations,
        "sleepypods.io/materialization-id"@,
        identity.materialization_id,
    )
}

/// What is wrong with the metadata of a member.
pub open spec fn metadata_problem(
    metadata: LiveMetadataView,
    identity: IdleMemberIdentityView,
) -> Option<KubernetesClientErrorView> {
    if metadata.deleting {
        Some(unsupported_error("a workload member is terminating"@))
    } else if !belongs(metadata, identity) {
        Some(
            unsupported_error("live member ownership or incarnation does not match the report"@),
        )
    } else {
        None
    }
}

fn validate_metadata(metadata: &LiveMetadata, identity: &IdleMemberIdentity) -> (r: Result<
    (),
    KubernetesClientError,
>)
    ensures
        outcome::problem(r) == metadata_problem(metadata.deep_view(), identity.deep_view()),
{
    if metadata.deleting {
        return Err(unsupported("a workload member is terminating"));
    }
    let generation = identity.instance_generation.to_string();
    if !matches_value(&metadata.labels, LABEL_INSTANCE_ID, identity.instance_id.as_str())
        || !matches_value(&metadata.labels, LABEL_INSTANCE_GENERATION, generation.as_str())
        || !matches_value(&metadata.labels, LABEL_MANAGED_BY, LABEL_MANAGED_BY_VALUE)
        || !matches_value(
        &metadata.annotations,
        ANNOTATION_MATERIALIZATION_ID,
        identity.materialization_id.as_str(),
    ) {
        return Err(
            unsupported("live member ownership or incarnation does not match the report"),
        );
    }
    Ok(())
}

/// A member of a member of a JSON object.
pub open spec fn nested(value: Json, outer: Seq<char>, inner: Seq<char>) -> Option<Json> {
    match json::json_member(value, outer) {
        Some(found) => json::json_member(found, inner),
        None => None,
    }
}

/// What is wrong with the controller of an instance: it has to ask for one replica
/// and, as a deployment, to replace a pod only when it is gone.
pub open spec fn controller_problem(
    metadata: LiveMetadataView,
    data: Json,
    kind: Seq<char>,
    identity: IdleMemberIdentityView,
) -> Option<KubernetesClientErrorView> {
    let strategy = nested(data, "spec"@, "strategy"@);
    if metadata_problem(metadata, identity) is Some {
        metadata_problem(metadata, identity)
    } else if json::json_number(nested(data, "spec"@, "replicas"@)) != Some(1u64) {
        Some(unsupported_error("live workload must have exactly one desired replica"@))
    } else if kind == "Deployment"@ && json::json_text(
        match strategy {
            Some(strategy) => json::json_member(strategy, "type"@),
            None => None,
        },
    ) != Some("Recreate"@) {
        Some(unsupported_error("Deployment must use Recreate strategy"@))
    } else {
        None
    }
}

/// Checks the controller of an instance: its metadata, and the rest of the object.
pub fn validate_controller(
    metadata: &LiveMetadata,
    data: &serde_json::Value,
    kind: &str,
    identity: &IdleMemberIdentity,
) -> (r: Result<(), KubernetesClientError>)
    ensures
        outcome::problem(r) == controller_problem(
            metadata.deep_view(),
            json::json_of(*data),
            kind@,
            identity.deep_view(),
        ),
{
    if let Err(error) = validate_metadata(metadata, identity) {
        return Err(error);
    }
    let spec = json::member(data, "spec");
    let replicas: Option<u64> = match spec {
        Some(spec) => json::number_member(spec, "replicas"),
        None => None,
    };
    let single = match replicas {
        Some(replicas) => replicas == 1,
        None => false,
    };
    if !single {
        return Err(unsupported("live workload must have exactly one desired replica"));
    }
    if text::same(kind, "Deployment") {
        let strategy = match spec {
            Some(spec) => json::member(spec, "strategy"),
            None => None,
        };
        let recreate = match strategy {
            Some(strategy) => match json::text_member(strategy, "type") {
                Some(name) => text::same(name, "Recreate"),
                None => false,
            },
            None => false,
        };
        if !recreate {
            return Err(unsupported("Deployment must use Recreate strategy"));
        }
    }
    Ok(())
}

/// Whether a condition says that a pod is ready.
pub open spec fn says_ready(condition: PodConditionView) -> bool {
    condition.type_ == "Ready"@ && condition.status == "True"@
}

/// Whether one of the conditions of a pod says that it is ready.
pub open spec fn one_says_ready(conditions: Seq<PodConditionView>) -> bool {
    exists|i: int| 0 <= i < conditions.len() && says_ready(#[trigger] conditions[i])
}

/// Whether a pod runs and is ready.
pub open spec fn is_ready(status: Option<PodStatusView>) -> bool {
    match status {
        None => false,
        Some(status) => status.phase == Some("Running"@) && match status.conditions {
            None => false,
            Some(conditions) => one_says_ready(conditions),
        },
    }
}

fn has_ready_condition(conditions: &Vec<PodCondition>) -> (r: bool)
    ensures
        r == one_says_ready(conditions.deep_view()),
{
    let ghost view = conditions.deep_view();
    let mut i: usize = 0;
    while i < conditions.len()
        invariant
            0 <= i <= conditions.len(),
            view == conditions.deep_view(),
            forall|j: int| 0 <= j < i ==> !says_ready(#[trigger] view[j]),
        decreases conditions.len() - i,
    {
        let condition = &conditions[i];
        assert(view[i as int] == condition.deep_view());
        if text::same(condition.type_.as_str(), "Ready") && text::same(
            condition.status.as_str(),
            "True",
        ) {
            assert(says_ready(view[i as int]));
            return true;
        }
        i = i + 1;
    }
    false
}

fn pod_is_ready(status: &Option<PodStatus>) -> (r: bool)
    ensures
        r == is_ready(status.deep_view()),
{
    let status = match status {
        None => return false,
        Some(status) => status,
    };
    if !is_text(&status.phase, "Running") {
        return false;
    }
    match &status.conditions {
        Some(conditions) => has_ready_condition(conditions),
        None => false,
    }
}

/// What is wrong with the pods of an instance: there has to be one, the one that
/// reports, and it has to be ready.
pub open spec fn pods_problem(pods: Seq<LivePodView>, identity: IdleMemberIdentityView) -> Option<
    KubernetesClientErrorView,
> {
    if pods.len() != 1 {
        Some(
            unsupported_error(
                "expected exactly one observed pod, including terminating and unready members"@,
            ),
        )
    } else if identity.pod_uid.len() == 0 || pods[0].metadata.uid != Some(identity.pod_uid) {
        Some(unsupported_error("reporting pod UID is not the current member"@))
    } else if metadata_problem(pods[0].metadata, identity) is Some {
        metadata_problem(pods[0].metadata, identity)
    } else if !is_ready(pods[0].status) {
        Some(unsupported_error("the reporting pod is not ready"@))
    } else {
        None
    }
}

/// Whether an optional text is a text.
fn is_text(value: &Option<String>, expected: &str) -> (r: bool)
    ensures
        r == (value.deep_view() == Some(expected@)),
{
    match value {
        Some(value) => text::same(value.as_str(), expected),
        None => false,
    }
}

/// The one pod of an instance, which reports.
pub fn validate_single_pod<'a>(pods: &'a Vec<LivePod>, identity: &IdleMemberIdentity) -> (r: Result<
    &'a LivePod,
    KubernetesClientError,
>)
    ensures
        match pods_problem(pods.deep_view(), identity.deep_view()) {
            Some(problem) => r matches Err(error) && error@ == problem,
            None => r matches Ok(pod) && pod.deep_view() == pods.deep_view()[0],
        },
{
    assert(pods.deep_view().len() == pods@.len());
    if pods.len() != 1 {
        return Err(
            unsupported(
                "expected exactly one observed pod, including terminating and unready members",
            ),
        );
    }
    let pod = &pods[0];
    assert(pods.deep_view()[0] == pod.deep_view());
    if identity.pod_uid.as_str().is_empty() || !is_text(
        &pod.metadata.uid,
        identity.pod_uid.as_str(),
    ) {
        return Err(unsupported("reporting pod UID is not the current member"));
    }
    if let Err(error) = validate_metadata(&pod.metadata, identity) {
        return Err(error);
    }
    if !pod_is_ready(&pod.status) {
        return Err(unsupported("the reporting pod is not ready"));
    }
    Ok(pod)
}

/// Whether an owner is a controller of a kind.
pub open spec fn controls(owner: OwnerReferenceView, kind: Seq<char>) -> bool {
    owner.controller == Some(true) && owner.kind == kind && owner.api_version == "apps/v1"@
}

/// The first controller of a kind among owners.
pub open spec fn first_controller(owners: Seq<OwnerReferenceView>, kind: Seq<char>) -> Option<
    OwnerReferenceView,
>
    decreases owners.len(),
{
    if owners.len() == 0 {
        None
    } else if controls(owners[0], kind) {
        Some(owners[0])
    } else {
        first_controller(owners.skip(1), kind)
    }
}

/// The controller of a kind that owns an object.
pub open spec fn owner_of(metadata: LiveMetadataView, kind: Seq<char>) -> Result<
    OwnerReferenceView,
    KubernetesClientErrorView,
> {
    match metadata.owners {
        Some(owners) => match first_controller(owners, kind) {
            Some(owner) => Ok(owner),
            None => Err(unsupported_error("pod has no supported controller owner"@)),
        },
        None => Err(unsupported_error("pod has no supported controller owner"@)),
    }
}

/// The controller of a kind that owns an object.
pub fn controller_owner<'a>(metadata: &'a LiveMetadata, kind: &str) -> (r: Result<
    &'a OwnerReference,
    KubernetesClientError,
>)
    ensures
        outcome::of(r) == owner_of(metadata.deep_view(), kind@),
{
    if let Some(owners) = &metadata.owners {
        let ghost view = owners.deep_view();
        let mut i: usize = 0;
        assert(view.skip(0) =~= view);
        while i < owners.len()
            invariant
                0 <= i <= owners.len(),
                view == owners.deep_view(),
                metadata.deep_view().owners == Some(view),
                first_controller(view, kind@) == first_controller(view.skip(i as int), kind@),
            decreases owners.len() - i,
        {
            let owner = &owners[i];
            proof {
                assert(view.skip(i as int)[0] == view[i as int]);
                assert(view[i as int] == owner.deep_view());
                assert(view.skip(i as int).skip(1) =~= view.skip(i + 1));
            }
            let controller = match owner.controller {
                Some(controller) => controller,
                None => false,
            };
            if controller && text::same(owner.kind.as_str(), kind) && text::same(
                owner.api_version.as_str(),
                "apps/v1",
            ) {
                return Ok(owner);
            }
            i = i + 1;
        }
        assert(view.skip(i as int) =~= Seq::empty());
    }
    Err(unsupported("pod has no supported controller owner"))
}

/// What is wrong if an object has to be owned by a controller.
pub open spec fn owner_problem(
    metadata: LiveMetadataView,
    kind: Seq<char>,
    uid: Seq<char>,
) -> Option<KubernetesClientErrorView> {
    match owner_of(metadata, kind) {
        Err(error) => Some(error),
        Ok(owner) => if owner.uid != uid {
            Some(unsupported_error("pod belongs to a different controller"@))
        } else {
            None
        },
    }
}

fn require_owner(metadata: &LiveMetadata, kind: &str, uid: &str) -> (r: Result<
    (),
    KubernetesClientError,
>)
    ensures
        outcome::problem(r) == owner_problem(metadata.deep_view(), kind@, uid@),
{
    match controller_owner(metadata, kind) {
        Err(error) => Err(error),
        Ok(owner) => if !text::same(owner.uid.as_str(), uid) {
            Err(unsupported("pod belongs to a different controller"))
        } else {
            Ok(())
        },
    }
}

/// What is left to check of a member: nothing, or the replica set that owns it.
#[derive(Debug, PartialEq, Eq)]
pub enum MembershipStep {
    Owned,
    LoadReplicaSet { name: String, uid: String },
}

/// What a [`MembershipStep`] holds.
#[verifier::ext_equal]
pub enum MembershipStepView {
    Owned,
    LoadReplicaSet { name: Seq<char>, uid: Seq<char> },
}

impl DeepView for MembershipStep {
    type V = MembershipStepView;

    open spec fn deep_view(&self) -> MembershipStepView {
        match self {
            MembershipStep::Owned => MembershipStepView::Owned,
            MembershipStep::LoadReplicaSet { name, uid } => MembershipStepView::LoadReplicaSet {
                name: name.deep_view(),
                uid: uid.deep_view(),
            },
        }
    }
}

impl Clone for MembershipStep {
    fn clone(&self) -> (r: Self)
        ensures
            r.deep_view() == self.deep_view(),
    {
        match self {
            MembershipStep::Owned => MembershipStep::Owned,
            MembershipStep::LoadReplicaSet { name, uid } => MembershipStep::LoadReplicaSet {
                name: name.clone(),
                uid: uid.clone(),
            },
        }
    }
}

/// Whether the pods of an instance are one member that belongs to its controller,
/// as far as they show it. A pod of a deployment belongs to it through a replica
/// set.
pub open spec fn membership_of(
    workload_kind: Seq<char>,
    controller: LiveMetadataView,
    pods: Seq<LivePodView>,
    identity: IdleMemberIdentityView,
) -> Result<MembershipStepView, KubernetesClientErrorView> {
    if pods_problem(pods, identity) is Some {
        Err(pods_problem(pods, identity)->0)
    } else if controller.uid is None {
        Err(unsupported_error("controller UID is missing"@))
    } else if workload_kind == "StatefulSet"@ {
        outcome::checked(
            owner_problem(pods[0].metadata, "StatefulSet"@, controller.uid->0),
            MembershipStepView::Owned,
        )
    } else {
        match owner_of(pods[0].metadata, "ReplicaSet"@) {
            Err(error) => Err(error),
            Ok(owner) => Ok(
                MembershipStepView::LoadReplicaSet { name: owner.name, uid: owner.uid },
            ),
        }
    }
}

/// Checks the pods of an instance against its controller.
pub fn check_pods(
    workload_kind: &str,
    controller: &LiveMetadata,
    pods: &Vec<LivePod>,
    identity: &IdleMemberIdentity,
) -> (r: Result<MembershipStep, KubernetesClientError>)
    ensures
        outcome::of(r) == membership_of(
            workload_kind@,
            controller.deep_view(),
            pods.deep_view(),
            identity.deep_view(),
        ),
{
    let pod = match validate_single_pod(pods, identity) {
        Ok(pod) => pod,
        Err(error) => return Err(error),
    };
    let controller_uid = match &controller.uid {
        Some(uid) => uid,
        None => return Err(unsupported("controller UID is missing")),
    };
    if text::same(workload_kind, "StatefulSet") {
        match require_owner(&pod.metadata, "StatefulSet", controller_uid.as_str()) {
            Ok(()) => Ok(MembershipStep::Owned),
            Err(error) => Err(error),
        }
    } else {
        match controller_owner(&pod.metadata, "ReplicaSet") {
            Ok(owner) => Ok(
                MembershipStep::LoadReplicaSet {
                    name: owner.name.clone(),
                    uid: owner.uid.clone(),
                },
            ),
            Err(error) => Err(error),
        }
    }
}

/// What is wrong with the replica set that owns a pod.
pub open spec fn replica_set_problem(
    replica_set: LiveMetadataView,
    owner_uid: Seq<char>,
    controller_uid: Option<Seq<char>>,
) -> Option<KubernetesClientErrorView> {
    if replica_set.uid != Some(owner_uid) {
        Some(unsupported_error("pod ReplicaSet was replaced"@))
    } else if replica_set.deleting {
        Some(unsupported_error("pod ReplicaSet is terminating"@))
    } else {
        match controller_uid {
            None => Some(unsupported_error("controller UID is missing"@)),
            Some(uid) => owner_problem(replica_set, "Deployment"@, uid),
        }
    }
}

/// Checks the replica set that owns a pod against the controller.
pub fn check_replica_set(
    replica_set: &LiveMetadata,
    owner_uid: &str,
    controller: &LiveMetadata,
) -> (r: Result<(), KubernetesClientError>)
    ensures
        outcome::problem(r) == replica_set_problem(
            replica_set.deep_view(),
            owner_uid@,
            controller.deep_view().uid,
        ),
{
    if !is_text(&replica_set.uid, owner_uid) {
        return Err(unsupported("pod ReplicaSet was replaced"));
    }
    if replica_set.deleting {
        return Err(unsupported("pod ReplicaSet is terminating"));
    }
    match &controller.uid {
        None => Err(unsupported("controller UID is missing")),
        Some(uid) => require_owner(replica_set, "Deployment", uid.as_str()),
    }
}

fn same_optional(a: &Option<String>, b: &Option<String>) -> (r: bool)
    ensures
        r == (a.deep_view() == b.deep_view()),
{
    match (a, b) {
        (None, None) => true,
        (Some(a), Some(b)) => text::same(a.as_str(), b.as_str()),
        _ => false,
    }
}

/// What is wrong with a controller that changed while its members were looked at.
pub open spec fn change_problem(before: LiveMetadataView, after: LiveMetadataView) -> Option<
    KubernetesClientErrorView,
> {
    if after.uid != before.uid || after.resource_version != before.resource_version {
        Some(unsupported_error("controller changed during membership inspection"@))
    } else {
        None
    }
}

/// Checks that the controller did not change while its members were looked at.
pub fn check_unchanged(before: &LiveMetadata, after: &LiveMetadata) -> (r: Result<
    (),
    KubernetesClientError,
>)
    ensures
        outcome::problem(r) == change_problem(before.deep_view(), after.deep_view()),
{
    if !same_optional(&after.uid, &before.uid) || !same_optional(
        &after.resource_version,
        &before.resource_version,
    ) {
        return Err(unsupported("controller changed during membership inspection"));
    }
    Ok(())
}

/// An instance is put to sleep only on the report of its one pod, which is ready,
/// not terminating, and belongs to the incarnation of the report.
pub proof fn lemma_member_is_the_only_one(
    workload_kind: Seq<char>,
    controller: LiveMetadataView,
    pods: Seq<LivePodView>,
    identity: IdleMemberIdentityView,
)
    requires
        membership_of(workload_kind, controller, pods, identity) is Ok,
    ensures
        pods.len() == 1,
        pods[0].metadata.uid == Some(identity.pod_uid),
        !pods[0].metadata.deleting,
        belongs(pods[0].metadata, identity),
        is_ready(pods[0].status),
{
}

} // verus!

//! Materializations: what stands in a cluster for an instance.
use std::time::Duration;

use vstd::prelude::*;

use crate::ids::BackendGeneration;
use crate::ids::EmptyStringError;
use crate::ids::Generation;
use crate::ids::InstanceId;
use crate::ids::MaterializationId;
use crate::ids::NonEmptyString;
use crate::instance::InstanceRecord;
use crate::instance::InstanceRecordView;
use crate::text;
use crate::time;
use crate::workload::RenderedExclusivityKey;
use crate::workload::RenderedExclusivityKeyView;

verus! {

/// A Kubernetes object that was rendered for an instance.
#[derive(Debug, PartialEq, Eq)]
pub struct RenderedObjectRef {
    pub api_version: String,
    pub kind: String,
    pub namespace: String,
    pub name: String,
}

/// What a [`RenderedObjectRef`] holds.
#[verifier::ext_equal]
pub struct RenderedObjectRefView {
    pub api_version: Seq<char>,
    pub kind: Seq<char>,
    pub namespace: Seq<char>,
    pub name: Seq<char>,
}

impl DeepView for RenderedObjectRef {
    type V = RenderedObjectRefView;

    open spec fn deep_view(&self) -> RenderedObjectRefView {
        RenderedObjectRefView {
            api_version: self.api_version.deep_view(),
            kind: self.kind.deep_view(),
            namespace: self.namespace.deep_view(),
            name: self.name.deep_view(),
        }
    }
}

impl Clone for RenderedObjectRef {
    fn clone(&self) -> (r: Self)
        ensures
            r.deep_view() == self.deep_view(),
    {
        RenderedObjectRef {
            api_version: self.api_version.clone(),
            kind: self.kind.clone(),
            namespace: self.namespace.clone(),
            name: self.name.clone(),
        }
    }
}

/// Where a materialization is in its life.
#[derive(Clone, Copy, Debug, PartialEq, Eq, Hash, Structural)]
pub enum MaterializationState {
    Pending,
    Ready,
    Failed,
    Deleting,
    Deleted,
}

impl DeepView for MaterializationState {
    type V = MaterializationState;

    open spec fn deep_view(&self) -> MaterializationState {
        *self
    }
}

/// The cluster and namespace that objects are applied to.
#[derive(Debug, PartialEq, Eq)]
pub struct MaterializationTarget {
    cluster_id: String,
    namespace: String,
}

/// What a [`MaterializationTarget`] holds.
#[verifier::ext_equal]
pub struct MaterializationTargetView {
    pub cluster_id: Seq<char>,
    pub namespace: Seq<char>,
}

impl DeepView for MaterializationTarget {
    type V = MaterializationTargetView;

    closed spec fn deep_view(&self) -> MaterializationTargetView {
        MaterializationTargetView { cluster_id: self.cluster_id@, namespace: self.namespace@ }
    }
}

impl Clone for MaterializationTarget {
    fn clone(&self) -> (r: Self)
        ensures
            r.deep_view() == self.deep_view(),
    {
        proof {
            use_type_invariant(self);
        }
        MaterializationTarget {
            cluster_id: self.cluster_id.clone(),
            namespace: self.namespace.clone(),
        }
    }
}

/// Where a ready instance is reached.
#[derive(Debug, PartialEq, Eq)]
pub struct BackendEndpoint {
    uri: NonEmptyString,
}

impl View for BackendEndpoint {
    type V = Seq<char>;

    closed spec fn view(&self) -> Seq<char> {
        self.uri@
    }
}

impl DeepView for BackendEndpoint {
    type V = Seq<char>;

    open spec fn deep_view(&self) -> Seq<char> {
        self@
    }
}

impl Clone for BackendEndpoint {
    fn clone(&self) -> (r: Self)
        ensures
            r@ == self@,
    {
        BackendEndpoint { uri: self.uri.clone() }
    }
}

/// A field of a target that was left blank.
#[derive(Debug, PartialEq, Eq)]
pub struct InvalidMaterializationTarget {
    field: &'static str,
}

impl View for InvalidMaterializationTarget {
    type V = Seq<char>;

    closed spec fn view(&self) -> Seq<char> {
        self.field@
    }
}

impl DeepView for InvalidMaterializationTarget {
    type V = Seq<char>;

    open spec fn deep_view(&self) -> Seq<char> {
        self@
    }
}

/// A materialization as it is stored.
#[derive(Debug, PartialEq, Eq)]
pub struct MaterializationRecord {
    pub id: MaterializationId,
    pub instance_id: InstanceId,
    pub instance_generation: Generation,
    pub projection_generation: Generation,
    pub target: MaterializationTarget,
    pub state: MaterializationState,
    pub backend: Option<BackendEndpoint>,
    pub backend_generation: BackendGeneration,
    pub rendered_objects: Vec<RenderedObjectRef>,
    pub exclusivity_keys: Vec<RenderedExclusivityKey>,
}

/// What a [`MaterializationRecord`] holds.
#[verifier::ext_equal]
pub struct MaterializationRecordView {
    pub id: Seq<char>,
    pub instance_id: Seq<char>,
    pub instance_generation: nat,
    pub projection_generation: nat,
    pub target: MaterializationTargetView,
    pub state: MaterializationState,
    pub backend: Option<Seq<char>>,
    pub backend_generation: nat,
    pub rendered_objects: Seq<RenderedObjectRefView>,
    pub exclusivity_keys: Seq<RenderedExclusivityKeyView>,
}

impl DeepView for MaterializationRecord {
    type V = MaterializationRecordView;

    open spec fn deep_view(&self) -> MaterializationRecordView {
        MaterializationRecordView {
            id: self.id.deep_view(),
            instance_id: self.instance_id.deep_view(),
            instance_generation: self.instance_generation.deep_view(),
            projection_generation: self.projection_generation.deep_view(),
            target: self.target.deep_view(),
            state: self.state.deep_view(),
            backend: self.backend.deep_view(),
            backend_generation: self.backend_generation.deep_view(),
            rendered_objects: self.rendered_objects.deep_view(),
            exclusivity_keys: self.exclusivity_keys.deep_view(),
        }
    }
}

impl Clone for MaterializationRecord {
    fn clone(&self) -> (r: Self)
        ensures
            r.deep_view() == self.deep_view(),
    {
        let r = MaterializationRecord {
            id: self.id.clone(),
            instance_id: self.instance_id.clone(),
            instance_generation: self.instance_generation,
            projection_generation: self.projection_generation,
            target: self.target.clone(),
            state: self.state,
            backend: self.backend.clone(),
            backend_generation: self.backend_generation,
            rendered_objects: self.rendered_objects.clone(),
            exclusivity_keys: self.exclusivity_keys.clone(),
        };
        assert(r.backend.deep_view() =~= self.backend.deep_view());
        assert(r.rendered_objects.deep_view() =~= self.rendered_objects.deep_view());
        assert(r.exclusivity_keys.deep_view() =~= self.exclusivity_keys.deep_view());
        r
    }
}

/// Asks for a materialization to be stored.
#[derive(Debug, PartialEq, Eq)]
pub struct RecordMaterializationRequest {
    pub instance_id: InstanceId,
    pub instance_generation: Generation,
    pub projection_generation: Generation,
    pub target: MaterializationTarget,
    pub state: MaterializationState,
    pub backend: Option<BackendEndpoint>,
    pub backend_generation: BackendGeneration,
    pub rendered_objects: Vec<RenderedObjectRef>,
    pub exclusivity_keys: Vec<RenderedExclusivityKey>,
}

/// What a [`RecordMaterializationRequest`] holds.
#[verifier::ext_equal]
pub struct RecordMaterializationRequestView {
    pub instance_id: Seq<char>,
    pub instance_generation: nat,
    pub projection_generation: nat,
    pub target: MaterializationTargetView,
    pub state: MaterializationState,
    pub backend: Option<Seq<char>>,
    pub backend_generation: nat,
    pub rendered_objects: Seq<RenderedObjectRefView>,
    pub exclusivity_keys: Seq<RenderedExclusivityKeyView>,
}

impl DeepView for RecordMaterializationRequest {
    type V = RecordMaterializationRequestView;

    open spec fn deep_view(&self) -> RecordMaterializationRequestView {
        RecordMaterializationRequestView {
            instance_id: self.instance_id.deep_view(),
            instance_generation: self.instance_generation.deep_view(),
            projection_generation: self.projection_generation.deep_view(),
            target: self.target.deep_view(),
            state: self.state.deep_view(),
            backend: self.backend.deep_view(),
            backend_generation: self.backend_generation.deep_view(),
            rendered_objects: self.rendered_objects.deep_view(),
            exclusivity_keys: self.exclusivity_keys.deep_view(),
        }
    }
}

impl Clone for RecordMaterializationRequest {
    fn clone(&self) -> (r: Self)
        ensures
            r.deep_view() == self.deep_view(),
    {
        let r = RecordMaterializationRequest {
            instance_id: self.instance_id.clone(),
            instance_generation: self.instance_generation,
            projection_generation: self.projection_generation,
            target: self.target.clone(),
            state: self.state,
            backend: self.backend.clone(),
            backend_generation: self.backend_generation,
            rendered_objects: self.rendered_objects.clone(),
            exclusivity_keys: self.exclusivity_keys.clone(),
        };
        assert(r.backend.deep_view() =~= self.backend.deep_view());
        assert(r.rendered_objects.deep_view() =~= self.rendered_objects.deep_view());
        assert(r.exclusivity_keys.deep_view() =~= self.exclusivity_keys.deep_view());
        r
    }
}

/// Reports that a waking instance is ready.
#[derive(Debug, PartialEq, Eq)]
pub struct CompleteWakeRequest {
    pub instance_id: InstanceId,
    pub expected_waking_generation: Generation,
    pub target: MaterializationTarget,
    pub backend: BackendEndpoint,
    pub backend_generation: BackendGeneration,
    pub rendered_objects: Vec<RenderedObjectRef>,
    pub exclusivity_keys: Vec<RenderedExclusivityKey>,
}

/// What a [`CompleteWakeRequest`] holds.
#[verifier::ext_equal]
pub struct CompleteWakeRequestView {
    pub instance_id: Seq<char>,
    pub expected_waking_generation: nat,
    pub target: MaterializationTargetView,
    pub backend: Seq<char>,
    pub backend_generation: nat,
    pub rendered_objects: Seq<RenderedObjectRefView>,
    pub exclusivity_keys: Seq<RenderedExclusivityKeyView>,
}

impl DeepView for CompleteWakeRequest {
    type V = CompleteWakeRequestView;

    open spec fn deep_view(&self) -> CompleteWakeRequestView {
        CompleteWakeRequestView {
            instance_id: self.instance_id.deep_view(),
            expected_waking_generation: self.expected_waking_generation.deep_view(),
            target: self.target.deep_view(),
            backend: self.backend.deep_view(),
            backend_generation: self.backend_generation.deep_view(),
            rendered_objects: self.rendered_objects.deep_view(),
            exclusivity_keys: self.exclusivity_keys.deep_view(),
        }
    }
}

impl Clone for CompleteWakeRequest {
    fn clone(&self) -> (r: Self)
        ensures
            r.deep_view() == self.deep_view(),
    {
        let r = CompleteWakeRequest {
            instance_id: self.instance_id.clone(),
            expected_waking_generation: self.expected_waking_generation,
            target: self.target.clone(),
            backend: self.backend.clone(),
            backend_generation: self.backend_generation,
            rendered_objects: self.rendered_objects.clone(),
            exclusivity_keys: self.exclusivity_keys.clone(),
        };
        assert(r.rendered_objects.deep_view() =~= self.rendered_objects.deep_view());
        assert(r.exclusivity_keys.deep_view() =~= self.exclusivity_keys.deep_view());
        r
    }
}

/// Asks for the ready materialization of a generation.
#[derive(Debug, PartialEq, Eq)]
pub struct LoadReadyMaterializationRequest {
    pub instance_id: InstanceId,
    pub instance_generation: Generation,
    pub target: MaterializationTarget,
}

/// What a [`LoadReadyMaterializationRequest`] holds.
#[verifier::ext_equal]
pub struct LoadReadyMaterializationRequestView {
    pub instance_id: Seq<char>,
    pub instance_generation: nat,
    pub target: MaterializationTargetView,
}

impl DeepView for LoadReadyMaterializationRequest {
    type V = LoadReadyMaterializationRequestView;

    open spec fn deep_view(&self) -> LoadReadyMaterializationRequestView {
        LoadReadyMaterializationRequestView {
            instance_id: self.instance_id.deep_view(),
            instance_generation: self.instance_generation.deep_view(),
            target: self.target.deep_view(),
        }
    }
}

impl Clone for LoadReadyMaterializationRequest {
    fn clone(&self) -> (r: Self)
        ensures
            r.deep_view() == self.deep_view(),
    {
        LoadReadyMaterializationRequest {
            instance_id: self.instance_id.clone(),
            instance_generation: self.instance_generation,
            target: self.target.clone(),
        }
    }
}

/// Asks for the materialization that is not deleted.
#[derive(Debug, PartialEq, Eq)]
pub struct LoadActiveMaterializationRequest {
    pub instance_id: InstanceId,
    pub target: MaterializationTarget,
}

/// What a [`LoadActiveMaterializationRequest`] holds.
#[verifier::ext_equal]
pub struct LoadActiveMaterializationRequestView {
    pub instance_id: Seq<char>,
    pub target: MaterializationTargetView,
}

impl DeepView for LoadActiveMaterializationRequest {
    type V = LoadActiveMaterializationRequestView;

    open spec fn deep_view(&self) -> LoadActiveMaterializationRequestView {
        LoadActiveMaterializationRequestView {
            instance_id: self.instance_id.deep_view(),
            target: self.target.deep_view(),
        }
    }
}

impl Clone for LoadActiveMaterializationRequest {
    fn clone(&self) -> (r: Self)
        ensures
            r.deep_view() == self.deep_view(),
    {
        LoadActiveMaterializationRequest {
            instance_id: self.instance_id.clone(),
            target: self.target.clone(),
        }
    }
}

/// Reports that a draining instance is drained.
#[derive(Debug, PartialEq, Eq)]
pub struct FinalizeSleepRequest {
    pub instance_id: InstanceId,
    pub expected_draining_generation: Generation,
    pub target: MaterializationTarget,
}

/// What a [`FinalizeSleepRequest`] holds.
#[verifier::ext_equal]
pub struct FinalizeSleepRequestView {
    pub instance_id: Seq<char>,
    pub expected_draining_generation: nat,
    pub target: MaterializationTargetView,
}

impl DeepView for FinalizeSleepRequest {
    type V = FinalizeSleepRequestView;

    open spec fn deep_view(&self) -> FinalizeSleepRequestView {
        FinalizeSleepRequestView {
            instance_id: self.instance_id.deep_view(),
            expected_draining_generation: self.expected_draining_generation.deep_view(),
            target: self.target.deep_view(),
        }
    }
}

impl Clone for FinalizeSleepRequest {
    fn clone(&self) -> (r: Self)
        ensures
            r.deep_view() == self.deep_view(),
    {
        FinalizeSleepRequest {
            instance_id: self.instance_id.clone(),
            expected_draining_generation: self.expected_draining_generation,
            target: self.target.clone(),
        }
    }
}

/// An instance that runs, and its materialization.
#[derive(Debug, PartialEq, Eq)]
pub struct CompleteWakeResult {
    pub instance: InstanceRecord,
    pub materialization: MaterializationRecord,
}

/// What a [`CompleteWakeResult`] holds.
#[verifier::ext_equal]
pub struct CompleteWakeResultView {
    pub instance: InstanceRecordView,
    pub materialization: MaterializationRecordView,
}

impl DeepView for CompleteWakeResult {
    type V = CompleteWakeResultView;

    open spec fn deep_view(&self) -> CompleteWakeResultView {
        CompleteWakeResultView {
            instance: self.instance.deep_view(),
            materialization: self.materialization.deep_view(),
        }
    }
}

impl Clone for CompleteWakeResult {
    fn clone(&self) -> (r: Self)
        ensures
            r.deep_view() == self.deep_view(),
    {
        CompleteWakeResult {
            instance: self.instance.clone(),
            materialization: self.materialization.clone(),
        }
    }
}

/// An instance that drains, and its materialization.
#[derive(Debug, PartialEq, Eq)]
pub struct BeginSleepResult {
    pub instance: InstanceRecord,
    pub materialization: Option<MaterializationRecord>,
}

/// What a [`BeginSleepResult`] holds.
#[verifier::ext_equal]
pub struct BeginSleepResultView {
    pub instance: InstanceRecordView,
    pub materialization: Option<MaterializationRecordView>,
}

impl DeepView for BeginSleepResult {
    type V = BeginSleepResultView;

    open spec fn deep_view(&self) -> BeginSleepResultView {
        BeginSleepResultView {
            instance: self.instance.deep_view(),
            materialization: self.materialization.deep_view(),
        }
    }
}

impl Clone for BeginSleepResult {
    fn clone(&self) -> (r: Self)
        ensures
            r.deep_view() == self.deep_view(),
    {
        let r = BeginSleepResult {
            instance: self.instance.clone(),
            materialization: self.materialization.clone(),
        };
        assert(r.materialization.deep_view() =~= self.materialization.deep_view());
        r
    }
}

/// An instance that is cold, and its materialization.
#[derive(Debug, PartialEq, Eq)]
pub struct FinalizeSleepResult {
    pub instance: InstanceRecord,
    pub materialization: Option<MaterializationRecord>,
}

/// What a [`FinalizeSleepResult`] holds.
#[verifier::ext_equal]
pub struct FinalizeSleepResultView {
    pub instance: InstanceRecordView,
    pub materialization: Option<MaterializationRecordView>,
}

impl DeepView for FinalizeSleepResult {
    type V = FinalizeSleepResultView;

    open spec fn deep_view(&self) -> FinalizeSleepResultView {
        FinalizeSleepResultView {
            instance: self.instance.deep_view(),
            materialization: self.materialization.deep_view(),
        }
    }
}

impl Clone for FinalizeSleepResult {
    fn clone(&self) -> (r: Self)
        ensures
            r.deep_view() == self.deep_view(),
    {
        let r = FinalizeSleepResult {
            instance: self.instance.clone(),
            materialization: self.materialization.clone(),
        };
        assert(r.materialization.deep_view() =~= self.materialization.deep_view());
        r
    }
}

/// Asks for a running instance to drain.
#[derive(Debug, PartialEq, Eq)]
pub struct BeginSleepRequest {
    pub instance_id: InstanceId,
    pub expected_running_generation: Generation,
    pub target: MaterializationTarget,
    /// How long established streams may last.
    pub drain_grace_timeout: Option<Duration>,
    /// How long the instance must have been ready.
    pub minimum_ready_age: Option<Duration>,
}

/// What a [`BeginSleepRequest`] holds, its spans of time in nanoseconds.
#[verifier::ext_equal]
pub struct BeginSleepRequestView {
    pub instance_id: Seq<char>,
    pub expected_running_generation: nat,
    pub target: MaterializationTargetView,
    pub drain_grace_timeout: Option<u128>,
    pub minimum_ready_age: Option<u128>,
}

impl DeepView for BeginSleepRequest {
    type V = BeginSleepRequestView;

    open spec fn deep_view(&self) -> BeginSleepRequestView {
        BeginSleepRequestView {
            instance_id: self.instance_id.deep_view(),
            expected_running_generation: self.expected_running_generation.deep_view(),
            target: self.target.deep_view(),
            drain_grace_timeout: time::optional_nanos(self.drain_grace_timeout),
            minimum_ready_age: time::optional_nanos(self.minimum_ready_age),
        }
    }
}

impl BeginSleepRequest {
    pub fn new(
        instance_id: InstanceId,
        expected_running_generation: Generation,
        target: MaterializationTarget,
    ) -> (r: Self)
        ensures
            r.instance_id == instance_id,
            r.expected_running_generation == expected_running_generation,
            r.target == target,
            r.drain_grace_timeout is None,
            r.minimum_ready_age is None,
    {
        BeginSleepRequest {
            instance_id,
            expected_running_generation,
            target,
            drain_grace_timeout: None,
            minimum_ready_age: None,
        }
    }

    pub fn with_drain_grace_timeout(self, timeout: Duration) -> (r: Self)
        ensures
            r == (BeginSleepRequest { drain_grace_timeout: Some(timeout), ..self }),
    {
        BeginSleepRequest {
            instance_id: self.instance_id,
            expected_running_generation: self.expected_running_generation,
            target: self.target,
            drain_grace_timeout: Some(timeout),
            minimum_ready_age: self.minimum_ready_age,
        }
    }

    pub fn with_minimum_ready_age(self, age: Duration) -> (r: Self)
        ensures
            r == (BeginSleepRequest { minimum_ready_age: Some(age), ..self }),
    {
        BeginSleepRequest {
            instance_id: self.instance_id,
            expected_running_generation: self.expected_running_generation,
            target: self.target,
            drain_grace_timeout: self.drain_grace_timeout,
            minimum_ready_age: Some(age),
        }
    }
}

impl RecordMaterializationRequest {
    pub fn new(
        instance_id: InstanceId,
        instance_generation: Generation,
        target: MaterializationTarget,
        state: MaterializationState,
        backend_generation: BackendGeneration,
    ) -> (r: Self)
        ensures
            r.deep_view() == (RecordMaterializationRequestView {
                instance_id: instance_id@,
                instance_generation: instance_generation@,
                projection_generation: instance_generation@,
                target: target.deep_view(),
                state,
                backend: None,
                backend_generation: backend_generation@,
                rendered_objects: Seq::empty(),
                exclusivity_keys: Seq::empty(),
            }),
    {
        let r = RecordMaterializationRequest {
            instance_id,
            instance_generation,
            projection_generation: instance_generation,
            target,
            state,
            backend: None,
            backend_generation,
            rendered_objects: Vec::new(),
            exclusivity_keys: Vec::new(),
        };
        assert(r.rendered_objects.deep_view() =~= Seq::<RenderedObjectRefView>::empty());
        assert(r.exclusivity_keys.deep_view() =~= Seq::<RenderedExclusivityKeyView>::empty());
        r
    }
}

impl CompleteWakeRequest {
    pub fn new(
        instance_id: InstanceId,
        expected_waking_generation: Generation,
        target: MaterializationTarget,
        backend: BackendEndpoint,
        backend_generation: BackendGeneration,
    ) -> (r: Self)
        ensures
            r.deep_view() == (CompleteWakeRequestView {
                instance_id: instance_id@,
                expected_waking_generation: expected_waking_generation@,
                target: target.deep_view(),
                backend: backend@,
                backend_generation: backend_generation@,
                rendered_objects: Seq::empty(),
                exclusivity_keys: Seq::empty(),
            }),
    {
        let r = CompleteWakeRequest {
            instance_id,
            expected_waking_generation,
            target,
            backend,
            backend_generation,
            rendered_objects: Vec::new(),
            exclusivity_keys: Vec::new(),
        };
        assert(r.rendered_objects.deep_view() =~= Seq::<RenderedObjectRefView>::empty());
        assert(r.exclusivity_keys.deep_view() =~= Seq::<RenderedExclusivityKeyView>::empty());
        r
    }
}

impl LoadReadyMaterializationRequest {
    pub fn new(
        instance_id: InstanceId,
        instance_generation: Generation,
        target: MaterializationTarget,
    ) -> (r: Self)
        ensures
            r.instance_id == instance_id,
            r.instance_generation == instance_generation,
            r.target == target,
    {
        LoadReadyMaterializationRequest { instance_id, instance_generation, target }
    }
}

impl LoadActiveMaterializationRequest {
    pub fn new(instance_id: InstanceId, target: MaterializationTarget) -> (r: Self)
        ensures
            r.instance_id == instance_id,
            r.target == target,
    {
        LoadActiveMaterializationRequest { instance_id, target }
    }
}

impl FinalizeSleepRequest {
    pub fn new(
        instance_id: InstanceId,
        expected_draining_generation: Generation,
        target: MaterializationTarget,
    ) -> (r: Self)
        ensures
            r.instance_id == instance_id,
            r.expected_draining_generation == expected_draining_generation,
            r.target == target,
    {
        FinalizeSleepRequest { instance_id, expected_draining_generation, target }
    }
}

impl MaterializationTarget {
    #[verifier::type_invariant]
    spec fn not_blank(&self) -> bool {
        !text::is_blank(self.cluster_id@) && !text::is_blank(self.namespace@)
    }

    /// Takes a cluster and a namespace that are not blank.
    pub fn new(cluster_id: &str, namespace: &str) -> (r: Result<Self, InvalidMaterializationTarget>)
        ensures
            r is Ok <==> !text::is_blank(cluster_id@) && !text::is_blank(namespace@),
            r matches Ok(target) ==> target.deep_view() == (MaterializationTargetView {
                cluster_id: cluster_id@,
                namespace: namespace@,
            }),
            r matches Err(error) ==> error@ == (if text::is_blank(cluster_id@) {
                "cluster_id"@
            } else {
                "namespace"@
            }),
    {
        if text::blank(cluster_id) {
            return Err(InvalidMaterializationTarget { field: "cluster_id" });
        }
        if text::blank(namespace) {
            return Err(InvalidMaterializationTarget { field: "namespace" });
        }
        Ok(
            MaterializationTarget {
                cluster_id: cluster_id.to_owned(),
                namespace: namespace.to_owned(),
            },
        )
    }

    pub fn cluster_id(&self) -> (r: &str)
        ensures
            r@ == self.deep_view().cluster_id,
            !text::is_blank(r@),
    {
        proof {
            use_type_invariant(self);
        }
        self.cluster_id.as_str()
    }

    pub fn namespace(&self) -> (r: &str)
        ensures
            r@ == self.deep_view().namespace,
            !text::is_blank(r@),
    {
        proof {
            use_type_invariant(self);
        }
        self.namespace.as_str()
    }

    /// Whether both name the same cluster and namespace.
    pub fn is_same(&self, other: &MaterializationTarget) -> (r: bool)
        ensures
            r == (self.deep_view() == other.deep_view()),
    {
        text::same(self.cluster_id.as_str(), other.cluster_id.as_str()) && text::same(
            self.namespace.as_str(),
            other.namespace.as_str(),
        )
    }
}

impl BackendEndpoint {
    /// Takes a URI that is not blank.
    pub fn new(uri: &str) -> (r: Result<Self, EmptyStringError>)
        ensures
            r is Ok <==> !text::is_blank(uri@),
            r matches Ok(endpoint) ==> endpoint@ == uri@,
            r matches Err(error) ==> error@ == "backend.uri"@,
    {
        match NonEmptyString::new("backend.uri", uri) {
            Ok(uri) => Ok(BackendEndpoint { uri }),
            Err(error) => Err(error),
        }
    }

    pub fn uri(&self) -> (r: &str)
        ensures
            r@ == self@,
            !text::is_blank(r@),
    {
        self.uri.as_str()
    }
}

impl InvalidMaterializationTarget {
    pub fn field(&self) -> (r: &'static str)
        ensures
            r@ == self@,
    {
        self.field
    }

    pub fn to_string(&self) -> (r: String)
        ensures
            r@ == "materialization target "@ + self@ + " must not be empty"@,
    {
        text::join3("materialization target ", self.field, " must not be empty")
    }
}

impl Clone for InvalidMaterializationTarget {
    fn clone(&self) -> (r: Self)
        ensures
            r@ == self@,
    {
        InvalidMaterializationTarget { field: self.field }
    }
}

} // verus!

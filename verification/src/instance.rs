//! Instances and the states that they pass through.
use vstd::prelude::*;
use vstd::string::*;

use crate::ids::Generation;
use crate::ids::IdempotencyKey;
use crate::ids::InstanceId;
use crate::outcome;
use crate::route::RouteBindingRecord;
use crate::route::RouteBindingRecordView;
use crate::route::RouteBindingSpec;
use crate::route::RouteBindingSpecView;
use crate::sleep_policy;
use crate::sleep_policy::SleepPolicyError;
use crate::sleep_policy::SleepPolicyErrorView;
use crate::string_map::StringMap;
use crate::text;
use crate::workload;
use crate::workload::ValueSchemaError;
use crate::workload::ValueSchemaErrorView;
use crate::workload::WorkloadClassValidationError;
use crate::workload::WorkloadClassValidationErrorView;
use crate::workload::WorkloadClassVersion;
use crate::workload::WorkloadClassVersionRef;
use crate::workload::WorkloadClassVersionRefView;

verus! {

/// The values that an instance was given.
pub type InstanceValues = StringMap<String>;

/// Where an instance is in its life.
#[derive(Clone, Copy, Debug, PartialEq, Eq, Structural)]
pub enum InstanceState {
    Cold,
    Waking,
    Running,
    Draining,
    Failed,
    Deleting,
    Deleted,
}

impl DeepView for InstanceState {
    type V = InstanceState;

    open spec fn deep_view(&self) -> InstanceState {
        *self
    }
}

/// Why an instance changes its state.
#[derive(Debug, PartialEq, Eq)]
pub enum StateTransitionReason {
    OperatorRequested,
    WakeRequested,
    MaterializationReady,
    SleepRequested,
    IdleReported,
    DrainCompleted,
    FailureReported(String),
    DeleteRequested,
    DeleteFinalized,
}

/// What a [`StateTransitionReason`] holds.
#[verifier::ext_equal]
pub enum StateTransitionReasonView {
    OperatorRequested,
    WakeRequested,
    MaterializationReady,
    SleepRequested,
    IdleReported,
    DrainCompleted,
    FailureReported(Seq<char>),
    DeleteRequested,
    DeleteFinalized,
}

impl DeepView for StateTransitionReason {
    type V = StateTransitionReasonView;

    open spec fn deep_view(&self) -> StateTransitionReasonView {
        match self {
            StateTransitionReason::OperatorRequested => {
                StateTransitionReasonView::OperatorRequested
            },
            StateTransitionReason::WakeRequested => StateTransitionReasonView::WakeRequested,
            StateTransitionReason::MaterializationReady => {
                StateTransitionReasonView::MaterializationReady
            },
            StateTransitionReason::SleepRequested => StateTransitionReasonView::SleepRequested,
            StateTransitionReason::IdleReported => StateTransitionReasonView::IdleReported,
            StateTransitionReason::DrainCompleted => StateTransitionReasonView::DrainCompleted,
            StateTransitionReason::FailureReported(value) => StateTransitionReasonView::FailureReported(
                value.deep_view(),
            ),
            StateTransitionReason::DeleteRequested => StateTransitionReasonView::DeleteRequested,
            StateTransitionReason::DeleteFinalized => StateTransitionReasonView::DeleteFinalized,
        }
    }
}

impl Clone for StateTransitionReason {
    fn clone(&self) -> (r: Self)
        ensures
            r.deep_view() == self.deep_view(),
    {
        match self {
            StateTransitionReason::OperatorRequested => StateTransitionReason::OperatorRequested,
            StateTransitionReason::WakeRequested => StateTransitionReason::WakeRequested,
            StateTransitionReason::MaterializationReady => {
                StateTransitionReason::MaterializationReady
            },
            StateTransitionReason::SleepRequested => StateTransitionReason::SleepRequested,
            StateTransitionReason::IdleReported => StateTransitionReason::IdleReported,
            StateTransitionReason::DrainCompleted => StateTransitionReason::DrainCompleted,
            StateTransitionReason::FailureReported(value) => StateTransitionReason::FailureReported(
                value.clone(),
            ),
            StateTransitionReason::DeleteRequested => StateTransitionReason::DeleteRequested,
            StateTransitionReason::DeleteFinalized => StateTransitionReason::DeleteFinalized,
        }
    }
}

/// A change of state that is not part of the life of an instance.
#[derive(Debug, PartialEq, Eq)]
pub struct InvalidStateTransition {
    pub current: InstanceState,
    pub next: InstanceState,
    pub reason: StateTransitionReason,
}

/// What an [`InvalidStateTransition`] holds.
#[verifier::ext_equal]
pub struct InvalidStateTransitionView {
    pub current: InstanceState,
    pub next: InstanceState,
    pub reason: StateTransitionReasonView,
}

impl DeepView for InvalidStateTransition {
    type V = InvalidStateTransitionView;

    open spec fn deep_view(&self) -> InvalidStateTransitionView {
        InvalidStateTransitionView {
            current: self.current.deep_view(),
            next: self.next.deep_view(),
            reason: self.reason.deep_view(),
        }
    }
}

impl Clone for InvalidStateTransition {
    fn clone(&self) -> (r: Self)
        ensures
            r.deep_view() == self.deep_view(),
    {
        InvalidStateTransition {
            current: self.current,
            next: self.next,
            reason: self.reason.clone(),
        }
    }
}

/// An instance as it is stored.
#[derive(Debug, PartialEq, Eq)]
pub struct InstanceRecord {
    pub id: InstanceId,
    pub workload_class: WorkloadClassVersionRef,
    pub values: InstanceValues,
    pub state: InstanceState,
    pub generation: Generation,
}

/// What an [`InstanceRecord`] holds.
#[verifier::ext_equal]
pub struct InstanceRecordView {
    pub id: Seq<char>,
    pub workload_class: WorkloadClassVersionRefView,
    pub values: Map<Seq<char>, Seq<char>>,
    pub state: InstanceState,
    pub generation: nat,
}

impl DeepView for InstanceRecord {
    type V = InstanceRecordView;

    open spec fn deep_view(&self) -> InstanceRecordView {
        InstanceRecordView {
            id: self.id.deep_view(),
            workload_class: self.workload_class.deep_view(),
            values: self.values.deep_view(),
            state: self.state.deep_view(),
            generation: self.generation.deep_view(),
        }
    }
}

impl Clone for InstanceRecord {
    fn clone(&self) -> (r: Self)
        ensures
            r.deep_view() == self.deep_view(),
    {
        let r = InstanceRecord {
            id: self.id.clone(),
            workload_class: self.workload_class.clone(),
            values: self.values.clone(),
            state: self.state,
            generation: self.generation,
        };
        assert(r.values.deep_view() =~= self.values.deep_view());
        r
    }
}

/// Asks for an instance to be created.
#[derive(Debug, PartialEq, Eq)]
pub struct CreateInstanceRequest {
    pub idempotency_key: IdempotencyKey,
    pub instance_id: InstanceId,
    pub workload_class: WorkloadClassVersionRef,
    pub values: InstanceValues,
    pub route_bindings: Vec<RouteBindingSpec>,
}

/// What a [`CreateInstanceRequest`] holds.
#[verifier::ext_equal]
pub struct CreateInstanceRequestView {
    pub idempotency_key: Seq<char>,
    pub instance_id: Seq<char>,
    pub workload_class: WorkloadClassVersionRefView,
    pub values: Map<Seq<char>, Seq<char>>,
    pub route_bindings: Seq<RouteBindingSpecView>,
}

impl DeepView for CreateInstanceRequest {
    type V = CreateInstanceRequestView;

    open spec fn deep_view(&self) -> CreateInstanceRequestView {
        CreateInstanceRequestView {
            idempotency_key: self.idempotency_key.deep_view(),
            instance_id: self.instance_id.deep_view(),
            workload_class: self.workload_class.deep_view(),
            values: self.values.deep_view(),
            route_bindings: self.route_bindings.deep_view(),
        }
    }
}

impl Clone for CreateInstanceRequest {
    fn clone(&self) -> (r: Self)
        ensures
            r.deep_view() == self.deep_view(),
    {
        let r = CreateInstanceRequest {
            idempotency_key: self.idempotency_key.clone(),
            instance_id: self.instance_id.clone(),
            workload_class: self.workload_class.clone(),
            values: self.values.clone(),
            route_bindings: self.route_bindings.clone(),
        };
        assert(r.values.deep_view() =~= self.values.deep_view());
        assert(r.route_bindings.deep_view() =~= self.route_bindings.deep_view());
        r
    }
}

/// A created instance, and whether the request was a replay.
#[derive(Debug, PartialEq, Eq)]
pub struct CreateInstanceResult {
    pub instance: InstanceRecord,
    pub route_bindings: Vec<RouteBindingRecord>,
    pub idempotency_replayed: bool,
}

/// What a [`CreateInstanceResult`] holds.
#[verifier::ext_equal]
pub struct CreateInstanceResultView {
    pub instance: InstanceRecordView,
    pub route_bindings: Seq<RouteBindingRecordView>,
    pub idempotency_replayed: bool,
}

impl DeepView for CreateInstanceResult {
    type V = CreateInstanceResultView;

    open spec fn deep_view(&self) -> CreateInstanceResultView {
        CreateInstanceResultView {
            instance: self.instance.deep_view(),
            route_bindings: self.route_bindings.deep_view(),
            idempotency_replayed: self.idempotency_replayed.deep_view(),
        }
    }
}

impl Clone for CreateInstanceResult {
    fn clone(&self) -> (r: Self)
        ensures
            r.deep_view() == self.deep_view(),
    {
        let r = CreateInstanceResult {
            instance: self.instance.clone(),
            route_bindings: self.route_bindings.clone(),
            idempotency_replayed: self.idempotency_replayed,
        };
        assert(r.route_bindings.deep_view() =~= self.route_bindings.deep_view());
        r
    }
}

/// Asks for an instance.
#[derive(Debug, PartialEq, Eq)]
pub struct GetInstanceRequest {
    pub instance_id: InstanceId,
}

/// What a [`GetInstanceRequest`] holds.
#[verifier::ext_equal]
pub struct GetInstanceRequestView {
    pub instance_id: Seq<char>,
}

impl DeepView for GetInstanceRequest {
    type V = GetInstanceRequestView;

    open spec fn deep_view(&self) -> GetInstanceRequestView {
        GetInstanceRequestView {
            instance_id: self.instance_id.deep_view(),
        }
    }
}

impl Clone for GetInstanceRequest {
    fn clone(&self) -> (r: Self)
        ensures
            r.deep_view() == self.deep_view(),
    {
        GetInstanceRequest {
            instance_id: self.instance_id.clone(),
        }
    }
}

/// Asks for an instance to be deleted.
#[derive(Debug, PartialEq, Eq)]
pub struct RequestInstanceDeletion {
    pub instance_id: InstanceId,
    pub expected_generation: Generation,
}

/// What a [`RequestInstanceDeletion`] holds.
#[verifier::ext_equal]
pub struct RequestInstanceDeletionView {
    pub instance_id: Seq<char>,
    pub expected_generation: nat,
}

impl DeepView for RequestInstanceDeletion {
    type V = RequestInstanceDeletionView;

    open spec fn deep_view(&self) -> RequestInstanceDeletionView {
        RequestInstanceDeletionView {
            instance_id: self.instance_id.deep_view(),
            expected_generation: self.expected_generation.deep_view(),
        }
    }
}

impl Clone for RequestInstanceDeletion {
    fn clone(&self) -> (r: Self)
        ensures
            r.deep_view() == self.deep_view(),
    {
        RequestInstanceDeletion {
            instance_id: self.instance_id.clone(),
            expected_generation: self.expected_generation,
        }
    }
}

/// Asks for an instance to be removed.
#[derive(Debug, PartialEq, Eq)]
pub struct DeleteInstanceRequest {
    pub instance_id: InstanceId,
}

/// What a [`DeleteInstanceRequest`] holds.
#[verifier::ext_equal]
pub struct DeleteInstanceRequestView {
    pub instance_id: Seq<char>,
}

impl DeepView for DeleteInstanceRequest {
    type V = DeleteInstanceRequestView;

    open spec fn deep_view(&self) -> DeleteInstanceRequestView {
        DeleteInstanceRequestView {
            instance_id: self.instance_id.deep_view(),
        }
    }
}

impl Clone for DeleteInstanceRequest {
    fn clone(&self) -> (r: Self)
        ensures
            r.deep_view() == self.deep_view(),
    {
        DeleteInstanceRequest {
            instance_id: self.instance_id.clone(),
        }
    }
}

/// Asks for a change of state, from a known generation.
#[derive(Debug, PartialEq, Eq)]
pub struct CompareAndSwapInstanceStateRequest {
    pub instance_id: InstanceId,
    pub expected_generation: Generation,
    pub next_state: InstanceState,
    pub reason: StateTransitionReason,
}

/// What a [`CompareAndSwapInstanceStateRequest`] holds.
#[verifier::ext_equal]
pub struct CompareAndSwapInstanceStateRequestView {
    pub instance_id: Seq<char>,
    pub expected_generation: nat,
    pub next_state: InstanceState,
    pub reason: StateTransitionReasonView,
}

impl DeepView for CompareAndSwapInstanceStateRequest {
    type V = CompareAndSwapInstanceStateRequestView;

    open spec fn deep_view(&self) -> CompareAndSwapInstanceStateRequestView {
        CompareAndSwapInstanceStateRequestView {
            instance_id: self.instance_id.deep_view(),
            expected_generation: self.expected_generation.deep_view(),
            next_state: self.next_state.deep_view(),
            reason: self.reason.deep_view(),
        }
    }
}

impl Clone for CompareAndSwapInstanceStateRequest {
    fn clone(&self) -> (r: Self)
        ensures
            r.deep_view() == self.deep_view(),
    {
        CompareAndSwapInstanceStateRequest {
            instance_id: self.instance_id.clone(),
            expected_generation: self.expected_generation,
            next_state: self.next_state,
            reason: self.reason.clone(),
        }
    }
}

/// Why an instance may not be created.
#[derive(Debug, PartialEq, Eq)]
pub enum CreateInstanceValidationError {
    WorkloadClass(WorkloadClassValidationError),
    ValueSchema(ValueSchemaError),
    SleepPolicy(SleepPolicyError),
}

/// What a [`CreateInstanceValidationError`] holds.
#[verifier::ext_equal]
pub enum CreateInstanceValidationErrorView {
    WorkloadClass(WorkloadClassValidationErrorView),
    ValueSchema(ValueSchemaErrorView),
    SleepPolicy(SleepPolicyErrorView),
}

impl DeepView for CreateInstanceValidationError {
    type V = CreateInstanceValidationErrorView;

    open spec fn deep_view(&self) -> CreateInstanceValidationErrorView {
        match self {
            CreateInstanceValidationError::WorkloadClass(value) => CreateInstanceValidationErrorView::WorkloadClass(
                value.deep_view(),
            ),
            CreateInstanceValidationError::ValueSchema(value) => CreateInstanceValidationErrorView::ValueSchema(
                value.deep_view(),
            ),
            CreateInstanceValidationError::SleepPolicy(value) => CreateInstanceValidationErrorView::SleepPolicy(
                value.deep_view(),
            ),
        }
    }
}

impl Clone for CreateInstanceValidationError {
    fn clone(&self) -> (r: Self)
        ensures
            r.deep_view() == self.deep_view(),
    {
        match self {
            CreateInstanceValidationError::WorkloadClass(value) => CreateInstanceValidationError::WorkloadClass(
                value.clone(),
            ),
            CreateInstanceValidationError::ValueSchema(value) => CreateInstanceValidationError::ValueSchema(
                value.clone(),
            ),
            CreateInstanceValidationError::SleepPolicy(value) => CreateInstanceValidationError::SleepPolicy(
                value.clone(),
            ),
        }
    }
}

/// The changes of state that make up the life of an instance, each with the
/// reason for it.
pub open spec fn transition_allowed(
    current: InstanceState,
    next: InstanceState,
    reason: StateTransitionReasonView,
) -> bool {
    match reason {
        StateTransitionReasonView::WakeRequested => {
            next == InstanceState::Waking && (current == InstanceState::Cold || current
                == InstanceState::Draining || current == InstanceState::Failed)
        },
        StateTransitionReasonView::MaterializationReady => {
            current == InstanceState::Waking && next == InstanceState::Running
        },
        StateTransitionReasonView::FailureReported(_) => {
            current == InstanceState::Waking && next == InstanceState::Failed
        },
        StateTransitionReasonView::SleepRequested | StateTransitionReasonView::IdleReported => {
            current == InstanceState::Running && next == InstanceState::Draining
        },
        StateTransitionReasonView::DrainCompleted => {
            current == InstanceState::Draining && next == InstanceState::Cold
        },
        StateTransitionReasonView::DeleteRequested => {
            next == InstanceState::Deleting && current != InstanceState::Deleting && current
                != InstanceState::Deleted
        },
        StateTransitionReasonView::DeleteFinalized => {
            current == InstanceState::Deleting && next == InstanceState::Deleted
        },
        StateTransitionReasonView::OperatorRequested => false,
    }
}

/// Accepts a change of state that is part of the life of an instance.
pub fn validate_instance_state_transition(
    current: InstanceState,
    next: InstanceState,
    reason: &StateTransitionReason,
) -> (r: Result<(), InvalidStateTransition>)
    ensures
        r is Ok <==> transition_allowed(current, next, reason.deep_view()),
        r matches Err(error) ==> error.deep_view() == (InvalidStateTransitionView {
            current,
            next,
            reason: reason.deep_view(),
        }),
{
    let valid = match (current, next, reason) {
        (InstanceState::Cold, InstanceState::Waking, StateTransitionReason::WakeRequested) => true,
        (
            InstanceState::Cold,
            InstanceState::Deleting,
            StateTransitionReason::DeleteRequested,
        ) => true,
        (
            InstanceState::Waking,
            InstanceState::Running,
            StateTransitionReason::MaterializationReady,
        ) => true,
        (
            InstanceState::Waking,
            InstanceState::Failed,
            StateTransitionReason::FailureReported(_),
        ) => true,
        (
            InstanceState::Waking,
            InstanceState::Deleting,
            StateTransitionReason::DeleteRequested,
        ) => true,
        (
            InstanceState::Running,
            InstanceState::Draining,
            StateTransitionReason::SleepRequested,
        ) => true,
        (
            InstanceState::Running,
            InstanceState::Draining,
            StateTransitionReason::IdleReported,
        ) => true,
        (
            InstanceState::Running,
            InstanceState::Deleting,
            StateTransitionReason::DeleteRequested,
        ) => true,
        (
            InstanceState::Draining,
            InstanceState::Cold,
            StateTransitionReason::DrainCompleted,
        ) => true,
        (
            InstanceState::Draining,
            InstanceState::Waking,
            StateTransitionReason::WakeRequested,
        ) => true,
        (
            InstanceState::Draining,
            InstanceState::Deleting,
            StateTransitionReason::DeleteRequested,
        ) => true,
        (InstanceState::Failed, InstanceState::Waking, StateTransitionReason::WakeRequested) => {
            true
        },
        (
            InstanceState::Failed,
            InstanceState::Deleting,
            StateTransitionReason::DeleteRequested,
        ) => true,
        (
            InstanceState::Deleting,
            InstanceState::Deleted,
            StateTransitionReason::DeleteFinalized,
        ) => true,
        _ => false,
    };
    if valid {
        Ok(())
    } else {
        Err(InvalidStateTransition { current, next, reason: reason.clone() })
    }
}

/// A deleted instance never changes again.
pub proof fn lemma_deleted_is_final(next: InstanceState, reason: StateTransitionReasonView)
    ensures
        !transition_allowed(InstanceState::Deleted, next, reason),
{
}

/// An instance that is being deleted can only become deleted.
pub proof fn lemma_deleting_only_finishes(next: InstanceState, reason: StateTransitionReasonView)
    requires
        transition_allowed(InstanceState::Deleting, next, reason),
    ensures
        next == InstanceState::Deleted,
        reason == StateTransitionReasonView::DeleteFinalized,
{
}

/// An instance runs only after it was woken.
pub proof fn lemma_running_follows_waking(
    current: InstanceState,
    reason: StateTransitionReasonView,
)
    requires
        transition_allowed(current, InstanceState::Running, reason),
    ensures
        current == InstanceState::Waking,
        reason == StateTransitionReasonView::MaterializationReady,
{
}

/// No state changes to itself.
pub proof fn lemma_transition_changes_state(
    current: InstanceState,
    next: InstanceState,
    reason: StateTransitionReasonView,
)
    requires
        transition_allowed(current, next, reason),
    ensures
        current != next,
{
}

/// A reason leads from a state to at most one other.
pub proof fn lemma_transition_is_deterministic(
    current: InstanceState,
    next: InstanceState,
    other: InstanceState,
    reason: StateTransitionReasonView,
)
    requires
        transition_allowed(current, next, reason),
        transition_allowed(current, other, reason),
    ensures
        next == other,
{
}

/// Deletion may be requested in every state in which it was not requested yet.
pub proof fn lemma_deletion_is_always_possible(current: InstanceState)
    ensures
        transition_allowed(
            current,
            InstanceState::Deleting,
            StateTransitionReasonView::DeleteRequested,
        ) <==> current != InstanceState::Deleting && current != InstanceState::Deleted,
{
}

/// An instance at rest, or one whose sleep is under way or that failed, may be woken,
/// and no other.
pub proof fn lemma_what_may_be_woken(current: InstanceState, reason: StateTransitionReasonView)
    ensures
        transition_allowed(current, InstanceState::Waking, reason) <==> reason
            == StateTransitionReasonView::WakeRequested && (current == InstanceState::Cold
            || current == InstanceState::Draining || current == InstanceState::Failed),
{
}

/// Only a running instance goes to sleep, and it is cold only once its sleep is
/// complete; only a waking one fails.
pub proof fn lemma_how_an_instance_comes_to_rest(
    current: InstanceState,
    reason: StateTransitionReasonView,
)
    ensures
        transition_allowed(current, InstanceState::Draining, reason) <==> current
            == InstanceState::Running && (reason == StateTransitionReasonView::SleepRequested
            || reason == StateTransitionReasonView::IdleReported),
        transition_allowed(current, InstanceState::Cold, reason) <==> current
            == InstanceState::Draining && reason == StateTransitionReasonView::DrainCompleted,
        transition_allowed(current, InstanceState::Failed, reason) <==> current
            == InstanceState::Waking && reason is FailureReported,
        transition_allowed(current, InstanceState::Running, reason) <==> current
            == InstanceState::Waking && reason == StateTransitionReasonView::MaterializationReady,
        transition_allowed(current, InstanceState::Deleting, reason) ==> reason
            == StateTransitionReasonView::DeleteRequested,
        transition_allowed(current, InstanceState::Deleted, reason) <==> current
            == InstanceState::Deleting && reason == StateTransitionReasonView::DeleteFinalized,
{
}

/// The name of a state.
pub open spec fn state_name(state: InstanceState) -> Seq<char> {
    match state {
        InstanceState::Cold => "Cold"@,
        InstanceState::Waking => "Waking"@,
        InstanceState::Running => "Running"@,
        InstanceState::Draining => "Draining"@,
        InstanceState::Failed => "Failed"@,
        InstanceState::Deleting => "Deleting"@,
        InstanceState::Deleted => "Deleted"@,
    }
}

/// The name of a reason.
pub open spec fn reason_name(reason: StateTransitionReasonView) -> Seq<char> {
    match reason {
        StateTransitionReasonView::OperatorRequested => "OperatorRequested"@,
        StateTransitionReasonView::WakeRequested => "WakeRequested"@,
        StateTransitionReasonView::MaterializationReady => "MaterializationReady"@,
        StateTransitionReasonView::SleepRequested => "SleepRequested"@,
        StateTransitionReasonView::IdleReported => "IdleReported"@,
        StateTransitionReasonView::DrainCompleted => "DrainCompleted"@,
        StateTransitionReasonView::FailureReported(message) => {
            "FailureReported("@ + text::debug_text(message) + ")"@
        },
        StateTransitionReasonView::DeleteRequested => "DeleteRequested"@,
        StateTransitionReasonView::DeleteFinalized => "DeleteFinalized"@,
    }
}

impl InstanceState {
    /// The name of the state.
    pub fn name(&self) -> (r: &'static str)
        ensures
            r@ == state_name(*self),
    {
        match self {
            InstanceState::Cold => "Cold",
            InstanceState::Waking => "Waking",
            InstanceState::Running => "Running",
            InstanceState::Draining => "Draining",
            InstanceState::Failed => "Failed",
            InstanceState::Deleting => "Deleting",
            InstanceState::Deleted => "Deleted",
        }
    }
}

impl StateTransitionReason {
    /// The name of the reason.
    pub fn name(&self) -> (r: String)
        ensures
            r@ == reason_name(self.deep_view()),
    {
        match self {
            StateTransitionReason::OperatorRequested => "OperatorRequested".to_owned(),
            StateTransitionReason::WakeRequested => "WakeRequested".to_owned(),
            StateTransitionReason::MaterializationReady => "MaterializationReady".to_owned(),
            StateTransitionReason::SleepRequested => "SleepRequested".to_owned(),
            StateTransitionReason::IdleReported => "IdleReported".to_owned(),
            StateTransitionReason::DrainCompleted => "DrainCompleted".to_owned(),
            StateTransitionReason::FailureReported(message) => {
                let message = text::quoted(message.as_str());
                text::join3("FailureReported(", message.as_str(), ")")
            },
            StateTransitionReason::DeleteRequested => "DeleteRequested".to_owned(),
            StateTransitionReason::DeleteFinalized => "DeleteFinalized".to_owned(),
        }
    }
}

/// What is shown for a change of state that is not allowed.
pub open spec fn invalid_transition_message(error: InvalidStateTransitionView) -> Seq<char> {
    "invalid instance state transition: "@ + state_name(error.current) + " -> "@ + state_name(
        error.next,
    ) + " for "@ + reason_name(error.reason)
}

impl InvalidStateTransition {
    pub fn to_string(&self) -> (r: String)
        ensures
            r@ == invalid_transition_message(self.deep_view()),
    {
        let reason = self.reason.name();
        let mut message = text::join5(
            "invalid instance state transition: ",
            self.current.name(),
            " -> ",
            self.next.name(),
            " for ",
        );
        message.append(reason.as_str());
        message
    }
}

/// What an instance request becomes once checked against its class: the class
/// itself, then the values, then the sleep policy that they give.
pub open spec fn validated_request(
    request: CreateInstanceRequest,
    class: WorkloadClassVersion,
) -> Result<CreateInstanceRequestView, CreateInstanceValidationErrorView> {
    match workload::class_problem(class.deep_view()) {
        Some(error) => Err(CreateInstanceValidationErrorView::WorkloadClass(error)),
        None => match workload::validated_values(class.value_schema, request.values) {
            Err(error) => Err(CreateInstanceValidationErrorView::ValueSchema(error)),
            Ok(values) => match sleep_policy::resolved_policy(
                class.sleep_policy.deep_view(),
                values,
            ) {
                Err(error) => Err(CreateInstanceValidationErrorView::SleepPolicy(error)),
                Ok(_) => Ok(CreateInstanceRequestView { values, ..request.deep_view() }),
            },
        },
    }
}

impl CreateInstanceRequest {
    pub fn new(
        idempotency_key: IdempotencyKey,
        instance_id: InstanceId,
        workload_class: WorkloadClassVersionRef,
    ) -> (r: Self)
        ensures
            r.deep_view() == (CreateInstanceRequestView {
                idempotency_key: idempotency_key@,
                instance_id: instance_id@,
                workload_class: workload_class.deep_view(),
                values: Map::empty(),
                route_bindings: Seq::empty(),
            }),
    {
        let r = CreateInstanceRequest {
            idempotency_key,
            instance_id,
            workload_class,
            values: StringMap::new(),
            route_bindings: Vec::new(),
        };
        assert(r.route_bindings.deep_view() =~= Seq::<RouteBindingSpecView>::empty());
        r
    }

    pub fn with_values(self, values: InstanceValues) -> (r: Self)
        ensures
            r.deep_view() == (CreateInstanceRequestView {
                values: values.deep_view(),
                ..self.deep_view()
            }),
            r.values == values,
    {
        CreateInstanceRequest {
            idempotency_key: self.idempotency_key,
            instance_id: self.instance_id,
            workload_class: self.workload_class,
            values,
            route_bindings: self.route_bindings,
        }
    }

    pub fn with_route_bindings(self, route_bindings: Vec<RouteBindingSpec>) -> (r: Self)
        ensures
            r.deep_view() == (CreateInstanceRequestView {
                route_bindings: route_bindings.deep_view(),
                ..self.deep_view()
            }),
            r.values == self.values,
    {
        CreateInstanceRequest {
            idempotency_key: self.idempotency_key,
            instance_id: self.instance_id,
            workload_class: self.workload_class,
            values: self.values,
            route_bindings,
        }
    }

    /// Checks the request against its class and fills in the default values.
    pub fn validate_values_against(self, workload_class: &WorkloadClassVersion) -> (r: Result<
        Self,
        CreateInstanceValidationError,
    >)
        ensures
            outcome::of(r) == validated_request(self, *workload_class),
    {
        if let Err(error) = workload_class.validate() {
            return Err(CreateInstanceValidationError::WorkloadClass(error));
        }
        match workload_class.value_schema.validate_values(&self.values) {
            Err(error) => Err(CreateInstanceValidationError::ValueSchema(error)),
            Ok(values) => match workload_class.sleep_policy.resolve(&values) {
                Err(error) => Err(CreateInstanceValidationError::SleepPolicy(error)),
                Ok(_) => Ok(self.with_values(values)),
            },
        }
    }
}

/// What is shown for an instance that may not be created.
pub open spec fn create_instance_message(error: CreateInstanceValidationErrorView) -> Seq<char> {
    match error {
        CreateInstanceValidationErrorView::WorkloadClass(error) => {
            workload::workload_class_message(error)
        },
        CreateInstanceValidationErrorView::ValueSchema(error) => {
            workload::value_schema_message(error)
        },
        CreateInstanceValidationErrorView::SleepPolicy(error) => {
            sleep_policy::sleep_policy_message(error)
        },
    }
}

impl CreateInstanceValidationError {
    pub fn to_string(&self) -> (r: String)
        ensures
            r@ == create_instance_message(self.deep_view()),
    {
        match self {
            CreateInstanceValidationError::WorkloadClass(error) => error.to_string(),
            CreateInstanceValidationError::ValueSchema(error) => error.to_string(),
            CreateInstanceValidationError::SleepPolicy(error) => error.to_string(),
        }
    }
}

impl GetInstanceRequest {
    pub fn new(instance_id: InstanceId) -> (r: Self)
        ensures
            r.instance_id == instance_id,
    {
        GetInstanceRequest { instance_id }
    }
}

impl DeleteInstanceRequest {
    pub fn new(instance_id: InstanceId) -> (r: Self)
        ensures
            r.instance_id == instance_id,
    {
        DeleteInstanceRequest { instance_id }
    }
}

impl CompareAndSwapInstanceStateRequest {
    pub fn new(
        instance_id: InstanceId,
        expected_generation: Generation,
        next_state: InstanceState,
        reason: StateTransitionReason,
    ) -> (r: Self)
        ensures
            r.instance_id == instance_id,
            r.expected_generation == expected_generation,
            r.next_state == next_state,
            r.reason == reason,
    {
        CompareAndSwapInstanceStateRequest {
            instance_id,
            expected_generation,
            next_state,
            reason,
        }
    }
}

/// A request that passed is the request as it was made, but that values may have been
/// added: none of those given is changed or left out, and none is added that the class
/// does not know.
pub proof fn lemma_checked_request_is_the_request(
    request: CreateInstanceRequest,
    class: WorkloadClassVersion,
)
    requires
        validated_request(request, class) is Ok,
    ensures
        ({
            let checked = validated_request(request, class)->Ok_0;
            let made = request.deep_view();
            &&& checked.idempotency_key == made.idempotency_key
            &&& checked.instance_id == made.instance_id
            &&& checked.workload_class == made.workload_class
            &&& checked.route_bindings == made.route_bindings
            &&& workload::validated_values(class.value_schema, request.values)
                == Ok::<Map<Seq<char>, Seq<char>>, ValueSchemaErrorView>(checked.values)
            &&& sleep_policy::resolved_policy(
                class.sleep_policy.deep_view(),
                checked.values,
            ) is Ok
            &&& workload::class_problem(class.deep_view()) is None
        }),
{
}

/// A request is refused for its class before its values are looked at, and for its
/// values before its sleep policy is.
pub proof fn lemma_request_is_refused_in_order(
    request: CreateInstanceRequest,
    class: WorkloadClassVersion,
)
    ensures
        workload::class_problem(class.deep_view()) matches Some(problem) ==> validated_request(
            request,
            class,
        ) == Err::<CreateInstanceRequestView, _>(
            CreateInstanceValidationErrorView::WorkloadClass(problem),
        ),
        workload::class_problem(class.deep_view()) is None && workload::validated_values(
            class.value_schema,
            request.values,
        ) is Err ==> validated_request(request, class) == Err::<CreateInstanceRequestView, _>(
            CreateInstanceValidationErrorView::ValueSchema(
                workload::validated_values(class.value_schema, request.values)->Err_0,
            ),
        ),
        workload::class_problem(class.deep_view()) is None && workload::validated_values(
            class.value_schema,
            request.values,
        ) is Ok && sleep_policy::resolved_policy(
            class.sleep_policy.deep_view(),
            workload::validated_values(class.value_schema, request.values)->Ok_0,
        ) is Ok ==> validated_request(request, class) is Ok,
{
}

} // verus!

//! What is decided over waking and deleting instances.
use vstd::prelude::*;

use super::mapping;
use super::mapping::InstanceRow;
use super::mapping::InstanceRowView;
use crate::ids;
use crate::ids::BackendGeneration;
use crate::ids::Generation;
use crate::ids::InstanceId;
use crate::instance::InstanceRecord;
use crate::instance::InstanceRecordView;
use crate::instance::InstanceState;
use crate::instance::RequestInstanceDeletion;
use crate::json;
use crate::materialization::MaterializationState;
use crate::materialization::MaterializationTarget;
use crate::materialization::MaterializationTargetView;
use crate::materialization::RecordMaterializationRequest;
use crate::materialization::RecordMaterializationRequestView;
use crate::outcome;
use crate::store::StoreError;
use crate::store::StoreErrorView;
use crate::text;
use crate::workload::RenderedExclusivityKey;
use crate::workload::RenderedExclusivityKeyView;

verus! {

/// Asks for an instance to wake to a materialization that is pending.
#[derive(Debug, PartialEq, Eq)]
pub struct AcceptWakeRequest {
    pub expected_generation: Generation,
    pub pending: RecordMaterializationRequest,
}

/// What an [`AcceptWakeRequest`] holds.
#[verifier::ext_equal]
pub struct AcceptWakeRequestView {
    pub expected_generation: nat,
    pub pending: RecordMaterializationRequestView,
}

impl DeepView for AcceptWakeRequest {
    type V = AcceptWakeRequestView;

    open spec fn deep_view(&self) -> AcceptWakeRequestView {
        AcceptWakeRequestView {
            expected_generation: self.expected_generation.deep_view(),
            pending: self.pending.deep_view(),
        }
    }
}

/// A wake of an instance that has to go to sleep first, as it is stored.
#[derive(Debug, PartialEq, Eq)]
pub struct DeferredWakeIntent {
    pub instance_id: String,
    pub instance_generation: i64,
    pub projection_generation: i64,
    pub cluster_id: String,
    pub namespace: String,
    pub backend_generation: i64,
    pub rendered_objects: serde_json::Value,
    pub exclusivity_keys: Vec<RenderedExclusivityKey>,
}

/// What a [`DeferredWakeIntent`] holds.
#[verifier::ext_equal]
pub struct DeferredWakeIntentView {
    pub instance_id: Seq<char>,
    pub instance_generation: i64,
    pub projection_generation: i64,
    pub cluster_id: Seq<char>,
    pub namespace: Seq<char>,
    pub backend_generation: i64,
    pub rendered_objects: serde_json::Value,
    pub exclusivity_keys: Seq<RenderedExclusivityKeyView>,
}

impl DeepView for DeferredWakeIntent {
    type V = DeferredWakeIntentView;

    open spec fn deep_view(&self) -> DeferredWakeIntentView {
        DeferredWakeIntentView {
            instance_id: self.instance_id.deep_view(),
            instance_generation: self.instance_generation.deep_view(),
            projection_generation: self.projection_generation.deep_view(),
            cluster_id: self.cluster_id.deep_view(),
            namespace: self.namespace.deep_view(),
            backend_generation: self.backend_generation.deep_view(),
            rendered_objects: self.rendered_objects,
            exclusivity_keys: self.exclusivity_keys.deep_view(),
        }
    }
}

/// What an accepted wake does: nothing, as it was accepted before; it waits until the
/// instance sleeps; or the instance begins to wake.
#[derive(Debug, PartialEq, Eq)]
pub enum WakeAcceptance {
    Replayed(InstanceRecord),
    Deferred { instance: InstanceRecord, intent: DeferredWakeIntent },
    Waking { generation: i64, pending: RecordMaterializationRequest },
}

/// What a [`WakeAcceptance`] holds.
#[verifier::ext_equal]
pub enum WakeAcceptanceView {
    Replayed(InstanceRecordView),
    Deferred { instance: InstanceRecordView, intent: DeferredWakeIntentView },
    Waking { generation: i64, pending: RecordMaterializationRequestView },
}

impl DeepView for WakeAcceptance {
    type V = WakeAcceptanceView;

    open spec fn deep_view(&self) -> WakeAcceptanceView {
        match self {
            WakeAcceptance::Replayed(value) => WakeAcceptanceView::Replayed(value.deep_view()),
            WakeAcceptance::Deferred { instance, intent } => WakeAcceptanceView::Deferred {
                instance: instance.deep_view(),
                intent: intent.deep_view(),
            },
            WakeAcceptance::Waking { generation, pending } => WakeAcceptanceView::Waking {
                generation: generation.deep_view(),
                pending: pending.deep_view(),
            },
        }
    }
}

/// Whether a wake was accepted before: the instance wakes to the generation that
/// is asked for.
pub open spec fn is_replay(request: AcceptWakeRequestView, current: InstanceRecordView) -> bool {
    current.state == InstanceState::Waking && current.generation
        == request.pending.instance_generation
}

/// The generation that an instance wakes in: the next one, or the one behind it if
/// it has to go to sleep first.
pub open spec fn waking_generation(current: InstanceRecordView) -> nat {
    if current.state == InstanceState::Draining {
        current.generation + 2
    } else {
        current.generation + 1
    }
}

/// What keeps an instance from waking.
pub open spec fn wake_problem(
    request: AcceptWakeRequestView,
    current: InstanceRecordView,
    cleanup_pending: bool,
) -> Option<StoreErrorView> {
    if current.generation != request.expected_generation {
        Some(
            StoreErrorView::GenerationConflict {
                expected: request.expected_generation,
                actual: current.generation,
            },
        )
    } else if current.state != InstanceState::Cold && current.state != InstanceState::Failed
        && current.state != InstanceState::Draining {
        Some(
            mapping::refused("wake acceptance requires cold, failed, or draining instance"@),
        )
    } else if current.state != InstanceState::Draining && cleanup_pending {
        Some(
            StoreErrorView::Unavailable {
                message: "previous materialization cleanup is still pending"@,
            },
        )
    } else if request.pending.state != MaterializationState::Pending
        || request.pending.instance_generation != waking_generation(current)
        || request.pending.projection_generation != waking_generation(current) + 1
        || request.pending.backend is Some {
        Some(
            mapping::refused("accepted wake projection does not match its next incarnation"@),
        )
    } else {
        None
    }
}

/// The backend generation of a wake: the one that is asked for, and in any case one
/// behind all that were there before.
pub open spec fn wake_backend_generation(asked: nat, previous: Option<i64>) -> Result<
    nat,
    StoreErrorView,
> {
    match previous {
        None => Ok(asked),
        Some(previous) => if previous == i64::MAX {
            Err(mapping::refused("backend generation exhausted"@))
        } else {
            match mapping::backend_generation_of((previous + 1) as i64) {
                Err(error) => Err(error),
                Ok(next) => Ok(
                    if asked >= next {
                        asked
                    } else {
                        next
                    },
                ),
            }
        },
    }
}

fn next_backend_generation(asked: BackendGeneration, previous: Option<i64>) -> (r: Result<
    BackendGeneration,
    StoreError,
>)
    ensures
        outcome::of(r) == wake_backend_generation(asked@, previous),
{
    let previous: i64 = match previous {
        Some(previous) => previous,
        None => return Ok(asked),
    };
    if previous == i64::MAX {
        return Err(StoreError::invalid_argument("backend generation exhausted"));
    }
    match mapping::backend_generation_from_i64(previous + 1) {
        Err(error) => Err(error),
        Ok(next) => if asked.get() >= next.get() {
            Ok(asked)
        } else {
            Ok(next)
        },
    }
}

/// What keeps a wake from being stored: a number that does not fit.
pub open spec fn intent_problem(pending: RecordMaterializationRequestView) -> Option<
    StoreErrorView,
> {
    outcome::first_of(
        outcome::err_of(mapping::stored_generation(pending.instance_generation)),
        outcome::first_of(
            outcome::err_of(mapping::stored_generation(pending.projection_generation)),
            outcome::err_of(mapping::stored_backend_generation(pending.backend_generation)),
        ),
    )
}

/// Whether an intent is a wake as it is stored.
pub open spec fn is_intent_of(
    pending: RecordMaterializationRequestView,
    intent: DeferredWakeIntentView,
) -> bool {
    &&& intent.instance_id == pending.instance_id
    &&& intent.instance_generation == pending.instance_generation
    &&& intent.projection_generation == pending.projection_generation
    &&& intent.cluster_id == pending.target.cluster_id
    &&& intent.namespace == pending.target.namespace
    &&& intent.backend_generation == pending.backend_generation
    &&& json::json_of(intent.rendered_objects) == mapping::object_refs_json(
        pending.rendered_objects,
    )
    &&& intent.exclusivity_keys == pending.exclusivity_keys
}

fn deferred_intent(pending: &RecordMaterializationRequest) -> (r: Result<
    DeferredWakeIntent,
    StoreError,
>)
    ensures
        match r {
            Ok(intent) => intent_problem(pending.deep_view()) is None && is_intent_of(
                pending.deep_view(),
                intent.deep_view(),
            ),
            Err(error) => intent_problem(pending.deep_view()) == Some(error.deep_view()),
        },
{
    let instance_generation: i64 = match mapping::generation_to_i64(pending.instance_generation) {
        Ok(generation) => generation,
        Err(error) => return Err(error),
    };
    let projection_generation: i64 = match mapping::generation_to_i64(
        pending.projection_generation,
    ) {
        Ok(generation) => generation,
        Err(error) => return Err(error),
    };
    let backend_generation: i64 = match mapping::backend_generation_to_i64(
        pending.backend_generation,
    ) {
        Ok(generation) => generation,
        Err(error) => return Err(error),
    };
    let exclusivity_keys = pending.exclusivity_keys.clone();
    assert(exclusivity_keys.deep_view() =~= pending.exclusivity_keys.deep_view());
    Ok(
        DeferredWakeIntent {
            instance_id: pending.instance_id.to_string(),
            instance_generation,
            projection_generation,
            cluster_id: pending.target.cluster_id().to_owned(),
            namespace: pending.target.namespace().to_owned(),
            backend_generation,
            rendered_objects: mapping::rendered_objects_to_json(&pending.rendered_objects),
            exclusivity_keys,
        },
    )
}

/// Whether an acceptance is what a wake leads to, if nothing keeps the instance
/// from waking.
pub open spec fn accepts(
    request: AcceptWakeRequestView,
    current: InstanceRecordView,
    backend_generation: nat,
    acceptance: WakeAcceptanceView,
) -> bool {
    let pending = RecordMaterializationRequestView { backend_generation, ..request.pending };
    if current.state == InstanceState::Draining {
        &&& intent_problem(pending) is None
        &&& acceptance matches WakeAcceptanceView::Deferred { instance, intent }
        &&& instance == current
        &&& is_intent_of(pending, intent)
    } else {
        &&& mapping::stored_generation(waking_generation(current)) is Ok
        &&& acceptance == WakeAcceptanceView::Waking {
            generation: waking_generation(current) as i64,
            pending,
        }
    }
}

/// Why a wake that nothing keeps from waking is not stored.
pub open spec fn store_problem(
    request: AcceptWakeRequestView,
    current: InstanceRecordView,
    previous_backend: Option<i64>,
) -> Option<StoreErrorView> {
    match wake_backend_generation(request.pending.backend_generation, previous_backend) {
        Err(error) => Some(error),
        Ok(backend_generation) => {
            let pending = RecordMaterializationRequestView {
                backend_generation,
                ..request.pending
            };
            if current.state == InstanceState::Draining {
                intent_problem(pending)
            } else {
                outcome::err_of(mapping::stored_generation(waking_generation(current)))
            }
        },
    }
}

/// Whether an outcome is what a wake leads to, by what is stored of the instance.
pub open spec fn wake_leads_to(
    request: AcceptWakeRequestView,
    row: Option<InstanceRowView>,
    pending_on_target: bool,
    cleanup_pending: bool,
    previous_backend: Option<i64>,
    result: Result<WakeAcceptanceView, StoreErrorView>,
) -> bool {
    match row {
        None => result == Err::<WakeAcceptanceView, StoreErrorView>(
            StoreErrorView::NotFound { resource: "instance"@ },
        ),
        Some(row) => match mapping::instance_of(row) {
            Err(error) => result == Err::<WakeAcceptanceView, StoreErrorView>(error),
            Ok(current) => if is_replay(request, current) {
                result == if pending_on_target {
                    Ok(WakeAcceptanceView::Replayed(current))
                } else {
                    Err(mapping::refused("wake already accepted for another target"@))
                }
            } else {
                match outcome::first_of(
                    wake_problem(request, current, cleanup_pending),
                    store_problem(request, current, previous_backend),
                ) {
                    Some(problem) => result == Err::<WakeAcceptanceView, StoreErrorView>(problem),
                    None => result matches Ok(acceptance) && accepts(
                        request,
                        current,
                        wake_backend_generation(
                            request.pending.backend_generation,
                            previous_backend,
                        )->Ok_0,
                        acceptance,
                    ),
                }
            },
        },
    }
}

/// Accepts a wake, or says why it is refused. It takes what is stored of the
/// instance, whether a pending materialization on the target is, whether one that
/// is not deleted is on any, and the highest backend generation on the target. A
/// wake that was accepted before is accepted again without effect; one of an
/// instance that goes to sleep waits.
pub fn accept_wake(
    request: AcceptWakeRequest,
    row: &Option<InstanceRow>,
    pending_on_target: bool,
    cleanup_pending: bool,
    previous_backend: Option<i64>,
) -> (r: Result<WakeAcceptance, StoreError>)
    ensures
        wake_leads_to(
            request.deep_view(),
            row.deep_view(),
            pending_on_target,
            cleanup_pending,
            previous_backend,
            outcome::of(r),
        ),
{
    let row = match row {
        Some(row) => row,
        None => return Err(StoreError::NotFound { resource: "instance" }),
    };
    let current = match mapping::instance_from_row(row) {
        Ok(current) => current,
        Err(error) => return Err(error),
    };
    if current.state == InstanceState::Waking && current.generation.get()
        == request.pending.instance_generation.get() {
        if !pending_on_target {
            return Err(StoreError::invalid_argument("wake already accepted for another target"));
        }
        return Ok(WakeAcceptance::Replayed(current));
    }
    if current.generation.get() != request.expected_generation.get() {
        return Err(
            StoreError::GenerationConflict {
                expected: request.expected_generation,
                actual: current.generation,
            },
        );
    }
    if current.state != InstanceState::Cold && current.state != InstanceState::Failed
        && current.state != InstanceState::Draining {
        return Err(
            StoreError::invalid_argument(
                "wake acceptance requires cold, failed, or draining instance",
            ),
        );
    }
    if current.state != InstanceState::Draining && cleanup_pending {
        return Err(
            StoreError::unavailable("previous materialization cleanup is still pending"),
        );
    }
    let step: u128 = if current.state == InstanceState::Draining {
        2
    } else {
        1
    };
    let waking: u128 = current.generation.get() as u128 + step;
    if request.pending.state != MaterializationState::Pending
        || request.pending.instance_generation.get() as u128 != waking
        || request.pending.projection_generation.get() as u128 != waking + 1
        || request.pending.backend.is_some() {
        return Err(
            StoreError::invalid_argument(
                "accepted wake projection does not match its next incarnation",
            ),
        );
    }
    let ghost asked = request.pending.deep_view();
    let mut pending = request.pending;
    let backend_generation = match next_backend_generation(
        pending.backend_generation,
        previous_backend,
    ) {
        Ok(generation) => generation,
        Err(error) => return Err(error),
    };
    pending.backend_generation = backend_generation;
    assert(pending.deep_view() =~= RecordMaterializationRequestView {
        backend_generation: backend_generation@,
        ..asked
    });
    if current.state == InstanceState::Draining {
        return match deferred_intent(&pending) {
            Ok(intent) => Ok(WakeAcceptance::Deferred { instance: current, intent }),
            Err(error) => Err(error),
        };
    }
    match mapping::generation_to_i64(pending.instance_generation) {
        Ok(generation) => Ok(WakeAcceptance::Waking { generation, pending }),
        Err(error) => Err(error),
    }
}

/// What is wrong with a wake that waits if another one waits already: it may be for
/// another target.
pub open spec fn deferred_target_problem(
    inserted: bool,
    wanted: MaterializationTargetView,
    stored: MaterializationTargetView,
) -> Option<StoreErrorView> {
    if !inserted && stored != wanted {
        Some(mapping::refused("wake already accepted for another target"@))
    } else {
        None
    }
}

/// What is wrong with a wake that waits if another one waits already: it may be for
/// another target.
pub fn check_deferred_target(
    inserted: bool,
    intent: &DeferredWakeIntent,
    stored_cluster_id: &str,
    stored_namespace: &str,
) -> (r: Result<(), StoreError>)
    ensures
        outcome::problem(r) == deferred_target_problem(
            inserted,
            MaterializationTargetView {
                cluster_id: intent.deep_view().cluster_id,
                namespace: intent.deep_view().namespace,
            },
            MaterializationTargetView {
                cluster_id: stored_cluster_id@,
                namespace: stored_namespace@,
            },
        ),
{
    if !inserted && (!text::same(stored_cluster_id, intent.cluster_id.as_str()) || !text::same(
        stored_namespace,
        intent.namespace.as_str(),
    )) {
        return Err(StoreError::invalid_argument("wake already accepted for another target"));
    }
    Ok(())
}

/// The materialization of a wake that waited.
pub open spec fn activated(intent: DeferredWakeIntentView) -> Result<
    RecordMaterializationRequestView,
    StoreErrorView,
> {
    if text::is_blank(intent.instance_id) {
        Err(mapping::broken(ids::empty_string_message("InstanceId"@)))
    } else if mapping::generation_of(intent.instance_generation) is Err {
        Err(mapping::generation_of(intent.instance_generation)->Err_0)
    } else if text::is_blank(intent.cluster_id) {
        Err(
            mapping::broken(
                "materialization target "@ + "cluster_id"@ + " must not be empty"@,
            ),
        )
    } else if text::is_blank(intent.namespace) {
        Err(
            mapping::broken("materialization target "@ + "namespace"@ + " must not be empty"@),
        )
    } else if mapping::backend_generation_of(intent.backend_generation) is Err {
        Err(mapping::backend_generation_of(intent.backend_generation)->Err_0)
    } else if mapping::generation_of(intent.projection_generation) is Err {
        Err(mapping::generation_of(intent.projection_generation)->Err_0)
    } else {
        match mapping::object_refs_of(json::json_of(intent.rendered_objects)) {
            Err(error) => Err(error),
            Ok(rendered_objects) => Ok(
                RecordMaterializationRequestView {
                    instance_id: intent.instance_id,
                    instance_generation: intent.instance_generation as nat,
                    projection_generation: intent.projection_generation as nat,
                    target: MaterializationTargetView {
                        cluster_id: intent.cluster_id,
                        namespace: intent.namespace,
                    },
                    state: MaterializationState::Pending,
                    backend: None,
                    backend_generation: intent.backend_generation as nat,
                    rendered_objects,
                    exclusivity_keys: intent.exclusivity_keys,
                },
            ),
        }
    }
}

/// The materialization of a wake that waited, once the instance sleeps: the
/// instance has to have become what the wake waited for.
pub open spec fn activation(intent: DeferredWakeIntentView, instance_updated: bool) -> Result<
    RecordMaterializationRequestView,
    StoreErrorView,
> {
    if !instance_updated {
        Err(mapping::refused("deferred wake no longer matches drained incarnation"@))
    } else {
        activated(intent)
    }
}

/// The materialization of a wake that waited, once the instance sleeps: the
/// instance has to have become what the wake waited for.
pub fn activate_deferred_wake(intent: DeferredWakeIntent, instance_updated: bool) -> (r: Result<
    RecordMaterializationRequest,
    StoreError,
>)
    ensures
        outcome::of(r) == activation(intent.deep_view(), instance_updated),
{
    if !instance_updated {
        return Err(
            StoreError::invalid_argument("deferred wake no longer matches drained incarnation"),
        );
    }
    let instance_id = match InstanceId::new(intent.instance_id.as_str()) {
        Ok(instance_id) => instance_id,
        Err(error) => return Err(StoreError::internal(error.to_string().as_str())),
    };
    let instance_generation = match mapping::generation_from_i64(intent.instance_generation) {
        Ok(generation) => generation,
        Err(error) => return Err(error),
    };
    let target = match MaterializationTarget::new(
        intent.cluster_id.as_str(),
        intent.namespace.as_str(),
    ) {
        Ok(target) => target,
        Err(error) => return Err(StoreError::internal(error.to_string().as_str())),
    };
    let backend_generation = match mapping::backend_generation_from_i64(
        intent.backend_generation,
    ) {
        Ok(generation) => generation,
        Err(error) => return Err(error),
    };
    let projection_generation = match mapping::generation_from_i64(intent.projection_generation) {
        Ok(generation) => generation,
        Err(error) => return Err(error),
    };
    let rendered_objects = match mapping::rendered_objects_from_json(&intent.rendered_objects) {
        Ok(rendered_objects) => rendered_objects,
        Err(error) => return Err(error),
    };
    Ok(
        RecordMaterializationRequest {
            instance_id,
            instance_generation,
            projection_generation,
            target,
            state: MaterializationState::Pending,
            backend: None,
            backend_generation,
            rendered_objects,
            exclusivity_keys: intent.exclusivity_keys,
        },
    )
}

/// What a request to delete an instance does: nothing, as there is none; it goes on
/// with a deletion; or it begins one.
#[derive(Clone, Copy, Debug, PartialEq, Eq, Structural)]
pub enum DeletionStep {
    Missing,
    Continue,
    Begin,
}

impl DeepView for DeletionStep {
    type V = DeletionStep;

    open spec fn deep_view(&self) -> DeletionStep {
        *self
    }
}

/// What a request to delete an instance does.
pub open spec fn deletion_step_of(
    expected: nat,
    stored: Option<(Seq<char>, i64)>,
) -> Result<DeletionStep, StoreErrorView> {
    if mapping::stored_generation(expected) is Err {
        Err(mapping::stored_generation(expected)->Err_0)
    } else {
        match stored {
            None => Ok(DeletionStep::Missing),
            Some((state, generation)) => match mapping::generation_of(generation) {
                Err(error) => Err(error),
                Ok(actual) => {
                    let deleting = state == "deleting"@;
                    if actual != expected && !(deleting && actual == expected + 1) {
                        Err(StoreErrorView::GenerationConflict { expected, actual })
                    } else if deleting {
                        Ok(DeletionStep::Continue)
                    } else {
                        match mapping::stored_generation(actual + 1) {
                            Err(error) => Err(error),
                            Ok(_) => Ok(DeletionStep::Begin),
                        }
                    }
                },
            },
        }
    }
}

/// What is stored of an instance: its state and its generation.
pub open spec fn stored_state(stored: Option<(String, i64)>) -> Option<(Seq<char>, i64)> {
    match stored {
        Some((state, generation)) => Some((state@, generation)),
        None => None,
    }
}

/// What a request to delete an instance does, by what is stored of the instance.
/// One that was accepted before is accepted again.
pub fn request_instance_deletion(
    request: &RequestInstanceDeletion,
    stored: &Option<(String, i64)>,
) -> (r: Result<DeletionStep, StoreError>)
    ensures
        outcome::of(r) == deletion_step_of(
            request.deep_view().expected_generation,
            stored_state(*stored),
        ),
{
    if let Err(error) = mapping::generation_to_i64(request.expected_generation) {
        return Err(error);
    }
    let expected: u64 = request.expected_generation.get();
    match stored {
        None => Ok(DeletionStep::Missing),
        Some((state, generation)) => {
            let actual = match mapping::generation_from_i64(*generation) {
                Ok(actual) => actual,
                Err(error) => return Err(error),
            };
            let deleting = text::same(state.as_str(), "deleting");
            let accepted = deleting && actual.get() == expected + 1;
            if actual.get() != expected && !accepted {
                return Err(
                    StoreError::GenerationConflict {
                        expected: request.expected_generation,
                        actual,
                    },
                );
            }
            if deleting {
                return Ok(DeletionStep::Continue);
            }
            match mapping::generation_to_i64(Generation::new(actual.get() + 1)) {
                Ok(_) => Ok(DeletionStep::Begin),
                Err(error) => Err(error),
            }
        },
    }
}

/// How many deletions are finished at once, as it is stored.
pub fn deletion_batch(limit: usize) -> (r: Result<i64, StoreError>)
    ensures
        outcome::of(r) == if limit <= i64::MAX {
            Ok(limit as i64)
        } else {
            Err(mapping::refused("deletion batch too large"@))
        },
{
    if limit as u128 > i64::MAX as u128 {
        return Err(StoreError::invalid_argument("deletion batch too large"));
    }
    Ok(limit as i64)
}

/// An instance that began to wake is read back as waking, and the wake that made it so is
/// taken for a repetition when it is asked for again: it is not accepted a second time.
pub proof fn lemma_accepted_wake_is_replayed(
    request: AcceptWakeRequestView,
    row: InstanceRowView,
    cleanup_pending: bool,
    backend_generation: nat,
    generation: i64,
    pending: RecordMaterializationRequestView,
)
    requires
        mapping::instance_of(row) is Ok,
        wake_problem(request, mapping::instance_of(row)->Ok_0, cleanup_pending) is None,
        accepts(
            request,
            mapping::instance_of(row)->Ok_0,
            backend_generation,
            WakeAcceptanceView::Waking { generation, pending },
        ),
    ensures
        ({
            let before = mapping::instance_of(row)->Ok_0;
            let after = mapping::instance_of(
                InstanceRowView { state: "waking"@, generation, ..row },
            );
            &&& after == Ok::<InstanceRecordView, StoreErrorView>(
                InstanceRecordView {
                    state: InstanceState::Waking,
                    generation: before.generation + 1,
                    ..before
                },
            )
            &&& is_replay(request, after->Ok_0)
        }),
{
    mapping::lemma_state_names_round_trip(InstanceState::Waking, MaterializationState::Pending);
}

/// A wake that waits is carried out as it was accepted.
pub proof fn lemma_deferred_wake_is_carried_out(
    pending: RecordMaterializationRequestView,
    intent: DeferredWakeIntentView,
)
    requires
        is_intent_of(pending, intent),
        intent_problem(pending) is None,
        pending.state == MaterializationState::Pending,
        pending.backend is None,
        !text::is_blank(pending.instance_id),
        !text::is_blank(pending.target.cluster_id),
        !text::is_blank(pending.target.namespace),
    ensures
        activated(intent) == Ok::<RecordMaterializationRequestView, StoreErrorView>(pending),
{
    mapping::lemma_object_refs_round_trip(pending.rendered_objects);
}

/// The backend generation of a wake is behind every one that was on the target
/// before.
pub proof fn lemma_backend_generation_increases(asked: nat, previous: i64)
    ensures
        wake_backend_generation(asked, Some(previous)) matches Ok(generation) ==> generation
            > previous && generation >= asked,
{
}

/// A request to delete an instance that is repeated is accepted again, and does not
/// begin a second deletion.
pub proof fn lemma_deletion_is_idempotent(expected: nat, state: Seq<char>, generation: i64)
    requires
        deletion_step_of(expected, Some((state, generation))) == Ok::<
            DeletionStep,
            StoreErrorView,
        >(DeletionStep::Begin),
    ensures
        deletion_step_of(expected, Some(("deleting"@, (generation + 1) as i64))) == Ok::<
            DeletionStep,
            StoreErrorView,
        >(DeletionStep::Continue),
{
}

} // verus!

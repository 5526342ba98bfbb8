//! What is decided over stored materializations.
use vstd::prelude::*;

use super::instance_ops;
use super::instance_ops::InstanceUpdate;
use super::instance_ops::InstanceUpdateView;
use super::mapping;
use super::mapping::InstanceRow;
use super::mapping::InstanceRowView;
use super::mapping::MaterializationRow;
use super::mapping::MaterializationRowView;
use crate::ids::BackendGeneration;
use crate::ids::Generation;
use crate::instance::InstanceState;
use crate::instance::StateTransitionReason;
use crate::instance::StateTransitionReasonView;
use crate::json;
use crate::materialization::BeginSleepRequest;
use crate::materialization::CompleteWakeRequest;
use crate::materialization::CompleteWakeRequestView;
use crate::materialization::FinalizeSleepRequest;
use crate::materialization::MaterializationRecord;
use crate::materialization::MaterializationRecordView;
use crate::materialization::MaterializationState;
use crate::materialization::RecordMaterializationRequest;
use crate::materialization::RecordMaterializationRequestView;
use crate::materialization::RenderedObjectRef;
use crate::materialization::RenderedObjectRefView;
use crate::outcome;
use crate::store::StoreError;
use crate::store::StoreErrorView;
use crate::text;

verus! {

/// What is wrong with a materialization of a generation that its instance does not
/// have.
pub open spec fn instance_generation_problem(expected: nat, stored: Option<i64>) -> Option<
    StoreErrorView,
> {
    match stored {
        None => Some(StoreErrorView::NotFound { resource: "instance"@ }),
        Some(actual) => match mapping::stored_generation(expected) {
            Err(error) => Some(error),
            Ok(stored) => if actual == stored {
                None
            } else if actual < 0 {
                Some(mapping::broken("stored instance generation was negative"@))
            } else {
                Some(StoreErrorView::GenerationConflict { expected, actual: actual as nat })
            },
        },
    }
}

/// Checks that an instance has the generation that a materialization is of.
pub fn ensure_instance_generation(
    request: &RecordMaterializationRequest,
    stored: Option<i64>,
) -> (r:
    Result<(), StoreError>)
    ensures
        outcome::problem(r) == instance_generation_problem(
            request.deep_view().instance_generation,
            stored,
        ),
{
    let actual: i64 = match stored {
        Some(actual) => actual,
        None => return Err(StoreError::NotFound { resource: "instance" }),
    };
    let expected: i64 = match mapping::generation_to_i64(request.instance_generation) {
        Ok(expected) => expected,
        Err(error) => return Err(error),
    };
    if actual == expected {
        return Ok(());
    }
    if actual < 0 {
        return Err(StoreError::internal("stored instance generation was negative"));
    }
    Err(
        StoreError::GenerationConflict {
            expected: request.instance_generation,
            actual: Generation::new(actual as u64),
        },
    )
}

/// Whether the objects of a materialization have to be compared with those of
/// others.
pub fn may_collide(request: &RecordMaterializationRequest) -> (r: bool)
    ensures
        r == (request.deep_view().rendered_objects.len() > 0 && request.deep_view().state
            != MaterializationState::Deleted),
{
    assert(request.rendered_objects.deep_view().len() == request.rendered_objects@.len());
    request.rendered_objects.len() > 0 && request.state != MaterializationState::Deleted
}

/// An object that a materialization shares with that of another instance.
#[derive(Debug, PartialEq, Eq)]
pub struct ObjectCollision {
    pub owner_instance_id: String,
    pub object: RenderedObjectRef,
}

/// What an [`ObjectCollision`] holds.
#[verifier::ext_equal]
pub struct ObjectCollisionView {
    pub owner_instance_id: Seq<char>,
    pub object: RenderedObjectRefView,
}

impl DeepView for ObjectCollision {
    type V = ObjectCollisionView;

    open spec fn deep_view(&self) -> ObjectCollisionView {
        ObjectCollisionView {
            owner_instance_id: self.owner_instance_id.deep_view(),
            object: self.object.deep_view(),
        }
    }
}

impl Clone for ObjectCollision {
    fn clone(&self) -> (r: Self)
        ensures
            r.deep_view() == self.deep_view(),
    {
        ObjectCollision {
            owner_instance_id: self.owner_instance_id.clone(),
            object: self.object.clone(),
        }
    }
}

/// What is said of an object that belongs to another instance.
pub open spec fn collision_message(cluster_id: Seq<char>, collision: ObjectCollisionView) -> Seq<
    char,
> {
    "rendered Kubernetes object ref collision in cluster "@ + cluster_id + ": "@
        + collision.object.api_version + " "@ + collision.object.kind + " "@
        + collision.object.namespace + "/"@ + collision.object.name
        + " is already owned by active materialization for instance "@
        + collision.owner_instance_id
}

/// What is wrong with a materialization on a cluster that shares an object with that
/// of another instance.
pub open spec fn collision_problem(
    cluster_id: Seq<char>,
    collision: Option<ObjectCollisionView>,
) -> Option<StoreErrorView> {
    match collision {
        None => None,
        Some(collision) => Some(mapping::refused(collision_message(cluster_id, collision))),
    }
}

/// Checks that no object of a materialization belongs to another instance.
pub fn check_collision(
    request: &RecordMaterializationRequest,
    collision: &Option<ObjectCollision>,
) -> (r: Result<(), StoreError>)
    ensures
        outcome::problem(r) == collision_problem(
            request.deep_view().target.cluster_id,
            collision.deep_view(),
        ),
{
    let collision = match collision {
        Some(collision) => collision,
        None => return Ok(()),
    };
    let message = text::join5(
        "rendered Kubernetes object ref collision in cluster ",
        request.target.cluster_id(),
        ": ",
        collision.object.api_version.as_str(),
        " ",
    );
    let message = text::appended(message, collision.object.kind.as_str());
    let message = text::appended(message, " ");
    let message = text::appended(message, collision.object.namespace.as_str());
    let message = text::appended(message, "/");
    let message = text::appended(message, collision.object.name.as_str());
    let message = text::appended(
        message,
        " is already owned by active materialization for instance ",
    );
    let message = text::appended(message, collision.owner_instance_id.as_str());
    Err(StoreError::invalid_argument(message.as_str()))
}

/// What keeps a materialization from being stored: a number that does not fit.
pub open spec fn row_problem(request: RecordMaterializationRequestView) -> Option<StoreErrorView> {
    outcome::first_of(
        outcome::err_of(mapping::stored_generation(request.instance_generation)),
        outcome::first_of(
            outcome::err_of(mapping::stored_generation(request.projection_generation)),
            outcome::err_of(mapping::stored_backend_generation(request.backend_generation)),
        ),
    )
}

/// Whether a row is a materialization as it is stored.
pub open spec fn is_row_of(
    request: RecordMaterializationRequestView,
    row: MaterializationRowView,
) -> bool {
    &&& row.materialization_id == mapping::materialization_id_of(
        request.instance_id,
        request.target,
    )
    &&& row.instance_id == request.instance_id
    &&& row.instance_generation == request.instance_generation
    &&& row.projection_generation == request.projection_generation
    &&& row.cluster_id == request.target.cluster_id
    &&& row.namespace == request.target.namespace
    &&& row.state == mapping::materialization_state_name(request.state)
    &&& row.backend_uri == request.backend
    &&& row.backend_generation == request.backend_generation
    &&& json::json_of(row.rendered_objects) == mapping::object_refs_json(request.rendered_objects)
    &&& row.exclusivity_keys == request.exclusivity_keys
}

/// The row of a materialization.
pub fn materialization_row(request: &RecordMaterializationRequest) -> (r: Result<
    MaterializationRow,
    StoreError,
>)
    ensures
        match r {
            Ok(row) => row_problem(request.deep_view()) is None && is_row_of(
                request.deep_view(),
                row.deep_view(),
            ),
            Err(error) => row_problem(request.deep_view()) == Some(error.deep_view()),
        },
{
    let id = match mapping::materialization_id(&request.instance_id, &request.target) {
        Ok(id) => id,
        Err(error) => return Err(error),
    };
    let instance_generation: i64 = match mapping::generation_to_i64(request.instance_generation) {
        Ok(generation) => generation,
        Err(error) => return Err(error),
    };
    let projection_generation: i64 = match mapping::generation_to_i64(
        request.projection_generation,
    ) {
        Ok(generation) => generation,
        Err(error) => return Err(error),
    };
    let backend_generation: i64 = match mapping::backend_generation_to_i64(
        request.backend_generation,
    ) {
        Ok(generation) => generation,
        Err(error) => return Err(error),
    };
    let backend_uri = match &request.backend {
        Some(backend) => Some(backend.uri().to_owned()),
        None => None,
    };
    let exclusivity_keys = request.exclusivity_keys.clone();
    assert(exclusivity_keys.deep_view() =~= request.exclusivity_keys.deep_view());
    Ok(
        MaterializationRow {
            materialization_id: id.to_string(),
            instance_id: request.instance_id.to_string(),
            instance_generation,
            projection_generation,
            cluster_id: request.target.cluster_id().to_owned(),
            namespace: request.target.namespace().to_owned(),
            state: mapping::materialization_state_to_db(request.state).to_owned(),
            backend_uri,
            backend_generation,
            rendered_objects: mapping::rendered_objects_to_json(&request.rendered_objects),
            exclusivity_keys,
        },
    )
}

/// What is said of a materialization whose backend generation is behind the one
/// that is stored.
pub open spec fn rewind_error(reported: nat, existing: Option<i64>) -> StoreErrorView {
    match existing {
        Some(existing) => mapping::refused(
            "materialization backend generation rewind rejected: existing backend generation "@
                + text::signed_decimal(existing as int)
                + " is newer than reported backend generation "@ + text::decimal(reported),
        ),
        None => mapping::broken(
            "materialization backend generation rewind rejected but existing projection was not found"@,
        ),
    }
}

/// What is said of a materialization whose backend generation is behind the one
/// that is stored.
pub fn backend_generation_rewind_error(reported: BackendGeneration, existing: Option<i64>) -> (r:
    StoreError)
    ensures
        r.deep_view() == rewind_error(reported@, existing),
{
    match existing {
        Some(existing) => {
            let message = text::join4(
                "materialization backend generation rewind rejected: existing backend generation ",
                text::signed_number(existing).as_str(),
                " is newer than reported backend generation ",
                text::number(reported.get()).as_str(),
            );
            StoreError::invalid_argument(message.as_str())
        },
        None => StoreError::internal(
            "materialization backend generation rewind rejected but existing projection was not found",
        ),
    }
}

/// The state and the generation that a woken instance is given.
pub open spec fn woken(row: Option<InstanceRowView>, request: CompleteWakeRequestView) -> Result<
    InstanceUpdateView,
    StoreErrorView,
> {
    instance_ops::advanced(
        row,
        request.expected_waking_generation,
        InstanceState::Running,
        StateTransitionReasonView::MaterializationReady,
    )
}

/// The state and the generation that a woken instance is given.
pub fn complete_wake(row: &Option<InstanceRow>, request: &CompleteWakeRequest) -> (r: Result<
    InstanceUpdate,
    StoreError,
>)
    ensures
        outcome::of(r) == woken(row.deep_view(), request.deep_view()),
{
    instance_ops::advance_instance(
        row,
        request.expected_waking_generation,
        InstanceState::Running,
        &StateTransitionReason::MaterializationReady,
    )
}

/// The materialization of a woken instance: ready, of the generation that runs.
pub open spec fn woken_materialization(
    request: CompleteWakeRequestView,
    generation: nat,
) -> RecordMaterializationRequestView {
    RecordMaterializationRequestView {
        instance_id: request.instance_id,
        instance_generation: generation,
        projection_generation: generation,
        target: request.target,
        state: MaterializationState::Ready,
        backend: Some(request.backend),
        backend_generation: request.backend_generation,
        rendered_objects: request.rendered_objects,
        exclusivity_keys: request.exclusivity_keys,
    }
}

/// The materialization of a woken instance.
pub fn complete_wake_materialization(
    request: CompleteWakeRequest,
    running_generation: Generation,
) -> (r: RecordMaterializationRequest)
    ensures
        r.deep_view() == woken_materialization(request.deep_view(), running_generation@),
{
    RecordMaterializationRequest {
        instance_id: request.instance_id,
        instance_generation: running_generation,
        projection_generation: running_generation,
        target: request.target,
        state: MaterializationState::Ready,
        backend: Some(request.backend),
        backend_generation: request.backend_generation,
        rendered_objects: request.rendered_objects,
        exclusivity_keys: request.exclusivity_keys,
    }
}

/// The state and the generation that an idle instance is given.
pub open spec fn begun_sleep(row: Option<InstanceRowView>, running: nat) -> Result<
    InstanceUpdateView,
    StoreErrorView,
> {
    instance_ops::advanced(
        row,
        running,
        InstanceState::Draining,
        StateTransitionReasonView::IdleReported,
    )
}

/// The state and the generation that an idle instance is given.
pub fn begin_sleep(row: &Option<InstanceRow>, request: &BeginSleepRequest) -> (r: Result<
    InstanceUpdate,
    StoreError,
>)
    ensures
        outcome::of(r) == begun_sleep(row.deep_view(), request.expected_running_generation@),
{
    instance_ops::advance_instance(
        row,
        request.expected_running_generation,
        InstanceState::Draining,
        &StateTransitionReason::IdleReported,
    )
}

/// What is wrong with the materialization of an instance that begins to sleep: it
/// is of another generation.
pub open spec fn sleeping_materialization(
    expected: nat,
    marked: Option<MaterializationRecordView>,
    active: Option<MaterializationRecordView>,
) -> Result<Option<MaterializationRecordView>, StoreErrorView> {
    match marked {
        Some(marked) => Ok(Some(marked)),
        None => match active {
            Some(active) => if active.instance_generation != expected {
                Err(
                    StoreErrorView::GenerationConflict {
                        expected,
                        actual: active.instance_generation,
                    },
                )
            } else {
                Ok(None)
            },
            None => Ok(None),
        },
    }
}

/// The materialization of an instance that begins to sleep: the one that was marked
/// to be deleted or, if none of the generation was, none. One of another generation
/// is a conflict.
pub fn marked_for_sleep(
    expected: Generation,
    marked: Option<MaterializationRecord>,
    active: &Option<MaterializationRecord>,
) -> (r: Result<Option<MaterializationRecord>, StoreError>)
    ensures
        outcome::of(r) == sleeping_materialization(
            expected@,
            marked.deep_view(),
            active.deep_view(),
        ),
{
    if let Some(marked) = marked {
        return Ok(Some(marked));
    }
    match active {
        Some(active) => if active.instance_generation.get() != expected.get() {
            Err(
                StoreError::GenerationConflict { expected, actual: active.instance_generation },
            )
        } else {
            Ok(None)
        },
        None => Ok(None),
    }
}

/// The state and the generation that a drained instance is given.
pub open spec fn ended_sleep(row: Option<InstanceRowView>, draining: nat) -> Result<
    InstanceUpdateView,
    StoreErrorView,
> {
    instance_ops::advanced(
        row,
        draining,
        InstanceState::Cold,
        StateTransitionReasonView::DrainCompleted,
    )
}

/// The state and the generation that a drained instance is given.
pub fn finalize_sleep(row: &Option<InstanceRow>, request: &FinalizeSleepRequest) -> (r: Result<
    InstanceUpdate,
    StoreError,
>)
    ensures
        outcome::of(r) == ended_sleep(
            row.deep_view(),
            request.deep_view().expected_draining_generation,
        ),
{
    instance_ops::advance_instance(
        row,
        request.expected_draining_generation,
        InstanceState::Cold,
        &StateTransitionReason::DrainCompleted,
    )
}

/// A materialization is read back as it was stored.
pub proof fn lemma_materialization_is_read_back(
    request: RecordMaterializationRequestView,
    row: MaterializationRowView,
)
    requires
        row_problem(request) is None,
        is_row_of(request, row),
        !text::is_blank(request.instance_id),
        !text::is_blank(request.target.cluster_id),
        !text::is_blank(request.target.namespace),
        request.backend matches Some(uri) ==> !text::is_blank(uri),
    ensures
        mapping::materialization_of(row) == Ok::<MaterializationRecordView, StoreErrorView>(
            MaterializationRecordView {
                id: mapping::materialization_id_of(request.instance_id, request.target),
                instance_id: request.instance_id,
                instance_generation: request.instance_generation,
                projection_generation: request.projection_generation,
                target: request.target,
                state: request.state,
                backend: request.backend,
                backend_generation: request.backend_generation,
                rendered_objects: request.rendered_objects,
                exclusivity_keys: request.exclusivity_keys,
            },
        ),
{
    let id = mapping::materialization_id_of(request.instance_id, request.target);
    assert(id.take(request.instance_id.len() as int) =~= request.instance_id);
    mapping::lemma_prefix_is_not_blank(request.instance_id, id);
    mapping::lemma_state_names_round_trip(InstanceState::Cold, request.state);
    mapping::lemma_object_refs_round_trip(request.rendered_objects);
}

/// An instance that runs goes to sleep and becomes cold over two generations, and
/// only so: what drains was running, and what the drain ends was draining.
pub proof fn lemma_sleep_takes_two_generations(
    row: InstanceRowView,
    running: nat,
)
    requires
        instance_ops::advanced(
            Some(row),
            running,
            InstanceState::Draining,
            StateTransitionReasonView::IdleReported,
        ) is Ok,
        running + 2 <= i64::MAX,
    ensures
        mapping::instance_of(row)->Ok_0.state == InstanceState::Running,
        ({
            let draining = instance_ops::advanced(
                Some(row),
                running,
                InstanceState::Draining,
                StateTransitionReasonView::IdleReported,
            )->Ok_0;
            instance_ops::advanced(
                Some(
                    InstanceRowView {
                        state: draining.state,
                        generation: draining.generation,
                        ..row
                    },
                ),
                running + 1,
                InstanceState::Cold,
                StateTransitionReasonView::DrainCompleted,
            ) == Ok::<InstanceUpdateView, StoreErrorView>(
                InstanceUpdateView { state: "cold"@, generation: (running + 2) as i64 },
            )
        }),
{
    instance_ops::lemma_advance_is_read_back(
        row,
        running,
        InstanceState::Draining,
        StateTransitionReasonView::IdleReported,
    );
}

} // verus!

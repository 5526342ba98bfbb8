//! What holds of instances, materializations and routes through all that is done with
//! them.
use vstd::prelude::*;

use super::instance_ops;
use super::instance_ops::InstanceUpdateView;
use super::lifecycle_ops;
use super::lifecycle_ops::AcceptWakeRequestView;
use super::lifecycle_ops::DeferredWakeIntentView;
use super::lifecycle_ops::DeletionStep;
use super::lifecycle_ops::WakeAcceptanceView;
use super::mapping;
use super::mapping::InstanceRowView;
use super::mapping::MaterializationRowView;
use super::mapping::RouteRowView;
use super::mapping::WorkloadClassRowView;
use super::materialization_ops;
use super::route_ops;
use crate::instance::CompareAndSwapInstanceStateRequestView;
use crate::instance::CreateInstanceRequestView;
use crate::instance::InstanceRecordView;
use crate::instance::InstanceState;
use crate::instance::StateTransitionReasonView;
use crate::json;
use crate::materialization::CompleteWakeRequestView;
use crate::materialization::MaterializationRecordView;
use crate::materialization::MaterializationState;
use crate::materialization::MaterializationTargetView;
use crate::materialization::RecordMaterializationRequestView;
use crate::route;
use crate::route::ProtocolRoute;
use crate::route::RouteBindingRecordView;
use crate::route::RouteIdentityView;
use crate::route::RouteResolutionView;
use crate::store::StoreErrorView;
use crate::text;
use crate::workload::WorkloadClassVersionView;

verus! {

/// What is recorded when a wake completes is what the completion reports: the instance
/// on its target, ready, with the backend and the backend generation that it was applied
/// under, its objects and its keys. The generation is the one that runs.
pub proof fn lemma_completed_wake_is_recorded_as_reported(
    request: CompleteWakeRequestView,
    running: nat,
)
    ensures
        ({
            let recorded = materialization_ops::woken_materialization(request, running);
            &&& recorded.instance_id == request.instance_id
            &&& recorded.target == request.target
            &&& recorded.state == MaterializationState::Ready
            &&& recorded.backend == Some(request.backend)
            &&& recorded.backend_generation == request.backend_generation
            &&& recorded.rendered_objects == request.rendered_objects
            &&& recorded.exclusivity_keys == request.exclusivity_keys
            &&& recorded.instance_generation == running
            &&& recorded.projection_generation == running
        }),
{
}

/// A wake that was accepted and then completes as it was accepted: the instance runs, in
/// the generation that the pending materialization was projected for, and the
/// materialization that is recorded takes the place of the pending one. Its backend
/// generation is never behind that of the pending one, so that it is not a rewind.
pub proof fn lemma_accepted_wake_completes(
    request: AcceptWakeRequestView,
    row: InstanceRowView,
    pending_on_target: bool,
    cleanup_pending: bool,
    previous_backend: Option<i64>,
    generation: i64,
    pending: RecordMaterializationRequestView,
    completion: CompleteWakeRequestView,
)
    requires
        lifecycle_ops::wake_leads_to(
            request,
            Some(row),
            pending_on_target,
            cleanup_pending,
            previous_backend,
            Ok(WakeAcceptanceView::Waking { generation, pending }),
        ),
        completion.instance_id == pending.instance_id,
        completion.expected_waking_generation == pending.instance_generation,
        completion.target == pending.target,
        completion.backend_generation >= pending.backend_generation,
        pending.projection_generation <= i64::MAX,
    ensures
        ({
            let waking = InstanceRowView { state: "waking"@, generation, ..row };
            let update = materialization_ops::woken(Some(waking), completion);
            let recorded = materialization_ops::woken_materialization(
                completion,
                pending.projection_generation,
            );
            &&& update == Ok::<InstanceUpdateView, StoreErrorView>(
                InstanceUpdateView {
                    state: "running"@,
                    generation: pending.projection_generation as i64,
                },
            )
            &&& recorded.backend_generation == completion.backend_generation
            &&& recorded.backend_generation >= pending.backend_generation
            &&& recorded.backend_generation >= request.pending.backend_generation
            &&& previous_backend matches Some(previous) ==> recorded.backend_generation > previous
            &&& recorded.instance_generation == pending.projection_generation
            &&& mapping::materialization_id_of(recorded.instance_id, recorded.target)
                == mapping::materialization_id_of(pending.instance_id, pending.target)
            &&& recorded.state == MaterializationState::Ready
            &&& recorded.backend == Some(completion.backend)
        }),
{
    mapping::lemma_state_names_round_trip(InstanceState::Waking, MaterializationState::Pending);
    mapping::lemma_state_names_round_trip(InstanceState::Running, MaterializationState::Pending);
}

/// An instance begins to wake only from rest, in the generation that was expected, with
/// nothing left to clean up. It takes the next generation, and what is pending is what
/// was asked for, with a backend generation of at least the one asked for and above all
/// that were before.
pub proof fn lemma_instance_wakes_from_rest(
    request: AcceptWakeRequestView,
    row: InstanceRowView,
    pending_on_target: bool,
    cleanup_pending: bool,
    previous_backend: Option<i64>,
    generation: i64,
    pending: RecordMaterializationRequestView,
)
    requires
        lifecycle_ops::wake_leads_to(
            request,
            Some(row),
            pending_on_target,
            cleanup_pending,
            previous_backend,
            Ok(WakeAcceptanceView::Waking { generation, pending }),
        ),
    ensures
        row.generation == request.expected_generation,
        row.state == "cold"@ || row.state == "failed"@,
        !cleanup_pending,
        generation == row.generation + 1,
        pending.instance_generation == generation,
        pending.projection_generation == generation + 1,
        pending.state == MaterializationState::Pending,
        pending.backend is None,
        pending.instance_id == request.pending.instance_id,
        pending.target == request.pending.target,
        pending.rendered_objects == request.pending.rendered_objects,
        pending.exclusivity_keys == request.pending.exclusivity_keys,
        pending.backend_generation >= request.pending.backend_generation,
        previous_backend is None ==> pending.backend_generation
            == request.pending.backend_generation,
        previous_backend matches Some(previous) ==> {
            &&& pending.backend_generation > previous
            &&& pending.backend_generation == request.pending.backend_generation
                || pending.backend_generation == previous + 1
        },
{
    lemma_state_names_differ();
}

/// A wake of an instance that goes to sleep waits until it sleeps: the instance stays as
/// it is, and what waits is what was asked for, for the generation behind the sleep.
pub proof fn lemma_wake_waits_for_sleep(
    request: AcceptWakeRequestView,
    row: InstanceRowView,
    pending_on_target: bool,
    cleanup_pending: bool,
    previous_backend: Option<i64>,
    instance: InstanceRecordView,
    intent: DeferredWakeIntentView,
)
    requires
        lifecycle_ops::wake_leads_to(
            request,
            Some(row),
            pending_on_target,
            cleanup_pending,
            previous_backend,
            Ok(WakeAcceptanceView::Deferred { instance, intent }),
        ),
    ensures
        row.state == "draining"@,
        row.generation == request.expected_generation,
        mapping::instance_of(row) == Ok::<InstanceRecordView, StoreErrorView>(instance),
        intent.instance_id == request.pending.instance_id,
        intent.instance_generation == row.generation + 2,
        intent.projection_generation == row.generation + 3,
        intent.cluster_id == request.pending.target.cluster_id,
        intent.namespace == request.pending.target.namespace,
        intent.exclusivity_keys == request.pending.exclusivity_keys,
        mapping::object_refs_of(json::json_of(intent.rendered_objects)) == Ok::<
            Seq<crate::materialization::RenderedObjectRefView>,
            StoreErrorView,
        >(request.pending.rendered_objects),
        intent.backend_generation >= request.pending.backend_generation,
        previous_backend is None ==> intent.backend_generation
            == request.pending.backend_generation,
        previous_backend matches Some(previous) ==> intent.backend_generation > previous,
{
    lemma_state_names_differ();
    mapping::lemma_object_refs_round_trip(request.pending.rendered_objects);
}

/// A wake is taken for one that was accepted before only where the instance wakes already
/// to the generation asked for, on the target asked for. It changes nothing.
pub proof fn lemma_replayed_wake_was_accepted(
    request: AcceptWakeRequestView,
    row: InstanceRowView,
    pending_on_target: bool,
    cleanup_pending: bool,
    previous_backend: Option<i64>,
    instance: InstanceRecordView,
)
    requires
        lifecycle_ops::wake_leads_to(
            request,
            Some(row),
            pending_on_target,
            cleanup_pending,
            previous_backend,
            Ok(WakeAcceptanceView::Replayed(instance)),
        ),
    ensures
        row.state == "waking"@,
        row.generation == request.pending.instance_generation,
        pending_on_target,
        mapping::instance_of(row) == Ok::<InstanceRecordView, StoreErrorView>(instance),
{
    lemma_state_names_differ();
}

/// A wake of an instance at rest that asks for its next incarnation is accepted.
pub proof fn lemma_wake_from_rest_is_accepted(
    request: AcceptWakeRequestView,
    row: InstanceRowView,
    pending_on_target: bool,
    previous_backend: Option<i64>,
    result: Result<WakeAcceptanceView, StoreErrorView>,
)
    requires
        lifecycle_ops::wake_leads_to(
            request,
            Some(row),
            pending_on_target,
            false,
            previous_backend,
            result,
        ),
        mapping::instance_of(row) is Ok,
        row.state == "cold"@ || row.state == "failed"@,
        row.generation == request.expected_generation,
        row.generation < i64::MAX,
        request.pending.state == MaterializationState::Pending,
        request.pending.backend is None,
        request.pending.instance_generation == row.generation + 1,
        request.pending.projection_generation == row.generation + 2,
        previous_backend matches Some(previous) ==> 0 <= previous < i64::MAX,
    ensures
        result matches Ok(WakeAcceptanceView::Waking { .. }),
{
    lemma_state_names_differ();
}

/// A wake of an instance that wakes, runs or is deleted, of another generation than the
/// one it has, or of one whose last objects are still there, is refused.
pub proof fn lemma_wake_out_of_turn_is_refused(
    request: AcceptWakeRequestView,
    row: InstanceRowView,
    pending_on_target: bool,
    cleanup_pending: bool,
    previous_backend: Option<i64>,
    result: Result<WakeAcceptanceView, StoreErrorView>,
)
    requires
        lifecycle_ops::wake_leads_to(
            request,
            Some(row),
            pending_on_target,
            cleanup_pending,
            previous_backend,
            result,
        ),
        !(row.state == "waking"@ && row.generation == request.pending.instance_generation),
        row.generation != request.expected_generation || row.state == "waking"@ || row.state
            == "running"@ || row.state == "deleting"@ || row.state == "deleted"@ || ((row.state
            == "cold"@ || row.state == "failed"@) && cleanup_pending),
    ensures
        result is Err,
        mapping::instance_of(row) is Ok && row.generation != request.expected_generation
            ==> result == Err::<WakeAcceptanceView, StoreErrorView>(
            StoreErrorView::GenerationConflict {
                expected: request.expected_generation,
                actual: row.generation as nat,
            },
        ),
{
    lemma_state_names_differ();
}

/// A wake for a target is refused where another target's waits, and only there.
pub proof fn lemma_only_one_target_waits(
    inserted: bool,
    wanted: MaterializationTargetView,
    stored: MaterializationTargetView,
)
    ensures
        lifecycle_ops::deferred_target_problem(inserted, wanted, stored) is None <==> inserted || (
        stored.cluster_id == wanted.cluster_id && stored.namespace == wanted.namespace),
{
}

/// A wake that waited is carried out as it waited, and only if the instance became what it
/// waited for.
pub proof fn lemma_waiting_wake_is_carried_out_once_asleep(
    intent: DeferredWakeIntentView,
    updated: bool,
)
    ensures
        !updated ==> lifecycle_ops::activation(intent, updated) is Err,
        lifecycle_ops::activation(intent, updated) matches Ok(pending) ==> {
            &&& updated
            &&& pending.instance_id == intent.instance_id
            &&& pending.instance_generation == intent.instance_generation
            &&& pending.projection_generation == intent.projection_generation
            &&& pending.target.cluster_id == intent.cluster_id
            &&& pending.target.namespace == intent.namespace
            &&& pending.state == MaterializationState::Pending
            &&& pending.backend is None
            &&& pending.backend_generation == intent.backend_generation
            &&& pending.exclusivity_keys == intent.exclusivity_keys
            &&& mapping::object_refs_of(json::json_of(intent.rendered_objects)) == Ok::<
                Seq<crate::materialization::RenderedObjectRefView>,
                StoreErrorView,
            >(pending.rendered_objects)
        },
{
}

/// A change of state is made to an instance that has the expected generation and may go
/// to the state for the reason given; it takes the next generation. Another generation is
/// a conflict that names both, and nothing else is.
pub proof fn lemma_change_needs_the_expected_generation(
    row: InstanceRowView,
    request: CompareAndSwapInstanceStateRequestView,
)
    requires
        mapping::instance_of(row) is Ok,
    ensures
        ({
            let update = instance_ops::swapped(Some(row), request);
            let current = mapping::instance_state_of(row.state)->Ok_0;
            let conflict = StoreErrorView::GenerationConflict {
                expected: request.expected_generation,
                actual: row.generation as nat,
            };
            &&& update is Ok <==> {
                &&& row.generation == request.expected_generation
                &&& crate::instance::transition_allowed(current, request.next_state, request.reason)
                &&& row.generation < i64::MAX
            }
            &&& update matches Ok(update) ==> {
                &&& update.generation == row.generation + 1
                &&& mapping::instance_state_of(update.state) == Ok::<InstanceState, StoreErrorView>(
                    request.next_state,
                )
            }
            &&& row.generation != request.expected_generation <==> update == Err::<
                InstanceUpdateView,
                StoreErrorView,
            >(conflict)
        }),
{
    lemma_state_names_differ();
}

/// A wake completes where the instance wakes in the generation that the completion
/// expects, and only there; the instance then runs, in the next generation.
pub proof fn lemma_waking_instance_comes_to_run(
    row: InstanceRowView,
    request: CompleteWakeRequestView,
)
    requires
        mapping::instance_of(row) is Ok,
    ensures
        materialization_ops::woken(Some(row), request) is Ok <==> {
            &&& row.state == "waking"@
            &&& row.generation == request.expected_waking_generation
            &&& row.generation < i64::MAX
        },
        materialization_ops::woken(Some(row), request) matches Ok(update) ==> update.state
            == "running"@ && update.generation == row.generation + 1,
        materialization_ops::woken(None, request) == Err::<InstanceUpdateView, StoreErrorView>(
            StoreErrorView::NotFound { resource: "instance"@ },
        ),
{
    lemma_state_names_differ();
}

/// Only an instance that runs in the expected generation begins to drain, and only one
/// that drains in the expected generation becomes cold. Each takes the next generation.
pub proof fn lemma_instance_drains_before_it_is_cold(row: InstanceRowView, expected: nat)
    requires
        mapping::instance_of(row) is Ok,
    ensures
        materialization_ops::begun_sleep(Some(row), expected) is Ok <==> {
            &&& row.state == "running"@
            &&& row.generation == expected
            &&& row.generation < i64::MAX
        },
        materialization_ops::begun_sleep(Some(row), expected) matches Ok(update) ==> update.state
            == "draining"@ && update.generation == row.generation + 1,
        materialization_ops::ended_sleep(Some(row), expected) is Ok <==> {
            &&& row.state == "draining"@
            &&& row.generation == expected
            &&& row.generation < i64::MAX
        },
        materialization_ops::ended_sleep(Some(row), expected) matches Ok(update) ==> update.state
            == "cold"@ && update.generation == row.generation + 1,
{
    lemma_state_names_differ();
}

/// The materialization of an instance that goes to sleep is the one that was marked. An
/// instance without one may sleep too; one that is active for another generation is a
/// conflict.
pub proof fn lemma_sleep_gives_up_the_marked_materialization(
    expected: nat,
    marked: Option<MaterializationRecordView>,
    active: Option<MaterializationRecordView>,
)
    ensures
        ({
            let given_up = materialization_ops::sleeping_materialization(expected, marked, active);
            &&& given_up matches Ok(given_up) ==> given_up == marked
            &&& given_up is Err <==> marked is None && (active matches Some(active)
                && active.instance_generation != expected)
            &&& given_up matches Err(error) ==> error == StoreErrorView::GenerationConflict {
                expected,
                actual: active->0.instance_generation,
            }
        }),
{
}

/// A materialization may be recorded only for the generation that its instance has.
pub proof fn lemma_materialization_is_of_the_stored_generation(expected: nat, stored: i64)
    ensures
        materialization_ops::instance_generation_problem(expected, None) == Some(
            StoreErrorView::NotFound { resource: "instance"@ },
        ),
        expected <= i64::MAX ==> (materialization_ops::instance_generation_problem(
            expected,
            Some(stored),
        ) is None <==> stored == expected),
        expected <= i64::MAX && stored >= 0 && stored != expected
            ==> materialization_ops::instance_generation_problem(expected, Some(stored)) == Some(
            StoreErrorView::GenerationConflict { expected, actual: stored as nat },
        ),
{
}

/// What a route leads to: its instance, in the state and generation that it has, and the
/// backend of the materialization that is ready, where that has one, beside its backend
/// generation.
pub proof fn lemma_route_leads_to_the_ready_backend(
    route: RouteBindingRecordView,
    instance: InstanceRecordView,
    materialization: Option<MaterializationRecordView>,
)
    ensures
        ({
            let resolution = route_ops::resolution_of(Some(route), Some(instance), materialization);
            let entry = resolution->Ok_0->entry;
            &&& resolution matches Ok(RouteResolutionView::Resolved { .. })
            &&& resolution->Ok_0->matched_identity == route.identity
            &&& entry.route_binding_id == route.id
            &&& entry.instance_id == instance.id
            &&& entry.instance_state == instance.state
            &&& entry.instance_generation == instance.generation
            &&& materialization matches Some(ready) ==> {
                &&& entry.backend == ready.backend
                &&& entry.backend_generation == Some(ready.backend_generation)
            }
            &&& materialization is None ==> entry.backend is None && entry.backend_generation is None
            &&& entry.backend is None <==> materialization is None
                || materialization->0.backend is None
            &&& entry == mapping::entry_of(route, instance, materialization)
        }),
{
}

/// The entry of a route is told by what stands in it: two materializations that differ in
/// their backend, or in its generation, lead to different entries.
pub proof fn lemma_entries_tell_backends_apart(
    route: RouteBindingRecordView,
    instance: InstanceRecordView,
    one: MaterializationRecordView,
    other: MaterializationRecordView,
)
    ensures
        mapping::entry_of(route, instance, Some(one)) == mapping::entry_of(
            route,
            instance,
            Some(other),
        ) <==> one.backend == other.backend && one.backend_generation == other.backend_generation,
        one.backend is Some ==> mapping::entry_of(route, instance, Some(one)).backend is Some,
        mapping::entry_of(route, instance, Some(one)) != mapping::entry_of(route, instance, None),
{
}

/// Without a route there is nothing to lead to, which may be kept for five seconds; a
/// route whose instance is gone leads nowhere.
pub proof fn lemma_missing_route_is_a_miss(
    route: RouteBindingRecordView,
    instance: Option<InstanceRecordView>,
    materialization: Option<MaterializationRecordView>,
)
    ensures
        route_ops::resolution_of(None, instance, materialization) == Ok::<
            RouteResolutionView,
            StoreErrorView,
        >(RouteResolutionView::Miss { negative_cache: 5_000_000_000 }),
        route_ops::resolution_of(Some(route), None, materialization) == Err::<
            RouteResolutionView,
            StoreErrorView,
        >(StoreErrorView::NotFound { resource: "instance"@ }),
{
}

/// What a route depends on is what it leads to: the same route, instance and backend
/// generation.
pub proof fn lemma_dependencies_are_those_of_the_entry(
    route: Option<RouteBindingRecordView>,
    instance: Option<InstanceRecordView>,
    materialization: Option<MaterializationRecordView>,
)
    ensures
        ({
            let dependencies = route_ops::dependencies_of(route, instance, materialization);
            let resolution = route_ops::resolution_of(route, instance, materialization);
            &&& dependencies is Ok <==> resolution is Ok
            &&& dependencies matches Err(error) ==> resolution == Err::<
                RouteResolutionView,
                StoreErrorView,
            >(error)
            &&& dependencies is Ok ==> (dependencies->Ok_0 is None <==> resolution->Ok_0 is Miss)
            &&& dependencies matches Ok(Some(dependencies)) ==> {
                let entry = resolution->Ok_0->entry;
                &&& dependencies.route_binding_id == entry.route_binding_id
                &&& dependencies.route_binding_id == route->0.id
                &&& dependencies.instance_id == entry.instance_id
                &&& dependencies.instance_id == instance->0.id
                &&& dependencies.materialization_generation == entry.backend_generation
                &&& materialization matches Some(ready)
                    ==> dependencies.materialization_generation == Some(ready.backend_generation)
                &&& materialization is None ==> dependencies.materialization_generation is None
            }
        }),
{
}

/// The route that is found for a request is stored, matches it, and beats every stored
/// route before it and is beaten by none. One is found wherever a stored route matches.
pub proof fn lemma_found_route_is_the_most_specific(
    rows: Seq<RouteRowView>,
    lookup: RouteIdentityView,
    i: int,
)
    requires
        route_ops::found_route(rows, lookup) is Ok,
        0 <= i < rows.len(),
    ensures
        mapping::route_of(rows[i]) is Ok,
        ({
            let score = route::match_score(mapping::route_of(rows[i])->Ok_0.identity, lookup);
            let found = route_ops::found_route(rows, lookup)->Ok_0;
            &&& score is Some ==> found is Some
            &&& found matches Some(found) ==> {
                let best = route::match_score(found.identity, lookup);
                &&& best is Some
                &&& score is Some ==> !score->0.beats(best->0)
                &&& exists|k: int| #[trigger]
                    is_first_best(rows, lookup, k) && mapping::route_of(rows[k]) == Ok::<
                        RouteBindingRecordView,
                        StoreErrorView,
                    >(found)
            }
        }),
{
    route_ops::lemma_best_route_is_unbeaten(rows, lookup, i);
    route_ops::lemma_best_route_matches(rows, lookup);
    lemma_first_best(rows, lookup);
}

/// Whether a stored route matches a request and beats every one before it that does.
pub open spec fn is_first_best(
    rows: Seq<RouteRowView>,
    lookup: RouteIdentityView,
    k: int,
) -> bool {
    &&& 0 <= k < rows.len()
    &&& mapping::route_of(rows[k]) is Ok
    &&& route::match_score(mapping::route_of(rows[k])->Ok_0.identity, lookup) is Some
    &&& forall|j: int|
        0 <= j < k ==> {
            let score = route::match_score(
                mapping::route_of(#[trigger] rows[j])->Ok_0.identity,
                lookup,
            );
            score is Some ==> route::match_score(
                mapping::route_of(rows[k])->Ok_0.identity,
                lookup,
            )->0.beats(score->0)
        }
}

proof fn lemma_first_best(rows: Seq<RouteRowView>, lookup: RouteIdentityView)
    ensures
        route_ops::best_of(rows, lookup) matches Ok(Some((score, found))) ==> exists|k: int|
            #[trigger] is_first_best(rows, lookup, k) && mapping::route_of(rows[k]) == Ok::<
                RouteBindingRecordView,
                StoreErrorView,
            >(found),
    decreases rows.len(),
{
    if let Ok(Some((score, found))) = route_ops::best_of(rows, lookup) {
        let before = rows.drop_last();
        lemma_first_best(before, lookup);
        if route_ops::best_of(before, lookup) == route_ops::best_of(rows, lookup) {
            let k = choose|k: int| #[trigger]
                is_first_best(before, lookup, k) && mapping::route_of(before[k]) == Ok::<
                    RouteBindingRecordView,
                    StoreErrorView,
                >(found);
            assert(rows[k] == before[k]);
            assert(is_first_best(rows, lookup, k)) by {
                assert forall|j: int| 0 <= j < k implies {
                    let score = route::match_score(
                        mapping::route_of(#[trigger] rows[j])->Ok_0.identity,
                        lookup,
                    );
                    score is Some ==> route::match_score(
                        mapping::route_of(rows[k])->Ok_0.identity,
                        lookup,
                    )->0.beats(score->0)
                } by {
                    assert(rows[j] == before[j]);
                }
            }
        } else {
            let k = rows.len() - 1;
            assert(rows[k] == rows.last());
            assert(is_first_best(rows, lookup, k)) by {
                assert forall|j: int| 0 <= j < k implies {
                    let score = route::match_score(
                        mapping::route_of(#[trigger] rows[j])->Ok_0.identity,
                        lookup,
                    );
                    score is Some ==> route::match_score(
                        mapping::route_of(rows[k])->Ok_0.identity,
                        lookup,
                    )->0.beats(score->0)
                } by {
                    assert(rows[j] == before[j]);
                    route_ops::lemma_best_route_is_unbeaten(before, lookup, j);
                }
            }
        }
    }
}

/// An instance is read as it is stored.
pub proof fn lemma_instance_is_what_is_stored(row: InstanceRowView)
    ensures
        mapping::instance_of(row) matches Ok(instance) ==> {
            &&& instance.id == row.instance_id
            &&& instance.workload_class.class_id == row.workload_class_id
            &&& instance.workload_class.version == row.workload_class_version
            &&& instance.generation == row.generation
            &&& row.state == mapping::instance_state_name(instance.state)
            &&& json::json_of(row.values) == json::text_map(instance.values)
        },
{
    if mapping::instance_of(row) is Ok {
        let value = json::json_of(row.values);
        assert(json::text_map(mapping::texts_of(value)) =~= value) by {
            assert(json::text_map(mapping::texts_of(value))->Object_0 =~= value->Object_0);
        }
    }
}

/// A route is read as it is stored: under its id, for its instance, with its protocol.
pub proof fn lemma_route_is_what_is_stored(row: RouteRowView)
    ensures
        mapping::route_of(row) matches Ok(found) ==> {
            &&& found.id == row.route_binding_id
            &&& found.instance_id == row.instance_id
            &&& row.protocol == mapping::protocol_name(found.protocol)
            &&& row.identity_kind == route_ops::identity_kind_name(found.identity)
            &&& row.host_kind == mapping::host_kind_name(route::identity_host(found.identity).kind)
            &&& found.identity matches RouteIdentityView::Http { path, .. } ==> path
                == row.path_prefix
        },
{
}

/// A materialization is read as it is stored.
pub proof fn lemma_materialization_is_what_is_stored(row: MaterializationRowView)
    ensures
        mapping::materialization_of(row) matches Ok(found) ==> {
            &&& found.id == row.materialization_id
            &&& found.instance_id == row.instance_id
            &&& found.instance_generation == row.instance_generation
            &&& found.projection_generation == row.projection_generation
            &&& found.target.cluster_id == row.cluster_id
            &&& found.target.namespace == row.namespace
            &&& row.state == mapping::materialization_state_name(found.state)
            &&& found.backend == row.backend_uri
            &&& found.backend_generation == row.backend_generation
            &&& found.exclusivity_keys == row.exclusivity_keys
            &&& mapping::object_refs_of(json::json_of(row.rendered_objects)) == Ok::<
                Seq<crate::materialization::RenderedObjectRefView>,
                StoreErrorView,
            >(found.rendered_objects)
        },
{
}

/// A version of a workload class is read as it is stored.
pub proof fn lemma_class_is_what_is_stored(row: WorkloadClassRowView)
    ensures
        mapping::class_of(row) matches Ok(class) ==> {
            &&& class.reference.class_id == row.class_id
            &&& class.reference.version == row.version
            &&& class.template_generation == row.template_generation
            &&& class.template == row.template
            &&& class.value_schema == row.value_schema
            &&& class.sleep_policy == row.sleep_policy
            &&& class.exclusivity_keys == row.exclusivity_keys
            &&& json::json_of(row.default_values) == json::text_map(class.default_values)
        },
{
    if mapping::class_of(row) is Ok {
        let value = json::json_of(row.default_values);
        assert(json::text_map(mapping::texts_of(value)) =~= value) by {
            assert(json::text_map(mapping::texts_of(value))->Object_0 =~= value->Object_0);
        }
    }
}

/// A version of a workload class is stored once: storing the same again gives what is
/// stored, storing another under the same name is refused, and what comes back is never
/// anything but what is stored.
pub proof fn lemma_class_is_stored_once(
    inserted: bool,
    stored: WorkloadClassVersionView,
    desired: WorkloadClassVersionView,
)
    ensures
        instance_ops::stored_class(inserted, Some(stored), stored) == Ok::<
            WorkloadClassVersionView,
            StoreErrorView,
        >(stored),
        instance_ops::stored_class(inserted, Some(stored), desired) matches Ok(found) ==> found
            == stored,
        stored != desired ==> instance_ops::stored_class(false, Some(stored), desired) == Err::<
            WorkloadClassVersionView,
            StoreErrorView,
        >(StoreErrorView::AlreadyExists { resource: "workload class version"@ }),
        instance_ops::stored_class(inserted, None, desired) is Err,
{
}

/// The routes of a new instance are numbered from one, lead to that instance, and have
/// the identities and protocols asked for.
pub proof fn lemma_new_routes_are_those_asked_for(request: CreateInstanceRequestView, i: int)
    requires
        0 <= i < request.route_bindings.len(),
        !text::is_blank(request.instance_id),
        route::normal_identity(request.route_bindings[i].identity),
    ensures
        instance_ops::route_rows_of(request).len() == request.route_bindings.len(),
        mapping::route_of(instance_ops::route_rows_of(request)[i]) == Ok::<
            RouteBindingRecordView,
            StoreErrorView,
        >(
            RouteBindingRecordView {
                id: request.instance_id + ":route:"@ + text::decimal((i + 1) as nat),
                instance_id: request.instance_id,
                identity: request.route_bindings[i].identity,
                protocol: request.route_bindings[i].protocol,
            },
        ),
{
    let id = request.instance_id + ":route:"@ + text::decimal((i + 1) as nat);
    assert(id.take(request.instance_id.len() as int) =~= request.instance_id);
    mapping::lemma_prefix_is_not_blank(request.instance_id, id);
    mapping::lemma_routes_round_trip(
        id,
        request.instance_id,
        request.route_bindings[i].identity,
        request.route_bindings[i].protocol,
    );
}

/// No two routes of a new instance have the same id.
pub proof fn lemma_new_routes_have_their_own_ids(
    request: CreateInstanceRequestView,
    i: int,
    j: int,
)
    requires
        0 <= i < request.route_bindings.len(),
        0 <= j < request.route_bindings.len(),
        i != j,
    ensures
        instance_ops::route_rows_of(request)[i].route_binding_id != instance_ops::route_rows_of(
            request,
        )[j].route_binding_id,
{
    let start = request.instance_id + ":route:"@;
    let first = text::decimal((i + 1) as nat);
    let second = text::decimal((j + 1) as nat);
    if start + first == start + second {
        assert((start + first).skip(start.len() as int) =~= first);
        assert((start + second).skip(start.len() as int) =~= second);
        text::lemma_decimal_injective((i + 1) as nat, (j + 1) as nat);
    }
}

/// A route may only be stored with the protocol of its identity.
pub proof fn lemma_protocol_is_that_of_the_identity(
    identity: RouteIdentityView,
    protocol: ProtocolRoute,
)
    ensures
        mapping::protocol_problem(identity, protocol) is None <==> (identity is Http <==> protocol
            == ProtocolRoute::Http),
{
}

/// A request to delete an instance begins a deletion only in the generation that it
/// expects, goes on with one that it or another began from there, finds nothing where
/// there is nothing, and is a conflict otherwise.
pub proof fn lemma_deletion_needs_the_expected_generation(
    expected: nat,
    state: Seq<char>,
    generation: i64,
)
    requires
        expected < i64::MAX,
        generation >= 0,
    ensures
        lifecycle_ops::deletion_step_of(expected, None) == Ok::<DeletionStep, StoreErrorView>(
            DeletionStep::Missing,
        ),
        ({
            let step = lifecycle_ops::deletion_step_of(expected, Some((state, generation)));
            &&& step == Ok::<DeletionStep, StoreErrorView>(DeletionStep::Begin) <==> generation
                == expected && state != "deleting"@
            &&& step == Ok::<DeletionStep, StoreErrorView>(DeletionStep::Continue) <==> state
                == "deleting"@ && (generation == expected || generation == expected + 1)
            &&& step != Ok::<DeletionStep, StoreErrorView>(DeletionStep::Missing)
            &&& step matches Err(error) ==> error == StoreErrorView::GenerationConflict {
                expected,
                actual: generation as nat,
            }
        }),
{
}

proof fn lemma_state_names_differ()
    ensures
        forall|state: InstanceState|
            mapping::instance_state_of(#[trigger] mapping::instance_state_name(state)) == Ok::<
                InstanceState,
                StoreErrorView,
            >(state),
        mapping::instance_state_of("cold"@) == Ok::<InstanceState, StoreErrorView>(
            InstanceState::Cold,
        ),
        mapping::instance_state_of("waking"@) == Ok::<InstanceState, StoreErrorView>(
            InstanceState::Waking,
        ),
        mapping::instance_state_of("running"@) == Ok::<InstanceState, StoreErrorView>(
            InstanceState::Running,
        ),
        mapping::instance_state_of("draining"@) == Ok::<InstanceState, StoreErrorView>(
            InstanceState::Draining,
        ),
        mapping::instance_state_of("failed"@) == Ok::<InstanceState, StoreErrorView>(
            InstanceState::Failed,
        ),
        mapping::instance_state_of("deleting"@) == Ok::<InstanceState, StoreErrorView>(
            InstanceState::Deleting,
        ),
        mapping::instance_state_of("deleted"@) == Ok::<InstanceState, StoreErrorView>(
            InstanceState::Deleted,
        ),
{
    assert forall|state: InstanceState| mapping::instance_state_of(
        #[trigger] mapping::instance_state_name(state),
    ) == Ok::<InstanceState, StoreErrorView>(state) by {
        mapping::lemma_state_names_round_trip(state, MaterializationState::Pending);
    }
    assert(mapping::instance_state_name(InstanceState::Cold) == "cold"@);
    assert(mapping::instance_state_name(InstanceState::Waking) == "waking"@);
    assert(mapping::instance_state_name(InstanceState::Running) == "running"@);
    assert(mapping::instance_state_name(InstanceState::Draining) == "draining"@);
    assert(mapping::instance_state_name(InstanceState::Failed) == "failed"@);
    assert(mapping::instance_state_name(InstanceState::Deleting) == "deleting"@);
    assert(mapping::instance_state_name(InstanceState::Deleted) == "deleted"@);
}

} // verus!

//! What is decided over stored instances.
use vstd::prelude::*;

use super::mapping;
use super::mapping::InstanceRow;
use super::mapping::InstanceRowView;
use super::mapping::RouteRow;
use super::mapping::RouteRowView;
use crate::ids::Generation;
use crate::instance;
use crate::instance::CompareAndSwapInstanceStateRequest;
use crate::instance::CompareAndSwapInstanceStateRequestView;
use crate::instance::CreateInstanceRequest;
use crate::instance::CreateInstanceRequestView;
use crate::instance::CreateInstanceResult;
use crate::instance::CreateInstanceResultView;
use crate::instance::InstanceRecordView;
use crate::instance::InstanceState;
use crate::instance::StateTransitionReason;
use crate::instance::StateTransitionReasonView;
use crate::json;
use crate::outcome;
use crate::route::RouteBindingRecord;
use crate::route::RouteBindingRecordView;
use crate::store::StoreError;
use crate::store::StoreErrorView;
use crate::text;
use crate::workload;
use crate::workload::WorkloadClassVersion;
use crate::workload::WorkloadClassVersionView;

use super::idempotency;

verus! {

/// A request for an instance with the values that its class gives it.
pub open spec fn admitted_request(
    request: CreateInstanceRequest,
    class: Option<WorkloadClassVersion>,
) -> Result<CreateInstanceRequestView, StoreErrorView> {
    match class {
        None => Err(StoreErrorView::NotFound { resource: "workload class version"@ }),
        Some(class) => match instance::validated_request(request, class) {
            Ok(request) => Ok(request),
            Err(error) => Err(mapping::refused(instance::create_instance_message(error))),
        },
    }
}

/// Checks a request for an instance against its class.
pub fn admit_instance(request: CreateInstanceRequest, class: &Option<WorkloadClassVersion>) -> (r:
    Result<CreateInstanceRequest, StoreError>)
    ensures
        outcome::of(r) == admitted_request(request, *class),
{
    match class {
        None => Err(StoreError::NotFound { resource: "workload class version" }),
        Some(class) => match request.validate_values_against(class) {
            Ok(request) => Ok(request),
            Err(error) => Err(StoreError::invalid_argument(error.to_string().as_str())),
        },
    }
}

/// Whether a row is a new instance: cold, of generation zero.
pub open spec fn is_new_row(request: CreateInstanceRequestView, row: InstanceRowView) -> bool {
    &&& row.instance_id == request.instance_id
    &&& row.workload_class_id == request.workload_class.class_id
    &&& row.workload_class_version == request.workload_class.version
    &&& json::json_of(row.values) == json::text_map(request.values)
    &&& row.state == "cold"@
    &&& row.generation == 0
}

/// The row of a new instance.
pub fn new_instance_row(request: &CreateInstanceRequest) -> (r: Result<InstanceRow, StoreError>)
    ensures
        match r {
            Ok(row) => mapping::stored_generation(request.deep_view().workload_class.version) is Ok
                && is_new_row(request.deep_view(), row.deep_view()),
            Err(error) => mapping::stored_generation(request.deep_view().workload_class.version)
                == Err::<i64, StoreErrorView>(error.deep_view()),
        },
{
    let workload_class_version: i64 = match mapping::generation_to_i64(
        request.workload_class.version,
    ) {
        Ok(version) => version,
        Err(error) => return Err(error),
    };
    Ok(
        InstanceRow {
            instance_id: request.instance_id.to_string(),
            workload_class_id: request.workload_class.class_id.to_string(),
            workload_class_version,
            values: mapping::values_to_json(&request.values),
            state: mapping::instance_state_to_db(InstanceState::Cold).to_owned(),
            generation: 0,
        },
    )
}

/// The ID of a route of a new instance: they are numbered from one.
pub open spec fn route_id_of(instance_id: Seq<char>, index: int) -> Seq<char> {
    instance_id + ":route:"@ + text::decimal((index + 1) as nat)
}

/// The rows of the routes of a new instance.
pub open spec fn route_rows_of(request: CreateInstanceRequestView) -> Seq<RouteRowView> {
    Seq::new(
        request.route_bindings.len(),
        |i: int|
            mapping::route_row_of(
                route_id_of(request.instance_id, i),
                request.instance_id,
                request.route_bindings[i].identity,
                request.route_bindings[i].protocol,
            ),
    )
}

/// The rows of the routes of a new instance.
pub fn new_route_rows(request: &CreateInstanceRequest) -> (r: Result<Vec<RouteRow>, StoreError>)
    ensures
        outcome::of(r) == outcome::checked(
            outcome::first_problem(
                idempotency::spec_problems(request.deep_view().route_bindings),
                0,
            ),
            route_rows_of(request.deep_view()),
        ),
{
    let ghost view = request.deep_view();
    let ghost problems = idempotency::spec_problems(view.route_bindings);
    let ghost all = route_rows_of(view);
    let mut rows: Vec<RouteRow> = Vec::new();
    let mut i: usize = 0;
    assert(rows.deep_view() =~= all.take(0));
    while i < request.route_bindings.len()
        invariant
            0 <= i <= request.route_bindings.len(),
            view == request.deep_view(),
            view.route_bindings.len() == request.route_bindings@.len(),
            problems == idempotency::spec_problems(view.route_bindings),
            all == route_rows_of(view),
            rows.deep_view() == all.take(i as int),
            forall|j: int| 0 <= j < i ==> (#[trigger] problems[j]) is None,
        decreases request.route_bindings.len() - i,
    {
        let ghost before = rows.deep_view();
        let spec = &request.route_bindings[i];
        proof {
            assert(view.route_bindings[i as int] == spec.deep_view());
            assert(problems[i as int] == mapping::protocol_problem(
                spec.deep_view().identity,
                spec.deep_view().protocol,
            ));
            outcome::lemma_first_problem(problems, 0, i as int);
        }
        if let Err(error) = mapping::validate_route_protocol(spec) {
            return Err(error);
        }
        let number: u64 = i as u64 + 1;
        let id = text::join3(
            request.instance_id.as_str(),
            ":route:",
            text::number(number).as_str(),
        );
        let row = mapping::route_row(
            id.as_str(),
            &request.instance_id,
            &spec.identity,
            spec.protocol,
        );
        assert(all[i as int] == row.deep_view());
        rows.push(row);
        proof {
            assert(rows.deep_view() =~= before.push(row.deep_view()));
            assert(all.take(i + 1) =~= all.take(i as int).push(all[i as int]));
        }
        i = i + 1;
    }
    proof {
        outcome::lemma_first_problem(problems, 0, i as int);
        assert(all.take(i as int) =~= all);
    }
    Ok(rows)
}

/// What is stored of routes, in the order of the rows.
pub open spec fn routes_of(rows: Seq<RouteRowView>) -> Result<
    Seq<RouteBindingRecordView>,
    StoreErrorView,
> {
    outcome::checked(
        outcome::first_problem(
            Seq::new(rows.len(), |i: int| outcome::err_of(mapping::route_of(rows[i]))),
            0,
        ),
        Seq::new(rows.len(), |i: int| mapping::route_of(rows[i])->Ok_0),
    )
}

/// What is stored of routes.
pub fn route_bindings_from_rows(rows: &Vec<RouteRow>) -> (r: Result<
    Vec<RouteBindingRecord>,
    StoreError,
>)
    ensures
        outcome::of(r) == routes_of(rows.deep_view()),
{
    let ghost view = rows.deep_view();
    let ghost problems = Seq::new(
        view.len(),
        |i: int| outcome::err_of(mapping::route_of(view[i])),
    );
    let ghost all = Seq::new(view.len(), |i: int| mapping::route_of(view[i])->Ok_0);
    let mut routes: Vec<RouteBindingRecord> = Vec::new();
    let mut i: usize = 0;
    assert(routes.deep_view() =~= all.take(0));
    while i < rows.len()
        invariant
            0 <= i <= rows.len(),
            view == rows.deep_view(),
            problems == Seq::new(
                view.len(),
                |i: int| outcome::err_of(mapping::route_of(view[i])),
            ),
            all == Seq::new(view.len(), |i: int| mapping::route_of(view[i])->Ok_0),
            routes.deep_view() == all.take(i as int),
            forall|j: int| 0 <= j < i ==> (#[trigger] problems[j]) is None,
        decreases rows.len() - i,
    {
        let ghost before = routes.deep_view();
        proof {
            assert(view[i as int] == rows@[i as int].deep_view());
            assert(problems[i as int] == outcome::err_of(mapping::route_of(view[i as int])));
            outcome::lemma_first_problem(problems, 0, i as int);
        }
        match mapping::route_binding_from_row(&rows[i]) {
            Err(error) => return Err(error),
            Ok(route) => {
                routes.push(route);
                assert(routes.deep_view() =~= before.push(route.deep_view()));
                assert(all.take(i + 1) =~= all.take(i as int).push(all[i as int]));
            },
        }
        i = i + 1;
    }
    proof {
        outcome::lemma_first_problem(problems, 0, i as int);
        assert(all.take(i as int) =~= all);
    }
    Ok(routes)
}

/// What a request for an instance gives: the instance and its routes, as they are
/// stored.
pub open spec fn create_result_of(
    row: Option<InstanceRowView>,
    routes: Seq<RouteRowView>,
    idempotency_replayed: bool,
) -> Result<CreateInstanceResultView, StoreErrorView> {
    match row {
        None => Err(StoreErrorView::NotFound { resource: "instance"@ }),
        Some(row) => match mapping::instance_of(row) {
            Err(error) => Err(error),
            Ok(instance) => match routes_of(routes) {
                Err(error) => Err(error),
                Ok(route_bindings) => Ok(
                    CreateInstanceResultView { instance, route_bindings, idempotency_replayed },
                ),
            },
        },
    }
}

/// What a request for an instance gives, from what is stored. One that is repeated
/// says so.
pub fn create_instance_result(
    row: &Option<InstanceRow>,
    routes: &Vec<RouteRow>,
    idempotency_replayed: bool,
) -> (r: Result<CreateInstanceResult, StoreError>)
    ensures
        outcome::of(r) == create_result_of(
            row.deep_view(),
            routes.deep_view(),
            idempotency_replayed,
        ),
{
    let row = match row {
        Some(row) => row,
        None => return Err(StoreError::NotFound { resource: "instance" }),
    };
    let instance = match mapping::instance_from_row(row) {
        Ok(instance) => instance,
        Err(error) => return Err(error),
    };
    match route_bindings_from_rows(routes) {
        Ok(route_bindings) => Ok(
            CreateInstanceResult { instance, route_bindings, idempotency_replayed },
        ),
        Err(error) => Err(error),
    }
}

/// What is wrong with a version of a workload class that is to be stored.
pub fn check_workload_class(desired: &WorkloadClassVersion) -> (r: Result<(), StoreError>)
    ensures
        outcome::problem(r) == match workload::class_problem(desired.deep_view()) {
            Some(problem) => Some(mapping::refused(workload::workload_class_message(problem))),
            None => None,
        },
{
    match desired.validate() {
        Ok(()) => Ok(()),
        Err(error) => Err(StoreError::invalid_argument(error.to_string().as_str())),
    }
}

/// What became of a version of a workload class: what is stored, unless it was
/// there before and is another than the one desired.
pub open spec fn stored_class(
    inserted: bool,
    stored: Option<WorkloadClassVersionView>,
    desired: WorkloadClassVersionView,
) -> Result<WorkloadClassVersionView, StoreErrorView> {
    match stored {
        None => Err(StoreErrorView::NotFound { resource: "workload class version"@ }),
        Some(stored) => if !inserted && stored != desired {
            Err(StoreErrorView::AlreadyExists { resource: "workload class version"@ })
        } else {
            Ok(stored)
        },
    }
}

/// What became of a version of a workload class: what is stored, unless it was
/// there before and is another than the one desired.
pub fn stored_workload_class(
    inserted: bool,
    stored: Option<WorkloadClassVersion>,
    desired: &WorkloadClassVersion,
) -> (r: Result<WorkloadClassVersion, StoreError>)
    ensures
        outcome::of(r) == stored_class(inserted, stored.deep_view(), desired.deep_view()),
{
    match stored {
        None => Err(StoreError::NotFound { resource: "workload class version" }),
        Some(stored) => if !inserted && !stored.is_same_as(desired) {
            Err(StoreError::AlreadyExists { resource: "workload class version" })
        } else {
            Ok(stored)
        },
    }
}

/// The state and the generation that an instance is given.
#[derive(Debug, PartialEq, Eq)]
pub struct InstanceUpdate {
    pub state: &'static str,
    pub generation: i64,
}

/// What an [`InstanceUpdate`] holds.
#[verifier::ext_equal]
pub struct InstanceUpdateView {
    pub state: Seq<char>,
    pub generation: i64,
}

impl DeepView for InstanceUpdate {
    type V = InstanceUpdateView;

    open spec fn deep_view(&self) -> InstanceUpdateView {
        InstanceUpdateView {
            state: self.state.deep_view(),
            generation: self.generation.deep_view(),
        }
    }
}

impl Clone for InstanceUpdate {
    fn clone(&self) -> (r: Self)
        ensures
            r.deep_view() == self.deep_view(),
    {
        InstanceUpdate {
            state: self.state,
            generation: self.generation,
        }
    }
}

/// The state and the generation that an instance goes to: the next generation, if
/// it has the one that is expected and may go to that state.
pub open spec fn advanced(
    row: Option<InstanceRowView>,
    expected: nat,
    next: InstanceState,
    reason: StateTransitionReasonView,
) -> Result<InstanceUpdateView, StoreErrorView> {
    match row {
        None => Err(StoreErrorView::NotFound { resource: "instance"@ }),
        Some(row) => match mapping::instance_of(row) {
            Err(error) => Err(error),
            Ok(current) => if current.generation != expected {
                Err(StoreErrorView::GenerationConflict { expected, actual: current.generation })
            } else if !instance::transition_allowed(current.state, next, reason) {
                Err(
                    mapping::refused(
                        instance::invalid_transition_message(
                            instance::InvalidStateTransitionView {
                                current: current.state,
                                next,
                                reason,
                            },
                        ),
                    ),
                )
            } else {
                match mapping::stored_generation(expected + 1) {
                    Err(error) => Err(error),
                    Ok(generation) => Ok(
                        InstanceUpdateView {
                            state: mapping::instance_state_name(next),
                            generation,
                        },
                    ),
                }
            },
        },
    }
}

/// The state and the generation that an instance goes to.
pub(crate) fn advance_instance(
    row: &Option<InstanceRow>,
    expected: Generation,
    next: InstanceState,
    reason: &StateTransitionReason,
) -> (r: Result<InstanceUpdate, StoreError>)
    ensures
        outcome::of(r) == advanced(row.deep_view(), expected@, next, reason.deep_view()),
{
    let row = match row {
        Some(row) => row,
        None => return Err(StoreError::NotFound { resource: "instance" }),
    };
    let current = match mapping::instance_from_row(row) {
        Ok(current) => current,
        Err(error) => return Err(error),
    };
    if current.generation.get() != expected.get() {
        return Err(
            StoreError::GenerationConflict { expected, actual: current.generation },
        );
    }
    if let Err(error) = instance::validate_instance_state_transition(
        current.state,
        next,
        reason,
    ) {
        return Err(StoreError::invalid_argument(error.to_string().as_str()));
    }
    let generation: u64 = expected.get();
    if generation >= i64::MAX as u64 {
        return Err(StoreError::invalid_argument("generation does not fit in Postgres bigint"));
    }
    Ok(
        InstanceUpdate {
            state: mapping::instance_state_to_db(next),
            generation: generation as i64 + 1,
        },
    )
}

/// The state and the generation that a request puts an instance to.
pub open spec fn swapped(
    row: Option<InstanceRowView>,
    request: CompareAndSwapInstanceStateRequestView,
) -> Result<InstanceUpdateView, StoreErrorView> {
    advanced(row, request.expected_generation, request.next_state, request.reason)
}

/// The state and the generation that a request puts an instance to.
pub fn compare_and_swap_instance_state(
    row: &Option<InstanceRow>,
    request: &CompareAndSwapInstanceStateRequest,
) -> (r: Result<InstanceUpdate, StoreError>)
    ensures
        outcome::of(r) == swapped(row.deep_view(), request.deep_view()),
{
    advance_instance(row, request.expected_generation, request.next_state, &request.reason)
}

/// A new instance is read back as it was asked for: cold, and of generation zero.
pub proof fn lemma_new_instance_is_read_back(
    request: CreateInstanceRequestView,
    row: InstanceRowView,
)
    requires
        is_new_row(request, row),
        request.workload_class.version <= i64::MAX,
        !text::is_blank(request.instance_id),
        !text::is_blank(request.workload_class.class_id),
    ensures
        mapping::instance_of(row) == Ok::<InstanceRecordView, StoreErrorView>(
            InstanceRecordView {
                id: request.instance_id,
                workload_class: request.workload_class,
                values: request.values,
                state: InstanceState::Cold,
                generation: 0,
            },
        ),
{
    mapping::lemma_values_round_trip(request.values);
}

/// Every change of the state of an instance gives it the next generation, and is
/// read back.
pub proof fn lemma_advance_is_read_back(
    row: InstanceRowView,
    expected: nat,
    next: InstanceState,
    reason: StateTransitionReasonView,
)
    requires
        advanced(Some(row), expected, next, reason) is Ok,
    ensures
        ({
            let update = advanced(Some(row), expected, next, reason)->Ok_0;
            let before = mapping::instance_of(row)->Ok_0;
            mapping::instance_of(
                InstanceRowView { state: update.state, generation: update.generation, ..row },
            ) == Ok::<InstanceRecordView, StoreErrorView>(
                InstanceRecordView { state: next, generation: expected + 1, ..before },
            )
        }),
{
    mapping::lemma_state_names_round_trip(
        next,
        crate::materialization::MaterializationState::Pending,
    );
}

/// Once an instance was changed, no change that expects the generation before is
/// made: of two that race, one wins.
pub proof fn lemma_advance_wins_once(
    row: InstanceRowView,
    expected: nat,
    next: InstanceState,
    reason: StateTransitionReasonView,
    other: InstanceState,
    other_reason: StateTransitionReasonView,
)
    requires
        advanced(Some(row), expected, next, reason) is Ok,
    ensures
        ({
            let update = advanced(Some(row), expected, next, reason)->Ok_0;
            advanced(
                Some(InstanceRowView { state: update.state, generation: update.generation, ..row }),
                expected,
                other,
                other_reason,
            ) == Err::<InstanceUpdateView, StoreErrorView>(
                StoreErrorView::GenerationConflict { expected, actual: expected + 1 },
            )
        }),
{
    lemma_advance_is_read_back(row, expected, next, reason);
}

} // verus!

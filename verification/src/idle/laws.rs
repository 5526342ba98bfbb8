//! What holds of every report that an instance is idle, from the question what is known
//! of the instance to the drain that it begins.
use std::time::Duration;

use vstd::prelude::*;

use super::run;
use super::run::IdleAnswerView;
use super::run::IdleProgressView;
use super::run::IdleQueryView;
use super::run::IdleRunView;
use super::run::IdleStageView;
use super::BeginStepView;
use super::IdleStepView;
use super::ReportIdleErrorView;
use super::ReportIdleRequestView;
use super::ReportIdleResultView;
use crate::instance::InstanceRecordView;
use crate::instance::InstanceState;
use crate::materialization::BeginSleepResultView;
use crate::materialization::MaterializationRecordView;
use crate::materialization::MaterializationState;
use crate::materialization::MaterializationTargetView;
use crate::materializer::KubernetesClientErrorView;
use crate::sleep_policy;
use crate::store::StoreErrorView;
use crate::text;
use crate::time;
use crate::workload::WorkloadClassVersionView;

verus! {

/// An instance is asked to drain for as long as the sleep policy of its class says, in
/// milliseconds, whatever its idle timeout is and whether or not the instance has one of
/// its own. It is the instance that was reported, in the generation that runs, on the
/// target, and has to have been ready for its idle timeout and for the time that a first
/// activation takes.
pub proof fn lemma_drain_lasts_as_the_class_says(
    request: ReportIdleRequestView,
    current: InstanceRecordView,
    class: WorkloadClassVersionView,
    target: MaterializationTargetView,
    activation_timeout: Duration,
)
    requires
        super::policy_of(class, current) is Ok,
    ensures
        ({
            let policy = super::policy_of(class, current)->Ok_0;
            let asked = super::sleep_request(request, current, policy, target, activation_timeout);
            &&& asked.instance_id == request.instance_id
            &&& asked.expected_running_generation == current.generation
            &&& asked.target == target
            &&& asked.drain_grace_timeout is Some
            &&& asked.drain_grace_timeout->0 == class.sleep_policy.drain_grace_timeout_ms
                * 1_000_000
            &&& asked.minimum_ready_age is Some
            &&& asked.minimum_ready_age->0 >= policy.idle_timeout_ms * 1_000_000
            &&& asked.minimum_ready_age->0 >= time::nanos(activation_timeout)
            &&& asked.minimum_ready_age->0 == policy.idle_timeout_ms * 1_000_000
                || asked.minimum_ready_age->0 == time::nanos(activation_timeout)
            &&& class.sleep_policy.idle_timeout_override is None ==> policy.idle_timeout_ms
                == class.sleep_policy.idle_timeout_ms
        }),
{
}

/// Two instances of classes with the same drain grace are asked to drain for as long,
/// however long they may idle.
pub proof fn lemma_drain_does_not_depend_on_the_idle_timeout(
    request: ReportIdleRequestView,
    current: InstanceRecordView,
    class: WorkloadClassVersionView,
    other: InstanceRecordView,
    other_class: WorkloadClassVersionView,
    target: MaterializationTargetView,
    activation_timeout: Duration,
)
    requires
        super::policy_of(class, current) is Ok,
        super::policy_of(other_class, other) is Ok,
    ensures
        super::sleep_request(
            request,
            current,
            super::policy_of(class, current)->Ok_0,
            target,
            activation_timeout,
        ).drain_grace_timeout == super::sleep_request(
            request,
            other,
            super::policy_of(other_class, other)->Ok_0,
            target,
            activation_timeout,
        ).drain_grace_timeout <==> class.sleep_policy.drain_grace_timeout_ms
            == other_class.sleep_policy.drain_grace_timeout_ms,
{
}

/// What a report comes to by the answers up to the one that tells its sleep policy.
pub open spec fn until_policy(
    request: ReportIdleRequestView,
    target: MaterializationTargetView,
    activation_timeout: Duration,
    instance: Result<Option<InstanceRecordView>, StoreErrorView>,
    class: Result<Option<WorkloadClassVersionView>, StoreErrorView>,
    materialization: Result<Option<MaterializationRecordView>, StoreErrorView>,
    ready_age: Result<Option<u128>, StoreErrorView>,
    verified: Result<(), KubernetesClientErrorView>,
    class_again: Result<Option<WorkloadClassVersionView>, StoreErrorView>,
) -> IdleProgressView {
    run::after_all(
        run::started(request, target, activation_timeout),
        seq![
            IdleAnswerView::Instance(instance),
            IdleAnswerView::Class(class),
            IdleAnswerView::Materialization(materialization),
            IdleAnswerView::ReadyAge(ready_age),
            IdleAnswerView::Member(verified),
            IdleAnswerView::Class(class_again),
        ],
    )
}

/// The store is asked to put an instance to sleep only on a report without requests from
/// a pod that is named, of an instance that runs, whose materialization is ready, is of
/// the generation that runs and was projected for the generation that the report is on,
/// has been ready for at least the idle timeout and the time of an activation, and whose
/// only member is the pod. It is then asked for the drain that the class says.
pub proof fn lemma_sleep_is_asked_for_as_reported(
    request: ReportIdleRequestView,
    target: MaterializationTargetView,
    activation_timeout: Duration,
    instance: Result<Option<InstanceRecordView>, StoreErrorView>,
    class: Result<Option<WorkloadClassVersionView>, StoreErrorView>,
    materialization: Result<Option<MaterializationRecordView>, StoreErrorView>,
    ready_age: Result<Option<u128>, StoreErrorView>,
    verified: Result<(), KubernetesClientErrorView>,
    class_again: Result<Option<WorkloadClassVersionView>, StoreErrorView>,
)
    ensures
        until_policy(
            request,
            target,
            activation_timeout,
            instance,
            class,
            materialization,
            ready_age,
            verified,
            class_again,
        ) matches IdleProgressView::Ask(asking) ==> {
            let current = instance->Ok_0->0;
            let ready = materialization->Ok_0->0;
            let first_policy = sleep_policy::resolved_policy(
                class->Ok_0->0.sleep_policy,
                current.values,
            );
            let policy = sleep_policy::resolved_policy(
                class_again->Ok_0->0.sleep_policy,
                current.values,
            );
            &&& request.active_count == 0
            &&& !text::is_blank(request.pod_uid)
            &&& instance matches Ok(Some(_))
            &&& current.state == InstanceState::Running
            &&& class matches Ok(Some(_))
            &&& materialization matches Ok(Some(_))
            &&& ready.state == MaterializationState::Ready
            &&& ready.instance_generation == current.generation
            &&& ready.projection_generation == request.expected_generation
            &&& first_policy is Ok
            &&& ready_age is Ok
            &&& ready_age->Ok_0 matches Some(age) ==> age >= time::nanos(activation_timeout) && age
                >= first_policy->Ok_0.idle_timeout_ms * 1_000_000
            &&& verified is Ok
            &&& class_again matches Ok(Some(_))
            &&& policy is Ok
            &&& asking.query() matches IdleQueryView::BeginSleep(asked)
            &&& asked.instance_id == request.instance_id
            &&& asked.expected_running_generation == current.generation
            &&& asked.target == target
            &&& asked.drain_grace_timeout is Some
            &&& asked.drain_grace_timeout->0
                == class_again->Ok_0->0.sleep_policy.drain_grace_timeout_ms * 1_000_000
            &&& asked.minimum_ready_age is Some
            &&& asked.minimum_ready_age->0 >= policy->Ok_0.idle_timeout_ms * 1_000_000
            &&& asked.minimum_ready_age->0 >= time::nanos(activation_timeout)
            &&& asked.minimum_ready_age->0 == policy->Ok_0.idle_timeout_ms * 1_000_000
                || asked.minimum_ready_age->0 == time::nanos(activation_timeout)
        },
{
    lemma_unrolled(
        request,
        target,
        activation_timeout,
        instance,
        class,
        materialization,
        ready_age,
        verified,
        class_again,
    );
}

/// A report that meets all that is asked of it gets as far as the request to sleep.
pub proof fn lemma_report_in_order_asks_for_sleep(
    request: ReportIdleRequestView,
    target: MaterializationTargetView,
    activation_timeout: Duration,
    current: InstanceRecordView,
    class: WorkloadClassVersionView,
    ready: MaterializationRecordView,
    ready_age: Option<u128>,
)
    requires
        request.active_count == 0,
        !text::is_blank(request.pod_uid),
        current.state == InstanceState::Running,
        crate::workload::class_problem(class) is None,
        ready.state == MaterializationState::Ready,
        ready.instance_generation == current.generation,
        ready.projection_generation == request.expected_generation,
        sleep_policy::resolved_policy(class.sleep_policy, current.values) is Ok,
        ready_age matches Some(age) ==> age >= time::nanos(activation_timeout) && age
            >= sleep_policy::resolved_policy(
            class.sleep_policy,
            current.values,
        )->Ok_0.idle_timeout_ms * 1_000_000,
    ensures
        until_policy(
            request,
            target,
            activation_timeout,
            Ok(Some(current)),
            Ok(Some(class)),
            Ok(Some(ready)),
            Ok(ready_age),
            Ok(()),
            Ok(Some(class)),
        ) is Ask,
{
    lemma_unrolled(
        request,
        target,
        activation_timeout,
        Ok(Some(current)),
        Ok(Some(class)),
        Ok(Some(ready)),
        Ok(ready_age),
        Ok(()),
        Ok(Some(class)),
    );
}

proof fn lemma_unrolled(
    request: ReportIdleRequestView,
    target: MaterializationTargetView,
    activation_timeout: Duration,
    instance: Result<Option<InstanceRecordView>, StoreErrorView>,
    class: Result<Option<WorkloadClassVersionView>, StoreErrorView>,
    materialization: Result<Option<MaterializationRecordView>, StoreErrorView>,
    ready_age: Result<Option<u128>, StoreErrorView>,
    verified: Result<(), KubernetesClientErrorView>,
    class_again: Result<Option<WorkloadClassVersionView>, StoreErrorView>,
)
    ensures
        until_policy(
            request,
            target,
            activation_timeout,
            instance,
            class,
            materialization,
            ready_age,
            verified,
            class_again,
        ) == if request.active_count > 0 {
            IdleProgressView::Done(
                Err(
                    ReportIdleErrorView::ActiveRequestsPresent {
                        active_count: request.active_count,
                    },
                ),
            )
        } else {
            match super::report_step(request, instance) {
                Err(error) => IdleProgressView::Done(Err(error)),
                Ok(IdleStepView::Done(result)) => IdleProgressView::Done(Ok(result)),
                Ok(IdleStepView::Verify(current)) => match super::member_problem(
                    request,
                    current,
                    class,
                    materialization,
                    ready_age,
                    verified,
                    activation_timeout,
                ) {
                    Some(error) => IdleProgressView::Done(Err(error)),
                    None => match super::loaded_policy(class_again, current) {
                        Err(error) => IdleProgressView::Done(Err(error)),
                        Ok(policy) => IdleProgressView::Ask(
                            IdleRunView {
                                request,
                                target,
                                activation_timeout,
                                stage: IdleStageView::Begin { current, policy },
                            },
                        ),
                    },
                },
            }
        },
{
    let answers = seq![
        IdleAnswerView::Instance(instance),
        IdleAnswerView::Class(class),
        IdleAnswerView::Materialization(materialization),
        IdleAnswerView::ReadyAge(ready_age),
        IdleAnswerView::Member(verified),
        IdleAnswerView::Class(class_again),
    ];
    reveal_with_fuel(run::after_all, 7);
    let rest = answers.skip(1);
    assert(rest[0] == answers[1]);
    assert(rest.skip(1)[0] == answers[2]);
    assert(rest.skip(1).skip(1)[0] == answers[3]);
    assert(rest.skip(1).skip(1).skip(1)[0] == answers[4]);
    assert(rest.skip(1).skip(1).skip(1).skip(1)[0] == answers[5]);
    assert(rest.skip(1).skip(1).skip(1).skip(1).skip(1).len() == 0);
}

/// A report on an instance that still has requests is refused, and nothing is asked.
pub proof fn lemma_busy_instance_stays_awake(
    request: ReportIdleRequestView,
    target: MaterializationTargetView,
    activation_timeout: Duration,
    answers: Seq<IdleAnswerView>,
)
    requires
        request.active_count > 0,
    ensures
        run::after_all(run::started(request, target, activation_timeout), answers)
            == IdleProgressView::Done(
            Err(
                ReportIdleErrorView::ActiveRequestsPresent { active_count: request.active_count },
            ),
        ),
{
}

/// What is asked for a report is asked about the instance that was reported, the class
/// and the materialization that it has, and the pod that reports.
pub proof fn lemma_questions_are_about_what_was_reported(asking: IdleRunView)
    ensures
        match asking.stage {
            IdleStageView::Instance | IdleStageView::Reload { .. } => {
                &&& asking.query() matches IdleQueryView::Instance(asked)
                &&& asked.instance_id == asking.request.instance_id
            },
            IdleStageView::Class { current } | IdleStageView::Policy { current } => {
                &&& asking.query() matches IdleQueryView::Class(asked)
                &&& asked.reference == current.workload_class
            },
            IdleStageView::Materialization { current, .. } => {
                &&& asking.query() matches IdleQueryView::Materialization(asked)
                &&& asked.instance_id == current.id
                &&& asked.target == asking.target
            },
            IdleStageView::ReadyAge { materialization, .. } => {
                &&& asking.query() matches IdleQueryView::ReadyAge(id)
                &&& id == materialization.id
            },
            IdleStageView::Member { current, materialization } => {
                &&& asking.query() matches IdleQueryView::Member { objects, identity }
                &&& objects == materialization.rendered_objects
                &&& identity.instance_id == current.id
                &&& identity.instance_generation == asking.request.expected_generation
                &&& identity.materialization_id == materialization.id
                &&& identity.pod_uid == asking.request.pod_uid
            },
            IdleStageView::Begin { current, policy } => {
                &&& asking.query() matches IdleQueryView::BeginSleep(asked)
                &&& asked.instance_id == asking.request.instance_id
                &&& asked.expected_running_generation == current.generation
                &&& asked.target == asking.target
                &&& asked.drain_grace_timeout is Some
                &&& asked.drain_grace_timeout->0 == policy.drain_grace_timeout_ms * 1_000_000
            },
        },
{
}

/// A report that the store acted on is answered by the instance that drains. Where another
/// report was faster, the instance is looked at again; any other failure is told.
pub proof fn lemma_begun_sleep_is_answered(
    begun: Result<BeginSleepResultView, StoreErrorView>,
)
    ensures
        begun matches Ok(begun) ==> super::begin_step(Ok(begun)) == Ok::<
            BeginStepView,
            ReportIdleErrorView,
        >(BeginStepView::Done(ReportIdleResultView::Accepted { instance: begun.instance })),
        begun is Err ==> !(super::begin_step(begun) matches Ok(BeginStepView::Done(_))),
        super::begin_step(begun) matches Ok(BeginStepView::Reload { expected, actual }) ==> begun
            == Err::<BeginSleepResultView, StoreErrorView>(
            StoreErrorView::GenerationConflict { expected, actual },
        ) && actual == expected + 1,
        begun matches Err(error) && !(error is NotFound) && !(error is GenerationConflict)
            ==> super::begin_step(begun) == Err::<BeginStepView, ReportIdleErrorView>(
            ReportIdleErrorView::Store(begun->Err_0),
        ),
{
}

/// A report tells the truth of the instance: what it is answered with is the instance as
/// it is stored, which drains where the answer says that it drains already, is cold where
/// the report was acted on before, and is in a state that the reason names where it cannot
/// sleep. Only an instance that runs is looked at further.
pub proof fn lemma_report_is_answered_by_the_stored_instance(
    request: ReportIdleRequestView,
    current: InstanceRecordView,
)
    ensures
        ({
            let step = super::report_step(request, Ok(Some(current)));
            &&& (step is Ok && step->Ok_0 is Verify) <==> current.state == InstanceState::Running
            &&& step matches Ok(IdleStepView::Verify(found)) ==> found == current
            &&& step matches Ok(
                IdleStepView::Done(ReportIdleResultView::AlreadyDraining { instance }),
            ) ==> instance == current && current.state == InstanceState::Draining
                && current.generation == request.expected_generation + 1
            &&& step matches Ok(IdleStepView::Done(ReportIdleResultView::Accepted { instance }))
                ==> instance == current && current.state == InstanceState::Cold
                && current.generation == request.expected_generation + 2
            &&& step matches Ok(
                IdleStepView::Done(ReportIdleResultView::Unavailable { instance, reason }),
            ) ==> instance == current && current.generation == request.expected_generation
                && current.state != InstanceState::Running
            &&& step matches Err(error) ==> error == ReportIdleErrorView::GenerationConflict {
                expected: request.expected_generation,
                actual: current.generation,
            } && current.generation != request.expected_generation
        }),
{
}

/// An instance that has not been ready for long enough is to be reported again once it
/// has: after what is missing of the time, and no sooner.
pub proof fn lemma_young_instance_is_deferred(minimum: u128, age: u128)
    ensures
        super::age_problem(minimum, Ok(Some(age))) is None <==> age >= minimum,
        super::age_problem(minimum, Ok(Some(age))) matches Some(problem) ==> {
            &&& problem matches ReportIdleErrorView::Store(
                StoreErrorView::SleepDeferred { retry_after },
            )
            &&& retry_after + age == minimum
        },
{
}

} // verus!

//! Putting an instance to sleep on the report of its sidecar, step by step between
//! what the store and Kubernetes are asked.
use std::time::Duration;

use vstd::prelude::*;

use crate::ids::Generation;
use crate::ids::InstanceId;
use crate::instance::InstanceRecord;
use crate::instance::InstanceRecordView;
use crate::instance::InstanceState;
use crate::materialization::BeginSleepRequest;
use crate::materialization::BeginSleepRequestView;
use crate::materialization::BeginSleepResult;
use crate::materialization::BeginSleepResultView;
use crate::materialization::MaterializationRecord;
use crate::materialization::MaterializationRecordView;
use crate::materialization::MaterializationState;
use crate::materialization::MaterializationTarget;
use crate::materialization::MaterializationTargetView;
use crate::materializer::IdleMemberIdentity;
use crate::materializer::IdleMemberIdentityView;
use crate::materializer::KubernetesClientError;
use crate::materializer::KubernetesClientErrorView;
use crate::outcome;
use crate::sleep_policy;
use crate::sleep_policy::ResolvedSleepPolicy;
use crate::sleep_policy::ResolvedSleepPolicyView;
use crate::store::StoreError;
use crate::store::StoreErrorView;
use crate::text;
use crate::time;
use crate::workload;
use crate::workload::WorkloadClassVersion;
use crate::workload::WorkloadClassVersionView;

pub mod laws;
pub mod run;

verus! {

/// A report that an instance is idle.
#[derive(Debug, PartialEq, Eq)]
pub struct ReportIdleRequest {
    pub instance_id: InstanceId,
    pub expected_generation: Generation,
    pub active_count: u64,
    pub pod_uid: String,
}

/// What a [`ReportIdleRequest`] holds.
#[verifier::ext_equal]
pub struct ReportIdleRequestView {
    pub instance_id: Seq<char>,
    pub expected_generation: nat,
    pub active_count: u64,
    pub pod_uid: Seq<char>,
}

impl DeepView for ReportIdleRequest {
    type V = ReportIdleRequestView;

    open spec fn deep_view(&self) -> ReportIdleRequestView {
        ReportIdleRequestView {
            instance_id: self.instance_id.deep_view(),
            expected_generation: self.expected_generation.deep_view(),
            active_count: self.active_count.deep_view(),
            pod_uid: self.pod_uid.deep_view(),
        }
    }
}

impl Clone for ReportIdleRequest {
    fn clone(&self) -> (r: Self)
        ensures
            r.deep_view() == self.deep_view(),
    {
        ReportIdleRequest {
            instance_id: self.instance_id.clone(),
            expected_generation: self.expected_generation,
            active_count: self.active_count,
            pod_uid: self.pod_uid.clone(),
        }
    }
}

/// Why an instance cannot go to sleep.
#[derive(Clone, Copy, Debug, PartialEq, Eq, Structural)]
pub enum ReportIdleUnavailableReason {
    Cold,
    Waking,
    Draining,
    Failed,
    Deleting,
    Deleted,
}

impl DeepView for ReportIdleUnavailableReason {
    type V = ReportIdleUnavailableReason;

    open spec fn deep_view(&self) -> ReportIdleUnavailableReason {
        *self
    }
}

/// What became of a report.
#[derive(Debug, PartialEq, Eq)]
pub enum ReportIdleResult {
    Accepted { instance: InstanceRecord },
    AlreadyDraining { instance: InstanceRecord },
    Unavailable { instance: InstanceRecord, reason: ReportIdleUnavailableReason },
}

/// What a [`ReportIdleResult`] holds.
#[verifier::ext_equal]
pub enum ReportIdleResultView {
    Accepted { instance: InstanceRecordView },
    AlreadyDraining { instance: InstanceRecordView },
    Unavailable { instance: InstanceRecordView, reason: ReportIdleUnavailableReason },
}

impl DeepView for ReportIdleResult {
    type V = ReportIdleResultView;

    open spec fn deep_view(&self) -> ReportIdleResultView {
        match self {
            ReportIdleResult::Accepted { instance } => ReportIdleResultView::Accepted {
                instance: instance.deep_view(),
            },
            ReportIdleResult::AlreadyDraining {
                instance,
            } => ReportIdleResultView::AlreadyDraining {
                instance: instance.deep_view(),
            },
            ReportIdleResult::Unavailable {
                instance,
                reason,
            } => ReportIdleResultView::Unavailable {
                instance: instance.deep_view(),
                reason: reason.deep_view(),
            },
        }
    }
}

impl Clone for ReportIdleResult {
    fn clone(&self) -> (r: Self)
        ensures
            r.deep_view() == self.deep_view(),
    {
        match self {
            ReportIdleResult::Accepted { instance } => ReportIdleResult::Accepted {
                instance: instance.clone(),
            },
            ReportIdleResult::AlreadyDraining { instance } => ReportIdleResult::AlreadyDraining {
                instance: instance.clone(),
            },
            ReportIdleResult::Unavailable { instance, reason } => ReportIdleResult::Unavailable {
                instance: instance.clone(),
                reason: *reason,
            },
        }
    }
}

/// Why a report was refused.
#[derive(Debug, PartialEq, Eq)]
pub enum ReportIdleError {
    ActiveRequestsPresent { active_count: u64 },
    NotFound,
    WorkloadClassNotFound,
    SleepPolicy(String),
    UnsupportedSleep(String),
    GenerationConflict { expected: Generation, actual: Generation },
    Store(StoreError),
}

/// What a [`ReportIdleError`] holds.
#[verifier::ext_equal]
pub enum ReportIdleErrorView {
    ActiveRequestsPresent { active_count: u64 },
    NotFound,
    WorkloadClassNotFound,
    SleepPolicy(Seq<char>),
    UnsupportedSleep(Seq<char>),
    GenerationConflict { expected: nat, actual: nat },
    Store(StoreErrorView),
}

impl DeepView for ReportIdleError {
    type V = ReportIdleErrorView;

    open spec fn deep_view(&self) -> ReportIdleErrorView {
        match self {
            ReportIdleError::ActiveRequestsPresent {
                active_count,
            } => ReportIdleErrorView::ActiveRequestsPresent {
                active_count: active_count.deep_view(),
            },
            ReportIdleError::NotFound => ReportIdleErrorView::NotFound,
            ReportIdleError::WorkloadClassNotFound => ReportIdleErrorView::WorkloadClassNotFound,
            ReportIdleError::SleepPolicy(value) => ReportIdleErrorView::SleepPolicy(
                value.deep_view(),
            ),
            ReportIdleError::UnsupportedSleep(value) => ReportIdleErrorView::UnsupportedSleep(
                value.deep_view(),
            ),
            ReportIdleError::GenerationConflict {
                expected,
                actual,
            } => ReportIdleErrorView::GenerationConflict {
                expected: expected.deep_view(),
                actual: actual.deep_view(),
            },
            ReportIdleError::Store(value) => ReportIdleErrorView::Store(value.deep_view()),
        }
    }
}

impl Clone for ReportIdleError {
    fn clone(&self) -> (r: Self)
        ensures
            r.deep_view() == self.deep_view(),
    {
        match self {
            ReportIdleError::ActiveRequestsPresent {
                active_count,
            } => ReportIdleError::ActiveRequestsPresent {
                active_count: *active_count,
            },
            ReportIdleError::NotFound => ReportIdleError::NotFound,
            ReportIdleError::WorkloadClassNotFound => ReportIdleError::WorkloadClassNotFound,
            ReportIdleError::SleepPolicy(value) => ReportIdleError::SleepPolicy(value.clone()),
            ReportIdleError::UnsupportedSleep(value) => ReportIdleError::UnsupportedSleep(
                value.clone(),
            ),
            ReportIdleError::GenerationConflict {
                expected,
                actual,
            } => ReportIdleError::GenerationConflict {
                expected: *expected,
                actual: *actual,
            },
            ReportIdleError::Store(value) => ReportIdleError::Store(value.clone()),
        }
    }
}

impl ReportIdleRequest {
    pub fn new(instance_id: InstanceId, expected_generation: Generation, active_count: u64) -> (r:
        Self)
        ensures
            r.deep_view() == (ReportIdleRequestView {
                instance_id: instance_id@,
                expected_generation: expected_generation@,
                active_count,
                pod_uid: Seq::empty(),
            }),
    {
        let pod_uid = String::new();
        ReportIdleRequest { instance_id, expected_generation, active_count, pod_uid }
    }
}

/// Checks that an instance that is reported to be idle has no requests.
pub fn check_active_count(request: &ReportIdleRequest) -> (r: Result<(), ReportIdleError>)
    ensures
        outcome::problem(r) == if request.deep_view().active_count > 0 {
            Some(
                ReportIdleErrorView::ActiveRequestsPresent {
                    active_count: request.deep_view().active_count,
                },
            )
        } else {
            None
        },
{
    if request.active_count > 0 {
        return Err(
            ReportIdleError::ActiveRequestsPresent { active_count: request.active_count },
        );
    }
    Ok(())
}

/// An instance that was loaded.
pub open spec fn loaded(result: Result<Option<InstanceRecordView>, StoreErrorView>) -> Result<
    InstanceRecordView,
    ReportIdleErrorView,
> {
    match result {
        Err(error) => Err(ReportIdleErrorView::Store(error)),
        Ok(None) => Err(ReportIdleErrorView::NotFound),
        Ok(Some(instance)) => Ok(instance),
    }
}

fn load_instance(result: Result<Option<InstanceRecord>, StoreError>) -> (r: Result<
    InstanceRecord,
    ReportIdleError,
>)
    ensures
        outcome::of(r) == loaded(outcome::of(result)),
{
    match result {
        Err(error) => Err(ReportIdleError::Store(error)),
        Ok(None) => Err(ReportIdleError::NotFound),
        Ok(Some(instance)) => Ok(instance),
    }
}

/// Why an instance that is not running cannot go to sleep.
pub open spec fn unavailable_reason(state: InstanceState) -> ReportIdleUnavailableReason {
    match state {
        InstanceState::Cold => ReportIdleUnavailableReason::Cold,
        InstanceState::Waking => ReportIdleUnavailableReason::Waking,
        InstanceState::Running | InstanceState::Draining => ReportIdleUnavailableReason::Draining,
        InstanceState::Failed => ReportIdleUnavailableReason::Failed,
        InstanceState::Deleting => ReportIdleUnavailableReason::Deleting,
        InstanceState::Deleted => ReportIdleUnavailableReason::Deleted,
    }
}

fn unavailable_reason_for_state(state: InstanceState) -> (r: ReportIdleUnavailableReason)
    requires
        state != InstanceState::Running,
    ensures
        r == unavailable_reason(state),
{
    match state {
        InstanceState::Cold => ReportIdleUnavailableReason::Cold,
        InstanceState::Waking => ReportIdleUnavailableReason::Waking,
        InstanceState::Running | InstanceState::Draining => ReportIdleUnavailableReason::Draining,
        InstanceState::Failed => ReportIdleUnavailableReason::Failed,
        InstanceState::Deleting => ReportIdleUnavailableReason::Deleting,
        InstanceState::Deleted => ReportIdleUnavailableReason::Deleted,
    }
}

/// What becomes of a report on another generation than the current one: it may be
/// one that has been acted on already.
pub open spec fn mismatch_result(expected: nat, current: InstanceRecordView) -> Result<
    ReportIdleResultView,
    ReportIdleErrorView,
> {
    if current.generation == expected + 1 && current.state == InstanceState::Draining {
        Ok(ReportIdleResultView::AlreadyDraining { instance: current })
    } else if current.generation == expected + 2 && current.state == InstanceState::Cold {
        Ok(ReportIdleResultView::Accepted { instance: current })
    } else {
        Err(ReportIdleErrorView::GenerationConflict { expected, actual: current.generation })
    }
}

fn generation_mismatch_result(request: &ReportIdleRequest, current: InstanceRecord) -> (r: Result<
    ReportIdleResult,
    ReportIdleError,
>)
    ensures
        outcome::of(r) == mismatch_result(
            request.deep_view().expected_generation,
            current.deep_view(),
        ),
{
    let generation: u64 = current.generation.get();
    let expected: u64 = request.expected_generation.get();
    let draining = match expected.checked_add(1) {
        Some(next) => generation == next,
        None => false,
    };
    if draining && current.state == InstanceState::Draining {
        return Ok(ReportIdleResult::AlreadyDraining { instance: current });
    }
    let cold = match expected.checked_add(2) {
        Some(next) => generation == next,
        None => false,
    };
    if cold && current.state == InstanceState::Cold {
        return Ok(ReportIdleResult::Accepted { instance: current });
    }
    Err(
        ReportIdleError::GenerationConflict {
            expected: request.expected_generation,
            actual: current.generation,
        },
    )
}

/// What is left to do for a report: nothing, or to verify the member and begin to sleep.
#[derive(Debug, PartialEq, Eq)]
pub enum IdleStep {
    Done(ReportIdleResult),
    Verify(InstanceRecord),
}

/// What an [`IdleStep`] holds.
#[verifier::ext_equal]
pub enum IdleStepView {
    Done(ReportIdleResultView),
    Verify(InstanceRecordView),
}

impl DeepView for IdleStep {
    type V = IdleStepView;

    open spec fn deep_view(&self) -> IdleStepView {
        match self {
            IdleStep::Done(value) => IdleStepView::Done(value.deep_view()),
            IdleStep::Verify(value) => IdleStepView::Verify(value.deep_view()),
        }
    }
}

impl Clone for IdleStep {
    fn clone(&self) -> (r: Self)
        ensures
            r.deep_view() == self.deep_view(),
    {
        match self {
            IdleStep::Done(value) => IdleStep::Done(value.clone()),
            IdleStep::Verify(value) => IdleStep::Verify(value.clone()),
        }
    }
}

/// What is left to do for a report, by the instance that is reported.
pub open spec fn report_step(
    request: ReportIdleRequestView,
    result: Result<Option<InstanceRecordView>, StoreErrorView>,
) -> Result<IdleStepView, ReportIdleErrorView> {
    match loaded(result) {
        Err(error) => Err(error),
        Ok(current) => if current.state == InstanceState::Running {
            Ok(IdleStepView::Verify(current))
        } else if current.generation != request.expected_generation {
            match mismatch_result(request.expected_generation, current) {
                Ok(result) => Ok(IdleStepView::Done(result)),
                Err(error) => Err(error),
            }
        } else {
            Ok(
                IdleStepView::Done(
                    ReportIdleResultView::Unavailable {
                        instance: current,
                        reason: unavailable_reason(current.state),
                    },
                ),
            )
        },
    }
}

/// What is left to do for a report, by the instance that is reported.
pub fn instance_loaded(
    request: &ReportIdleRequest,
    result: Result<Option<InstanceRecord>, StoreError>,
) -> (r: Result<IdleStep, ReportIdleError>)
    ensures
        outcome::of(r) == report_step(request.deep_view(), outcome::of(result)),
{
    let current = match load_instance(result) {
        Ok(current) => current,
        Err(error) => return Err(error),
    };
    if current.state == InstanceState::Running {
        return Ok(IdleStep::Verify(current));
    }
    if current.generation.get() != request.expected_generation.get() {
        return match generation_mismatch_result(request, current) {
            Ok(result) => Ok(IdleStep::Done(result)),
            Err(error) => Err(error),
        };
    }
    let reason = unavailable_reason_for_state(current.state);
    Ok(IdleStep::Done(ReportIdleResult::Unavailable { instance: current, reason }))
}

/// What is wrong with a report that does not name the pod that it comes from.
pub open spec fn pod_uid_problem(request: ReportIdleRequestView) -> Option<ReportIdleErrorView> {
    if text::is_blank(request.pod_uid) {
        Some(
            ReportIdleErrorView::UnsupportedSleep(
                "pod_uid is required; legacy sidecars cannot authorize automatic sleep"@,
            ),
        )
    } else {
        None
    }
}

/// Checks that a report names the pod that it comes from.
pub fn check_pod_uid(request: &ReportIdleRequest) -> (r: Result<(), ReportIdleError>)
    ensures
        outcome::problem(r) == pod_uid_problem(request.deep_view()),
{
    if text::blank(request.pod_uid.as_str()) {
        return Err(
            ReportIdleError::UnsupportedSleep(
                "pod_uid is required; legacy sidecars cannot authorize automatic sleep".to_owned(),
            ),
        );
    }
    Ok(())
}

/// The class of an instance that may go to sleep.
pub open spec fn sleeping_class(
    result: Result<Option<WorkloadClassVersionView>, StoreErrorView>,
) -> Result<WorkloadClassVersionView, ReportIdleErrorView> {
    match result {
        Err(error) => Err(ReportIdleErrorView::Store(error)),
        Ok(None) => Err(ReportIdleErrorView::WorkloadClassNotFound),
        Ok(Some(class)) => match workload::class_problem(class) {
            Some(problem) => Err(
                ReportIdleErrorView::UnsupportedSleep(workload::workload_class_message(problem)),
            ),
            None => Ok(class),
        },
    }
}

/// The class of an instance that may go to sleep.
pub fn class_loaded(result: Result<Option<WorkloadClassVersion>, StoreError>) -> (r: Result<
    WorkloadClassVersion,
    ReportIdleError,
>)
    ensures
        outcome::of(r) == sleeping_class(outcome::of(result)),
{
    let class = match result {
        Err(error) => return Err(ReportIdleError::Store(error)),
        Ok(None) => return Err(ReportIdleError::WorkloadClassNotFound),
        Ok(Some(class)) => class,
    };
    match class.validate() {
        Ok(()) => Ok(class),
        Err(error) => Err(ReportIdleError::UnsupportedSleep(error.to_string())),
    }
}

/// The materialization of the generation that runs, if the report is on it.
pub open spec fn reported_materialization(
    request: ReportIdleRequestView,
    current: InstanceRecordView,
    result: Result<Option<MaterializationRecordView>, StoreErrorView>,
) -> Result<MaterializationRecordView, ReportIdleErrorView> {
    match result {
        Err(error) => Err(ReportIdleErrorView::Store(error)),
        Ok(None) => Err(
            ReportIdleErrorView::UnsupportedSleep(
                "automatic sleep requires an active Ready materialization"@,
            ),
        ),
        Ok(Some(materialization)) => if materialization.state != MaterializationState::Ready
            || materialization.instance_generation != current.generation {
            Err(
                ReportIdleErrorView::UnsupportedSleep(
                    "active materialization does not match the running generation"@,
                ),
            )
        } else if materialization.projection_generation != request.expected_generation {
            Err(
                ReportIdleErrorView::GenerationConflict {
                    expected: request.expected_generation,
                    actual: materialization.projection_generation,
                },
            )
        } else {
            Ok(materialization)
        },
    }
}

/// The materialization of the generation that runs, if the report is on it.
pub fn materialization_loaded(
    request: &ReportIdleRequest,
    current: &InstanceRecord,
    result: Result<Option<MaterializationRecord>, StoreError>,
) -> (r: Result<MaterializationRecord, ReportIdleError>)
    ensures
        outcome::of(r) == reported_materialization(
            request.deep_view(),
            current.deep_view(),
            outcome::of(result),
        ),
{
    let materialization = match result {
        Err(error) => return Err(ReportIdleError::Store(error)),
        Ok(None) => {
            return Err(
                ReportIdleError::UnsupportedSleep(
                    "automatic sleep requires an active Ready materialization".to_owned(),
                ),
            );
        },
        Ok(Some(materialization)) => materialization,
    };
    if materialization.state != MaterializationState::Ready
        || materialization.instance_generation.get() != current.generation.get() {
        return Err(
            ReportIdleError::UnsupportedSleep(
                "active materialization does not match the running generation".to_owned(),
            ),
        );
    }
    if materialization.projection_generation.get() != request.expected_generation.get() {
        return Err(
            ReportIdleError::GenerationConflict {
                expected: request.expected_generation,
                actual: materialization.projection_generation,
            },
        );
    }
    Ok(materialization)
}

/// The sleep policy of an instance by its class.
pub open spec fn policy_of(class: WorkloadClassVersionView, current: InstanceRecordView) -> Result<
    ResolvedSleepPolicyView,
    ReportIdleErrorView,
> {
    match sleep_policy::resolved_policy(class.sleep_policy, current.values) {
        Ok(policy) => Ok(policy),
        Err(error) => Err(
            ReportIdleErrorView::SleepPolicy(sleep_policy::sleep_policy_message(error)),
        ),
    }
}

/// The sleep policy of an instance by its class.
pub fn resolve_sleep_policy(class: &WorkloadClassVersion, current: &InstanceRecord) -> (r: Result<
    ResolvedSleepPolicy,
    ReportIdleError,
>)
    ensures
        outcome::of(r) == policy_of(class.deep_view(), current.deep_view()),
{
    match class.sleep_policy.resolve(&current.values) {
        Ok(policy) => Ok(policy),
        Err(error) => Err(ReportIdleError::SleepPolicy(error.to_string())),
    }
}

/// The sleep policy of an instance by the class that was loaded for it.
pub open spec fn loaded_policy(
    result: Result<Option<WorkloadClassVersionView>, StoreErrorView>,
    current: InstanceRecordView,
) -> Result<ResolvedSleepPolicyView, ReportIdleErrorView> {
    match result {
        Err(error) => Err(ReportIdleErrorView::Store(error)),
        Ok(None) => Err(ReportIdleErrorView::WorkloadClassNotFound),
        Ok(Some(class)) => policy_of(class, current),
    }
}

/// The sleep policy of an instance by the class that was loaded for it.
pub fn load_sleep_policy(
    result: Result<Option<WorkloadClassVersion>, StoreError>,
    current: &InstanceRecord,
) -> (r: Result<ResolvedSleepPolicy, ReportIdleError>)
    ensures
        outcome::of(r) == loaded_policy(outcome::of(result), current.deep_view()),
{
    match result {
        Err(error) => Err(ReportIdleError::Store(error)),
        Ok(None) => Err(ReportIdleError::WorkloadClassNotFound),
        Ok(Some(class)) => resolve_sleep_policy(&class, current),
    }
}

/// How long an instance has to have been ready before it may go to sleep, in
/// nanoseconds: its idle timeout, and at least the time that a first activation
/// takes.
pub open spec fn minimum_age(
    policy: ResolvedSleepPolicyView,
    activation_timeout: Duration,
) -> u128 {
    let idle = policy.idle_timeout_ms * 1_000_000;
    if idle >= time::nanos(activation_timeout) {
        idle as u128
    } else {
        time::nanos(activation_timeout)
    }
}

/// How long an instance has to have been ready before it may go to sleep.
pub fn minimum_ready_age(policy: &ResolvedSleepPolicy, activation_timeout: Duration) -> (r:
    Duration)
    ensures
        time::nanos(r) == minimum_age(policy.deep_view(), activation_timeout),
{
    time::longer(Duration::from_millis(policy.idle_timeout_ms), activation_timeout)
}

/// What keeps an instance from going to sleep by its age: for how long to wait.
pub open spec fn age_problem(
    minimum: u128,
    ready_age: Result<Option<u128>, StoreErrorView>,
) -> Option<ReportIdleErrorView> {
    match ready_age {
        Err(error) => Some(ReportIdleErrorView::Store(error)),
        Ok(Some(age)) => if age < minimum {
            Some(
                ReportIdleErrorView::Store(
                    StoreErrorView::SleepDeferred { retry_after: (minimum - age) as u128 },
                ),
            )
        } else {
            None
        },
        Ok(None) => None,
    }
}

/// How long an instance has been ready, as far as that was loaded.
pub open spec fn loaded_age(result: Result<Option<Duration>, StoreError>) -> Result<
    Option<u128>,
    StoreErrorView,
> {
    match result {
        Ok(age) => Ok(time::optional_nanos(age)),
        Err(error) => Err(error.deep_view()),
    }
}

/// Checks that an instance has been ready for long enough.
pub fn check_ready_age(minimum: Duration, ready_age: Result<Option<Duration>, StoreError>) -> (r:
    Result<(), ReportIdleError>)
    ensures
        outcome::problem(r) == age_problem(time::nanos(minimum), loaded_age(ready_age)),
{
    match ready_age {
        Err(error) => Err(ReportIdleError::Store(error)),
        Ok(None) => Ok(()),
        Ok(Some(age)) => {
            if age.as_nanos() < minimum.as_nanos() {
                let retry_after = minimum.saturating_sub(age);
                return Err(ReportIdleError::Store(StoreError::SleepDeferred { retry_after }));
            }
            Ok(())
        },
    }
}

/// The member that reports.
pub fn member_identity(
    request: &ReportIdleRequest,
    current: &InstanceRecord,
    materialization: &MaterializationRecord,
) -> (r: IdleMemberIdentity)
    ensures
        r.deep_view() == (IdleMemberIdentityView {
            instance_id: current.deep_view().id,
            instance_generation: request.deep_view().expected_generation,
            materialization_id: materialization.deep_view().id,
            pod_uid: request.deep_view().pod_uid,
        }),
{
    IdleMemberIdentity {
        instance_id: current.id.clone(),
        instance_generation: request.expected_generation,
        materialization_id: materialization.id.clone(),
        pod_uid: request.pod_uid.clone(),
    }
}

/// What keeps an instance from going to sleep if its member was not verified.
pub fn member_verified(result: Result<(), KubernetesClientError>) -> (r: Result<
    (),
    ReportIdleError,
>)
    ensures
        outcome::problem(r) == match result {
            Ok(_) => None,
            Err(error) => Some(ReportIdleErrorView::UnsupportedSleep(error@.message)),
        },
{
    match result {
        Ok(()) => Ok(()),
        Err(error) => Err(ReportIdleError::UnsupportedSleep(error.to_string())),
    }
}

/// The first problem of a report that its member is verified by: with the pod that
/// it names, the class, the materialization, the age and the membership.
pub open spec fn member_problem(
    request: ReportIdleRequestView,
    current: InstanceRecordView,
    class: Result<Option<WorkloadClassVersionView>, StoreErrorView>,
    materialization: Result<Option<MaterializationRecordView>, StoreErrorView>,
    ready_age: Result<Option<u128>, StoreErrorView>,
    verified: Result<(), KubernetesClientErrorView>,
    activation_timeout: Duration,
) -> Option<ReportIdleErrorView> {
    if pod_uid_problem(request) is Some {
        pod_uid_problem(request)
    } else if sleeping_class(class) is Err {
        outcome::err_of(sleeping_class(class))
    } else if reported_materialization(request, current, materialization) is Err {
        outcome::err_of(reported_materialization(request, current, materialization))
    } else {
        match policy_of(sleeping_class(class)->Ok_0, current) {
            Err(error) => Some(error),
            Ok(policy) => outcome::first_of(
                age_problem(minimum_age(policy, activation_timeout), ready_age),
                match verified {
                    Ok(_) => None,
                    Err(error) => Some(ReportIdleErrorView::UnsupportedSleep(error.message)),
                },
            ),
        }
    }
}

/// Checks a report against everything that the store and Kubernetes were asked:
/// the class, the materialization, how long it has been ready, and whether the pod
/// is the only member.
pub fn verify_idle_member(
    request: &ReportIdleRequest,
    current: &InstanceRecord,
    class: Result<Option<WorkloadClassVersion>, StoreError>,
    materialization: Result<Option<MaterializationRecord>, StoreError>,
    ready_age: Result<Option<Duration>, StoreError>,
    verified: Result<(), KubernetesClientError>,
    activation_timeout: Duration,
) -> (r: Result<(), ReportIdleError>)
    ensures
        outcome::problem(r) == member_problem(
            request.deep_view(),
            current.deep_view(),
            outcome::of(class),
            outcome::of(materialization),
            loaded_age(ready_age),
            match verified {
                Ok(_) => Ok(()),
                Err(error) => Err(error@),
            },
            activation_timeout,
        ),
{
    if let Err(error) = check_pod_uid(request) {
        return Err(error);
    }
    let class = match class_loaded(class) {
        Ok(class) => class,
        Err(error) => return Err(error),
    };
    if let Err(error) = materialization_loaded(request, current, materialization) {
        return Err(error);
    }
    let policy = match resolve_sleep_policy(&class, current) {
        Ok(policy) => policy,
        Err(error) => return Err(error),
    };
    let minimum = minimum_ready_age(&policy, activation_timeout);
    if let Err(error) = check_ready_age(minimum, ready_age) {
        return Err(error);
    }
    member_verified(verified)
}

/// What asks for an instance to begin to sleep: the generation that runs, with the
/// grace of its policy, once it has been ready for long enough.
pub open spec fn sleep_request(
    request: ReportIdleRequestView,
    current: InstanceRecordView,
    policy: ResolvedSleepPolicyView,
    target: MaterializationTargetView,
    activation_timeout: Duration,
) -> BeginSleepRequestView {
    BeginSleepRequestView {
        instance_id: request.instance_id,
        expected_running_generation: current.generation,
        target,
        drain_grace_timeout: Some((policy.drain_grace_timeout_ms * 1_000_000) as u128),
        minimum_ready_age: Some(minimum_age(policy, activation_timeout)),
    }
}

/// Asks for an instance to begin to sleep.
pub fn begin_sleep_request(
    request: &ReportIdleRequest,
    current: &InstanceRecord,
    policy: &ResolvedSleepPolicy,
    target: MaterializationTarget,
    activation_timeout: Duration,
) -> (r: BeginSleepRequest)
    ensures
        r.deep_view() == sleep_request(
            request.deep_view(),
            current.deep_view(),
            policy.deep_view(),
            target.deep_view(),
            activation_timeout,
        ),
{
    BeginSleepRequest::new(
        request.instance_id.clone(),
        current.generation,
        target,
    ).with_drain_grace_timeout(
        Duration::from_millis(policy.drain_grace_timeout_ms),
    ).with_minimum_ready_age(minimum_ready_age(policy, activation_timeout))
}

/// What is left to do when an instance began to sleep, or did not: nothing, or to load it again.
#[derive(Debug, PartialEq, Eq)]
pub enum BeginStep {
    Done(ReportIdleResult),
    Reload { expected: Generation, actual: Generation },
}

/// What a [`BeginStep`] holds.
#[verifier::ext_equal]
pub enum BeginStepView {
    Done(ReportIdleResultView),
    Reload { expected: nat, actual: nat },
}

impl DeepView for BeginStep {
    type V = BeginStepView;

    open spec fn deep_view(&self) -> BeginStepView {
        match self {
            BeginStep::Done(value) => BeginStepView::Done(value.deep_view()),
            BeginStep::Reload { expected, actual } => BeginStepView::Reload {
                expected: expected.deep_view(),
                actual: actual.deep_view(),
            },
        }
    }
}

impl Clone for BeginStep {
    fn clone(&self) -> (r: Self)
        ensures
            r.deep_view() == self.deep_view(),
    {
        match self {
            BeginStep::Done(value) => BeginStep::Done(value.clone()),
            BeginStep::Reload { expected, actual } => BeginStep::Reload {
                expected: *expected,
                actual: *actual,
            },
        }
    }
}

/// What is left to do when an instance began to sleep, or did not.
pub open spec fn begin_step(result: Result<BeginSleepResultView, StoreErrorView>) -> Result<
    BeginStepView,
    ReportIdleErrorView,
> {
    match result {
        Ok(begin) => Ok(
            BeginStepView::Done(ReportIdleResultView::Accepted { instance: begin.instance }),
        ),
        Err(StoreErrorView::NotFound { resource }) => Err(ReportIdleErrorView::NotFound),
        Err(StoreErrorView::GenerationConflict { expected, actual }) => if actual == expected + 1 {
            Ok(BeginStepView::Reload { expected, actual })
        } else {
            Err(ReportIdleErrorView::GenerationConflict { expected, actual })
        },
        Err(error) => Err(ReportIdleErrorView::Store(error)),
    }
}

/// What is left to do when an instance began to sleep, or did not.
pub fn sleep_begun(result: Result<BeginSleepResult, StoreError>) -> (r: Result<
    BeginStep,
    ReportIdleError,
>)
    ensures
        outcome::of(r) == begin_step(outcome::of(result)),
{
    match result {
        Ok(begin) => Ok(
            BeginStep::Done(ReportIdleResult::Accepted { instance: begin.instance }),
        ),
        Err(StoreError::NotFound { .. }) => Err(ReportIdleError::NotFound),
        Err(StoreError::GenerationConflict { expected, actual }) => {
            let follows = match expected.get().checked_add(1) {
                Some(next) => actual.get() == next,
                None => false,
            };
            if follows {
                Ok(BeginStep::Reload { expected, actual })
            } else {
                Err(ReportIdleError::GenerationConflict { expected, actual })
            }
        },
        Err(error) => Err(ReportIdleError::Store(error)),
    }
}

/// What becomes of a report when another one was faster.
pub open spec fn reload_result(
    request: ReportIdleRequestView,
    expected: nat,
    actual: nat,
    result: Result<Option<InstanceRecordView>, StoreErrorView>,
) -> Result<ReportIdleResultView, ReportIdleErrorView> {
    match loaded(result) {
        Err(error) => Err(error),
        Ok(current) => if current.generation == actual {
            mismatch_result(request.expected_generation, current)
        } else {
            Err(ReportIdleErrorView::GenerationConflict { expected, actual })
        },
    }
}

/// What becomes of a report when another one was faster.
pub fn instance_reloaded(
    request: &ReportIdleRequest,
    expected: Generation,
    actual: Generation,
    result: Result<Option<InstanceRecord>, StoreError>,
) -> (r: Result<ReportIdleResult, ReportIdleError>)
    ensures
        outcome::of(r) == reload_result(
            request.deep_view(),
            expected@,
            actual@,
            outcome::of(result),
        ),
{
    let current = match load_instance(result) {
        Ok(current) => current,
        Err(error) => return Err(error),
    };
    if current.generation.get() == actual.get() {
        return generation_mismatch_result(request, current);
    }
    Err(ReportIdleError::GenerationConflict { expected, actual })
}

/// An instance goes to sleep only if the report is on the generation that its
/// materialization was made for, which is ready, and has been so for long enough.
pub proof fn lemma_sleep_needs_a_current_report(
    request: ReportIdleRequestView,
    current: InstanceRecordView,
    class: Result<Option<WorkloadClassVersionView>, StoreErrorView>,
    materialization: Result<Option<MaterializationRecordView>, StoreErrorView>,
    ready_age: Result<Option<u128>, StoreErrorView>,
    verified: Result<(), KubernetesClientErrorView>,
    activation_timeout: Duration,
)
    requires
        member_problem(
            request,
            current,
            class,
            materialization,
            ready_age,
            verified,
            activation_timeout,
        ) is None,
    ensures
        materialization matches Ok(Some(found)) && found.state == MaterializationState::Ready
            && found.instance_generation == current.generation && found.projection_generation
            == request.expected_generation,
        ready_age matches Ok(age) && (age matches Some(age) ==> age >= time::nanos(
            activation_timeout,
        )),
        verified is Ok,
{
}

/// A report that was acted on already is answered by what became of it, a drain that
/// goes on or an instance that is cold, and is not acted on again.
pub proof fn lemma_repeated_report_is_answered(
    request: ReportIdleRequestView,
    current: InstanceRecordView,
)
    ensures
        current.generation == request.expected_generation + 1 && current.state
            == InstanceState::Draining ==> report_step(request, Ok(Some(current))) == Ok::<
            IdleStepView,
            ReportIdleErrorView,
        >(IdleStepView::Done(ReportIdleResultView::AlreadyDraining { instance: current })),
        current.generation == request.expected_generation + 2 && current.state
            == InstanceState::Cold ==> report_step(request, Ok(Some(current))) == Ok::<
            IdleStepView,
            ReportIdleErrorView,
        >(IdleStepView::Done(ReportIdleResultView::Accepted { instance: current })),
{
}

} // verus!

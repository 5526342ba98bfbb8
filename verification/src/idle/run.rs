//! A report that an instance is idle, from the question what is known of the
//! instance to the answer that its sidecar gets.
use std::time::Duration;

use vstd::prelude::*;

use super::BeginStep;
use super::BeginStepView;
use super::IdleStep;
use super::IdleStepView;
use super::ReportIdleError;
use super::ReportIdleErrorView;
use super::ReportIdleRequest;
use super::ReportIdleRequestView;
use super::ReportIdleResult;
use super::ReportIdleResultView;
use crate::ids::Generation;
use crate::ids::MaterializationId;
use crate::instance::GetInstanceRequest;
use crate::instance::GetInstanceRequestView;
use crate::instance::InstanceRecord;
use crate::instance::InstanceRecordView;
use crate::materialization::BeginSleepRequest;
use crate::materialization::BeginSleepRequestView;
use crate::materialization::BeginSleepResult;
use crate::materialization::BeginSleepResultView;
use crate::materialization::LoadActiveMaterializationRequest;
use crate::materialization::LoadActiveMaterializationRequestView;
use crate::materialization::MaterializationRecord;
use crate::materialization::MaterializationRecordView;
use crate::materialization::MaterializationTarget;
use crate::materialization::MaterializationTargetView;
use crate::materialization::RenderedObjectRef;
use crate::materialization::RenderedObjectRefView;
use crate::materializer;
use crate::materializer::IdleMemberIdentity;
use crate::materializer::IdleMemberIdentityView;
use crate::materializer::KubernetesClientError;
use crate::materializer::KubernetesClientErrorView;
use crate::outcome;
use crate::sleep_policy::ResolvedSleepPolicy;
use crate::sleep_policy::ResolvedSleepPolicyView;
use crate::store::StoreError;
use crate::store::StoreErrorView;
use crate::workload::LoadWorkloadClassVersionRequest;
use crate::workload::LoadWorkloadClassVersionRequestView;
use crate::workload::WorkloadClassVersion;
use crate::workload::WorkloadClassVersionView;

verus! {

/// What is asked next for a report.
#[derive(Debug, PartialEq, Eq)]
pub enum IdleQuery {
    Instance(GetInstanceRequest),
    Class(LoadWorkloadClassVersionRequest),
    Materialization(LoadActiveMaterializationRequest),
    ReadyAge(MaterializationId),
    Member { objects: Vec<RenderedObjectRef>, identity: IdleMemberIdentity },
    BeginSleep(BeginSleepRequest),
}

/// What an [`IdleQuery`] holds.
#[verifier::ext_equal]
pub enum IdleQueryView {
    Instance(GetInstanceRequestView),
    Class(LoadWorkloadClassVersionRequestView),
    Materialization(LoadActiveMaterializationRequestView),
    ReadyAge(Seq<char>),
    Member { objects: Seq<RenderedObjectRefView>, identity: IdleMemberIdentityView },
    BeginSleep(BeginSleepRequestView),
}

impl DeepView for IdleQuery {
    type V = IdleQueryView;

    open spec fn deep_view(&self) -> IdleQueryView {
        match self {
            IdleQuery::Instance(value) => IdleQueryView::Instance(value.deep_view()),
            IdleQuery::Class(value) => IdleQueryView::Class(value.deep_view()),
            IdleQuery::Materialization(value) => IdleQueryView::Materialization(value.deep_view()),
            IdleQuery::ReadyAge(value) => IdleQueryView::ReadyAge(value.deep_view()),
            IdleQuery::Member { objects, identity } => IdleQueryView::Member {
                objects: objects.deep_view(),
                identity: identity.deep_view(),
            },
            IdleQuery::BeginSleep(value) => IdleQueryView::BeginSleep(value.deep_view()),
        }
    }
}

/// What the store or Kubernetes answered.
#[derive(Debug, PartialEq, Eq)]
pub enum IdleAnswer {
    Instance(Result<Option<InstanceRecord>, StoreError>),
    Class(Result<Option<WorkloadClassVersion>, StoreError>),
    Materialization(Result<Option<MaterializationRecord>, StoreError>),
    ReadyAge(Result<Option<Duration>, StoreError>),
    Member(Result<(), KubernetesClientError>),
    Begun(Result<BeginSleepResult, StoreError>),
}

/// What an [`IdleAnswer`] holds, an age in nanoseconds.
#[verifier::ext_equal]
pub enum IdleAnswerView {
    Instance(Result<Option<InstanceRecordView>, StoreErrorView>),
    Class(Result<Option<WorkloadClassVersionView>, StoreErrorView>),
    Materialization(Result<Option<MaterializationRecordView>, StoreErrorView>),
    ReadyAge(Result<Option<u128>, StoreErrorView>),
    Member(Result<(), KubernetesClientErrorView>),
    Begun(Result<BeginSleepResultView, StoreErrorView>),
}

impl DeepView for IdleAnswer {
    type V = IdleAnswerView;

    open spec fn deep_view(&self) -> IdleAnswerView {
        match *self {
            IdleAnswer::Instance(result) => IdleAnswerView::Instance(outcome::of(result)),
            IdleAnswer::Class(result) => IdleAnswerView::Class(outcome::of(result)),
            IdleAnswer::Materialization(result) => IdleAnswerView::Materialization(
                outcome::of(result),
            ),
            IdleAnswer::ReadyAge(result) => IdleAnswerView::ReadyAge(super::loaded_age(result)),
            IdleAnswer::Member(result) => IdleAnswerView::Member(materializer::answer_of(result)),
            IdleAnswer::Begun(result) => IdleAnswerView::Begun(outcome::of(result)),
        }
    }
}

/// How far a report has come: what is to be answered next, with all that is known.
#[derive(Debug, PartialEq, Eq)]
enum IdleStage {
    Instance,
    Class { current: InstanceRecord },
    Materialization { current: InstanceRecord, class: WorkloadClassVersion },
    ReadyAge {
        current: InstanceRecord,
        materialization: MaterializationRecord,
        policy: ResolvedSleepPolicy,
    },
    Member { current: InstanceRecord, materialization: MaterializationRecord },
    Policy { current: InstanceRecord },
    Begin { current: InstanceRecord, policy: ResolvedSleepPolicy },
    Reload { expected: Generation, actual: Generation },
}

/// How far a report has come: what is to be answered next, with all that is known.
#[verifier::ext_equal]
pub enum IdleStageView {
    Instance,
    Class { current: InstanceRecordView },
    Materialization { current: InstanceRecordView, class: WorkloadClassVersionView },
    ReadyAge {
        current: InstanceRecordView,
        materialization: MaterializationRecordView,
        policy: ResolvedSleepPolicyView,
    },
    Member { current: InstanceRecordView, materialization: MaterializationRecordView },
    Policy { current: InstanceRecordView },
    Begin { current: InstanceRecordView, policy: ResolvedSleepPolicyView },
    Reload { expected: nat, actual: nat },
}

impl DeepView for IdleStage {
    type V = IdleStageView;

    closed spec fn deep_view(&self) -> IdleStageView {
        match self {
            IdleStage::Instance => IdleStageView::Instance,
            IdleStage::Class { current } => IdleStageView::Class { current: current.deep_view() },
            IdleStage::Materialization { current, class } => IdleStageView::Materialization {
                current: current.deep_view(),
                class: class.deep_view(),
            },
            IdleStage::ReadyAge { current, materialization, policy } => IdleStageView::ReadyAge {
                current: current.deep_view(),
                materialization: materialization.deep_view(),
                policy: policy.deep_view(),
            },
            IdleStage::Member { current, materialization } => IdleStageView::Member {
                current: current.deep_view(),
                materialization: materialization.deep_view(),
            },
            IdleStage::Policy { current } => IdleStageView::Policy {
                current: current.deep_view(),
            },
            IdleStage::Begin { current, policy } => IdleStageView::Begin {
                current: current.deep_view(),
                policy: policy.deep_view(),
            },
            IdleStage::Reload { expected, actual } => IdleStageView::Reload {
                expected: expected.deep_view(),
                actual: actual.deep_view(),
            },
        }
    }
}

/// A report that is being acted on.
#[derive(Debug, PartialEq, Eq)]
pub struct IdleRun {
    request: ReportIdleRequest,
    target: MaterializationTarget,
    activation_timeout: Duration,
    stage: IdleStage,
}

/// What an [`IdleRun`] holds.
#[verifier::ext_equal]
pub struct IdleRunView {
    pub request: ReportIdleRequestView,
    pub target: MaterializationTargetView,
    pub activation_timeout: Duration,
    pub stage: IdleStageView,
}

impl View for IdleRun {
    type V = IdleRunView;

    closed spec fn view(&self) -> IdleRunView {
        IdleRunView {
            request: self.request.deep_view(),
            target: self.target.deep_view(),
            activation_timeout: self.activation_timeout,
            stage: self.stage.deep_view(),
        }
    }
}

/// What a report has come to: something is to be asked, or it is answered.
#[derive(Debug, PartialEq, Eq)]
pub enum IdleProgress {
    Ask(IdleRun),
    Done(Result<ReportIdleResult, ReportIdleError>),
}

/// What an [`IdleProgress`] holds.
#[verifier::ext_equal]
pub enum IdleProgressView {
    Ask(IdleRunView),
    Done(Result<ReportIdleResultView, ReportIdleErrorView>),
}

impl View for IdleProgress {
    type V = IdleProgressView;

    open spec fn view(&self) -> IdleProgressView {
        match *self {
            IdleProgress::Ask(run) => IdleProgressView::Ask(run@),
            IdleProgress::Done(result) => IdleProgressView::Done(outcome::of(result)),
        }
    }
}

/// What a report comes to at first: one on requests that go on is refused, and
/// nothing is asked for it.
pub open spec fn started(
    request: ReportIdleRequestView,
    target: MaterializationTargetView,
    activation_timeout: Duration,
) -> IdleProgressView {
    if request.active_count > 0 {
        IdleProgressView::Done(
            Err(
                ReportIdleErrorView::ActiveRequestsPresent { active_count: request.active_count },
            ),
        )
    } else {
        IdleProgressView::Ask(
            IdleRunView {
                request,
                target,
                activation_timeout,
                stage: IdleStageView::Instance,
            },
        )
    }
}

impl IdleRunView {
    /// What is asked next.
    pub open spec fn query(self) -> IdleQueryView {
        match self.stage {
            IdleStageView::Instance | IdleStageView::Reload { .. } => IdleQueryView::Instance(
                GetInstanceRequestView { instance_id: self.request.instance_id },
            ),
            IdleStageView::Class { current } => IdleQueryView::Class(
                LoadWorkloadClassVersionRequestView { reference: current.workload_class },
            ),
            IdleStageView::Policy { current } => IdleQueryView::Class(
                LoadWorkloadClassVersionRequestView { reference: current.workload_class },
            ),
            IdleStageView::Materialization { current, class } => IdleQueryView::Materialization(
                LoadActiveMaterializationRequestView {
                    instance_id: current.id,
                    target: self.target,
                },
            ),
            IdleStageView::ReadyAge { current, materialization, policy } => IdleQueryView::ReadyAge(
                materialization.id,
            ),
            IdleStageView::Member { current, materialization } => IdleQueryView::Member {
                objects: materialization.rendered_objects,
                identity: IdleMemberIdentityView {
                    instance_id: current.id,
                    instance_generation: self.request.expected_generation,
                    materialization_id: materialization.id,
                    pod_uid: self.request.pod_uid,
                },
            },
            IdleStageView::Begin { current, policy } => IdleQueryView::BeginSleep(
                super::sleep_request(
                    self.request,
                    current,
                    policy,
                    self.target,
                    self.activation_timeout,
                ),
            ),
        }
    }

    /// The report at another stage.
    pub open spec fn at(self, stage: IdleStageView) -> IdleProgressView {
        IdleProgressView::Ask(IdleRunView { stage, ..self })
    }

    /// What the report comes to by an answer. One to another question changes
    /// nothing.
    pub open spec fn after(self, answer: IdleAnswerView) -> IdleProgressView {
        match (self.stage, answer) {
            (IdleStageView::Instance, IdleAnswerView::Instance(result)) => match super::report_step(
                self.request,
                result,
            ) {
                Err(error) => IdleProgressView::Done(Err(error)),
                Ok(IdleStepView::Done(result)) => IdleProgressView::Done(Ok(result)),
                Ok(IdleStepView::Verify(current)) => match super::pod_uid_problem(self.request) {
                    Some(error) => IdleProgressView::Done(Err(error)),
                    None => self.at(IdleStageView::Class { current }),
                },
            },
            (IdleStageView::Class { current }, IdleAnswerView::Class(result)) => {
                match super::sleeping_class(result) {
                    Err(error) => IdleProgressView::Done(Err(error)),
                    Ok(class) => self.at(IdleStageView::Materialization { current, class }),
                }
            },
            (
                IdleStageView::Materialization { current, class },
                IdleAnswerView::Materialization(result),
            ) => match super::reported_materialization(self.request, current, result) {
                Err(error) => IdleProgressView::Done(Err(error)),
                Ok(materialization) => match super::policy_of(class, current) {
                    Err(error) => IdleProgressView::Done(Err(error)),
                    Ok(policy) => self.at(
                        IdleStageView::ReadyAge { current, materialization, policy },
                    ),
                },
            },
            (
                IdleStageView::ReadyAge { current, materialization, policy },
                IdleAnswerView::ReadyAge(result),
            ) => match super::age_problem(
                super::minimum_age(policy, self.activation_timeout),
                result,
            ) {
                Some(error) => IdleProgressView::Done(Err(error)),
                None => self.at(IdleStageView::Member { current, materialization }),
            },
            (
                IdleStageView::Member { current, materialization },
                IdleAnswerView::Member(result),
            ) => match result {
                Err(error) => IdleProgressView::Done(
                    Err(ReportIdleErrorView::UnsupportedSleep(error.message)),
                ),
                Ok(_) => self.at(IdleStageView::Policy { current }),
            },
            (IdleStageView::Policy { current }, IdleAnswerView::Class(result)) => {
                match super::loaded_policy(result, current) {
                    Err(error) => IdleProgressView::Done(Err(error)),
                    Ok(policy) => self.at(IdleStageView::Begin { current, policy }),
                }
            },
            (IdleStageView::Begin { current, policy }, IdleAnswerView::Begun(result)) => {
                match super::begin_step(result) {
                    Err(error) => IdleProgressView::Done(Err(error)),
                    Ok(BeginStepView::Done(result)) => IdleProgressView::Done(Ok(result)),
                    Ok(BeginStepView::Reload { expected, actual }) => self.at(
                        IdleStageView::Reload { expected, actual },
                    ),
                }
            },
            (IdleStageView::Reload { expected, actual }, IdleAnswerView::Instance(result)) => {
                IdleProgressView::Done(
                    super::reload_result(self.request, expected, actual, result),
                )
            },
            _ => IdleProgressView::Ask(self),
        }
    }
}

impl IdleRun {
    /// Takes in a report.
    pub fn start(
        request: ReportIdleRequest,
        target: MaterializationTarget,
        activation_timeout: Duration,
    ) -> (r: IdleProgress)
        ensures
            r@ == started(request.deep_view(), target.deep_view(), activation_timeout),
    {
        if let Err(error) = super::check_active_count(&request) {
            return IdleProgress::Done(Err(error));
        }
        IdleProgress::Ask(
            IdleRun { request, target, activation_timeout, stage: IdleStage::Instance },
        )
    }

    /// What is asked next.
    pub fn query(&self) -> (r: IdleQuery)
        ensures
            r.deep_view() == self@.query(),
    {
        match &self.stage {
            IdleStage::Instance | IdleStage::Reload { .. } => IdleQuery::Instance(
                GetInstanceRequest::new(self.request.instance_id.clone()),
            ),
            IdleStage::Class { current } => IdleQuery::Class(
                LoadWorkloadClassVersionRequest::new(current.workload_class.clone()),
            ),
            IdleStage::Policy { current } => IdleQuery::Class(
                LoadWorkloadClassVersionRequest::new(current.workload_class.clone()),
            ),
            IdleStage::Materialization { current, .. } => IdleQuery::Materialization(
                LoadActiveMaterializationRequest::new(current.id.clone(), self.target.clone()),
            ),
            IdleStage::ReadyAge { materialization, .. } => IdleQuery::ReadyAge(
                materialization.id.clone(),
            ),
            IdleStage::Member { current, materialization } => {
                let objects = materialization.rendered_objects.clone();
                assert(objects.deep_view() =~= materialization.rendered_objects.deep_view());
                IdleQuery::Member {
                    objects,
                    identity: super::member_identity(&self.request, current, materialization),
                }
            },
            IdleStage::Begin { current, policy } => IdleQuery::BeginSleep(
                super::begin_sleep_request(
                    &self.request,
                    current,
                    policy,
                    self.target.clone(),
                    self.activation_timeout,
                ),
            ),
        }
    }

    /// What the report comes to by an answer. One to another question changes
    /// nothing.
    pub fn step(self, answer: IdleAnswer) -> (r: IdleProgress)
        ensures
            r@ == self@.after(answer.deep_view()),
    {
        let IdleRun { request, target, activation_timeout, stage } = self;
        let stage = match (stage, answer) {
            (IdleStage::Instance, IdleAnswer::Instance(result)) => {
                match super::instance_loaded(&request, result) {
                    Err(error) => return IdleProgress::Done(Err(error)),
                    Ok(IdleStep::Done(result)) => return IdleProgress::Done(Ok(result)),
                    Ok(IdleStep::Verify(current)) => match super::check_pod_uid(&request) {
                        Err(error) => return IdleProgress::Done(Err(error)),
                        Ok(()) => IdleStage::Class { current },
                    },
                }
            },
            (IdleStage::Class { current }, IdleAnswer::Class(result)) => {
                match super::class_loaded(result) {
                    Err(error) => return IdleProgress::Done(Err(error)),
                    Ok(class) => IdleStage::Materialization { current, class },
                }
            },
            (
                IdleStage::Materialization { current, class },
                IdleAnswer::Materialization(result),
            ) => match super::materialization_loaded(&request, &current, result) {
                Err(error) => return IdleProgress::Done(Err(error)),
                Ok(materialization) => match super::resolve_sleep_policy(&class, &current) {
                    Err(error) => return IdleProgress::Done(Err(error)),
                    Ok(policy) => IdleStage::ReadyAge { current, materialization, policy },
                },
            },
            (
                IdleStage::ReadyAge { current, materialization, policy },
                IdleAnswer::ReadyAge(result),
            ) => {
                let minimum = super::minimum_ready_age(&policy, activation_timeout);
                match super::check_ready_age(minimum, result) {
                    Err(error) => return IdleProgress::Done(Err(error)),
                    Ok(()) => IdleStage::Member { current, materialization },
                }
            },
            (IdleStage::Member { current, materialization }, IdleAnswer::Member(result)) => {
                match super::member_verified(result) {
                    Err(error) => return IdleProgress::Done(Err(error)),
                    Ok(()) => IdleStage::Policy { current },
                }
            },
            (IdleStage::Policy { current }, IdleAnswer::Class(result)) => {
                match super::load_sleep_policy(result, &current) {
                    Err(error) => return IdleProgress::Done(Err(error)),
                    Ok(policy) => IdleStage::Begin { current, policy },
                }
            },
            (IdleStage::Begin { current, policy }, IdleAnswer::Begun(result)) => {
                match super::sleep_begun(result) {
                    Err(error) => return IdleProgress::Done(Err(error)),
                    Ok(BeginStep::Done(result)) => return IdleProgress::Done(Ok(result)),
                    Ok(BeginStep::Reload { expected, actual }) => IdleStage::Reload {
                        expected,
                        actual,
                    },
                }
            },
            (IdleStage::Reload { expected, actual }, IdleAnswer::Instance(result)) => {
                return IdleProgress::Done(
                    super::instance_reloaded(&request, expected, actual, result),
                );
            },
            (stage, _) => stage,
        };
        IdleProgress::Ask(IdleRun { request, target, activation_timeout, stage })
    }
}

/// What a report comes to by several answers. Once it is answered, nothing more is
/// taken in.
pub open spec fn after_all(progress: IdleProgressView, answers: Seq<IdleAnswerView>) ->
    IdleProgressView
    decreases answers.len(),
{
    match progress {
        IdleProgressView::Done(_) => progress,
        IdleProgressView::Ask(run) => if answers.len() == 0 {
            progress
        } else {
            after_all(run.after(answers[0]), answers.skip(1))
        },
    }
}

/// The answer to a report by all that the store and Kubernetes say of it: the
/// instance, its class, its materialization, how long that has been ready, whether
/// the pod is its only member, the class again for the sleep policy, whether it
/// began to sleep, and the instance again if another report was faster.
pub open spec fn report_outcome(
    request: ReportIdleRequestView,
    activation_timeout: Duration,
    instance: Result<Option<InstanceRecordView>, StoreErrorView>,
    class: Result<Option<WorkloadClassVersionView>, StoreErrorView>,
    materialization: Result<Option<MaterializationRecordView>, StoreErrorView>,
    ready_age: Result<Option<u128>, StoreErrorView>,
    verified: Result<(), KubernetesClientErrorView>,
    class_again: Result<Option<WorkloadClassVersionView>, StoreErrorView>,
    begun: Result<BeginSleepResultView, StoreErrorView>,
    instance_again: Result<Option<InstanceRecordView>, StoreErrorView>,
) -> Result<ReportIdleResultView, ReportIdleErrorView> {
    if request.active_count > 0 {
        Err(ReportIdleErrorView::ActiveRequestsPresent { active_count: request.active_count })
    } else {
        match super::report_step(request, instance) {
            Err(error) => Err(error),
            Ok(IdleStepView::Done(result)) => Ok(result),
            Ok(IdleStepView::Verify(current)) => match super::member_problem(
                request,
                current,
                class,
                materialization,
                ready_age,
                verified,
                activation_timeout,
            ) {
                Some(error) => Err(error),
                None => match super::loaded_policy(class_again, current) {
                    Err(error) => Err(error),
                    Ok(_) => match super::begin_step(begun) {
                        Err(error) => Err(error),
                        Ok(BeginStepView::Done(result)) => Ok(result),
                        Ok(BeginStepView::Reload { expected, actual }) => super::reload_result(
                            request,
                            expected,
                            actual,
                            instance_again,
                        ),
                    },
                },
            },
        }
    }
}

/// A report is answered by what the store and Kubernetes say of it, asked in this
/// order and no further than the first that decides it. In particular an instance
/// begins to sleep only after its member was verified.
pub proof fn lemma_report_is_answered(
    request: ReportIdleRequestView,
    target: MaterializationTargetView,
    activation_timeout: Duration,
    instance: Result<Option<InstanceRecordView>, StoreErrorView>,
    class: Result<Option<WorkloadClassVersionView>, StoreErrorView>,
    materialization: Result<Option<MaterializationRecordView>, StoreErrorView>,
    ready_age: Result<Option<u128>, StoreErrorView>,
    verified: Result<(), KubernetesClientErrorView>,
    class_again: Result<Option<WorkloadClassVersionView>, StoreErrorView>,
    begun: Result<BeginSleepResultView, StoreErrorView>,
    instance_again: Result<Option<InstanceRecordView>, StoreErrorView>,
)
    ensures
        after_all(
            started(request, target, activation_timeout),
            seq![
                IdleAnswerView::Instance(instance),
                IdleAnswerView::Class(class),
                IdleAnswerView::Materialization(materialization),
                IdleAnswerView::ReadyAge(ready_age),
                IdleAnswerView::Member(verified),
                IdleAnswerView::Class(class_again),
                IdleAnswerView::Begun(begun),
                IdleAnswerView::Instance(instance_again),
            ],
        ) == IdleProgressView::Done(
            report_outcome(
                request,
                activation_timeout,
                instance,
                class,
                materialization,
                ready_age,
                verified,
                class_again,
                begun,
                instance_again,
            ),
        ),
{
    let answers = seq![
        IdleAnswerView::Instance(instance),
        IdleAnswerView::Class(class),
        IdleAnswerView::Materialization(materialization),
        IdleAnswerView::ReadyAge(ready_age),
        IdleAnswerView::Member(verified),
        IdleAnswerView::Class(class_again),
        IdleAnswerView::Begun(begun),
        IdleAnswerView::Instance(instance_again),
    ];
    reveal_with_fuel(after_all, 9);
    let rest = answers.skip(1);
    assert(rest[0] == answers[1]);
    assert(rest.skip(1)[0] == answers[2]);
    assert(rest.skip(1).skip(1)[0] == answers[3]);
    assert(rest.skip(1).skip(1).skip(1)[0] == answers[4]);
    assert(rest.skip(1).skip(1).skip(1).skip(1)[0] == answers[5]);
    assert(rest.skip(1).skip(1).skip(1).skip(1).skip(1)[0] == answers[6]);
    assert(rest.skip(1).skip(1).skip(1).skip(1).skip(1).skip(1)[0] == answers[7]);
}

/// Until its member was verified, nothing asks for an instance to sleep: a report at
/// which the store is asked to begin has a class, a materialization, an age and a
/// member without a problem.
pub proof fn lemma_sleep_is_asked_for_after_verification(
    request: ReportIdleRequestView,
    target: MaterializationTargetView,
    activation_timeout: Duration,
    current: InstanceRecordView,
    class: Result<Option<WorkloadClassVersionView>, StoreErrorView>,
    materialization: Result<Option<MaterializationRecordView>, StoreErrorView>,
    ready_age: Result<Option<u128>, StoreErrorView>,
    verified: Result<(), KubernetesClientErrorView>,
)
    requires
        request.active_count == 0,
        super::report_step(request, Ok(Some(current))) matches Ok(IdleStepView::Verify(_)),
    ensures
        after_all(
            started(request, target, activation_timeout),
            seq![
                IdleAnswerView::Instance(Ok(Some(current))),
                IdleAnswerView::Class(class),
                IdleAnswerView::Materialization(materialization),
                IdleAnswerView::ReadyAge(ready_age),
                IdleAnswerView::Member(verified),
            ],
        ) == match super::member_problem(
            request,
            current,
            class,
            materialization,
            ready_age,
            verified,
            activation_timeout,
        ) {
            Some(error) => IdleProgressView::Done(Err(error)),
            None => IdleProgressView::Ask(
                IdleRunView {
                    request,
                    target,
                    activation_timeout,
                    stage: IdleStageView::Policy { current },
                },
            ),
        },
{
    let answers = seq![
        IdleAnswerView::Instance(Ok(Some(current))),
        IdleAnswerView::Class(class),
        IdleAnswerView::Materialization(materialization),
        IdleAnswerView::ReadyAge(ready_age),
        IdleAnswerView::Member(verified),
    ];
    reveal_with_fuel(after_all, 6);
    let rest = answers.skip(1);
    assert(rest[0] == answers[1]);
    assert(rest.skip(1)[0] == answers[2]);
    assert(rest.skip(1).skip(1)[0] == answers[3]);
    assert(rest.skip(1).skip(1).skip(1)[0] == answers[4]);
    assert(rest.skip(1).skip(1).skip(1).skip(1).len() == 0);
}

} // verus!

//! What sidecars report.
use std::time::Duration;

use vstd::prelude::*;

use super::pb;
use super::status;
use super::status::ApiStatus;
use super::status::ApiStatusView;
use super::status::StatusCode;
use crate::idle::ReportIdleError;
use crate::idle::ReportIdleErrorView;
use crate::idle::ReportIdleRequest;
use crate::idle::ReportIdleRequestView;
use crate::idle::ReportIdleResult;
use crate::idle::ReportIdleResultView;
use crate::idle::ReportIdleUnavailableReason;
use crate::ids;
use crate::ids::Generation;
use crate::ids::InstanceId;
use crate::outcome;
use crate::store;
use crate::text;

verus! {

pub const SIDECAR_SERVICE_NAME: &'static str = "sleepypods.controlplane.v1.SidecarControlPlane";

/// What a report says.
pub open spec fn report_of(request: pb::SidecarReportIdleRequestView) -> Result<
    ReportIdleRequestView,
    ApiStatusView,
> {
    if text::is_blank(request.instance_id) {
        Err(status::invalid_argument(ids::empty_string_message("InstanceId"@)))
    } else {
        Ok(
            ReportIdleRequestView {
                instance_id: request.instance_id,
                expected_generation: request.expected_generation as nat,
                active_count: request.active_count,
                pod_uid: request.pod_uid,
            },
        )
    }
}

/// What a report says.
pub fn report_idle_request_from_proto(request: pb::SidecarReportIdleRequest) -> (r: Result<
    ReportIdleRequest,
    ApiStatus,
>)
    ensures
        outcome::of(r) == report_of(request.deep_view()),
{
    let instance_id = match InstanceId::new(request.instance_id.as_str()) {
        Ok(instance_id) => instance_id,
        Err(error) => return Err(ApiStatus::invalid_argument(error.to_string().as_str())),
    };
    let mut report = ReportIdleRequest::new(
        instance_id,
        Generation::new(request.expected_generation),
        request.active_count,
    );
    report.pod_uid = request.pod_uid;
    Ok(report)
}

/// The message of why an instance cannot go to sleep.
pub open spec fn reason_message(
    reason: ReportIdleUnavailableReason,
) -> pb::SidecarReportIdleUnavailableReason {
    match reason {
        ReportIdleUnavailableReason::Cold => pb::SidecarReportIdleUnavailableReason::Cold,
        ReportIdleUnavailableReason::Waking => pb::SidecarReportIdleUnavailableReason::Waking,
        ReportIdleUnavailableReason::Draining => pb::SidecarReportIdleUnavailableReason::Draining,
        ReportIdleUnavailableReason::Failed => pb::SidecarReportIdleUnavailableReason::Failed,
        ReportIdleUnavailableReason::Deleting => pb::SidecarReportIdleUnavailableReason::Deleting,
        ReportIdleUnavailableReason::Deleted => pb::SidecarReportIdleUnavailableReason::Deleted,
    }
}

fn report_idle_unavailable_reason_to_proto(reason: ReportIdleUnavailableReason) -> (r:
    pb::SidecarReportIdleUnavailableReason)
    ensures
        r == reason_message(reason),
{
    match reason {
        ReportIdleUnavailableReason::Cold => pb::SidecarReportIdleUnavailableReason::Cold,
        ReportIdleUnavailableReason::Waking => pb::SidecarReportIdleUnavailableReason::Waking,
        ReportIdleUnavailableReason::Draining => pb::SidecarReportIdleUnavailableReason::Draining,
        ReportIdleUnavailableReason::Failed => pb::SidecarReportIdleUnavailableReason::Failed,
        ReportIdleUnavailableReason::Deleting => pb::SidecarReportIdleUnavailableReason::Deleting,
        ReportIdleUnavailableReason::Deleted => pb::SidecarReportIdleUnavailableReason::Deleted,
    }
}

/// The answer that has an outcome.
pub open spec fn answered(
    outcome: pb::SidecarReportIdleOutcomeView,
) -> pb::SidecarReportIdleResponseView {
    pb::SidecarReportIdleResponseView { outcome: Some(outcome) }
}

/// The answer to a report that was taken.
pub open spec fn result_message(result: ReportIdleResultView) -> pb::SidecarReportIdleResponseView {
    answered(
        match result {
            ReportIdleResultView::Accepted { instance } => {
                pb::SidecarReportIdleOutcomeView::Accepted(
                    pb::SidecarReportIdleAcceptedView {
                        instance_id: instance.id,
                        instance_generation: instance.generation as u64,
                    },
                )
            },
            ReportIdleResultView::AlreadyDraining { instance } => {
                pb::SidecarReportIdleOutcomeView::AlreadyDraining(
                    pb::SidecarReportIdleAlreadyDrainingView {
                        instance_id: instance.id,
                        instance_generation: instance.generation as u64,
                    },
                )
            },
            ReportIdleResultView::Unavailable { instance, reason } => {
                pb::SidecarReportIdleOutcomeView::Unavailable(
                    pb::SidecarReportIdleUnavailableView {
                        instance_id: instance.id,
                        instance_generation: instance.generation as u64,
                        reason: reason_message(reason),
                    },
                )
            },
        },
    )
}

/// The answer to a report that was taken.
pub fn report_idle_result_to_proto(result: &ReportIdleResult) -> (r: pb::SidecarReportIdleResponse)
    ensures
        r.deep_view() == result_message(result.deep_view()),
{
    let outcome = match result {
        ReportIdleResult::Accepted { instance } => pb::SidecarReportIdleOutcome::Accepted(
            pb::SidecarReportIdleAccepted {
                instance_id: instance.id.to_string(),
                instance_generation: instance.generation.get(),
            },
        ),
        ReportIdleResult::AlreadyDraining { instance } => {
            pb::SidecarReportIdleOutcome::AlreadyDraining(
                pb::SidecarReportIdleAlreadyDraining {
                    instance_id: instance.id.to_string(),
                    instance_generation: instance.generation.get(),
                },
            )
        },
        ReportIdleResult::Unavailable { instance, reason } => {
            pb::SidecarReportIdleOutcome::Unavailable(
                pb::SidecarReportIdleUnavailable {
                    instance_id: instance.id.to_string(),
                    instance_generation: instance.generation.get(),
                    reason: report_idle_unavailable_reason_to_proto(*reason),
                },
            )
        },
    };
    pb::SidecarReportIdleResponse { outcome: Some(outcome) }
}

/// The answer to a report that was refused.
pub open spec fn error_response(
    request_instance_id: Seq<char>,
    error: ReportIdleErrorView,
    activation_timeout: Duration,
) -> Result<pb::SidecarReportIdleResponseView, ApiStatusView> {
    match error {
        ReportIdleErrorView::ActiveRequestsPresent { active_count } => Err(
            status::failure(
                StatusCode::FailedPrecondition,
                "idle report requires active_count 0, found "@ + text::decimal(active_count as nat),
            ),
        ),
        ReportIdleErrorView::NotFound => Err(
            status::failure(StatusCode::NotFound, "instance not found"@),
        ),
        ReportIdleErrorView::WorkloadClassNotFound => Err(
            status::failure(StatusCode::NotFound, "workload class version not found"@),
        ),
        ReportIdleErrorView::UnsupportedSleep(message) => Err(
            status::failure(StatusCode::FailedPrecondition, message),
        ),
        ReportIdleErrorView::SleepPolicy(message) => Err(
            status::failure(
                StatusCode::FailedPrecondition,
                "sleep policy invalid: "@ + message,
            ),
        ),
        ReportIdleErrorView::GenerationConflict { expected, actual } => Ok(
            answered(
                pb::SidecarReportIdleOutcomeView::GenerationConflict(
                    pb::SidecarReportIdleGenerationConflictView {
                        instance_id: request_instance_id,
                        expected_generation: expected as u64,
                        actual_generation: actual as u64,
                    },
                ),
            ),
        ),
        ReportIdleErrorView::Store(error) => Err(store::status_of(error, activation_timeout)),
    }
}

/// The answer to a report that was refused.
pub fn report_idle_error_response(
    request_instance_id: &str,
    error: ReportIdleError,
    activation_timeout: Duration,
) -> (r: Result<pb::SidecarReportIdleResponse, ApiStatus>)
    ensures
        outcome::of(r) == error_response(
            request_instance_id@,
            error.deep_view(),
            activation_timeout,
        ),
{
    match error {
        ReportIdleError::ActiveRequestsPresent { active_count } => {
            let message = text::join2(
                "idle report requires active_count 0, found ",
                text::number(active_count).as_str(),
            );
            Err(ApiStatus::new(StatusCode::FailedPrecondition, message.as_str()))
        },
        ReportIdleError::NotFound => Err(
            ApiStatus::new(StatusCode::NotFound, "instance not found"),
        ),
        ReportIdleError::WorkloadClassNotFound => Err(
            ApiStatus::new(StatusCode::NotFound, "workload class version not found"),
        ),
        ReportIdleError::UnsupportedSleep(message) => Err(
            ApiStatus::new(StatusCode::FailedPrecondition, message.as_str()),
        ),
        ReportIdleError::SleepPolicy(message) => {
            let message = text::join2("sleep policy invalid: ", message.as_str());
            Err(ApiStatus::new(StatusCode::FailedPrecondition, message.as_str()))
        },
        ReportIdleError::GenerationConflict { expected, actual } => Ok(
            pb::SidecarReportIdleResponse {
                outcome: Some(
                    pb::SidecarReportIdleOutcome::GenerationConflict(
                        pb::SidecarReportIdleGenerationConflict {
                            instance_id: request_instance_id.to_owned(),
                            expected_generation: expected.get(),
                            actual_generation: actual.get(),
                        },
                    ),
                ),
            },
        ),
        ReportIdleError::Store(error) => Err(
            store::store_error_to_status(error, activation_timeout),
        ),
    }
}

/// Whether a report that was taken changes the routes of the instance: one that
/// puts it to sleep does.
pub fn changes_routes(result: &ReportIdleResult) -> (r: bool)
    ensures
        r == (result.deep_view() matches ReportIdleResultView::Accepted { .. }),
{
    match result {
        ReportIdleResult::Accepted { .. } => true,
        _ => false,
    }
}

} // verus!

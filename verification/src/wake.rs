//! Waking instances: what is asked, and what becomes of it.
use vstd::prelude::*;

use crate::ids::BackendGeneration;
use crate::ids::Generation;
use crate::ids::InstanceId;
use crate::instance::InstanceRecord;
use crate::instance::InstanceRecordView;
use crate::manifest::ManifestRenderError;
use crate::manifest::ManifestRenderErrorView;
use crate::materialization::CompleteWakeResult;
use crate::materialization::CompleteWakeResultView;
use crate::materialization::MaterializationRecord;
use crate::materialization::MaterializationRecordView;
use crate::materialization::MaterializationTarget;
use crate::materialization::MaterializationTargetView;
use crate::materializer::MaterializerError;
use crate::materializer::MaterializerErrorView;
use crate::sleep_policy::SleepPolicyError;
use crate::sleep_policy::SleepPolicyErrorView;
use crate::store::StoreError;
use crate::store::StoreErrorView;

verus! {

/// Asks to wake an instance.
#[derive(Debug, PartialEq, Eq)]
pub struct WakeInstanceRequest {
    pub instance_id: InstanceId,
    pub expected_generation: Generation,
    pub target: MaterializationTarget,
    pub backend_generation: Option<BackendGeneration>,
}

/// What a [`WakeInstanceRequest`] holds.
#[verifier::ext_equal]
pub struct WakeInstanceRequestView {
    pub instance_id: Seq<char>,
    pub expected_generation: nat,
    pub target: MaterializationTargetView,
    pub backend_generation: Option<nat>,
}

impl DeepView for WakeInstanceRequest {
    type V = WakeInstanceRequestView;

    open spec fn deep_view(&self) -> WakeInstanceRequestView {
        WakeInstanceRequestView {
            instance_id: self.instance_id.deep_view(),
            expected_generation: self.expected_generation.deep_view(),
            target: self.target.deep_view(),
            backend_generation: self.backend_generation.deep_view(),
        }
    }
}

impl Clone for WakeInstanceRequest {
    fn clone(&self) -> (r: Self)
        ensures
            r.deep_view() == self.deep_view(),
    {
        WakeInstanceRequest {
            instance_id: self.instance_id.clone(),
            expected_generation: self.expected_generation,
            target: self.target.clone(),
            backend_generation: self.backend_generation,
        }
    }
}

impl WakeInstanceRequest {
    pub fn new(
        instance_id: InstanceId,
        expected_generation: Generation,
        target: MaterializationTarget,
    ) -> (r: Self)
        ensures
            r == (WakeInstanceRequest {
                instance_id,
                expected_generation,
                target,
                backend_generation: None,
            }),
    {
        WakeInstanceRequest { instance_id, expected_generation, target, backend_generation: None }
    }

    pub fn with_backend_generation(self, backend_generation: BackendGeneration) -> (r: Self)
        ensures
            r == (WakeInstanceRequest { backend_generation: Some(backend_generation), ..self }),
    {
        WakeInstanceRequest {
            instance_id: self.instance_id,
            expected_generation: self.expected_generation,
            target: self.target,
            backend_generation: Some(backend_generation),
        }
    }
}

/// What became of waking an instance.
#[derive(Debug, PartialEq, Eq)]
pub enum WakeInstanceResult {
    Completed { result: CompleteWakeResult },
    AlreadyRunning { instance: InstanceRecord, materialization: MaterializationRecord },
    AlreadyWaking { instance: InstanceRecord },
}

/// What a [`WakeInstanceResult`] holds.
#[verifier::ext_equal]
pub enum WakeInstanceResultView {
    Completed { result: CompleteWakeResultView },
    AlreadyRunning { instance: InstanceRecordView, materialization: MaterializationRecordView },
    AlreadyWaking { instance: InstanceRecordView },
}

impl DeepView for WakeInstanceResult {
    type V = WakeInstanceResultView;

    open spec fn deep_view(&self) -> WakeInstanceResultView {
        match self {
            WakeInstanceResult::Completed { result } => WakeInstanceResultView::Completed {
                result: result.deep_view(),
            },
            WakeInstanceResult::AlreadyRunning {
                instance,
                materialization,
            } => WakeInstanceResultView::AlreadyRunning {
                instance: instance.deep_view(),
                materialization: materialization.deep_view(),
            },
            WakeInstanceResult::AlreadyWaking {
                instance,
            } => WakeInstanceResultView::AlreadyWaking {
                instance: instance.deep_view(),
            },
        }
    }
}

/// Why an instance cannot be woken.
#[derive(Clone, Copy, Debug, PartialEq, Eq, Structural)]
pub enum WakeUnavailableReason {
    Deleting,
    Deleted,
}

impl DeepView for WakeUnavailableReason {
    type V = WakeUnavailableReason;

    open spec fn deep_view(&self) -> WakeUnavailableReason {
        *self
    }
}

/// Why an instance was not woken.
#[allow(inconsistent_fields)]
#[derive(Debug, PartialEq, Eq)]
pub enum WakeInstanceError {
    NotFound,
    GenerationConflict { expected: Generation, actual: Generation },
    Unavailable { instance: InstanceRecord, reason: WakeUnavailableReason },
    ReadyMaterializationNotFound { instance: InstanceRecord },
    WorkloadClassNotFound { instance: InstanceRecord },
    Render { instance: InstanceRecord, source: ManifestRenderError },
    SleepPolicy { instance: InstanceRecord, source: SleepPolicyError },
    Materializer { instance: InstanceRecord, source: MaterializerError },
    Store(StoreError),
}

/// What a [`WakeInstanceError`] holds.
#[allow(inconsistent_fields)]
#[verifier::ext_equal]
pub enum WakeInstanceErrorView {
    NotFound,
    GenerationConflict { expected: nat, actual: nat },
    Unavailable { instance: InstanceRecordView, reason: WakeUnavailableReason },
    ReadyMaterializationNotFound { instance: InstanceRecordView },
    WorkloadClassNotFound { instance: InstanceRecordView },
    Render { instance: InstanceRecordView, source: ManifestRenderErrorView },
    SleepPolicy { instance: InstanceRecordView, source: SleepPolicyErrorView },
    Materializer { instance: InstanceRecordView, source: MaterializerErrorView },
    Store(StoreErrorView),
}

impl DeepView for WakeInstanceError {
    type V = WakeInstanceErrorView;

    open spec fn deep_view(&self) -> WakeInstanceErrorView {
        match self {
            WakeInstanceError::NotFound => WakeInstanceErrorView::NotFound,
            WakeInstanceError::GenerationConflict {
                expected,
                actual,
            } => WakeInstanceErrorView::GenerationConflict {
                expected: expected.deep_view(),
                actual: actual.deep_view(),
            },
            WakeInstanceError::Unavailable {
                instance,
                reason,
            } => WakeInstanceErrorView::Unavailable {
                instance: instance.deep_view(),
                reason: reason.deep_view(),
            },
            WakeInstanceError::ReadyMaterializationNotFound {
                instance,
            } => WakeInstanceErrorView::ReadyMaterializationNotFound {
                instance: instance.deep_view(),
            },
            WakeInstanceError::WorkloadClassNotFound {
                instance,
            } => WakeInstanceErrorView::WorkloadClassNotFound {
                instance: instance.deep_view(),
            },
            WakeInstanceError::Render { instance, source } => WakeInstanceErrorView::Render {
                instance: instance.deep_view(),
                source: source.deep_view(),
            },
            WakeInstanceError::SleepPolicy {
                instance,
                source,
            } => WakeInstanceErrorView::SleepPolicy {
                instance: instance.deep_view(),
                source: source.deep_view(),
            },
            WakeInstanceError::Materializer {
                instance,
                source,
            } => WakeInstanceErrorView::Materializer {
                instance: instance.deep_view(),
                source: source.deep_view(),
            },
            WakeInstanceError::Store(value) => WakeInstanceErrorView::Store(value.deep_view()),
        }
    }
}
} // verus!

//! How a store reports that it could not do what was asked.
use std::time::Duration;

use vstd::prelude::*;

use crate::api::status;
use crate::api::status::ApiStatus;
use crate::api::status::ApiStatusView;
use crate::api::status::StatusCode;
use crate::ids::Generation;
use crate::text;
use crate::time;

verus! {

/// Why a store refused or failed.
#[derive(Debug, PartialEq, Eq)]
pub enum StoreError {
    SleepDeferred { retry_after: Duration },
    InvalidArgument { message: String },
    NotFound { resource: &'static str },
    AlreadyExists { resource: &'static str },
    GenerationConflict { expected: Generation, actual: Generation },
    ExclusivityConflict {
        cluster_id: String,
        namespace: String,
        key_name: String,
        owner_instance_id: Option<String>,
        owner_generation: Option<Generation>,
    },
    LeaseConflict { message: String },
    IdempotencyResourceDeleted { resource: &'static str },
    IdempotencyConflict,
    Unavailable { message: String },
    Internal { message: String },
}

/// What a [`StoreError`] holds.
#[verifier::ext_equal]
pub enum StoreErrorView {
    SleepDeferred { retry_after: u128 },
    InvalidArgument { message: Seq<char> },
    NotFound { resource: Seq<char> },
    AlreadyExists { resource: Seq<char> },
    GenerationConflict { expected: nat, actual: nat },
    ExclusivityConflict {
        cluster_id: Seq<char>,
        namespace: Seq<char>,
        key_name: Seq<char>,
        owner_instance_id: Option<Seq<char>>,
        owner_generation: Option<nat>,
    },
    LeaseConflict { message: Seq<char> },
    IdempotencyResourceDeleted { resource: Seq<char> },
    IdempotencyConflict,
    Unavailable { message: Seq<char> },
    Internal { message: Seq<char> },
}

impl DeepView for StoreError {
    type V = StoreErrorView;

    open spec fn deep_view(&self) -> StoreErrorView {
        match self {
            StoreError::SleepDeferred { retry_after } => StoreErrorView::SleepDeferred {
                retry_after: time::nanos(*retry_after),
            },
            StoreError::InvalidArgument { message } => StoreErrorView::InvalidArgument {
                message: message.deep_view(),
            },
            StoreError::NotFound { resource } => StoreErrorView::NotFound {
                resource: resource.deep_view(),
            },
            StoreError::AlreadyExists { resource } => StoreErrorView::AlreadyExists {
                resource: resource.deep_view(),
            },
            StoreError::GenerationConflict {
                expected,
                actual,
            } => StoreErrorView::GenerationConflict {
                expected: expected.deep_view(),
                actual: actual.deep_view(),
            },
            StoreError::ExclusivityConflict {
                cluster_id,
                namespace,
                key_name,
                owner_instance_id,
                owner_generation,
            } => StoreErrorView::ExclusivityConflict {
                cluster_id: cluster_id.deep_view(),
                namespace: namespace.deep_view(),
                key_name: key_name.deep_view(),
                owner_instance_id: owner_instance_id.deep_view(),
                owner_generation: owner_generation.deep_view(),
            },
            StoreError::LeaseConflict { message } => StoreErrorView::LeaseConflict {
                message: message.deep_view(),
            },
            StoreError::IdempotencyResourceDeleted {
                resource,
            } => StoreErrorView::IdempotencyResourceDeleted {
                resource: resource.deep_view(),
            },
            StoreError::IdempotencyConflict => StoreErrorView::IdempotencyConflict,
            StoreError::Unavailable { message } => StoreErrorView::Unavailable {
                message: message.deep_view(),
            },
            StoreError::Internal { message } => StoreErrorView::Internal {
                message: message.deep_view(),
            },
        }
    }
}

impl Clone for StoreError {
    fn clone(&self) -> (r: Self)
        ensures
            r.deep_view() == self.deep_view(),
    {
        match self {
            StoreError::SleepDeferred { retry_after } => StoreError::SleepDeferred {
                retry_after: *retry_after,
            },
            StoreError::InvalidArgument { message } => StoreError::InvalidArgument {
                message: message.clone(),
            },
            StoreError::NotFound { resource } => StoreError::NotFound { resource: *resource },
            StoreError::AlreadyExists { resource } => StoreError::AlreadyExists {
                resource: *resource,
            },
            StoreError::GenerationConflict { expected, actual } => StoreError::GenerationConflict {
                expected: *expected,
                actual: *actual,
            },
            StoreError::ExclusivityConflict {
                cluster_id,
                namespace,
                key_name,
                owner_instance_id,
                owner_generation,
            } => {
                let owner_instance_id_copy = owner_instance_id.clone();
                assert(owner_instance_id_copy.deep_view() =~= owner_instance_id.deep_view());
                StoreError::ExclusivityConflict {
                    cluster_id: cluster_id.clone(),
                    namespace: namespace.clone(),
                    key_name: key_name.clone(),
                    owner_instance_id: owner_instance_id_copy,
                    owner_generation: *owner_generation,
                }
            },
            StoreError::LeaseConflict { message } => StoreError::LeaseConflict {
                message: message.clone(),
            },
            StoreError::IdempotencyResourceDeleted {
                resource,
            } => StoreError::IdempotencyResourceDeleted {
                resource: *resource,
            },
            StoreError::IdempotencyConflict => StoreError::IdempotencyConflict,
            StoreError::Unavailable { message } => StoreError::Unavailable {
                message: message.clone(),
            },
            StoreError::Internal { message } => StoreError::Internal { message: message.clone() },
        }
    }
}

impl StoreError {
    pub fn invalid_argument(message: &str) -> (r: Self)
        ensures
            r.deep_view() == (StoreErrorView::InvalidArgument { message: message@ }),
    {
        StoreError::InvalidArgument { message: message.to_owned() }
    }

    pub fn unavailable(message: &str) -> (r: Self)
        ensures
            r.deep_view() == (StoreErrorView::Unavailable { message: message@ }),
    {
        StoreError::Unavailable { message: message.to_owned() }
    }

    pub fn internal(message: &str) -> (r: Self)
        ensures
            r.deep_view() == (StoreErrorView::Internal { message: message@ }),
    {
        StoreError::Internal { message: message.to_owned() }
    }
}

/// The smaller of two numbers.
pub open spec fn smaller(a: nat, b: nat) -> nat {
    if a <= b {
        a
    } else {
        b
    }
}

/// What is said of an exclusivity key that another instance holds.
pub open spec fn exclusivity_message(
    cluster_id: Seq<char>,
    namespace: Seq<char>,
    key_name: Seq<char>,
    owner_instance_id: Option<Seq<char>>,
    owner_generation: Option<nat>,
) -> Seq<char> {
    let base = "exclusivity key "@ + text::debug_text(key_name) + " is already held for target "@
        + cluster_id + "/"@ + namespace;
    let with_owner = match owner_instance_id {
        Some(owner) => base + " by instance "@ + owner,
        None => base,
    };
    match owner_generation {
        Some(generation) => with_owner + " generation "@ + text::decimal(generation),
        None => with_owner,
    }
}

/// How a store's error is answered. A caller whose sleep is deferred is told how
/// long to wait, at most as long as an activation may take.
pub open spec fn status_of(error: StoreErrorView, activation_timeout: Duration) -> ApiStatusView {
    match error {
        StoreErrorView::SleepDeferred { retry_after } => ApiStatusView {
            code: StatusCode::FailedPrecondition,
            message: "automatic sleep deferred for "@ + text::decimal(
                (retry_after / 1_000_000) as nat,
            ) + " ms after activation"@,
            retry_after_millis: Some(
                text::decimal(
                    smaller((retry_after / 1_000_000) as nat, time::millis(activation_timeout)),
                ),
            ),
        },
        StoreErrorView::InvalidArgument { message } => status::invalid_argument(message),
        StoreErrorView::NotFound { resource } => status::failure(
            StatusCode::NotFound,
            resource + " not found"@,
        ),
        StoreErrorView::AlreadyExists { resource } => status::failure(
            StatusCode::AlreadyExists,
            resource + " already exists"@,
        ),
        StoreErrorView::GenerationConflict { expected, actual } => status::failure(
            StatusCode::FailedPrecondition,
            "generation conflict: expected generation "@ + text::decimal(expected) + ", found "@
                + text::decimal(actual),
        ),
        StoreErrorView::ExclusivityConflict {
            cluster_id,
            namespace,
            key_name,
            owner_instance_id,
            owner_generation,
        } => status::failure(
            StatusCode::FailedPrecondition,
            exclusivity_message(
                cluster_id,
                namespace,
                key_name,
                owner_instance_id,
                owner_generation,
            ),
        ),
        StoreErrorView::LeaseConflict { message } => status::failure(StatusCode::Aborted, message),
        StoreErrorView::IdempotencyResourceDeleted { resource } => status::failure(
            StatusCode::FailedPrecondition,
            "idempotent replay refers to a deleted "@ + resource,
        ),
        StoreErrorView::IdempotencyConflict => status::failure(
            StatusCode::AlreadyExists,
            "idempotency key was already used for a different request"@,
        ),
        StoreErrorView::Unavailable { message } => status::failure(
            StatusCode::Unavailable,
            message,
        ),
        StoreErrorView::Internal { message } => status::failure(StatusCode::Internal, message),
    }
}

/// How a store's error is answered.
pub fn store_error_to_status(error: StoreError, activation_timeout: Duration) -> (r: ApiStatus)
    ensures
        r.deep_view() == status_of(error.deep_view(), activation_timeout),
{
    match error {
        StoreError::SleepDeferred { retry_after } => {
            let wait: u128 = time::whole_millis(retry_after);
            let bound: u128 = time::whole_millis(activation_timeout);
            let shown = text::wide_number(wait);
            let message = text::join3(
                "automatic sleep deferred for ",
                shown.as_str(),
                " ms after activation",
            );
            let least: u128 = if wait <= bound {
                wait
            } else {
                bound
            };
            ApiStatus {
                code: StatusCode::FailedPrecondition,
                message,
                retry_after_millis: Some(text::wide_number(least)),
            }
        },
        StoreError::InvalidArgument { message } => ApiStatus::invalid_argument(message.as_str()),
        StoreError::NotFound { resource } => {
            let message = text::join2(resource, " not found");
            ApiStatus::new(StatusCode::NotFound, message.as_str())
        },
        StoreError::AlreadyExists { resource } => {
            let message = text::join2(resource, " already exists");
            ApiStatus::new(StatusCode::AlreadyExists, message.as_str())
        },
        StoreError::GenerationConflict { expected, actual } => {
            let expected = expected.to_string();
            let actual = actual.to_string();
            let message = text::join4(
                "generation conflict: expected generation ",
                expected.as_str(),
                ", found ",
                actual.as_str(),
            );
            ApiStatus::new(StatusCode::FailedPrecondition, message.as_str())
        },
        StoreError::ExclusivityConflict {
            cluster_id,
            namespace,
            key_name,
            owner_instance_id,
            owner_generation,
        } => {
            let shown = text::quoted(key_name.as_str());
            let message = text::join5(
                "exclusivity key ",
                shown.as_str(),
                " is already held for target ",
                cluster_id.as_str(),
                "/",
            );
            let message = text::appended(message, namespace.as_str());
            let message = match &owner_instance_id {
                Some(owner) => {
                    let message = text::appended(message, " by instance ");
                    text::appended(message, owner.as_str())
                },
                None => message,
            };
            let message = match owner_generation {
                Some(generation) => {
                    let message = text::appended(message, " generation ");
                    text::appended(message, generation.to_string().as_str())
                },
                None => message,
            };
            ApiStatus::new(StatusCode::FailedPrecondition, message.as_str())
        },
        StoreError::LeaseConflict { message } => ApiStatus::new(
            StatusCode::Aborted,
            message.as_str(),
        ),
        StoreError::IdempotencyResourceDeleted { resource } => {
            let message = text::join2("idempotent replay refers to a deleted ", resource);
            ApiStatus::new(StatusCode::FailedPrecondition, message.as_str())
        },
        StoreError::IdempotencyConflict => ApiStatus::new(
            StatusCode::AlreadyExists,
            "idempotency key was already used for a different request",
        ),
        StoreError::Unavailable { message } => ApiStatus::new(
            StatusCode::Unavailable,
            message.as_str(),
        ),
        StoreError::Internal { message } => ApiStatus::new(
            StatusCode::Internal,
            message.as_str(),
        ),
    }
}

} // verus!

//! What proxies ask: to wake instances, and to be told of routes.
use std::time::Duration;

use vstd::prelude::*;

use super::pb;
use super::route_events::RouteBindingChange;
use super::route_events::RouteBindingChangeView;
use super::server;
use super::status;
use super::status::ApiStatus;
use super::status::ApiStatusView;
use super::status::StatusCode;
use crate::ids;
use crate::ids::BackendGeneration;
use crate::ids::Generation;
use crate::ids::InstanceId;
use crate::ids::RouteBindingId;
use crate::instance::InstanceRecord;
use crate::instance::InstanceRecordView;
use crate::manifest;
use crate::materialization::LoadReadyMaterializationRequest;
use crate::materialization::LoadReadyMaterializationRequestView;
use crate::materialization::MaterializationRecord;
use crate::materialization::MaterializationRecordView;
use crate::materialization::MaterializationTarget;
use crate::materialization::MaterializationTargetView;
use crate::materializer;
use crate::outcome;
use crate::route;
use crate::route::CachePolicy;
use crate::route::ProtocolRoute;
use crate::route::RouteEntry;
use crate::route::RouteEntryView;
use crate::route::RouteIdentity;
use crate::route::RouteIdentityView;
use crate::route::RouteResolution;
use crate::route::RouteResolutionView;
use crate::sleep_policy;
use crate::store;
use crate::store::StoreError;
use crate::store::StoreErrorView;
use crate::text;
use crate::time;
use crate::wake::WakeInstanceError;
use crate::wake::WakeInstanceErrorView;
use crate::wake::WakeInstanceRequest;
use crate::wake::WakeInstanceRequestView;
use crate::wake::WakeInstanceResult;
use crate::wake::WakeInstanceResultView;
use crate::wake::WakeUnavailableReason;

verus! {

pub const PROXY_SERVICE_NAME: &'static str = "sleepypods.controlplane.v1.ProxyControlPlane";

/// For how many seconds a route that was found may be kept.
pub const POSITIVE_ROUTE_CACHE_SECONDS: u64 = 10;

/// How many responses wait to be read.
pub const SUBSCRIBE_RESPONSE_BUFFER: usize = 16;

/// What a request to wake an instance asks for.
pub open spec fn wake_request_of(
    request: pb::ProxyWakeInstanceRequestView,
    target: MaterializationTargetView,
) -> Result<WakeInstanceRequestView, ApiStatusView> {
    if text::is_blank(request.instance_id) {
        Err(status::invalid_argument(ids::empty_string_message("InstanceId"@)))
    } else {
        Ok(
            WakeInstanceRequestView {
                instance_id: request.instance_id,
                expected_generation: request.expected_generation as nat,
                target,
                backend_generation: match request.backend_generation {
                    Some(generation) => Some(generation as nat),
                    None => None,
                },
            },
        )
    }
}

/// What a request to wake an instance asks for.
pub fn proxy_wake_request_from_proto(
    request: &pb::ProxyWakeInstanceRequest,
    target: MaterializationTarget,
) -> (r: Result<WakeInstanceRequest, ApiStatus>)
    ensures
        outcome::of(r) == wake_request_of(request.deep_view(), target.deep_view()),
{
    let instance_id = match InstanceId::new(request.instance_id.as_str()) {
        Ok(instance_id) => instance_id,
        Err(error) => return Err(ApiStatus::invalid_argument(error.to_string().as_str())),
    };
    let wake_request = WakeInstanceRequest::new(
        instance_id,
        Generation::new(request.expected_generation),
        target,
    );
    match request.backend_generation {
        Some(generation) => Ok(
            wake_request.with_backend_generation(BackendGeneration::new(generation)),
        ),
        None => Ok(wake_request),
    }
}

/// The answer that has an outcome.
pub open spec fn answered(outcome: pb::ProxyWakeOutcomeView) -> pb::ProxyWakeInstanceResponseView {
    pb::ProxyWakeInstanceResponseView { outcome: Some(outcome) }
}

/// The answer for an instance that is awake.
pub open spec fn ready_response(
    instance: InstanceRecordView,
    materialization: MaterializationRecordView,
) -> Result<pb::ProxyWakeInstanceResponseView, ApiStatusView> {
    match materialization.backend {
        Some(backend) => Ok(
            answered(
                pb::ProxyWakeOutcomeView::Ready(
                    pb::ProxyWakeReadyResultView {
                        instance_id: instance.id,
                        instance_generation: instance.generation as u64,
                        backend_uri: backend,
                        backend_generation: materialization.backend_generation as u64,
                    },
                ),
            ),
        ),
        None => Err(
            status::failure(
                StatusCode::FailedPrecondition,
                "ready materialization for instance "@ + instance.id
                    + " has no backend endpoint"@,
            ),
        ),
    }
}

/// The answer for an instance that is awake.
pub fn proxy_ready_response(
    instance: &InstanceRecord,
    materialization: &MaterializationRecord,
) -> (r: Result<pb::ProxyWakeInstanceResponse, ApiStatus>)
    ensures
        outcome::of(r) == ready_response(instance.deep_view(), materialization.deep_view()),
{
    match &materialization.backend {
        Some(backend) => Ok(
            pb::ProxyWakeInstanceResponse {
                outcome: Some(
                    pb::ProxyWakeOutcome::Ready(
                        pb::ProxyWakeReadyResult {
                            instance_id: instance.id.to_string(),
                            instance_generation: instance.generation.get(),
                            backend_uri: backend.uri().to_owned(),
                            backend_generation: materialization.backend_generation.get(),
                        },
                    ),
                ),
            },
        ),
        None => {
            let message = text::join3(
                "ready materialization for instance ",
                instance.id.as_str(),
                " has no backend endpoint",
            );
            Err(ApiStatus::new(StatusCode::FailedPrecondition, message.as_str()))
        },
    }
}

/// The message of why an instance cannot be woken.
pub open spec fn unavailable_reason(
    reason: WakeUnavailableReason,
) -> pb::ProxyWakeUnavailableReason {
    match reason {
        WakeUnavailableReason::Deleting => pb::ProxyWakeUnavailableReason::Deleting,
        WakeUnavailableReason::Deleted => pb::ProxyWakeUnavailableReason::Deleted,
    }
}

/// The answer when an instance was not woken.
pub open spec fn wake_error_response(
    request_instance_id: Seq<char>,
    error: WakeInstanceErrorView,
    activation_timeout: Duration,
) -> Result<pb::ProxyWakeInstanceResponseView, ApiStatusView> {
    match error {
        WakeInstanceErrorView::NotFound => Err(
            status::failure(StatusCode::NotFound, "instance not found"@),
        ),
        WakeInstanceErrorView::GenerationConflict { expected, actual } => Ok(
            answered(
                pb::ProxyWakeOutcomeView::GenerationConflict(
                    pb::ProxyWakeGenerationConflictResultView {
                        instance_id: request_instance_id,
                        expected_generation: expected as u64,
                        actual_generation: actual as u64,
                    },
                ),
            ),
        ),
        WakeInstanceErrorView::Unavailable { instance, reason } => Ok(
            answered(
                pb::ProxyWakeOutcomeView::Unavailable(
                    pb::ProxyWakeUnavailableResultView {
                        instance_id: instance.id,
                        instance_generation: instance.generation as u64,
                        reason: unavailable_reason(reason),
                    },
                ),
            ),
        ),
        WakeInstanceErrorView::ReadyMaterializationNotFound { instance } => Err(
            status::failure(
                StatusCode::FailedPrecondition,
                "ready materialization was not found for instance "@ + instance.id
                    + " and configured target"@,
            ),
        ),
        WakeInstanceErrorView::WorkloadClassNotFound { instance } => Err(
            status::failure(
                StatusCode::FailedPrecondition,
                "workload class version was not found for instance "@ + instance.id,
            ),
        ),
        WakeInstanceErrorView::Render { instance, source } => Err(
            status::failure(
                StatusCode::Internal,
                "manifest render failed for instance "@ + instance.id + ": "@
                    + manifest::manifest_render_message(source),
            ),
        ),
        WakeInstanceErrorView::SleepPolicy { instance, source } => Err(
            status::failure(
                StatusCode::Internal,
                "sleep policy resolution failed for instance "@ + instance.id + ": "@
                    + sleep_policy::sleep_policy_message(source),
            ),
        ),
        WakeInstanceErrorView::Materializer { instance, source } => Err(
            status::failure(
                StatusCode::Unavailable,
                "materialization failed for instance "@ + instance.id + ": "@
                    + materializer::materializer_message(source),
            ),
        ),
        WakeInstanceErrorView::Store(error) => Err(store::status_of(error, activation_timeout)),
    }
}

fn failed(code: StatusCode, prefix: &str, instance: &InstanceRecord, suffix: &str) -> (r: ApiStatus)
    ensures
        r.deep_view() == status::failure(code, prefix@ + instance.deep_view().id + suffix@),
{
    let message = text::join3(prefix, instance.id.as_str(), suffix);
    ApiStatus::new(code, message.as_str())
}

fn failed_with(code: StatusCode, prefix: &str, instance: &InstanceRecord, source: &str) -> (r:
    ApiStatus)
    ensures
        r.deep_view() == status::failure(
            code,
            prefix@ + instance.deep_view().id + ": "@ + source@,
        ),
{
    let message = text::join4(prefix, instance.id.as_str(), ": ", source);
    ApiStatus::new(code, message.as_str())
}

/// The answer when an instance was not woken.
pub fn proxy_wake_error_response(
    request_instance_id: &str,
    error: WakeInstanceError,
    activation_timeout: Duration,
) -> (r: Result<pb::ProxyWakeInstanceResponse, ApiStatus>)
    ensures
        outcome::of(r) == wake_error_response(
            request_instance_id@,
            error.deep_view(),
            activation_timeout,
        ),
{
    match error {
        WakeInstanceError::NotFound => Err(
            ApiStatus::new(StatusCode::NotFound, "instance not found"),
        ),
        WakeInstanceError::GenerationConflict { expected, actual } => Ok(
            pb::ProxyWakeInstanceResponse {
                outcome: Some(
                    pb::ProxyWakeOutcome::GenerationConflict(
                        pb::ProxyWakeGenerationConflictResult {
                            instance_id: request_instance_id.to_owned(),
                            expected_generation: expected.get(),
                            actual_generation: actual.get(),
                        },
                    ),
                ),
            },
        ),
        WakeInstanceError::Unavailable { instance, reason } => {
            let reason = match reason {
                WakeUnavailableReason::Deleting => pb::ProxyWakeUnavailableReason::Deleting,
                WakeUnavailableReason::Deleted => pb::ProxyWakeUnavailableReason::Deleted,
            };
            Ok(
                pb::ProxyWakeInstanceResponse {
                    outcome: Some(
                        pb::ProxyWakeOutcome::Unavailable(
                            pb::ProxyWakeUnavailableResult {
                                instance_id: instance.id.to_string(),
                                instance_generation: instance.generation.get(),
                                reason,
                            },
                        ),
                    ),
                },
            )
        },
        WakeInstanceError::ReadyMaterializationNotFound { instance } => Err(
            failed(
                StatusCode::FailedPrecondition,
                "ready materialization was not found for instance ",
                &instance,
                " and configured target",
            ),
        ),
        WakeInstanceError::WorkloadClassNotFound { instance } => {
            let message = text::join2(
                "workload class version was not found for instance ",
                instance.id.as_str(),
            );
            Err(ApiStatus::new(StatusCode::FailedPrecondition, message.as_str()))
        },
        WakeInstanceError::Render { instance, source } => Err(
            failed_with(
                StatusCode::Internal,
                "manifest render failed for instance ",
                &instance,
                source.to_string().as_str(),
            ),
        ),
        WakeInstanceError::SleepPolicy { instance, source } => Err(
            failed_with(
                StatusCode::Internal,
                "sleep policy resolution failed for instance ",
                &instance,
                source.to_string().as_str(),
            ),
        ),
        WakeInstanceError::Materializer { instance, source } => Err(
            failed_with(
                StatusCode::Unavailable,
                "materialization failed for instance ",
                &instance,
                source.to_string().as_str(),
            ),
        ),
        WakeInstanceError::Store(error) => Err(
            store::store_error_to_status(error, activation_timeout),
        ),
    }
}

/// The answer to a request to wake an instance.
pub open spec fn wake_response_of(
    request_instance_id: Seq<char>,
    result: Result<WakeInstanceResultView, WakeInstanceErrorView>,
    activation_timeout: Duration,
) -> Result<pb::ProxyWakeInstanceResponseView, ApiStatusView> {
    match result {
        Ok(WakeInstanceResultView::Completed { result }) => ready_response(
            result.instance,
            result.materialization,
        ),
        Ok(WakeInstanceResultView::AlreadyRunning { instance, materialization }) => ready_response(
            instance,
            materialization,
        ),
        Ok(WakeInstanceResultView::AlreadyWaking { instance }) => Ok(
            answered(
                pb::ProxyWakeOutcomeView::StillWaking(
                    pb::ProxyWakeStillWakingResultView {
                        instance_id: instance.id,
                        instance_generation: instance.generation as u64,
                    },
                ),
            ),
        ),
        Err(error) => wake_error_response(request_instance_id, error, activation_timeout),
    }
}

/// The answer to a request to wake an instance, from what became of it.
pub fn wake_response(
    request_instance_id: &str,
    result: Result<WakeInstanceResult, WakeInstanceError>,
    activation_timeout: Duration,
) -> (r: Result<pb::ProxyWakeInstanceResponse, ApiStatus>)
    ensures
        outcome::of(r) == wake_response_of(
            request_instance_id@,
            outcome::of(result),
            activation_timeout,
        ),
{
    match result {
        Ok(WakeInstanceResult::Completed { result }) => proxy_ready_response(
            &result.instance,
            &result.materialization,
        ),
        Ok(WakeInstanceResult::AlreadyRunning { instance, materialization }) => {
            proxy_ready_response(&instance, &materialization)
        },
        Ok(WakeInstanceResult::AlreadyWaking { instance }) => Ok(
            pb::ProxyWakeInstanceResponse {
                outcome: Some(
                    pb::ProxyWakeOutcome::StillWaking(
                        pb::ProxyWakeStillWakingResult {
                            instance_id: instance.id.to_string(),
                            instance_generation: instance.generation.get(),
                        },
                    ),
                ),
            },
        ),
        Err(error) => proxy_wake_error_response(request_instance_id, error, activation_timeout),
    }
}

/// The protocol of a route by its identity.
pub open spec fn protocol_of_identity(identity: RouteIdentityView) -> ProtocolRoute {
    match identity {
        RouteIdentityView::Http { .. } => ProtocolRoute::Http,
        RouteIdentityView::Sni { .. } => ProtocolRoute::TlsSni,
    }
}

fn protocol_for_route_identity(identity: &RouteIdentity) -> (r: ProtocolRoute)
    ensures
        r == protocol_of_identity(identity.deep_view()),
{
    match identity {
        RouteIdentity::Http { .. } => ProtocolRoute::Http,
        RouteIdentity::Sni { .. } => ProtocolRoute::TlsSni,
    }
}

/// Why a route may be used no more.
#[derive(Clone, Copy, Debug, PartialEq, Eq, Structural)]
pub enum RouteBindingChangeReason {
    Removed,
    Changed,
}

impl DeepView for RouteBindingChangeReason {
    type V = RouteBindingChangeReason;

    open spec fn deep_view(&self) -> RouteBindingChangeReason {
        *self
    }
}

/// A route that a proxy was told of: what it asked for, and what was found.
#[derive(Debug, PartialEq, Eq)]
pub struct ActiveRouteSubscription {
    pub route_binding_id: RouteBindingId,
    pub request_identity: RouteIdentity,
    pub matched_identity: RouteIdentity,
    pub protocol: ProtocolRoute,
}

/// What an [`ActiveRouteSubscription`] holds.
#[verifier::ext_equal]
pub struct ActiveRouteSubscriptionView {
    pub route_binding_id: Seq<char>,
    pub request_identity: RouteIdentityView,
    pub matched_identity: RouteIdentityView,
    pub protocol: ProtocolRoute,
}

impl DeepView for ActiveRouteSubscription {
    type V = ActiveRouteSubscriptionView;

    open spec fn deep_view(&self) -> ActiveRouteSubscriptionView {
        ActiveRouteSubscriptionView {
            route_binding_id: self.route_binding_id.deep_view(),
            request_identity: self.request_identity.deep_view(),
            matched_identity: self.matched_identity.deep_view(),
            protocol: self.protocol.deep_view(),
        }
    }
}

impl Clone for ActiveRouteSubscription {
    fn clone(&self) -> (r: Self)
        ensures
            r.deep_view() == self.deep_view(),
    {
        ActiveRouteSubscription {
            route_binding_id: self.route_binding_id.clone(),
            request_identity: self.request_identity.clone(),
            matched_identity: self.matched_identity.clone(),
            protocol: self.protocol,
        }
    }
}

/// A subscription to a route by its number.
#[derive(Debug, PartialEq, Eq)]
pub struct RouteSubscription {
    pub number: u64,
    pub route: ActiveRouteSubscription,
}

/// What a [`RouteSubscription`] holds.
#[verifier::ext_equal]
pub struct RouteSubscriptionView {
    pub number: u64,
    pub route: ActiveRouteSubscriptionView,
}

impl DeepView for RouteSubscription {
    type V = RouteSubscriptionView;

    open spec fn deep_view(&self) -> RouteSubscriptionView {
        RouteSubscriptionView {
            number: self.number.deep_view(),
            route: self.route.deep_view(),
        }
    }
}

impl Clone for RouteSubscription {
    fn clone(&self) -> (r: Self)
        ensures
            r.deep_view() == self.deep_view(),
    {
        RouteSubscription {
            number: self.number,
            route: self.route.clone(),
        }
    }
}

/// Why a change makes a subscription invalid, if it does. A route that was removed
/// makes those to it invalid; one that was bound anew also those to which it
/// matches more closely than the route that was found. Changes to instances make
/// none invalid.
pub open spec fn invalidation_of(
    subscription: ActiveRouteSubscriptionView,
    event: RouteBindingChangeView,
) -> Option<RouteBindingChangeReason> {
    match event {
        RouteBindingChangeView::Route { route_binding_id, removed, identity, protocol } => if removed {
            if subscription.route_binding_id == route_binding_id {
                Some(RouteBindingChangeReason::Removed)
            } else {
                None
            }
        } else if subscription.route_binding_id == route_binding_id || overrides(
            subscription,
            identity,
            protocol,
        ) {
            Some(RouteBindingChangeReason::Changed)
        } else {
            None
        },
        _ => None,
    }
}

/// Whether a route matches a request more closely than the one that was found for
/// it.
pub open spec fn overrides(
    subscription: ActiveRouteSubscriptionView,
    identity: Option<RouteIdentityView>,
    protocol: Option<ProtocolRoute>,
) -> bool {
    match (identity, protocol) {
        (Some(identity), Some(protocol)) => subscription.protocol == protocol && match (
            route::match_score(identity, subscription.request_identity),
            route::match_score(subscription.matched_identity, subscription.request_identity),
        ) {
            (None, _) => false,
            (Some(_), None) => true,
            (Some(found), Some(cached)) => found.beats(cached),
        },
        _ => false,
    }
}

/// Why a change makes a subscription invalid, if it does.
pub fn subscription_invalidated_by_event(
    subscription: &ActiveRouteSubscription,
    event: &RouteBindingChange,
) -> (r: Option<RouteBindingChangeReason>)
    ensures
        r == invalidation_of(subscription.deep_view(), event.deep_view()),
{
    match event {
        RouteBindingChange::Route { route_binding_id, removed, identity, protocol } => {
            let same = text::same(
                subscription.route_binding_id.as_str(),
                route_binding_id.as_str(),
            );
            if *removed {
                if same {
                    return Some(RouteBindingChangeReason::Removed);
                }
                return None;
            }
            if same {
                return Some(RouteBindingChangeReason::Changed);
            }
            let (identity, protocol) = match (identity, protocol) {
                (Some(identity), Some(protocol)) => (identity, *protocol),
                _ => return None,
            };
            if subscription.protocol != protocol {
                return None;
            }
            let found = match route::route_match_score(identity, &subscription.request_identity) {
                Some(found) => found,
                None => return None,
            };
            let cached = match route::route_match_score(
                &subscription.matched_identity,
                &subscription.request_identity,
            ) {
                Some(cached) => cached,
                None => return Some(RouteBindingChangeReason::Changed),
            };
            if found.is_more_specific(&cached) {
                Some(RouteBindingChangeReason::Changed)
            } else {
                None
            }
        },
        _ => None,
    }
}

/// The message of why a route may be used no more.
pub open spec fn reason_message(
    reason: RouteBindingChangeReason,
) -> pb::ProxyRouteInvalidationReason {
    match reason {
        RouteBindingChangeReason::Removed => pb::ProxyRouteInvalidationReason::RouteRemoved,
        RouteBindingChangeReason::Changed => pb::ProxyRouteInvalidationReason::RouteChanged,
    }
}

/// The ID of a subscription.
pub open spec fn subscription_id(number: u64) -> Seq<char> {
    "sub:"@ + text::decimal(number as nat)
}

fn show_subscription_id(number: u64) -> (r: String)
    ensures
        r@ == subscription_id(number),
{
    text::join2("sub:", text::number(number).as_str())
}

/// What a proxy is told of a subscription that became invalid.
pub open spec fn invalidated_response(
    number: u64,
    reason: RouteBindingChangeReason,
) -> pb::ProxySubscribeResponseView {
    pb::ProxySubscribeResponseView {
        output: Some(
            pb::ProxySubscribeOutputView::RouteInvalidated(
                pb::ProxyRouteInvalidatedResponseView {
                    subscription_id: subscription_id(number),
                    reason: reason_message(reason),
                },
            ),
        ),
    }
}

/// The subscriptions that pass a test, in the order they stand in.
pub open spec fn kept(
    subscriptions: Seq<RouteSubscriptionView>,
    keep: spec_fn(RouteSubscriptionView) -> bool,
) -> Seq<RouteSubscriptionView>
    decreases subscriptions.len(),
{
    if subscriptions.len() == 0 {
        Seq::empty()
    } else {
        let before = kept(subscriptions.drop_last(), keep);
        if keep(subscriptions.last()) {
            before.push(subscriptions.last())
        } else {
            before
        }
    }
}

/// Whether a change leaves a subscription valid.
pub open spec fn left_valid_by(event: RouteBindingChangeView) -> spec_fn(
    RouteSubscriptionView,
) -> bool {
    |subscription: RouteSubscriptionView| invalidation_of(subscription.route, event) is None
}

/// The subscriptions that a change leaves valid.
pub open spec fn remaining(
    subscriptions: Seq<RouteSubscriptionView>,
    event: RouteBindingChangeView,
) -> Seq<RouteSubscriptionView> {
    kept(subscriptions, left_valid_by(event))
}

/// What a proxy is told of a change: each subscription that it makes invalid.
pub open spec fn invalidations(
    subscriptions: Seq<RouteSubscriptionView>,
    event: RouteBindingChangeView,
) -> Seq<pb::ProxySubscribeResponseView>
    decreases subscriptions.len(),
{
    if subscriptions.len() == 0 {
        Seq::empty()
    } else {
        let before = invalidations(subscriptions.drop_last(), event);
        match invalidation_of(subscriptions.last().route, event) {
            Some(reason) => before.push(invalidated_response(subscriptions.last().number, reason)),
            None => before,
        }
    }
}

/// Whether a subscription is another than the one with an id.
pub open spec fn other_than(id: Seq<char>) -> spec_fn(RouteSubscriptionView) -> bool {
    |subscription: RouteSubscriptionView| subscription_id(subscription.number) != id
}

/// The subscriptions without one.
pub open spec fn without(subscriptions: Seq<RouteSubscriptionView>, id: Seq<char>) -> Seq<
    RouteSubscriptionView,
> {
    kept(subscriptions, other_than(id))
}

/// The subscriptions of one proxy. They are numbered in the order in which they
/// were made, and no number is used again.
pub struct RouteSubscriptions {
    subscriptions: Vec<RouteSubscription>,
    last_number: u64,
}

/// What a [`RouteSubscriptions`] holds.
#[verifier::ext_equal]
pub struct RouteSubscriptionsView {
    pub subscriptions: Seq<RouteSubscriptionView>,
    pub last_number: u64,
}

impl View for RouteSubscriptions {
    type V = RouteSubscriptionsView;

    closed spec fn view(&self) -> RouteSubscriptionsView {
        RouteSubscriptionsView {
            subscriptions: self.subscriptions.deep_view(),
            last_number: self.last_number,
        }
    }
}

/// Whether subscriptions are numbered in order, up to a number.
pub open spec fn numbered(subscriptions: Seq<RouteSubscriptionView>, last_number: u64) -> bool {
    &&& forall|i: int, j: int|
        0 <= i < j < subscriptions.len() ==> (#[trigger] subscriptions[i]).number < (
        #[trigger] subscriptions[j]).number
    &&& forall|i: int|
        0 <= i < subscriptions.len() ==> (#[trigger] subscriptions[i]).number <= last_number
}

/// A field that may not be blank.
pub open spec fn filled(value: Seq<char>, field: Seq<char>) -> Result<Seq<char>, ApiStatusView> {
    if text::is_blank(value) {
        Err(status::invalid_argument(field + " must not be empty"@))
    } else {
        Ok(value)
    }
}

/// A field that may not be blank.
pub fn non_empty_field(value: String, field: &'static str) -> (r: Result<String, ApiStatus>)
    ensures
        outcome::of(r) == filled(value@, field@),
{
    if text::blank(value.as_str()) {
        let message = text::join2(field, " must not be empty");
        return Err(ApiStatus::invalid_argument(message.as_str()));
    }
    Ok(value)
}

/// How long an answer may be kept, in whole milliseconds.
pub open spec fn cache_millis(ttl: u128) -> u64 {
    if ttl / 1_000_000 <= u64::MAX {
        (ttl / 1_000_000) as u64
    } else {
        u64::MAX
    }
}

fn cache_policy_to_proto(policy: CachePolicy) -> (r: pb::ProxyCachePolicy)
    ensures
        r.deep_view() == (pb::ProxyCachePolicyView { ttl_millis: cache_millis(policy.deep_view()) }),
{
    let millis: u128 = time::whole_millis(policy.ttl());
    let ttl_millis: u64 = if millis <= u64::MAX as u128 {
        millis as u64
    } else {
        u64::MAX
    };
    pb::ProxyCachePolicy { ttl_millis }
}

/// The message of where a route leads.
pub open spec fn entry_message(entry: RouteEntryView) -> pb::ProxyRouteEntryView {
    pb::ProxyRouteEntryView {
        route_binding_id: entry.route_binding_id,
        instance_id: entry.instance_id,
        instance_state: server::instance_state_message(entry.instance_state),
        instance_generation: entry.instance_generation as u64,
        backend_uri: entry.backend,
        backend_generation: match entry.backend_generation {
            Some(generation) => Some(generation as u64),
            None => None,
        },
    }
}

fn route_entry_to_proto(entry: &RouteEntry) -> (r: pb::ProxyRouteEntry)
    ensures
        r.deep_view() == entry_message(entry.deep_view()),
{
    pb::ProxyRouteEntry {
        route_binding_id: entry.route_binding_id.to_string(),
        instance_id: entry.instance_id.to_string(),
        instance_state: server::instance_state_to_proto(entry.instance_state),
        instance_generation: entry.instance_generation.get(),
        backend_uri: match &entry.backend {
            Some(backend) => Some(backend.uri().to_owned()),
            None => None,
        },
        backend_generation: match entry.backend_generation {
            Some(generation) => Some(generation.get()),
            None => None,
        },
    }
}

/// Where a route leads, with the backend of a materialization that is ready: both
/// its endpoint and its generation, or neither.
pub open spec fn with_ready_backend(
    entry: RouteEntryView,
    materialization: Option<MaterializationRecordView>,
) -> RouteEntryView {
    match materialization {
        Some(materialization) => match materialization.backend {
            Some(backend) => RouteEntryView {
                backend: Some(backend),
                backend_generation: Some(materialization.backend_generation),
                ..entry
            },
            None => RouteEntryView { backend: None, backend_generation: None, ..entry },
        },
        None => RouteEntryView { backend: None, backend_generation: None, ..entry },
    }
}

/// Puts the backend of a materialization that is ready into where a route leads.
pub fn publish_ready_backend(
    entry: RouteEntry,
    materialization: Option<MaterializationRecord>,
) -> (r:
    RouteEntry)
    ensures
        r.deep_view() == with_ready_backend(entry.deep_view(), materialization.deep_view()),
{
    let (backend, backend_generation) = match materialization {
        Some(materialization) => match materialization.backend {
            Some(backend) => (Some(backend), Some(materialization.backend_generation)),
            None => (None, None),
        },
        None => (None, None),
    };
    RouteEntry {
        route_binding_id: entry.route_binding_id,
        instance_id: entry.instance_id,
        instance_state: entry.instance_state,
        instance_generation: entry.instance_generation,
        backend,
        backend_generation,
    }
}

/// What a proxy is told of a route that was found.
pub open spec fn resolved_response(
    request_id: Seq<char>,
    number: u64,
    matched_identity: RouteIdentityView,
    entry: RouteEntryView,
) -> pb::ProxySubscribeResponseView {
    pb::ProxySubscribeResponseView {
        output: Some(
            pb::ProxySubscribeOutputView::RouteResolved(
                pb::ProxyRouteResolvedResponseView {
                    request_id,
                    subscription_id: subscription_id(number),
                    matched_identity: Some(server::identity_message(matched_identity)),
                    route: Some(entry_message(entry)),
                    cache_policy: Some(pb::ProxyCachePolicyView { ttl_millis: 10_000 }),
                },
            ),
        ),
    }
}

/// What a proxy is told of a route that was not found.
pub open spec fn miss_response(
    request_id: Seq<char>,
    request_identity: RouteIdentityView,
    negative_cache: u128,
) -> pb::ProxySubscribeResponseView {
    pb::ProxySubscribeResponseView {
        output: Some(
            pb::ProxySubscribeOutputView::RouteMiss(
                pb::ProxyRouteMissResponseView {
                    request_id,
                    request_identity: Some(server::identity_message(request_identity)),
                    negative_cache_policy: Some(
                        pb::ProxyCachePolicyView { ttl_millis: cache_millis(negative_cache) },
                    ),
                },
            ),
        ),
    }
}

/// What happens to a stream of a proxy: it asks something, it ends, it fails, or a
/// change is told, missed, or told no more.
#[derive(Debug, PartialEq, Eq)]
pub enum SubscribeInput {
    Request(pb::ProxySubscribeRequest),
    Ended,
    Failed(ApiStatus),
    Event(RouteBindingChange),
    Lagged,
    EventsClosed,
}

/// What a [`SubscribeInput`] holds.
#[verifier::ext_equal]
pub enum SubscribeInputView {
    Request(pb::ProxySubscribeRequestView),
    Ended,
    Failed(ApiStatusView),
    Event(RouteBindingChangeView),
    Lagged,
    EventsClosed,
}

impl DeepView for SubscribeInput {
    type V = SubscribeInputView;

    open spec fn deep_view(&self) -> SubscribeInputView {
        match self {
            SubscribeInput::Request(value) => SubscribeInputView::Request(value.deep_view()),
            SubscribeInput::Ended => SubscribeInputView::Ended,
            SubscribeInput::Failed(value) => SubscribeInputView::Failed(value.deep_view()),
            SubscribeInput::Event(value) => SubscribeInputView::Event(value.deep_view()),
            SubscribeInput::Lagged => SubscribeInputView::Lagged,
            SubscribeInput::EventsClosed => SubscribeInputView::EventsClosed,
        }
    }
}

/// What a stream of a proxy does next: it goes on, sends responses, finds a route, ends, or fails.
#[derive(Debug, PartialEq, Eq)]
pub enum SubscribeStep {
    Continue,
    Send(Vec<pb::ProxySubscribeResponse>),
    Resolve { request_id: String, identity: RouteIdentity },
    End,
    Fail(ApiStatus),
}

/// What a [`SubscribeStep`] holds.
#[verifier::ext_equal]
pub enum SubscribeStepView {
    Continue,
    Send(Seq<pb::ProxySubscribeResponseView>),
    Resolve { request_id: Seq<char>, identity: RouteIdentityView },
    End,
    Fail(ApiStatusView),
}

impl DeepView for SubscribeStep {
    type V = SubscribeStepView;

    open spec fn deep_view(&self) -> SubscribeStepView {
        match self {
            SubscribeStep::Continue => SubscribeStepView::Continue,
            SubscribeStep::Send(value) => SubscribeStepView::Send(value.deep_view()),
            SubscribeStep::Resolve { request_id, identity } => SubscribeStepView::Resolve {
                request_id: request_id.deep_view(),
                identity: identity.deep_view(),
            },
            SubscribeStep::End => SubscribeStepView::End,
            SubscribeStep::Fail(value) => SubscribeStepView::Fail(value.deep_view()),
        }
    }
}

/// What a stream does when a proxy asks something.
pub open spec fn request_step(
    state: RouteSubscriptionsView,
    request: pb::ProxySubscribeRequestView,
) -> (RouteSubscriptionsView, SubscribeStepView) {
    match request.input {
        None => (
            state,
            SubscribeStepView::Fail(
                status::invalid_argument("subscribe request input is required"@),
            ),
        ),
        Some(pb::ProxySubscribeInputView::SubscribeRoute(request)) => (
            state,
            match filled(request.request_id, "request_id"@) {
                Err(error) => SubscribeStepView::Fail(error),
                Ok(request_id) => match request.identity {
                    None => SubscribeStepView::Fail(
                        status::invalid_argument("identity is required"@),
                    ),
                    Some(identity) => match server::identity_problem(identity) {
                        Some(error) => SubscribeStepView::Fail(error),
                        None => SubscribeStepView::Resolve {
                            request_id,
                            identity: server::identity_of(identity),
                        },
                    },
                },
            },
        ),
        Some(pb::ProxySubscribeInputView::Unsubscribe(request)) => match filled(
            request.subscription_id,
            "subscription_id"@,
        ) {
            Err(error) => (state, SubscribeStepView::Fail(error)),
            Ok(id) => (
                RouteSubscriptionsView {
                    subscriptions: without(state.subscriptions, id),
                    ..state
                },
                SubscribeStepView::Continue,
            ),
        },
    }
}

/// What a stream does next.
pub open spec fn stream_step(state: RouteSubscriptionsView, input: SubscribeInputView) -> (
    RouteSubscriptionsView,
    SubscribeStepView,
) {
    match input {
        SubscribeInputView::Request(request) => request_step(state, request),
        SubscribeInputView::Ended => (state, SubscribeStepView::End),
        SubscribeInputView::Failed(error) => (state, SubscribeStepView::Fail(error)),
        SubscribeInputView::Event(event) => (
            RouteSubscriptionsView {
                subscriptions: remaining(state.subscriptions, event),
                ..state
            },
            SubscribeStepView::Send(invalidations(state.subscriptions, event)),
        ),
        SubscribeInputView::Lagged => (
            state,
            SubscribeStepView::Fail(
                status::failure(StatusCode::Unavailable, "route update stream lagged"@),
            ),
        ),
        SubscribeInputView::EventsClosed => (state, SubscribeStepView::Continue),
    }
}

/// What is left to do for a route: nothing but to answer, or to load the
/// materialization that is ready.
#[derive(Debug, PartialEq, Eq)]
pub enum ResolveStep {
    Respond(pb::ProxySubscribeResponse),
    LoadReady {
        matched_identity: RouteIdentity,
        entry: RouteEntry,
        request: LoadReadyMaterializationRequest,
    },
}

/// What a [`ResolveStep`] holds.
#[verifier::ext_equal]
pub enum ResolveStepView {
    Respond(pb::ProxySubscribeResponseView),
    LoadReady {
        matched_identity: RouteIdentityView,
        entry: RouteEntryView,
        request: LoadReadyMaterializationRequestView,
    },
}

impl DeepView for ResolveStep {
    type V = ResolveStepView;

    open spec fn deep_view(&self) -> ResolveStepView {
        match self {
            ResolveStep::Respond(value) => ResolveStepView::Respond(value.deep_view()),
            ResolveStep::LoadReady {
                matched_identity,
                entry,
                request,
            } => ResolveStepView::LoadReady {
                matched_identity: matched_identity.deep_view(),
                entry: entry.deep_view(),
                request: request.deep_view(),
            },
        }
    }
}

/// What is left to do for a route that was looked up.
pub open spec fn resolve_step(
    request_id: Seq<char>,
    request_identity: RouteIdentityView,
    target: MaterializationTargetView,
    resolution: Result<RouteResolutionView, StoreErrorView>,
    activation_timeout: Duration,
) -> Result<ResolveStepView, ApiStatusView> {
    match resolution {
        Err(error) => Err(store::status_of(error, activation_timeout)),
        Ok(RouteResolutionView::Miss { negative_cache }) => Ok(
            ResolveStepView::Respond(miss_response(request_id, request_identity, negative_cache)),
        ),
        Ok(RouteResolutionView::Resolved { matched_identity, entry }) => Ok(
            ResolveStepView::LoadReady {
                matched_identity,
                entry,
                request: LoadReadyMaterializationRequestView {
                    instance_id: entry.instance_id,
                    instance_generation: entry.instance_generation,
                    target,
                },
            },
        ),
    }
}

/// What is left to do for a route that was looked up.
pub fn route_looked_up(
    request_id: String,
    request_identity: &RouteIdentity,
    target: MaterializationTarget,
    resolution: Result<RouteResolution, StoreError>,
    activation_timeout: Duration,
) -> (r: Result<ResolveStep, ApiStatus>)
    ensures
        outcome::of(r) == resolve_step(
            request_id@,
            request_identity.deep_view(),
            target.deep_view(),
            outcome::of(resolution),
            activation_timeout,
        ),
{
    match resolution {
        Err(error) => Err(store::store_error_to_status(error, activation_timeout)),
        Ok(RouteResolution::Miss { negative_cache }) => Ok(
            ResolveStep::Respond(
                pb::ProxySubscribeResponse {
                    output: Some(
                        pb::ProxySubscribeOutput::RouteMiss(
                            pb::ProxyRouteMissResponse {
                                request_id,
                                request_identity: Some(
                                    server::route_identity_to_proto(request_identity),
                                ),
                                negative_cache_policy: Some(cache_policy_to_proto(negative_cache)),
                            },
                        ),
                    ),
                },
            ),
        ),
        Ok(RouteResolution::Resolved { matched_identity, entry }) => {
            let request = LoadReadyMaterializationRequest::new(
                entry.instance_id.clone(),
                entry.instance_generation,
                target,
            );
            Ok(ResolveStep::LoadReady { matched_identity, entry, request })
        },
    }
}

/// The subscriptions with one more, to a route that was found.
pub open spec fn subscribed(
    state: RouteSubscriptionsView,
    request_identity: RouteIdentityView,
    matched_identity: RouteIdentityView,
    route_binding_id: Seq<char>,
) -> RouteSubscriptionsView {
    RouteSubscriptionsView {
        subscriptions: state.subscriptions.push(
            RouteSubscriptionView {
                number: (state.last_number + 1) as u64,
                route: ActiveRouteSubscriptionView {
                    route_binding_id,
                    request_identity,
                    matched_identity,
                    protocol: protocol_of_identity(matched_identity),
                },
            },
        ),
        last_number: (state.last_number + 1) as u64,
    }
}

/// What becomes of a stream, and what it answers, once it is known which
/// materialization of the route that was found is ready.
pub open spec fn ready_step(
    state: RouteSubscriptionsView,
    request_id: Seq<char>,
    request_identity: RouteIdentityView,
    matched_identity: RouteIdentityView,
    entry: RouteEntryView,
    materialization: Result<Option<MaterializationRecordView>, StoreErrorView>,
    activation_timeout: Duration,
) -> (RouteSubscriptionsView, Result<pb::ProxySubscribeResponseView, ApiStatusView>) {
    match materialization {
        Err(error) => (state, Err(store::status_of(error, activation_timeout))),
        Ok(materialization) => (
            subscribed(state, request_identity, matched_identity, entry.route_binding_id),
            Ok(
                resolved_response(
                    request_id,
                    (state.last_number + 1) as u64,
                    matched_identity,
                    with_ready_backend(entry, materialization),
                ),
            ),
        ),
    }
}

proof fn lemma_kept_numbered(
    subscriptions: Seq<RouteSubscriptionView>,
    keep: spec_fn(RouteSubscriptionView) -> bool,
    last_number: u64,
)
    requires
        numbered(subscriptions, last_number),
    ensures
        numbered(kept(subscriptions, keep), last_number),
        kept(subscriptions, keep).len() > 0 ==> kept(subscriptions, keep).last().number
            <= subscriptions.last().number,
    decreases subscriptions.len(),
{
    if subscriptions.len() > 0 {
        let before = subscriptions.drop_last();
        assert(numbered(before, last_number)) by {
            assert forall|i: int, j: int| 0 <= i < j < before.len() implies (
            #[trigger] before[i]).number < (#[trigger] before[j]).number by {
                assert(before[i] == subscriptions[i]);
                assert(before[j] == subscriptions[j]);
            }
        }
        lemma_kept_numbered(before, keep, last_number);
        let some = kept(before, keep);
        let all = kept(subscriptions, keep);
        if before.len() > 0 {
            assert(before.last() == subscriptions[before.len() - 1]);
            assert(subscriptions[before.len() - 1].number < subscriptions[before.len()
                as int].number);
        }
        if all.len() > some.len() {
            assert(all.last() == subscriptions.last());
            assert forall|i: int, j: int| 0 <= i < j < all.len() implies (#[trigger] all[i]).number
                < (#[trigger] all[j]).number by {
                assert(all[i] == some[i]);
                if j < some.len() {
                    assert(all[j] == some[j]);
                } else {
                    assert(some[i].number <= some.last().number) by {
                        if i < some.len() - 1 {
                            assert(some[i].number < some[some.len() - 1].number);
                        }
                    }
                }
            }
            assert(subscriptions[subscriptions.len() - 1].number <= last_number);
        }
    }
}

fn take_remaining(subscriptions: Vec<RouteSubscription>, event: &RouteBindingChange) -> (r: (
    Vec<RouteSubscription>,
    Vec<pb::ProxySubscribeResponse>,
))
    ensures
        r.0.deep_view() == remaining(subscriptions.deep_view(), event.deep_view()),
        r.1.deep_view() == invalidations(subscriptions.deep_view(), event.deep_view()),
{
    let ghost view = subscriptions.deep_view();
    let mut kept: Vec<RouteSubscription> = Vec::new();
    let mut responses: Vec<pb::ProxySubscribeResponse> = Vec::new();
    let mut i: usize = 0;
    assert(view.take(0) =~= Seq::empty());
    assert(kept.deep_view() =~= Seq::<RouteSubscriptionView>::empty());
    assert(responses.deep_view() =~= Seq::<pb::ProxySubscribeResponseView>::empty());
    while i < subscriptions.len()
        invariant
            0 <= i <= subscriptions.len(),
            view == subscriptions.deep_view(),
            kept.deep_view() == remaining(view.take(i as int), event.deep_view()),
            responses.deep_view() == invalidations(view.take(i as int), event.deep_view()),
        decreases subscriptions.len() - i,
    {
        let ghost kept_before = kept.deep_view();
        let ghost responses_before = responses.deep_view();
        let subscription = &subscriptions[i];
        proof {
            assert(view.take(i + 1).drop_last() =~= view.take(i as int));
            assert(view.take(i + 1).last() == view[i as int]);
            assert(view[i as int] == subscription.deep_view());
        }
        match subscription_invalidated_by_event(&subscription.route, event) {
            Some(reason) => {
                let reason = match reason {
                    RouteBindingChangeReason::Removed => {
                        pb::ProxyRouteInvalidationReason::RouteRemoved
                    },
                    RouteBindingChangeReason::Changed => {
                        pb::ProxyRouteInvalidationReason::RouteChanged
                    },
                };
                let response = pb::ProxySubscribeResponse {
                    output: Some(
                        pb::ProxySubscribeOutput::RouteInvalidated(
                            pb::ProxyRouteInvalidatedResponse {
                                subscription_id: show_subscription_id(subscription.number),
                                reason,
                            },
                        ),
                    ),
                };
                responses.push(response);
                assert(responses.deep_view() =~= responses_before.push(response.deep_view()));
            },
            None => {
                let copy = subscription.clone();
                kept.push(copy);
                assert(kept.deep_view() =~= kept_before.push(copy.deep_view()));
            },
        }
        i = i + 1;
    }
    assert(view.take(i as int) =~= view);
    (kept, responses)
}

fn take_without(subscriptions: Vec<RouteSubscription>, id: &str) -> (r: Vec<RouteSubscription>)
    ensures
        r.deep_view() == without(subscriptions.deep_view(), id@),
{
    let ghost view = subscriptions.deep_view();
    let mut kept: Vec<RouteSubscription> = Vec::new();
    let mut i: usize = 0;
    assert(view.take(0) =~= Seq::empty());
    assert(kept.deep_view() =~= Seq::<RouteSubscriptionView>::empty());
    while i < subscriptions.len()
        invariant
            0 <= i <= subscriptions.len(),
            view == subscriptions.deep_view(),
            kept.deep_view() == without(view.take(i as int), id@),
        decreases subscriptions.len() - i,
    {
        let ghost kept_before = kept.deep_view();
        let subscription = &subscriptions[i];
        proof {
            assert(view.take(i + 1).drop_last() =~= view.take(i as int));
            assert(view.take(i + 1).last() == view[i as int]);
            assert(view[i as int] == subscription.deep_view());
        }
        let shown = show_subscription_id(subscription.number);
        if !text::same(shown.as_str(), id) {
            let copy = subscription.clone();
            kept.push(copy);
            assert(kept.deep_view() =~= kept_before.push(copy.deep_view()));
        }
        i = i + 1;
    }
    assert(view.take(i as int) =~= view);
    kept
}

impl RouteSubscriptions {
    #[verifier::type_invariant]
    spec fn in_order(&self) -> bool {
        numbered(self.subscriptions.deep_view(), self.last_number)
    }

    /// No subscriptions.
    pub fn new() -> (r: Self)
        ensures
            r@ == (RouteSubscriptionsView { subscriptions: Seq::empty(), last_number: 0 }),
    {
        let subscriptions: Vec<RouteSubscription> = Vec::new();
        assert(subscriptions.deep_view() =~= Seq::<RouteSubscriptionView>::empty());
        RouteSubscriptions { subscriptions, last_number: 0 }
    }

    /// How many subscriptions there are.
    pub fn len(&self) -> (r: usize)
        ensures
            r == self@.subscriptions.len(),
            numbered(self@.subscriptions, self@.last_number),
    {
        proof {
            use_type_invariant(self);
        }
        self.subscriptions.len()
    }

    /// Whether one more subscription has a number.
    pub fn has_room(&self) -> (r: bool)
        ensures
            r == (self@.last_number < u64::MAX),
    {
        self.last_number < u64::MAX
    }

    fn unsubscribe(&mut self, id: &str)
        ensures
            final(self)@ == (RouteSubscriptionsView {
                subscriptions: without(old(self)@.subscriptions, id@),
                ..old(self)@
            }),
    {
        let mut subscriptions: Vec<RouteSubscription> = Vec::new();
        proof {
            use_type_invariant(&*self);
            lemma_kept_numbered(
                self.subscriptions.deep_view(),
                other_than(id@),
                self.last_number,
            );
            assert(subscriptions.deep_view() =~= Seq::<RouteSubscriptionView>::empty());
        }
        std::mem::swap(&mut subscriptions, &mut self.subscriptions);
        let kept = take_without(subscriptions, id);
        self.subscriptions = kept;
    }

    fn apply_event(&mut self, event: &RouteBindingChange) -> (r: Vec<pb::ProxySubscribeResponse>)
        ensures
            final(self)@ == (RouteSubscriptionsView {
                subscriptions: remaining(old(self)@.subscriptions, event.deep_view()),
                ..old(self)@
            }),
            r.deep_view() == invalidations(old(self)@.subscriptions, event.deep_view()),
    {
        let mut subscriptions: Vec<RouteSubscription> = Vec::new();
        proof {
            use_type_invariant(&*self);
            lemma_kept_numbered(
                self.subscriptions.deep_view(),
                left_valid_by(event.deep_view()),
                self.last_number,
            );
            assert(subscriptions.deep_view() =~= Seq::<RouteSubscriptionView>::empty());
        }
        std::mem::swap(&mut subscriptions, &mut self.subscriptions);
        let (kept, responses) = take_remaining(subscriptions, event);
        self.subscriptions = kept;
        responses
    }

    fn take_request(&mut self, request: pb::ProxySubscribeRequest) -> (r: SubscribeStep)
        ensures
            (final(self)@, r.deep_view()) == request_step(old(self)@, request.deep_view()),
    {
        match request.input {
            None => SubscribeStep::Fail(
                ApiStatus::invalid_argument("subscribe request input is required"),
            ),
            Some(pb::ProxySubscribeInput::SubscribeRoute(request)) => {
                let request_id = match non_empty_field(request.request_id, "request_id") {
                    Ok(request_id) => request_id,
                    Err(error) => return SubscribeStep::Fail(error),
                };
                match request.identity {
                    None => SubscribeStep::Fail(
                        ApiStatus::invalid_argument("identity is required"),
                    ),
                    Some(identity) => match server::route_identity_from_proto(&identity) {
                        Ok(identity) => SubscribeStep::Resolve { request_id, identity },
                        Err(error) => SubscribeStep::Fail(error),
                    },
                }
            },
            Some(pb::ProxySubscribeInput::Unsubscribe(request)) => {
                match non_empty_field(request.subscription_id, "subscription_id") {
                    Ok(id) => {
                        self.unsubscribe(id.as_str());
                        SubscribeStep::Continue
                    },
                    Err(error) => SubscribeStep::Fail(error),
                }
            },
        }
    }

    /// What a stream does next. To unsubscribe twice does no harm and is not
    /// answered.
    pub fn step(&mut self, input: SubscribeInput) -> (r: SubscribeStep)
        ensures
            (final(self)@, r.deep_view()) == stream_step(old(self)@, input.deep_view()),
    {
        match input {
            SubscribeInput::Request(request) => self.take_request(request),
            SubscribeInput::Ended => SubscribeStep::End,
            SubscribeInput::Failed(error) => SubscribeStep::Fail(error),
            SubscribeInput::Event(event) => SubscribeStep::Send(self.apply_event(&event)),
            SubscribeInput::Lagged => SubscribeStep::Fail(
                ApiStatus::new(StatusCode::Unavailable, "route update stream lagged"),
            ),
            SubscribeInput::EventsClosed => SubscribeStep::Continue,
        }
    }

    /// Subscribes to a route that was found, once it is known which materialization
    /// is ready.
    pub fn ready_loaded(
        &mut self,
        request_id: String,
        request_identity: RouteIdentity,
        matched_identity: RouteIdentity,
        entry: RouteEntry,
        materialization: Result<Option<MaterializationRecord>, StoreError>,
        activation_timeout: Duration,
    ) -> (r: Result<pb::ProxySubscribeResponse, ApiStatus>)
        requires
            old(self)@.last_number < u64::MAX,
        ensures
            (final(self)@, outcome::of(r)) == ready_step(
                old(self)@,
                request_id@,
                request_identity.deep_view(),
                matched_identity.deep_view(),
                entry.deep_view(),
                outcome::of(materialization),
                activation_timeout,
            ),
    {
        let materialization = match materialization {
            Ok(materialization) => materialization,
            Err(error) => return Err(store::store_error_to_status(error, activation_timeout)),
        };
        let entry = publish_ready_backend(entry, materialization);
        let number: u64 = self.last_number + 1;
        let protocol = protocol_for_route_identity(&matched_identity);
        let identity_message = server::route_identity_to_proto(&matched_identity);
        let subscription = RouteSubscription {
            number,
            route: ActiveRouteSubscription {
                route_binding_id: entry.route_binding_id.clone(),
                request_identity,
                matched_identity,
                protocol,
            },
        };
        let mut subscriptions: Vec<RouteSubscription> = Vec::new();
        proof {
            use_type_invariant(&*self);
            assert(subscriptions.deep_view() =~= Seq::<RouteSubscriptionView>::empty());
        }
        std::mem::swap(&mut subscriptions, &mut self.subscriptions);
        let ghost before = subscriptions.deep_view();
        subscriptions.push(subscription);
        assert(subscriptions.deep_view() =~= before.push(subscription.deep_view()));
        self.last_number = number;
        self.subscriptions = subscriptions;
        let cache_policy = cache_policy_to_proto(
            CachePolicy::new(Duration::from_secs(POSITIVE_ROUTE_CACHE_SECONDS)),
        );
        Ok(
            pb::ProxySubscribeResponse {
                output: Some(
                    pb::ProxySubscribeOutput::RouteResolved(
                        pb::ProxyRouteResolvedResponse {
                            request_id,
                            subscription_id: show_subscription_id(number),
                            matched_identity: Some(identity_message),
                            route: Some(route_entry_to_proto(&entry)),
                            cache_policy: Some(cache_policy),
                        },
                    ),
                ),
            },
        )
    }
}

/// No two subscriptions of a proxy have one ID.
pub proof fn lemma_subscription_ids_are_distinct(
    subscriptions: Seq<RouteSubscriptionView>,
    last_number: u64,
    i: int,
    j: int,
)
    requires
        numbered(subscriptions, last_number),
        0 <= i < j < subscriptions.len(),
    ensures
        subscription_id(subscriptions[i].number) != subscription_id(subscriptions[j].number),
{
    let a = subscriptions[i].number;
    let b = subscriptions[j].number;
    if subscription_id(a) == subscription_id(b) {
        let prefix = "sub:"@;
        assert(subscription_id(a).skip(prefix.len() as int) =~= text::decimal(a as nat));
        assert(subscription_id(b).skip(prefix.len() as int) =~= text::decimal(b as nat));
        text::lemma_decimal_injective(a as nat, b as nat);
    }
}

/// Every subscription either stays valid or is told of, and none of which a proxy
/// is told stays valid.
pub proof fn lemma_subscriptions_stay_or_are_told(
    subscriptions: Seq<RouteSubscriptionView>,
    event: RouteBindingChangeView,
    i: int,
)
    requires
        0 <= i < subscriptions.len(),
    ensures
        match invalidation_of(subscriptions[i].route, event) {
            None => remaining(subscriptions, event).contains(subscriptions[i]),
            Some(reason) => invalidations(subscriptions, event).contains(
                invalidated_response(subscriptions[i].number, reason),
            ),
        },
        remaining(subscriptions, event).len() + invalidations(subscriptions, event).len()
            == subscriptions.len(),
    decreases subscriptions.len(),
{
    let before = subscriptions.drop_last();
    let kept = remaining(before, event);
    let told = invalidations(before, event);
    let all = remaining(subscriptions, event);
    let all_told = invalidations(subscriptions, event);
    lemma_counts(subscriptions, event);
    if i < subscriptions.len() - 1 {
        assert(before[i] == subscriptions[i]);
        lemma_subscriptions_stay_or_are_told(before, event, i);
        match invalidation_of(subscriptions[i].route, event) {
            None => {
                let k = choose|k: int| 0 <= k < kept.len() && kept[k] == subscriptions[i];
                assert(all[k] == subscriptions[i]);
            },
            Some(reason) => {
                let response = invalidated_response(subscriptions[i].number, reason);
                let k = choose|k: int| 0 <= k < told.len() && told[k] == response;
                assert(all_told[k] == response);
            },
        }
    } else {
        match invalidation_of(subscriptions[i].route, event) {
            None => {
                assert(all[all.len() - 1] == subscriptions[i]);
            },
            Some(reason) => {
                let response = invalidated_response(subscriptions[i].number, reason);
                assert(all_told[all_told.len() - 1] == response);
            },
        }
    }
}

proof fn lemma_counts(subscriptions: Seq<RouteSubscriptionView>, event: RouteBindingChangeView)
    ensures
        remaining(subscriptions, event).len() + invalidations(subscriptions, event).len()
            == subscriptions.len(),
    decreases subscriptions.len(),
{
    if subscriptions.len() > 0 {
        lemma_counts(subscriptions.drop_last(), event);
    }
}

/// A subscription that was given up is told of no more.
pub proof fn lemma_unsubscribed_is_gone(
    subscriptions: Seq<RouteSubscriptionView>,
    id: Seq<char>,
    i: int,
)
    requires
        0 <= i < without(subscriptions, id).len(),
    ensures
        subscription_id(without(subscriptions, id)[i].number) != id,
    decreases subscriptions.len(),
{
    if subscriptions.len() > 0 {
        let before = without(subscriptions.drop_last(), id);
        if i < before.len() {
            lemma_unsubscribed_is_gone(subscriptions.drop_last(), id, i);
            assert(without(subscriptions, id)[i] == before[i]);
        }
    }
}

} // verus!

//! What holds of every proxy that asks for routes, keeps them and wakes instances.
use std::time::Duration;

use vstd::prelude::*;

use super::pb;
use super::proxy;
use super::proxy::ActiveRouteSubscriptionView;
use super::proxy::ResolveStepView;
use super::proxy::RouteBindingChangeReason;
use super::proxy::RouteSubscriptionView;
use super::proxy::RouteSubscriptionsView;
use super::proxy::SubscribeInputView;
use super::proxy::SubscribeStepView;
use super::route_events::RouteBindingChangeView;
use super::server;
use super::status::ApiStatusView;
use super::status::StatusCode;
use crate::instance::InstanceRecordView;
use crate::instance::InstanceState;
use crate::materialization::CompleteWakeResultView;
use crate::materialization::MaterializationRecordView;
use crate::materialization::MaterializationTargetView;
use crate::postgres::mapping;
use crate::postgres::mapping::RouteRowView;
use crate::postgres::route_ops;
use crate::route;
use crate::route::ProtocolRoute;
use crate::route::RouteBindingRecordView;
use crate::route::RouteEntryView;
use crate::route::RouteIdentityView;
use crate::route::RouteResolutionView;
use crate::store::StoreErrorView;
use crate::text;
use crate::wake::WakeInstanceErrorView;
use crate::wake::WakeInstanceResultView;
use crate::wake::WakeUnavailableReason;

verus! {

/// A proxy's wake is passed on as it was asked for, to the target that is configured; it
/// has to name an instance.
pub proof fn lemma_wake_is_passed_on(
    request: pb::ProxyWakeInstanceRequestView,
    target: MaterializationTargetView,
)
    ensures
        proxy::wake_request_of(request, target) is Ok <==> !text::is_blank(request.instance_id),
        proxy::wake_request_of(request, target) matches Ok(wake) ==> {
            &&& wake.instance_id == request.instance_id
            &&& wake.expected_generation == request.expected_generation
            &&& wake.target == target
            &&& (wake.backend_generation is Some) == (request.backend_generation is Some)
            &&& request.backend_generation matches Some(generation) ==> wake.backend_generation->0
                == generation
        },
        proxy::wake_request_of(request, target) matches Err(status) ==> status.code
            == StatusCode::InvalidArgument,
{
}

/// A proxy that woke an instance, or found it awake, is told the instance, its generation
/// and the backend of the materialization that is ready, with its generation. Without a
/// backend it is told that it cannot be reached.
pub proof fn lemma_woken_instance_is_told_with_its_backend(
    asked: Seq<char>,
    instance: InstanceRecordView,
    materialization: MaterializationRecordView,
    timeout: Duration,
)
    requires
        instance.generation <= u64::MAX,
        materialization.backend_generation <= u64::MAX,
    ensures
        ({
            let completed = proxy::wake_response_of(
                asked,
                Ok(
                    WakeInstanceResultView::Completed {
                        result: CompleteWakeResultView { instance, materialization },
                    },
                ),
                timeout,
            );
            let running = proxy::wake_response_of(
                asked,
                Ok(WakeInstanceResultView::AlreadyRunning { instance, materialization }),
                timeout,
            );
            &&& completed == running
            &&& completed is Ok <==> materialization.backend is Some
            &&& completed matches Ok(response) ==> {
                &&& response.outcome matches Some(pb::ProxyWakeOutcomeView::Ready(ready))
                &&& ready.instance_id == instance.id
                &&& ready.instance_generation == instance.generation
                &&& Some(ready.backend_uri) == materialization.backend
                &&& ready.backend_generation == materialization.backend_generation
            }
            &&& completed matches Err(status) ==> status.code == StatusCode::FailedPrecondition
        }),
{
}

/// A proxy whose instance wakes already is told to wait for it; one that expected another
/// generation is told both; and one whose instance is being deleted is told that.
pub proof fn lemma_unwoken_instance_is_told_why(
    asked: Seq<char>,
    instance: InstanceRecordView,
    reason: WakeUnavailableReason,
    expected: u64,
    actual: u64,
    timeout: Duration,
)
    requires
        instance.generation <= u64::MAX,
    ensures
        proxy::wake_response_of(
            asked,
            Ok(WakeInstanceResultView::AlreadyWaking { instance }),
            timeout,
        ) matches Ok(response) && {
            &&& response.outcome matches Some(pb::ProxyWakeOutcomeView::StillWaking(waking))
            &&& waking.instance_id == instance.id
            &&& waking.instance_generation == instance.generation
        },
        proxy::wake_response_of(
            asked,
            Err(
                WakeInstanceErrorView::GenerationConflict {
                    expected: expected as nat,
                    actual: actual as nat,
                },
            ),
            timeout,
        ) matches Ok(response) && {
            &&& response.outcome matches Some(
                pb::ProxyWakeOutcomeView::GenerationConflict(conflict),
            )
            &&& conflict.instance_id == asked
            &&& conflict.expected_generation == expected
            &&& conflict.actual_generation == actual
        },
        proxy::wake_response_of(
            asked,
            Err(WakeInstanceErrorView::Unavailable { instance, reason }),
            timeout,
        ) matches Ok(response) && {
            &&& response.outcome matches Some(
                pb::ProxyWakeOutcomeView::Unavailable(unavailable),
            )
            &&& unavailable.instance_id == instance.id
            &&& unavailable.instance_generation == instance.generation
            &&& unavailable.reason == pb::ProxyWakeUnavailableReason::Deleting <==> reason
                == WakeUnavailableReason::Deleting
            &&& unavailable.reason == pb::ProxyWakeUnavailableReason::Deleted <==> reason
                == WakeUnavailableReason::Deleted
        },
        proxy::wake_response_of(asked, Err(WakeInstanceErrorView::NotFound), timeout) matches Err(
            status,
        ) && status.code == StatusCode::NotFound,
{
}

/// A proxy is told that an instance is ready only where it was woken or runs.
pub proof fn lemma_ready_means_running(
    asked: Seq<char>,
    result: Result<WakeInstanceResultView, WakeInstanceErrorView>,
    timeout: Duration,
)
    ensures
        proxy::wake_response_of(asked, result, timeout) matches Ok(response) ==> (
        response.outcome matches Some(pb::ProxyWakeOutcomeView::Ready(_)) ==> result is Ok && !(
        result->Ok_0 is AlreadyWaking)),
{
}

/// The entry that a proxy gets has the backend of the materialization that is ready, both
/// its endpoint and its generation, or neither; all else is as it was found.
pub proof fn lemma_entry_gets_the_ready_backend(
    entry: RouteEntryView,
    materialization: Option<MaterializationRecordView>,
)
    ensures
        ({
            let told = proxy::with_ready_backend(entry, materialization);
            &&& told.route_binding_id == entry.route_binding_id
            &&& told.instance_id == entry.instance_id
            &&& told.instance_state == entry.instance_state
            &&& told.instance_generation == entry.instance_generation
            &&& told.backend is Some <==> told.backend_generation is Some
            &&& materialization is Some && materialization->0.backend is Some ==> {
                &&& told.backend == materialization->0.backend
                &&& told.backend_generation == Some(materialization->0.backend_generation)
            }
            &&& materialization is None || materialization->0.backend is None
                ==> told.backend is None
        }),
{
}

/// The message of an entry says what the entry says.
pub proof fn lemma_entry_is_told_as_it_is(entry: RouteEntryView)
    requires
        entry.instance_generation <= u64::MAX,
        entry.backend_generation matches Some(generation) ==> generation <= u64::MAX,
    ensures
        ({
            let told = proxy::entry_message(entry);
            &&& told.route_binding_id == entry.route_binding_id
            &&& told.instance_id == entry.instance_id
            &&& told.instance_generation == entry.instance_generation
            &&& told.backend_uri == entry.backend
            &&& (told.backend_generation is Some) == (entry.backend_generation is Some)
            &&& entry.backend_generation matches Some(generation) ==> told.backend_generation->0
                == generation
            &&& told.instance_state == pb::InstanceState::Cold <==> entry.instance_state
                == InstanceState::Cold
            &&& told.instance_state == pb::InstanceState::Waking <==> entry.instance_state
                == InstanceState::Waking
            &&& told.instance_state == pb::InstanceState::Running <==> entry.instance_state
                == InstanceState::Running
            &&& told.instance_state == pb::InstanceState::Draining <==> entry.instance_state
                == InstanceState::Draining
            &&& told.instance_state == pb::InstanceState::Failed <==> entry.instance_state
                == InstanceState::Failed
            &&& told.instance_state == pb::InstanceState::Deleting <==> entry.instance_state
                == InstanceState::Deleting
            &&& told.instance_state == pb::InstanceState::Deleted <==> entry.instance_state
                == InstanceState::Deleted
        }),
{
}

/// For a route that was found, the ready materialization of its instance is loaded, in the
/// generation that the instance has and on the target that is configured. A route that was
/// not found is answered as such, with what was asked for and for how long that holds.
pub proof fn lemma_found_route_asks_for_its_backend(
    request_id: Seq<char>,
    identity: RouteIdentityView,
    target: MaterializationTargetView,
    resolution: RouteResolutionView,
    timeout: Duration,
)
    ensures
        ({
            let step = proxy::resolve_step(request_id, identity, target, Ok(resolution), timeout);
            &&& step is Ok
            &&& resolution matches RouteResolutionView::Resolved { matched_identity, entry } ==> {
                &&& step->Ok_0 matches ResolveStepView::LoadReady {
                    matched_identity: told,
                    entry: kept,
                    request,
                }
                &&& told == matched_identity
                &&& kept == entry
                &&& request.instance_id == entry.instance_id
                &&& request.instance_generation == entry.instance_generation
                &&& request.target == target
            }
            &&& resolution matches RouteResolutionView::Miss { negative_cache } ==> {
                &&& step->Ok_0 matches ResolveStepView::Respond(response)
                &&& response.output matches Some(pb::ProxySubscribeOutputView::RouteMiss(miss))
                &&& miss.request_id == request_id
                &&& miss.request_identity == Some(server::identity_message(identity))
                &&& miss.negative_cache_policy is Some
                &&& negative_cache / 1_000_000 <= u64::MAX
                    ==> miss.negative_cache_policy->0.ttl_millis == negative_cache / 1_000_000
            }
        }),
{
}

/// A route that was found is answered and subscribed to at once: the answer names the
/// subscription that was made, under a number that none had before, the identity that
/// matched, and the entry with the backend that is ready. The subscriptions that were there
/// stay as they are.
pub proof fn lemma_found_route_is_subscribed_to(
    state: RouteSubscriptionsView,
    request_id: Seq<char>,
    request_identity: RouteIdentityView,
    matched_identity: RouteIdentityView,
    entry: RouteEntryView,
    materialization: Option<MaterializationRecordView>,
    timeout: Duration,
)
    requires
        state.last_number < u64::MAX,
        proxy::numbered(state.subscriptions, state.last_number),
    ensures
        ({
            let (after, answer) = proxy::ready_step(
                state,
                request_id,
                request_identity,
                matched_identity,
                entry,
                Ok(materialization),
                timeout,
            );
            let made = after.subscriptions.last();
            &&& after.last_number == state.last_number + 1
            &&& after.subscriptions.len() == state.subscriptions.len() + 1
            &&& after.subscriptions.drop_last() == state.subscriptions
            &&& made.number == after.last_number
            &&& forall|i: int|
                0 <= i < state.subscriptions.len() ==> (#[trigger] state.subscriptions[i]).number
                    < made.number
            &&& made.route.route_binding_id == entry.route_binding_id
            &&& made.route.request_identity == request_identity
            &&& made.route.matched_identity == matched_identity
            &&& made.route.protocol == ProtocolRoute::Http <==> matched_identity is Http
            &&& answer is Ok
            &&& answer->Ok_0.output matches Some(
                pb::ProxySubscribeOutputView::RouteResolved(told),
            )
            &&& told.request_id == request_id
            &&& told.subscription_id == "sub:"@ + text::decimal(made.number as nat)
            &&& told.matched_identity == Some(server::identity_message(matched_identity))
            &&& told.route is Some
            &&& told.route->0.route_binding_id == entry.route_binding_id
            &&& told.route->0.instance_id == entry.instance_id
            &&& told.route->0.backend_uri == match materialization {
                Some(ready) => ready.backend,
                None => None,
            }
            &&& told.cache_policy is Some
            &&& told.cache_policy->0.ttl_millis == 10_000
        }),
{
    let (after, answer) = proxy::ready_step(
        state,
        request_id,
        request_identity,
        matched_identity,
        entry,
        Ok(materialization),
        timeout,
    );
    assert(after.subscriptions.drop_last() =~= state.subscriptions);
}

/// Where the ready materialization cannot be loaded, nothing is subscribed to.
pub proof fn lemma_failed_load_subscribes_to_nothing(
    state: RouteSubscriptionsView,
    request_id: Seq<char>,
    request_identity: RouteIdentityView,
    matched_identity: RouteIdentityView,
    entry: RouteEntryView,
    error: StoreErrorView,
    timeout: Duration,
)
    ensures
        proxy::ready_step(
            state,
            request_id,
            request_identity,
            matched_identity,
            entry,
            Err(error),
            timeout,
        ).0 == state,
        proxy::ready_step(
            state,
            request_id,
            request_identity,
            matched_identity,
            entry,
            Err(error),
            timeout,
        ).1 is Err,
{
}

/// A subscription ends with its route: it is told that the route was removed when it was,
/// that it was changed when it was bound anew, and nothing when another was removed. A
/// change to an instance ends none.
pub proof fn lemma_subscription_ends_with_its_route(
    subscription: ActiveRouteSubscriptionView,
    route_binding_id: Seq<char>,
    identity: Option<RouteIdentityView>,
    protocol: Option<ProtocolRoute>,
    event: RouteBindingChangeView,
)
    ensures
        proxy::invalidation_of(
            subscription,
            RouteBindingChangeView::Route { route_binding_id, removed: true, identity, protocol },
        ) == if subscription.route_binding_id == route_binding_id {
            Some(RouteBindingChangeReason::Removed)
        } else {
            None
        },
        subscription.route_binding_id == route_binding_id ==> proxy::invalidation_of(
            subscription,
            RouteBindingChangeView::Route { route_binding_id, removed: false, identity, protocol },
        ) == Some(RouteBindingChangeReason::Changed),
        !(event is Route) ==> proxy::invalidation_of(subscription, event) is None,
{
}

/// A proxy never keeps a route once a better one is bound: where a new route would be found
/// for what it asked in place of the one that was, its subscription is told that the route
/// changed; and where the old one would still be found, the subscription stays.
pub proof fn lemma_better_route_ends_the_subscription(
    rows: Seq<RouteRowView>,
    row: RouteRowView,
    lookup: RouteIdentityView,
    found: RouteBindingRecordView,
)
    requires
        route_ops::found_route(rows, lookup) == Ok::<
            Option<RouteBindingRecordView>,
            StoreErrorView,
        >(Some(found)),
        mapping::route_of(row) is Ok,
        mapping::protocol_problem(
            mapping::route_of(row)->Ok_0.identity,
            mapping::route_of(row)->Ok_0.protocol,
        ) is None,
        mapping::route_of(row)->Ok_0.id != found.id,
    ensures
        ({
            let bound = mapping::route_of(row)->Ok_0;
            let ended = proxy::invalidation_of(
                ActiveRouteSubscriptionView {
                    route_binding_id: found.id,
                    request_identity: lookup,
                    matched_identity: found.identity,
                    protocol: proxy::protocol_of_identity(found.identity),
                },
                RouteBindingChangeView::Route {
                    route_binding_id: bound.id,
                    removed: false,
                    identity: Some(bound.identity),
                    protocol: Some(bound.protocol),
                },
            );
            let now = route_ops::found_route(rows.push(row), lookup);
            &&& now is Ok
            &&& now->Ok_0 == Some(found) || now->Ok_0 == Some(bound)
            &&& ended == Some(RouteBindingChangeReason::Changed) <==> now->Ok_0 == Some(bound)
            &&& ended is None <==> now->Ok_0 == Some(found)
        }),
{
    assert(rows.push(row).drop_last() =~= rows);
    route_ops::lemma_best_route_matches(rows, lookup);
}

/// Whether a response tells the end of a subscription, and why it ended.
pub open spec fn tells_the_end_of(
    response: pb::ProxySubscribeResponseView,
    number: u64,
    reason: RouteBindingChangeReason,
) -> bool {
    &&& response.output matches Some(pb::ProxySubscribeOutputView::RouteInvalidated(ended))
    &&& ended.subscription_id == "sub:"@ + text::decimal(number as nat)
    &&& ended.reason == pb::ProxyRouteInvalidationReason::RouteRemoved <==> reason
        == RouteBindingChangeReason::Removed
    &&& ended.reason == pb::ProxyRouteInvalidationReason::RouteChanged <==> reason
        == RouteBindingChangeReason::Changed
}

/// A change ends the subscriptions that it makes invalid, each of which is told so under
/// its id and with the reason, and leaves all others; no number is given anew.
pub proof fn lemma_change_is_told_to_those_it_ends(
    state: RouteSubscriptionsView,
    event: RouteBindingChangeView,
    i: int,
)
    requires
        0 <= i < state.subscriptions.len(),
    ensures
        ({
            let (after, step) = proxy::stream_step(state, SubscribeInputView::Event(event));
            let subscription = state.subscriptions[i];
            &&& step matches SubscribeStepView::Send(told)
            &&& after.last_number == state.last_number
            &&& after.subscriptions.len() + told.len() == state.subscriptions.len()
            &&& proxy::invalidation_of(subscription.route, event) is None
                ==> after.subscriptions.contains(subscription)
            &&& proxy::invalidation_of(subscription.route, event) matches Some(reason) ==> exists|
                k: int,
            |
                0 <= k < told.len() && #[trigger] tells_the_end_of(
                    told[k],
                    subscription.number,
                    reason,
                )
        }),
{
    proxy::lemma_subscriptions_stay_or_are_told(state.subscriptions, event, i);
    let subscription = state.subscriptions[i];
    let step = proxy::stream_step(state, SubscribeInputView::Event(event)).1;
    assert(step == SubscribeStepView::Send(proxy::invalidations(state.subscriptions, event)));
    if let Some(reason) = proxy::invalidation_of(subscription.route, event) {
        let told = proxy::invalidations(state.subscriptions, event);
        let response = proxy::invalidated_response(subscription.number, reason);
        let k = choose|k: int| 0 <= k < told.len() && told[k] == response;
        assert(tells_the_end_of(step->Send_0[k], subscription.number, reason));
    }
}

/// Whoever unsubscribes ends the subscription that it names and no other.
pub proof fn lemma_unsubscribing_ends_one_subscription(
    state: RouteSubscriptionsView,
    id: Seq<char>,
    i: int,
)
    requires
        0 <= i < state.subscriptions.len(),
        !text::is_blank(id),
    ensures
        ({
            let (after, step) = proxy::stream_step(
                state,
                SubscribeInputView::Request(
                    pb::ProxySubscribeRequestView {
                        input: Some(
                            pb::ProxySubscribeInputView::Unsubscribe(
                                pb::ProxyUnsubscribeRequestView { subscription_id: id },
                            ),
                        ),
                    },
                ),
            );
            &&& step is Continue
            &&& after.last_number == state.last_number
            &&& after.subscriptions.contains(state.subscriptions[i]) <==> "sub:"@ + text::decimal(
                state.subscriptions[i].number as nat,
            ) != id
        }),
{
    lemma_kept(state.subscriptions, proxy::other_than(id), i);
    let after = proxy::without(state.subscriptions, id);
    if after.contains(state.subscriptions[i]) {
        let k = choose|k: int| 0 <= k < after.len() && after[k] == state.subscriptions[i];
        proxy::lemma_unsubscribed_is_gone(state.subscriptions, id, k);
    }
}

proof fn lemma_kept(
    subscriptions: Seq<RouteSubscriptionView>,
    keep: spec_fn(RouteSubscriptionView) -> bool,
    i: int,
)
    requires
        0 <= i < subscriptions.len(),
    ensures
        keep(subscriptions[i]) ==> proxy::kept(subscriptions, keep).contains(subscriptions[i]),
    decreases subscriptions.len(),
{
    let before = subscriptions.drop_last();
    let all = proxy::kept(subscriptions, keep);
    if keep(subscriptions[i]) {
        if i < before.len() {
            assert(before[i] == subscriptions[i]);
            lemma_kept(before, keep, i);
            let some = proxy::kept(before, keep);
            let k = choose|k: int| 0 <= k < some.len() && some[k] == subscriptions[i];
            assert(all[k] == subscriptions[i]);
        } else {
            assert(all[all.len() - 1] == subscriptions[i]);
        }
    }
}

/// A stream that missed changes fails, so that nothing stale is kept; one that ends, ends;
/// and one that is told of no more changes goes on.
pub proof fn lemma_stream_fails_rather_than_miss_changes(
    state: RouteSubscriptionsView,
    error: ApiStatusView,
)
    ensures
        proxy::stream_step(state, SubscribeInputView::Lagged).1 matches SubscribeStepView::Fail(
            status,
        ) && status.code == StatusCode::Unavailable,
        proxy::stream_step(state, SubscribeInputView::Ended) == (state, SubscribeStepView::End),
        proxy::stream_step(state, SubscribeInputView::Failed(error)) == (
            state,
            SubscribeStepView::Fail(error),
        ),
        proxy::stream_step(state, SubscribeInputView::EventsClosed) == (
            state,
            SubscribeStepView::Continue,
        ),
{
}

/// A request for a route that names what it wants is looked up under its own id; it changes
/// no subscription.
pub proof fn lemma_route_is_looked_up_as_asked(
    state: RouteSubscriptionsView,
    request: pb::ProxySubscribeRouteRequestView,
)
    ensures
        ({
            let (after, step) = proxy::stream_step(
                state,
                SubscribeInputView::Request(
                    pb::ProxySubscribeRequestView {
                        input: Some(pb::ProxySubscribeInputView::SubscribeRoute(request)),
                    },
                ),
            );
            &&& after == state
            &&& step is Resolve <==> {
                &&& !text::is_blank(request.request_id)
                &&& request.identity is Some
                &&& server::identity_problem(request.identity->0) is None
            }
            &&& step matches SubscribeStepView::Resolve { request_id, identity } ==> {
                &&& request_id == request.request_id
                &&& identity == server::identity_of(request.identity->0)
            }
            &&& !(step is Resolve) ==> (step matches SubscribeStepView::Fail(status) && status.code
                == StatusCode::InvalidArgument)
        }),
{
}

} // verus!

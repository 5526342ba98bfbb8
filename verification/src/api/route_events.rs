//! What subscribers are told of routes and instances.
use vstd::prelude::*;

use crate::ids;
use crate::ids::InstanceId;
use crate::ids::RouteBindingId;
use crate::json;
use crate::json::Json;
use crate::outcome;
use crate::route;
use crate::route::PathPrefix;
use crate::route::ProtocolRoute;
use crate::route::RouteBindingRecord;
use crate::route::RouteHost;
use crate::route::RouteHostKind;
use crate::route::RouteHostView;
use crate::route::RouteIdentity;
use crate::route::RouteIdentityView;
use crate::store::StoreError;
use crate::store::StoreErrorView;
use crate::text;

verus! {

/// How many changes wait for a subscriber that is behind.
pub const ROUTE_EVENT_BUFFER: usize = 1024;

/// A change that subscribers are told of: a route was removed or bound anew, an
/// instance changed, or changes were lost.
#[derive(Debug, PartialEq, Eq)]
pub enum RouteBindingChange {
    Route {
        route_binding_id: RouteBindingId,
        removed: bool,
        identity: Option<RouteIdentity>,
        protocol: Option<ProtocolRoute>,
    },
    Instance(InstanceId),
    Reset,
}

/// What a [`RouteBindingChange`] holds.
#[verifier::ext_equal]
pub enum RouteBindingChangeView {
    Route {
        route_binding_id: Seq<char>,
        removed: bool,
        identity: Option<RouteIdentityView>,
        protocol: Option<ProtocolRoute>,
    },
    Instance(Seq<char>),
    Reset,
}

impl DeepView for RouteBindingChange {
    type V = RouteBindingChangeView;

    open spec fn deep_view(&self) -> RouteBindingChangeView {
        match self {
            RouteBindingChange::Route {
                route_binding_id,
                removed,
                identity,
                protocol,
            } => RouteBindingChangeView::Route {
                route_binding_id: route_binding_id.deep_view(),
                removed: removed.deep_view(),
                identity: identity.deep_view(),
                protocol: protocol.deep_view(),
            },
            RouteBindingChange::Instance(value) => RouteBindingChangeView::Instance(
                value.deep_view(),
            ),
            RouteBindingChange::Reset => RouteBindingChangeView::Reset,
        }
    }
}

impl Clone for RouteBindingChange {
    fn clone(&self) -> (r: Self)
        ensures
            r.deep_view() == self.deep_view(),
    {
        match self {
            RouteBindingChange::Route { route_binding_id, removed, identity, protocol } => {
                let identity_copy = identity.clone();
                assert(identity_copy.deep_view() =~= identity.deep_view());
                RouteBindingChange::Route {
                    route_binding_id: route_binding_id.clone(),
                    removed: *removed,
                    identity: identity_copy,
                    protocol: *protocol,
                }
            },
            RouteBindingChange::Instance(value) => RouteBindingChange::Instance(value.clone()),
            RouteBindingChange::Reset => RouteBindingChange::Reset,
        }
    }
}

/// The removal of a route.
pub open spec fn removed_change(route_binding_id: Seq<char>) -> RouteBindingChangeView {
    RouteBindingChangeView::Route {
        route_binding_id,
        removed: true,
        identity: None,
        protocol: None,
    }
}

/// A route that was bound anew.
pub open spec fn changed_change(
    route_binding_id: Seq<char>,
    identity: RouteIdentityView,
    protocol: ProtocolRoute,
) -> RouteBindingChangeView {
    RouteBindingChangeView::Route {
        route_binding_id,
        removed: false,
        identity: Some(identity),
        protocol: Some(protocol),
    }
}

impl RouteBindingChange {
    /// The removal of a route.
    pub fn route_removed(route_binding_id: RouteBindingId) -> (r: Self)
        ensures
            r.deep_view() == removed_change(route_binding_id@),
    {
        RouteBindingChange::Route {
            route_binding_id,
            removed: true,
            identity: None,
            protocol: None,
        }
    }

    /// A route that was bound anew.
    pub fn route_changed(
        route_binding_id: RouteBindingId,
        identity: RouteIdentity,
        protocol: ProtocolRoute,
    ) -> (r: Self)
        ensures
            r.deep_view() == changed_change(route_binding_id@, identity.deep_view(), protocol),
    {
        RouteBindingChange::Route {
            route_binding_id,
            removed: false,
            identity: Some(identity),
            protocol: Some(protocol),
        }
    }

    /// The removal of each of several routes.
    pub fn routes_removed(bindings: &Vec<RouteBindingRecord>) -> (r: Vec<RouteBindingChange>)
        ensures
            r.deep_view() == Seq::new(
                bindings@.len(),
                |i: int| removed_change(bindings.deep_view()[i].id),
            ),
    {
        let ghost all = Seq::new(
            bindings@.len(),
            |i: int| removed_change(bindings.deep_view()[i].id),
        );
        let mut changes: Vec<RouteBindingChange> = Vec::new();
        let mut i: usize = 0;
        assert(changes.deep_view() =~= all.take(0));
        while i < bindings.len()
            invariant
                0 <= i <= bindings.len(),
                all == Seq::new(
                    bindings@.len(),
                    |i: int| removed_change(bindings.deep_view()[i].id),
                ),
                changes.deep_view() == all.take(i as int),
            decreases bindings.len() - i,
        {
            let ghost before = changes.deep_view();
            let change = RouteBindingChange::route_removed(bindings[i].id.clone());
            proof {
                assert(bindings.deep_view()[i as int] == bindings@[i as int].deep_view());
                assert(all[i as int] == change.deep_view());
            }
            changes.push(change);
            proof {
                assert(changes.deep_view() =~= before.push(change.deep_view()));
                assert(all.take(i + 1) =~= all.take(i as int).push(all[i as int]));
            }
            i = i + 1;
        }
        assert(all.take(i as int) =~= all);
        changes
    }

    /// Each of several routes, bound anew.
    pub fn routes_changed(bindings: &Vec<RouteBindingRecord>) -> (r: Vec<RouteBindingChange>)
        ensures
            r.deep_view() == Seq::new(
                bindings@.len(),
                |i: int|
                    changed_change(
                        bindings.deep_view()[i].id,
                        bindings.deep_view()[i].identity,
                        bindings.deep_view()[i].protocol,
                    ),
            ),
    {
        let ghost all = Seq::new(
            bindings@.len(),
            |i: int|
                changed_change(
                    bindings.deep_view()[i].id,
                    bindings.deep_view()[i].identity,
                    bindings.deep_view()[i].protocol,
                ),
        );
        let mut changes: Vec<RouteBindingChange> = Vec::new();
        let mut i: usize = 0;
        assert(changes.deep_view() =~= all.take(0));
        while i < bindings.len()
            invariant
                0 <= i <= bindings.len(),
                all == Seq::new(
                    bindings@.len(),
                    |i: int|
                        changed_change(
                            bindings.deep_view()[i].id,
                            bindings.deep_view()[i].identity,
                            bindings.deep_view()[i].protocol,
                        ),
                ),
                changes.deep_view() == all.take(i as int),
            decreases bindings.len() - i,
        {
            let ghost before = changes.deep_view();
            let binding = &bindings[i];
            let change = RouteBindingChange::route_changed(
                binding.id.clone(),
                binding.identity.clone(),
                binding.protocol,
            );
            proof {
                assert(bindings.deep_view()[i as int] == bindings@[i as int].deep_view());
                assert(all[i as int] == change.deep_view());
            }
            changes.push(change);
            proof {
                assert(changes.deep_view() =~= before.push(change.deep_view()));
                assert(all.take(i + 1) =~= all.take(i as int).push(all[i as int]));
            }
            i = i + 1;
        }
        assert(all.take(i as int) =~= all);
        changes
    }
}

/// A stored change that cannot be read.
pub open spec fn broken_event(message: Seq<char>) -> StoreErrorView {
    StoreErrorView::Internal { message }
}

/// A text member of a stored change.
pub open spec fn event_field(payload: Json, name: Seq<char>) -> Result<Seq<char>, StoreErrorView> {
    match json::json_text(json::json_member(payload, name)) {
        Some(text) => Ok(text),
        None => Err(broken_event("invalid durable route event"@)),
    }
}

/// The host of a stored change.
pub open spec fn event_host(payload: Json) -> Result<RouteHostView, StoreErrorView> {
    match (event_field(payload, "host_kind"@), event_field(payload, "host"@)) {
        (Err(error), _) => Err(error),
        (_, Err(error)) => Err(error),
        (Ok(kind), Ok(host)) => {
            let exact = kind == "exact"@;
            let name = if exact {
                route::normal_host(host)
            } else {
                route::without_wildcard(route::normal_host(host))
            };
            if text::is_blank(name) {
                Err(broken_event("route host must not be empty"@))
            } else {
                Ok(
                    RouteHostView {
                        kind: if exact {
                            RouteHostKind::Exact
                        } else {
                            RouteHostKind::WildcardSuffix
                        },
                        host: name,
                    },
                )
            }
        },
    }
}

/// The identity and the protocol of a stored change to a route.
pub open spec fn event_identity(payload: Json, host: RouteHostView) -> Result<
    (RouteIdentityView, ProtocolRoute),
    StoreErrorView,
> {
    match event_field(payload, "identity_kind"@) {
        Err(error) => Err(error),
        Ok(kind) => if kind == "http"@ {
            let path = json::json_text(json::json_member(payload, "path_prefix"@));
            if path matches Some(path) && !text::has_prefix(path, "/"@) {
                Err(broken_event("path prefix must start with '/'"@))
            } else {
                Ok((RouteIdentityView::Http { host, path }, ProtocolRoute::Http))
            }
        } else {
            Ok((RouteIdentityView::Sni { host }, ProtocolRoute::TlsSni))
        },
    }
}

/// The change that a stored change tells of.
pub open spec fn durable_change_of(payload: Json) -> Result<
    RouteBindingChangeView,
    StoreErrorView,
> {
    match event_field(payload, "kind"@) {
        Err(error) => Err(error),
        Ok(kind) => if kind == "instance"@ {
            match event_field(payload, "instance_id"@) {
                Err(error) => Err(error),
                Ok(id) => if text::is_blank(id) {
                    Err(broken_event(ids::empty_string_message("InstanceId"@)))
                } else {
                    Ok(RouteBindingChangeView::Instance(id))
                },
            }
        } else {
            match event_field(payload, "route_binding_id"@) {
                Err(error) => Err(error),
                Ok(id) => if text::is_blank(id) {
                    Err(broken_event(ids::empty_string_message("RouteBindingId"@)))
                } else if json::json_bool(json::json_member(payload, "removed"@)) == Some(true) {
                    Ok(removed_change(id))
                } else {
                    match event_host(payload) {
                        Err(error) => Err(error),
                        Ok(host) => match event_identity(payload, host) {
                            Err(error) => Err(error),
                            Ok((identity, protocol)) => Ok(changed_change(id, identity, protocol)),
                        },
                    }
                },
            }
        },
    }
}

fn field<'a>(payload: &'a serde_json::Value, name: &str) -> (r: Result<&'a str, StoreError>)
    ensures
        outcome::of(r) == event_field(json::json_of(*payload), name@),
{
    match json::text_member(payload, name) {
        Some(text) => Ok(text),
        None => Err(StoreError::internal("invalid durable route event")),
    }
}

fn read_host(payload: &serde_json::Value) -> (r: Result<RouteHost, StoreError>)
    ensures
        outcome::of(r) == event_host(json::json_of(*payload)),
{
    let kind = match field(payload, "host_kind") {
        Ok(kind) => kind,
        Err(error) => return Err(error),
    };
    let host = match field(payload, "host") {
        Ok(host) => host,
        Err(error) => return Err(error),
    };
    let read = if text::same(kind, "exact") {
        RouteHost::exact(host)
    } else {
        RouteHost::wildcard_suffix(host)
    };
    match read {
        Ok(host) => Ok(host),
        Err(error) => Err(StoreError::internal(error.to_string().as_str())),
    }
}

fn read_identity(payload: &serde_json::Value, host: RouteHost) -> (r: Result<
    (RouteIdentity, ProtocolRoute),
    StoreError,
>)
    ensures
        outcome::of(r) == event_identity(json::json_of(*payload), host.deep_view()),
{
    let kind = match field(payload, "identity_kind") {
        Ok(kind) => kind,
        Err(error) => return Err(error),
    };
    if text::same(kind, "http") {
        let path = match json::text_member(payload, "path_prefix") {
            None => None,
            Some(path) => match PathPrefix::new(path) {
                Ok(path) => Some(path),
                Err(error) => {
                    return Err(StoreError::internal(error.to_string().as_str()));
                },
            },
        };
        Ok((RouteIdentity::Http { host, path }, ProtocolRoute::Http))
    } else {
        Ok((RouteIdentity::Sni { host }, ProtocolRoute::TlsSni))
    }
}

/// The change that a stored change tells of.
pub fn durable_change(payload: &serde_json::Value) -> (r: Result<RouteBindingChange, StoreError>)
    ensures
        outcome::of(r) == durable_change_of(json::json_of(*payload)),
{
    let kind = match field(payload, "kind") {
        Ok(kind) => kind,
        Err(error) => return Err(error),
    };
    if text::same(kind, "instance") {
        let id = match field(payload, "instance_id") {
            Ok(id) => id,
            Err(error) => return Err(error),
        };
        return match InstanceId::new(id) {
            Ok(id) => Ok(RouteBindingChange::Instance(id)),
            Err(error) => Err(StoreError::internal(error.to_string().as_str())),
        };
    }
    let id = match field(payload, "route_binding_id") {
        Ok(id) => id,
        Err(error) => return Err(error),
    };
    let id = match RouteBindingId::new(id) {
        Ok(id) => id,
        Err(error) => return Err(StoreError::internal(error.to_string().as_str())),
    };
    let removed = match json::member(payload, "removed") {
        Some(removed) => match json::bool_of(removed) {
            Some(removed) => removed,
            None => false,
        },
        None => false,
    };
    if removed {
        return Ok(RouteBindingChange::route_removed(id));
    }
    let host = match read_host(payload) {
        Ok(host) => host,
        Err(error) => return Err(error),
    };
    match read_identity(payload, host) {
        Ok((identity, protocol)) => Ok(RouteBindingChange::route_changed(id, identity, protocol)),
        Err(error) => Err(error),
    }
}

} // verus!

//! Telling a repeated request from another one under the same key.
use serde_json::Value;
use vstd::prelude::*;

use super::mapping;
use crate::instance::CreateInstanceRequest;
use crate::instance::CreateInstanceRequestView;
use crate::json;
use crate::json::Json;
use crate::outcome;
use crate::route::CreateRouteBindingRequest;
use crate::route::CreateRouteBindingRequestView;
use crate::route::RouteBindingSpec;
use crate::route::RouteBindingSpecView;
use crate::route::RouteHost;
use crate::route::RouteHostView;
use crate::route::RouteIdentity;
use crate::route::RouteIdentityView;
use crate::store::StoreError;
use crate::store::StoreErrorView;
use crate::text;
use crate::workload::WorkloadClassVersionRefView;

verus! {

pub const CREATE_INSTANCE_OPERATION: &'static str = "create_instance";

pub const CREATE_ROUTE_BINDING_OPERATION: &'static str = "create_route_binding";

/// How many records are expired at once at most.
pub const MAX_EXPIRE_BATCH: u32 = 10_000;

/// The fingerprint of a host.
pub open spec fn host_fingerprint(host: RouteHostView) -> Json {
    Json::Object(
        json::nothing().insert("kind"@, Json::Text(mapping::host_kind_name(host.kind))).insert(
            "host"@,
            Json::Text(host.host),
        ),
    )
}

/// The fingerprint of what tells a route.
pub open spec fn identity_fingerprint(identity: RouteIdentityView) -> Json {
    match identity {
        RouteIdentityView::Http { host, path } => Json::Object(
            json::nothing().insert("kind"@, Json::Text("http"@)).insert(
                "host"@,
                host_fingerprint(host),
            ).insert(
                "path"@,
                match path {
                    Some(path) => Json::Text(path),
                    None => Json::Null,
                },
            ),
        ),
        RouteIdentityView::Sni { host } => Json::Object(
            json::nothing().insert("kind"@, Json::Text("sni"@)).insert(
                "host"@,
                host_fingerprint(host),
            ),
        ),
    }
}

/// The fingerprint of a route of a new instance.
pub open spec fn spec_fingerprint(spec: RouteBindingSpecView) -> Json {
    Json::Object(
        json::nothing().insert("identity"@, identity_fingerprint(spec.identity)).insert(
            "protocol"@,
            Json::Text(mapping::protocol_name(spec.protocol)),
        ),
    )
}

/// The fingerprint of a workload class version.
pub open spec fn class_fingerprint(class: WorkloadClassVersionRefView) -> Json {
    Json::Object(
        json::nothing().insert("class_id"@, Json::Text(class.class_id)).insert(
            "version"@,
            Json::Number(class.version as u64),
        ),
    )
}

/// The fingerprint of a request for an instance.
pub open spec fn instance_fingerprint(request: CreateInstanceRequestView) -> Json {
    Json::Object(
        json::nothing().insert("operation"@, Json::Text("create_instance"@)).insert(
            "instance_id"@,
            Json::Text(request.instance_id),
        ).insert("workload_class"@, class_fingerprint(request.workload_class)).insert(
            "values"@,
            json::text_map(request.values),
        ).insert(
            "route_bindings"@,
            Json::Array(
                Seq::new(
                    request.route_bindings.len(),
                    |i: int| spec_fingerprint(request.route_bindings[i]),
                ),
            ),
        ),
    )
}

/// The fingerprint of a request for a route.
pub open spec fn route_fingerprint(request: CreateRouteBindingRequestView) -> Json {
    Json::Object(
        json::nothing().insert("operation"@, Json::Text("create_route_binding"@)).insert(
            "route_binding_id"@,
            Json::Text(request.route_binding_id),
        ).insert("instance_id"@, Json::Text(request.instance_id)).insert(
            "identity"@,
            identity_fingerprint(request.identity),
        ).insert("protocol"@, Json::Text(mapping::protocol_name(request.protocol))),
    )
}

fn host_value(host: &RouteHost) -> (r: Value)
    ensures
        json::json_of(r) == host_fingerprint(host.deep_view()),
{
    let mut members = json::no_members();
    json::put_text(&mut members, "kind", mapping::route_host_kind_to_db(host.kind()));
    json::put_text(&mut members, "host", host.as_str());
    json::object_value(members)
}

fn route_identity_fingerprint(identity: &RouteIdentity) -> (r: Value)
    ensures
        json::json_of(r) == identity_fingerprint(identity.deep_view()),
{
    let mut members = json::no_members();
    match identity {
        RouteIdentity::Http { host, path } => {
            json::put_text(&mut members, "kind", "http");
            json::put(&mut members, "host", host_value(host));
            let path = match path {
                Some(path) => json::text_value(path.as_str()),
                None => json::null_value(),
            };
            json::put(&mut members, "path", path);
        },
        RouteIdentity::Sni { host } => {
            json::put_text(&mut members, "kind", "sni");
            json::put(&mut members, "host", host_value(host));
        },
    }
    json::object_value(members)
}

fn route_binding_fingerprint(spec: &RouteBindingSpec) -> (r: Value)
    ensures
        json::json_of(r) == spec_fingerprint(spec.deep_view()),
{
    let mut members = json::no_members();
    json::put(&mut members, "identity", route_identity_fingerprint(&spec.identity));
    json::put_text(&mut members, "protocol", mapping::protocol_to_db(spec.protocol));
    json::object_value(members)
}

/// The problem of each route of a new instance.
pub open spec fn spec_problems(specs: Seq<RouteBindingSpecView>) -> Seq<Option<StoreErrorView>> {
    Seq::new(
        specs.len(),
        |i: int| mapping::protocol_problem(specs[i].identity, specs[i].protocol),
    )
}

fn route_binding_values(specs: &Vec<RouteBindingSpec>) -> (r: Result<Vec<Value>, StoreError>)
    ensures
        match r {
            Ok(values) => outcome::first_problem(spec_problems(specs.deep_view()), 0) is None
                && Seq::new(values@.len(), |i: int| json::json_of(values@[i])) == Seq::new(
                specs@.len(),
                |i: int| spec_fingerprint(specs.deep_view()[i]),
            ),
            Err(error) => outcome::first_problem(spec_problems(specs.deep_view()), 0) == Some(
                error.deep_view(),
            ),
        },
{
    let ghost view = specs.deep_view();
    let ghost problems = spec_problems(view);
    let mut values: Vec<Value> = Vec::new();
    let mut i: usize = 0;
    while i < specs.len()
        invariant
            0 <= i <= specs.len(),
            view == specs.deep_view(),
            problems == spec_problems(view),
            values@.len() == i,
            forall|j: int|
                0 <= j < i ==> json::json_of(#[trigger] values@[j]) == spec_fingerprint(view[j]),
            forall|j: int| 0 <= j < i ==> (#[trigger] problems[j]) is None,
        decreases specs.len() - i,
    {
        let spec = &specs[i];
        proof {
            assert(view[i as int] == spec.deep_view());
            assert(problems[i as int] == mapping::protocol_problem(
                spec.deep_view().identity,
                spec.deep_view().protocol,
            ));
            outcome::lemma_first_problem(problems, 0, i as int);
        }
        if let Err(error) = mapping::validate_route_protocol(spec) {
            return Err(error);
        }
        values.push(route_binding_fingerprint(spec));
        i = i + 1;
    }
    proof {
        outcome::lemma_first_problem(problems, 0, i as int);
        assert(Seq::new(values@.len(), |i: int| json::json_of(values@[i])) =~= Seq::new(
            specs@.len(),
            |i: int| spec_fingerprint(view[i]),
        ));
    }
    Ok(values)
}

/// The fingerprint of a request for an instance. A route whose protocol is not that
/// of its identity has none.
pub fn create_instance_fingerprint(request: &CreateInstanceRequest) -> (r: Result<
    Value,
    StoreError,
>)
    ensures
        match r {
            Ok(value) => outcome::first_problem(
                spec_problems(request.deep_view().route_bindings),
                0,
            ) is None && json::json_of(value) == instance_fingerprint(request.deep_view()),
            Err(error) => outcome::first_problem(
                spec_problems(request.deep_view().route_bindings),
                0,
            ) == Some(error.deep_view()),
        },
{
    let routes = match route_binding_values(&request.route_bindings) {
        Ok(routes) => routes,
        Err(error) => return Err(error),
    };
    let mut class = json::no_members();
    json::put_text(&mut class, "class_id", request.workload_class.class_id.as_str());
    json::put_number(&mut class, "version", request.workload_class.version.get());
    let mut members = json::no_members();
    json::put_text(&mut members, "operation", "create_instance");
    json::put_text(&mut members, "instance_id", request.instance_id.as_str());
    json::put(&mut members, "workload_class", json::object_value(class));
    json::put(&mut members, "values", json::text_map_value(&request.values));
    json::put(&mut members, "route_bindings", json::array_value(routes));
    assert(request.route_bindings.deep_view().len() == request.route_bindings@.len());
    Ok(json::object_value(members))
}

/// The fingerprint of a request for a route. One whose protocol is not that of its
/// identity has none.
pub fn create_route_binding_fingerprint(request: &CreateRouteBindingRequest) -> (r: Result<
    Value,
    StoreError,
>)
    ensures
        match r {
            Ok(value) => mapping::protocol_problem(
                request.deep_view().identity,
                request.deep_view().protocol,
            ) is None && json::json_of(value) == route_fingerprint(request.deep_view()),
            Err(error) => mapping::protocol_problem(
                request.deep_view().identity,
                request.deep_view().protocol,
            ) == Some(error.deep_view()),
        },
{
    if let Err(error) = mapping::validate_route_protocol(&request.spec()) {
        return Err(error);
    }
    let mut members = json::no_members();
    json::put_text(&mut members, "operation", "create_route_binding");
    json::put_text(&mut members, "route_binding_id", request.route_binding_id.as_str());
    json::put_text(&mut members, "instance_id", request.instance_id.as_str());
    json::put(&mut members, "identity", route_identity_fingerprint(&request.identity));
    json::put_text(&mut members, "protocol", mapping::protocol_to_db(request.protocol));
    Ok(json::object_value(members))
}

pub fn idempotency_conflict() -> (r: StoreError)
    ensures
        r.deep_view() == StoreErrorView::IdempotencyConflict,
{
    StoreError::IdempotencyConflict
}

/// Checks that what is stored under a key is the same request: the same operation
/// with the same fingerprint.
pub fn check_replay(
    operation: &str,
    fingerprint: &Value,
    stored_operation: &str,
    stored_fingerprint: &Value,
) -> (r: Result<(), StoreError>)
    ensures
        outcome::problem(r) == if stored_operation@ == operation@ && json::same_value(
            *stored_fingerprint,
            *fingerprint,
        ) {
            None
        } else {
            Some(StoreErrorView::IdempotencyConflict)
        },
        r is Ok ==> json::json_of(*stored_fingerprint) == json::json_of(*fingerprint),
        stored_operation@ == operation@ && json::json_of(*stored_fingerprint) == json::json_of(
            *fingerprint,
        ) && json::exact(json::json_of(*fingerprint)) ==> r is Ok,
{
    if !text::same(stored_operation, operation) || !json::is_same(
        stored_fingerprint,
        fingerprint,
    ) {
        return Err(idempotency_conflict());
    }
    Ok(())
}

/// Checks how many records are to be expired at once, and gives the number as it
/// is stored.
pub fn expire_batch(limit: u32) -> (r: Result<i64, StoreError>)
    ensures
        outcome::of(r) == if limit == 0 || limit > 10_000 {
            Err(
                StoreErrorView::InvalidArgument {
                    message: "idempotency GC batch must be between 1 and 10000"@,
                },
            )
        } else {
            Ok(limit as i64)
        },
{
    if limit == 0 || limit > MAX_EXPIRE_BATCH {
        return Err(
            StoreError::invalid_argument("idempotency GC batch must be between 1 and 10000"),
        );
    }
    Ok(limit as i64)
}

proof fn lemma_names()
    ensures
        "kind"@ != "host"@,
        "kind"@ != "path"@,
        "host"@ != "path"@,
        "http"@ != "sni"@,
        "http"@ != "tls_sni"@,
        "exact"@ != "wildcard_suffix"@,
        "identity"@ != "protocol"@,
        "class_id"@ != "version"@,
{
    reveal_strlit("kind");
    reveal_strlit("host");
    reveal_strlit("path");
    reveal_strlit("http");
    reveal_strlit("sni");
    reveal_strlit("tls_sni");
    reveal_strlit("exact");
    reveal_strlit("wildcard_suffix");
    reveal_strlit("identity");
    reveal_strlit("protocol");
    reveal_strlit("class_id");
    reveal_strlit("version");
    assert("kind"@[0] == 'k' && "host"@[0] == 'h' && "path"@[0] == 'p');
    assert("http"@.len() == 4 && "sni"@.len() == 3 && "tls_sni"@.len() == 7);
    assert("exact"@.len() == 5 && "wildcard_suffix"@.len() == 15);
    assert("identity"@[0] == 'i' && "protocol"@[0] == 'p');
    assert("class_id"@[0] == 'c' && "version"@[0] == 'v');
}

/// What tells a route is told by its fingerprint.
pub proof fn lemma_identity_fingerprint_injective(a: RouteIdentityView, b: RouteIdentityView)
    requires
        identity_fingerprint(a) == identity_fingerprint(b),
    ensures
        a == b,
{
    lemma_names();
    let x = identity_fingerprint(a)->Object_0;
    let y = identity_fingerprint(b)->Object_0;
    assert(x["kind"@] == y["kind"@]);
    assert(x["host"@] == y["host"@]);
    let host_a = match a {
        RouteIdentityView::Http { host, path } => host,
        RouteIdentityView::Sni { host } => host,
    };
    let host_b = match b {
        RouteIdentityView::Http { host, path } => host,
        RouteIdentityView::Sni { host } => host,
    };
    assert(x["host"@] == host_fingerprint(host_a));
    assert(y["host"@] == host_fingerprint(host_b));
    let u = host_fingerprint(host_a)->Object_0;
    let v = host_fingerprint(host_b)->Object_0;
    assert(u["kind"@] == v["kind"@]);
    assert(u["host"@] == v["host"@]);
    assert(host_a == host_b);
    if a is Http {
        assert(x["path"@] == y["path"@]);
    }
}

/// Two requests for a route with one fingerprint ask for the same.
pub proof fn lemma_route_fingerprint_injective(
    a: CreateRouteBindingRequestView,
    b: CreateRouteBindingRequestView,
)
    requires
        route_fingerprint(a) == route_fingerprint(b),
    ensures
        a.route_binding_id == b.route_binding_id,
        a.instance_id == b.instance_id,
        a.identity == b.identity,
        a.protocol == b.protocol,
{
    lemma_names();
    reveal_strlit("operation");
    reveal_strlit("route_binding_id");
    reveal_strlit("instance_id");
    reveal_strlit("identity");
    reveal_strlit("protocol");
    assert("operation"@.len() == 9 && "route_binding_id"@.len() == 16 && "instance_id"@.len() == 11
        && "identity"@.len() == 8 && "protocol"@.len() == 8);
    let x = route_fingerprint(a)->Object_0;
    let y = route_fingerprint(b)->Object_0;
    assert(x["route_binding_id"@] == y["route_binding_id"@]);
    assert(x["instance_id"@] == y["instance_id"@]);
    assert(x["identity"@] == y["identity"@]);
    assert(x["protocol"@] == y["protocol"@]);
    lemma_identity_fingerprint_injective(a.identity, b.identity);
}

/// Two requests for an instance with one fingerprint ask for the same.
pub proof fn lemma_instance_fingerprint_injective(
    a: CreateInstanceRequestView,
    b: CreateInstanceRequestView,
)
    requires
        instance_fingerprint(a) == instance_fingerprint(b),
        a.workload_class.version <= u64::MAX,
        b.workload_class.version <= u64::MAX,
    ensures
        a.instance_id == b.instance_id,
        a.workload_class == b.workload_class,
        a.values == b.values,
        a.route_bindings == b.route_bindings,
{
    lemma_names();
    reveal_strlit("operation");
    reveal_strlit("instance_id");
    reveal_strlit("workload_class");
    reveal_strlit("values");
    reveal_strlit("route_bindings");
    assert("operation"@.len() == 9 && "instance_id"@.len() == 11 && "workload_class"@.len() == 14
        && "values"@.len() == 6 && "route_bindings"@.len() == 14);
    assert("workload_class"@[0] == 'w' && "route_bindings"@[0] == 'r');
    let x = instance_fingerprint(a)->Object_0;
    let y = instance_fingerprint(b)->Object_0;
    assert(x["instance_id"@] == y["instance_id"@]);
    assert(x["workload_class"@] == y["workload_class"@]);
    assert(x["values"@] == y["values"@]);
    assert(x["route_bindings"@] == y["route_bindings"@]);
    let u = class_fingerprint(a.workload_class)->Object_0;
    let v = class_fingerprint(b.workload_class)->Object_0;
    assert(u["class_id"@] == v["class_id"@]);
    assert(u["version"@] == v["version"@]);
    mapping::lemma_values_round_trip(a.values);
    mapping::lemma_values_round_trip(b.values);
    let specs_a = Seq::new(a.route_bindings.len(), |i: int| spec_fingerprint(a.route_bindings[i]));
    let specs_b = Seq::new(b.route_bindings.len(), |i: int| spec_fingerprint(b.route_bindings[i]));
    assert(x["route_bindings"@] == Json::Array(specs_a));
    assert(y["route_bindings"@] == Json::Array(specs_b));
    assert(specs_a == specs_b);
    assert(a.route_bindings.len() == specs_a.len());
    assert forall|i: int| 0 <= i < a.route_bindings.len() implies a.route_bindings[i]
        == b.route_bindings[i] by {
        assert(specs_a[i] == specs_b[i]);
        let p = spec_fingerprint(a.route_bindings[i])->Object_0;
        let q = spec_fingerprint(b.route_bindings[i])->Object_0;
        assert(p["identity"@] == q["identity"@]);
        assert(p["protocol"@] == q["protocol"@]);
        lemma_identity_fingerprint_injective(
            a.route_bindings[i].identity,
            b.route_bindings[i].identity,
        );
    }
    assert(a.route_bindings =~= b.route_bindings);
}

/// Every number in the fingerprint of a request for a route is told apart: a
/// request that is repeated is never taken for another one.
pub proof fn lemma_route_fingerprint_exact(request: CreateRouteBindingRequestView)
    ensures
        json::exact(route_fingerprint(request)),
{
    reveal_with_fuel(json::exact, 4);
    lemma_identity_fingerprint_exact(request.identity);
}

proof fn lemma_identity_fingerprint_exact(identity: RouteIdentityView)
    ensures
        json::exact(identity_fingerprint(identity)),
{
    reveal_with_fuel(json::exact, 4);
}

/// Every number in the fingerprint of a request for an instance is told apart.
pub proof fn lemma_instance_fingerprint_exact(request: CreateInstanceRequestView)
    ensures
        json::exact(instance_fingerprint(request)),
{
    reveal_with_fuel(json::exact, 3);
    let specs = Seq::new(
        request.route_bindings.len(),
        |i: int| spec_fingerprint(request.route_bindings[i]),
    );
    assert forall|i: int| 0 <= i < specs.len() implies json::exact(#[trigger] specs[i]) by {
        lemma_identity_fingerprint_exact(request.route_bindings[i].identity);
    }
    assert(json::exact(Json::Array(specs)));
    assert(json::exact(json::text_map(request.values)));
    assert(json::exact(class_fingerprint(request.workload_class)));
}

} // verus!

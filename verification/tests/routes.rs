//! Routes: how they are matched, stored and told of.
use control_plane::api::route_events::{durable_change, RouteBindingChange};
use control_plane::ids::{Generation, InstanceId, RouteBindingId, WorkloadClassId};
use control_plane::instance::{InstanceRecord, InstanceState, InstanceValues};
use control_plane::postgres::mapping::{
    route_binding_from_row, route_identity_key, route_identity_parts, route_matches, route_row,
    validate_route_protocol, RouteRow,
};
use control_plane::postgres::route_ops::{
    best_route, identity_kind, replayed_route, resolve_route, route_dependencies,
};
use control_plane::route::{
    InvalidRoute, PathPrefix, ProtocolRoute, RouteBindingRecord, RouteBindingSpec, RouteHost,
    RouteIdentity, RouteResolution,
};
use control_plane::store::StoreError;
use control_plane::workload::WorkloadClassVersionRef;

#[test]
fn route_identity_key_uses_normalized_domain_parts() {
    let identity = RouteIdentity::Http {
        host: RouteHost::wildcard_suffix("*.Example.COM.").expect("valid host"),
        path: Some(PathPrefix::new("/api").expect("valid prefix")),
    };

    assert_eq!(
        route_identity_key(&identity),
        "http:wildcard_suffix:example.com:/api"
    );
}

#[test]
fn route_match_prefers_specific_hosts_and_paths() {
    let exact = RouteIdentity::Http {
        host: RouteHost::exact("app.example.com").expect("valid host"),
        path: Some(PathPrefix::new("/api").expect("valid prefix")),
    };
    let wildcard = RouteIdentity::Http {
        host: RouteHost::wildcard_suffix("example.com").expect("valid host"),
        path: None,
    };
    let lookup = RouteIdentity::Http {
        host: RouteHost::exact("app.example.com").expect("valid host"),
        path: Some(PathPrefix::new("/api/v1").expect("valid prefix")),
    };

    assert!(route_matches(&exact, &lookup) > route_matches(&wildcard, &lookup));
}

#[test]
fn route_protocol_validation_rejects_mismatched_identity() {
    let spec = RouteBindingSpec::new(
        RouteIdentity::Sni {
            host: RouteHost::exact("db.example.com").expect("valid host"),
        },
        ProtocolRoute::Http,
    );

    assert!(validate_route_protocol(&spec).is_err());
}

#[test]
fn hosts_are_lower_case_and_without_a_root_dot() {
    let exact = RouteHost::exact("App.Example.COM.").expect("valid host");
    assert_eq!(exact.as_str(), "app.example.com");
    let wildcard = RouteHost::wildcard_suffix("*.Example.COM").expect("valid host");
    assert_eq!(wildcard.as_str(), "example.com");
    assert_eq!(RouteHost::exact(" ").expect_err("blank"), InvalidRoute::EmptyHost);
    assert_eq!(PathPrefix::new("api").expect_err("relative"), InvalidRoute::RelativePath);
}

#[test]
fn the_longer_of_two_suffixes_wins() {
    let short = http("*.example.com", Some("/api/v1"), true);
    let long = http("*.b.example.com", None, true);
    let lookup = http("a.b.example.com", Some("/api/v1/users"), false);
    let short_score = route_matches(&short, &lookup).expect("the suffix matches");
    let long_score = route_matches(&long, &lookup).expect("the suffix matches");
    assert!(long_score.is_more_specific(&short_score));
    assert!(!short_score.is_more_specific(&long_score));
}

#[test]
fn wildcards_match_subdomains_and_not_the_suffix_itself() {
    let wildcard = http("*.example.com", None, true);
    assert!(route_matches(&wildcard, &http("a.example.com", None, false)).is_some());
    assert!(route_matches(&wildcard, &http("example.com", None, false)).is_none());
    assert!(route_matches(&wildcard, &http("aexample.com", None, false)).is_none());
    assert!(route_matches(&wildcard, &sni("a.example.com")).is_none());
}

#[test]
fn the_longest_path_that_matches_wins() {
    let short = route("short", &http("app.example.com", Some("/"), false));
    let long = route("long", &http("app.example.com", Some("/api"), false));
    let other = route("other", &http("app.example.com", Some("/apis"), false));
    let wildcard = route("wildcard", &http("*.example.com", Some("/api/v1"), true));
    let rows = vec![wildcard, short, other, long];
    let lookup = http("app.example.com", Some("/api/v1"), false);
    let best = best_route(&rows, &lookup)
        .expect("rows are valid")
        .expect("a route matches");
    assert_eq!(best.id.as_str(), "long");
    assert!(best_route(&rows, &http("b.example.org", None, false))
        .expect("rows are valid")
        .is_none());
}

#[test]
fn routes_are_read_back_as_they_were_stored() {
    for identity in [
        http("app.example.com", Some("/api"), false),
        http("*.example.com", None, true),
        sni("db.example.com"),
    ] {
        let protocol = match &identity {
            RouteIdentity::Http { .. } => ProtocolRoute::Http,
            RouteIdentity::Sni { .. } => ProtocolRoute::TlsSni,
        };
        let row = route_row(
            "route-1",
            &InstanceId::new("instance-1").expect("valid ID"),
            &identity,
            protocol,
        );
        let record = route_binding_from_row(&row).expect("the row is valid");
        assert_eq!(record.identity, identity);
        assert_eq!(record.protocol, protocol);
        assert_eq!(record.id.as_str(), "route-1");
        assert_eq!(record.instance_id.as_str(), "instance-1");
        assert_eq!(replayed_route(&Some(row)).expect("still there"), record);
    }
    assert_eq!(identity_kind(&sni("db.example.com")), "sni");
    assert_eq!(identity_kind(&http("a.example", None, false)), "http");
    let parts = route_identity_parts(&http("a.example", Some("/x"), false));
    assert_eq!(parts.host_kind, "exact");
    assert_eq!(parts.path_prefix.as_deref(), Some("/x"));
}

#[test]
fn rows_that_cannot_have_been_stored_are_refused() {
    let mut row = route("route-1", &sni("db.example.com"));
    row.identity_kind = "udp".to_owned();
    assert!(matches!(
        route_binding_from_row(&row),
        Err(StoreError::Internal { .. })
    ));
    let mut row = route("route-1", &sni("db.example.com"));
    row.protocol = "quic".to_owned();
    assert!(route_binding_from_row(&row).is_err());
    let mut row = route(" ", &sni("db.example.com"));
    row.host_kind = "exact".to_owned();
    assert!(route_binding_from_row(&row).is_err());
    assert!(matches!(
        replayed_route(&None),
        Err(StoreError::NotFound {
            resource: "route binding"
        })
    ));
}

#[test]
fn routes_that_match_nothing_are_missed_for_a_while() {
    let resolution = resolve_route(None, None, None).expect("a miss");
    match resolution {
        RouteResolution::Miss { negative_cache } => assert!(negative_cache.ttl().as_secs() > 0),
        other => panic!("expected a miss, got {other:?}"),
    }
    assert!(route_dependencies(None, None, None).expect("none").is_none());
}

#[test]
fn routes_lead_to_the_instance_that_they_are_bound_to() {
    let record = binding("route-1", sni("db.example.com"));
    let resolution =
        resolve_route(Some(record), Some(instance()), None).expect("the instance is there");
    match resolution {
        RouteResolution::Resolved { entry, .. } => {
            assert_eq!(entry.instance_id.as_str(), "instance-1");
            assert_eq!(entry.instance_generation, Generation::new(4));
            assert!(entry.backend.is_none());
        }
        other => panic!("expected a route, got {other:?}"),
    }
    let dependencies = route_dependencies(
        Some(binding("route-1", sni("db.example.com"))),
        Some(instance()),
        None,
    )
    .expect("valid")
    .expect("the route is there");
    assert_eq!(dependencies.instance_id.as_str(), "instance-1");
    assert!(dependencies.materialization_generation.is_none());
    assert!(resolve_route(Some(binding("route-1", sni("db.example.com"))), None, None).is_err());
}

#[test]
fn changes_of_routes_name_every_binding() {
    let bindings = vec![
        binding("route-1", sni("a.example.com")),
        binding("route-2", sni("b.example.com")),
    ];
    let changed = RouteBindingChange::routes_changed(&bindings);
    let removed = RouteBindingChange::routes_removed(&bindings);
    assert_eq!(changed.len(), 2);
    assert_eq!(
        removed[1],
        RouteBindingChange::route_removed(RouteBindingId::new("route-2").expect("valid ID"))
    );
    assert_eq!(
        changed[0],
        RouteBindingChange::route_changed(
            RouteBindingId::new("route-1").expect("valid ID"),
            sni("a.example.com"),
            ProtocolRoute::TlsSni
        )
    );
}

#[test]
fn stored_changes_that_say_nothing_are_refused() {
    let payload = serde_json::from_str("{}").expect("valid JSON");
    assert!(durable_change(&payload).is_err());
}

fn http(host: &str, path: Option<&str>, wildcard: bool) -> RouteIdentity {
    let host = if wildcard {
        RouteHost::wildcard_suffix(host)
    } else {
        RouteHost::exact(host)
    };
    RouteIdentity::Http {
        host: host.expect("valid host"),
        path: path.map(|path| PathPrefix::new(path).expect("valid prefix")),
    }
}

fn sni(host: &str) -> RouteIdentity {
    RouteIdentity::Sni {
        host: RouteHost::exact(host).expect("valid host"),
    }
}

fn route(id: &str, identity: &RouteIdentity) -> RouteRow {
    let protocol = match identity {
        RouteIdentity::Http { .. } => ProtocolRoute::Http,
        RouteIdentity::Sni { .. } => ProtocolRoute::TlsSni,
    };
    route_row(
        id,
        &InstanceId::new("instance-1").expect("valid ID"),
        identity,
        protocol,
    )
}

fn binding(id: &str, identity: RouteIdentity) -> RouteBindingRecord {
    RouteBindingRecord {
        id: RouteBindingId::new(id).expect("valid ID"),
        instance_id: InstanceId::new("instance-1").expect("valid ID"),
        identity,
        protocol: ProtocolRoute::TlsSni,
    }
}

fn instance() -> InstanceRecord {
    InstanceRecord {
        id: InstanceId::new("instance-1").expect("valid ID"),
        workload_class: WorkloadClassVersionRef::new(
            WorkloadClassId::new("class-1").expect("valid ID"),
            Generation::new(1),
        ),
        values: InstanceValues::new(),
        state: InstanceState::Running,
        generation: Generation::new(4),
    }
}

//! Targets and backends.
use control_plane::materialization::{BackendEndpoint, MaterializationTarget};

#[test]
fn target_requires_cluster_and_namespace() {
    let error = MaterializationTarget::new("cluster-a", "").expect_err("namespace required");

    assert_eq!(error.field(), "namespace");
}

#[test]
fn target_exposes_validated_fields_by_accessor() {
    let target = MaterializationTarget::new("cluster-a", "default").expect("valid target");

    assert_eq!(target.cluster_id(), "cluster-a");
    assert_eq!(target.namespace(), "default");
}

#[test]
fn backend_endpoint_requires_uri() {
    let error = BackendEndpoint::new(" ").expect_err("backend URI required");

    assert_eq!(error.field(), "backend.uri");
}

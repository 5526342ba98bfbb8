//! What the client of a cluster reads from it, and what it makes of errors.
use std::time::Duration;

use control_plane::kube_materializer::{
    api_resource_for_ref, backend_endpoint_for_service, delete_timeout_error,
    endpoint_slice_has_ready_endpoint, endpoint_slice_selector, is_not_found, is_valid_uri_scheme,
    kube_error, next_poll_delay, pvc_phase_is_bound, rendered_service_ref,
    KubeMaterializerClientConfig, LiveService,
};
use control_plane::materialization::RenderedObjectRef;
use control_plane::string_map::StringMap;
use kube::Error as KubeError;

#[test]
fn maps_rendered_refs_to_api_resources() {
    let cases = [
        (
            object_ref("apps/v1", "Deployment", "apps", "app-a"),
            ("apps", "v1", "apps/v1", "Deployment", "deployments"),
        ),
        (
            object_ref("apps/v1", "StatefulSet", "data", "db-a"),
            ("apps", "v1", "apps/v1", "StatefulSet", "statefulsets"),
        ),
        (
            object_ref("v1", "Service", "apps", "svc-a"),
            ("", "v1", "v1", "Service", "services"),
        ),
        (
            object_ref("v1", "PersistentVolume", "", "pv-a"),
            ("", "v1", "v1", "PersistentVolume", "persistentvolumes"),
        ),
        (
            object_ref("v1", "PersistentVolumeClaim", "data", "pvc-a"),
            (
                "",
                "v1",
                "v1",
                "PersistentVolumeClaim",
                "persistentvolumeclaims",
            ),
        ),
    ];

    for (object, expected) in cases {
        let resource = api_resource_for_ref(&object).expect("supported API resource");

        assert_eq!(
            (
                resource.group.as_str(),
                resource.version.as_str(),
                resource.api_version.as_str(),
                resource.kind.as_str(),
                resource.plural.as_str(),
            ),
            expected
        );
    }
}

#[test]
fn rejects_namespaced_persistent_volume_ref() {
    let error = api_resource_for_ref(&object_ref("v1", "PersistentVolume", "data", "pv-a"))
        .expect_err("PV is cluster scoped");

    assert!(error
        .message()
        .contains("unsupported rendered Kubernetes object"));
}

#[test]
fn default_config_uses_http_service_backend_uri() {
    let service = service("api", "apps", [80, 8080]);
    let config = KubeMaterializerClientConfig::default();

    let backend =
        backend_endpoint_for_service(&service, &config).expect("service backend endpoint");

    assert_eq!(backend.uri(), "http://api.apps.svc.cluster.local:80");
}

#[test]
fn configurable_scheme_changes_service_backend_uri() {
    let service = service("postgres", "data", [5432]);
    let config = KubeMaterializerClientConfig {
        backend_scheme: "tcp".to_owned(),
        ..KubeMaterializerClientConfig::default()
    };

    let backend =
        backend_endpoint_for_service(&service, &config).expect("service backend endpoint");

    assert_eq!(backend.uri(), "tcp://postgres.data.svc.cluster.local:5432");
}

#[test]
fn service_annotation_overrides_default_backend_scheme() {
    let mut service = service("passthrough", "apps", [9443]);
    let mut annotations = StringMap::new();
    annotations.insert("sleepypods.io/backend-scheme", "tcp".to_owned());
    service.annotations = Some(annotations);
    let config = KubeMaterializerClientConfig::default();

    let backend =
        backend_endpoint_for_service(&service, &config).expect("service backend endpoint");

    assert_eq!(
        backend.uri(),
        "tcp://passthrough.apps.svc.cluster.local:9443"
    );
}

#[test]
fn endpoint_slice_ready_defaults_match_kubernetes_semantics() {
    assert!(endpoint_slice_has_ready_endpoint(&endpoint_slice([None])));
    assert!(endpoint_slice_has_ready_endpoint(&endpoint_slice([Some(
        true
    )])));
    assert!(!endpoint_slice_has_ready_endpoint(&endpoint_slice([Some(
        false
    )])));
}

#[test]
fn validates_timeout_configuration() {
    let config = KubeMaterializerClientConfig {
        poll_interval: Duration::ZERO,
        ..KubeMaterializerClientConfig::default()
    };

    let error = config.validate().expect_err("zero poll interval rejected");

    assert_eq!(error.field(), "poll_interval");
}

#[test]
fn validates_backend_scheme_configuration() {
    assert!(is_valid_uri_scheme("http"));
    assert!(is_valid_uri_scheme("tcp"));
    assert!(is_valid_uri_scheme("h2c+unix"));

    for backend_scheme in ["", " ", "1http", "http://", "tcp:"] {
        let config = KubeMaterializerClientConfig {
            backend_scheme: backend_scheme.to_owned(),
            ..KubeMaterializerClientConfig::default()
        };

        let error = config
            .validate()
            .expect_err("invalid backend scheme rejected");

        assert_eq!(error.field(), "backend_scheme");
    }
}

#[test]
fn delete_treats_not_found_as_success() {
    let error = KubeError::Api(Box::new(kube::core::Status {
        code: 404,
        reason: "NotFound".to_owned(),
        ..kube::core::Status::default()
    }));

    assert!(is_not_found(&error));
}

#[test]
fn kube_conflict_errors_are_retryable_materializer_errors() {
    let error = kube_error(KubeError::Api(Box::new(kube::core::Status {
        code: 409,
        reason: "Conflict".to_owned(),
        message: "resource version conflict".to_owned(),
        ..kube::core::Status::default()
    })));

    assert!(error.is_retryable());
    assert!(error.message().contains("resource version conflict"));
}

#[test]
fn kube_invalid_errors_are_permanent_materializer_errors() {
    let error = kube_error(KubeError::Api(Box::new(kube::core::Status {
        code: 422,
        reason: "Invalid".to_owned(),
        message: "manifest is invalid".to_owned(),
        ..kube::core::Status::default()
    })));

    assert!(!error.is_retryable());
    assert!(error.message().contains("manifest is invalid"));
}

#[test]
fn finds_rendered_service_ref_for_readiness() {
    let refs = vec![
        object_ref("apps/v1", "Deployment", "apps", "app-a"),
        object_ref("v1", "Service", "apps", "svc-a"),
    ];

    let service = rendered_service_ref(&refs).expect("service ref");

    assert_eq!(service.name, "svc-a");
}

fn object_ref(api_version: &str, kind: &str, namespace: &str, name: &str) -> RenderedObjectRef {
    RenderedObjectRef {
        api_version: api_version.to_owned(),
        kind: kind.to_owned(),
        namespace: namespace.to_owned(),
        name: name.to_owned(),
    }
}

fn service<const N: usize>(name: &str, namespace: &str, ports: [i32; N]) -> LiveService {
    LiveService {
        name: Some(name.to_owned()),
        namespace: Some(namespace.to_owned()),
        annotations: None,
        ports: Some(ports.to_vec()),
    }
}

fn endpoint_slice<const N: usize>(ready_values: [Option<bool>; N]) -> Vec<Option<bool>> {
    ready_values.to_vec()
}

#[test]
fn failures_of_the_cluster_are_transient_and_others_are_not() {
    for code in [429, 500, 599] {
        assert!(kube_error(api_error(code, "Busy")).is_retryable());
    }
    for code in [400, 404, 600] {
        assert!(!kube_error(api_error(code, "Other")).is_retryable());
    }
    assert!(!is_not_found(&api_error(409, "Conflict")));
    let service = KubeError::Service("connection refused".into());
    let events = KubeError::ReadEvents(std::io::Error::other("reset"));
    for error in [service, events] {
        assert!(kube_error(error).is_retryable());
    }
    for error in [
        KubeError::LinesCodecMaxLineLengthExceeded,
        KubeError::TlsRequired,
        KubeError::Discovery(kube::error::DiscoveryError::MissingKind("Pod".to_owned())),
    ] {
        assert!(!is_not_found(&error));
        assert!(!kube_error(error).is_retryable());
    }
}

#[test]
fn services_without_what_leads_to_them_have_no_backend() {
    let config = KubeMaterializerClientConfig::default();
    let mut nameless = service("api", "apps", [80]);
    nameless.name = None;
    assert!(backend_endpoint_for_service(&nameless, &config).is_err());
    let mut homeless = service("api", "apps", [80]);
    homeless.namespace = None;
    assert!(backend_endpoint_for_service(&homeless, &config).is_err());
    let portless = service("api", "apps", []);
    assert!(backend_endpoint_for_service(&portless, &config).is_err());
    assert!(rendered_service_ref(&vec![]).is_err());
}

#[test]
fn claims_are_bound_in_one_phase() {
    assert!(pvc_phase_is_bound(&Some("Bound".to_owned())));
    assert!(!pvc_phase_is_bound(&Some("Pending".to_owned())));
    assert!(!pvc_phase_is_bound(&None));
}

#[test]
fn polls_end_with_the_time_that_is_left() {
    let interval = Duration::from_millis(500);
    assert_eq!(
        next_poll_delay(Some(Duration::from_secs(2)), interval, "late"),
        Ok(interval)
    );
    assert_eq!(
        next_poll_delay(Some(Duration::from_millis(20)), interval, "late"),
        Ok(Duration::from_millis(20))
    );
    let error = next_poll_delay(None, interval, "late").expect_err("no time is left");
    assert!(error.message().contains("late"));
}

#[test]
fn the_slices_of_a_service_are_found_by_its_name() {
    let service = object_ref("v1", "Service", "apps", "svc-a");
    assert_eq!(
        endpoint_slice_selector(&service),
        "kubernetes.io/service-name=svc-a"
    );
    assert!(delete_timeout_error(&service).message().contains("svc-a"));
}

fn api_error(code: u16, reason: &str) -> KubeError {
    KubeError::Api(Box::new(kube::core::Status {
        code,
        reason: reason.to_owned(),
        ..kube::core::Status::default()
    }))
}

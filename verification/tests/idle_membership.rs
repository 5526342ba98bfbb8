//! Whether the pod that reports to be idle is the one that the instance runs in.
use control_plane::ids::{Generation, InstanceId, MaterializationId};
use control_plane::kube_materializer::idle_membership::{
    check_pods, check_replica_set, check_unchanged, idle_workload, validate_controller,
    validate_single_pod, LiveMetadata, LivePod, MembershipStep, OwnerReference, PodCondition,
    PodStatus, ANNOTATION_MATERIALIZATION_ID, LABEL_MANAGED_BY, LABEL_MANAGED_BY_VALUE,
};
use control_plane::manifest::{LABEL_INSTANCE_GENERATION, LABEL_INSTANCE_ID};
use control_plane::materialization::RenderedObjectRef;
use control_plane::materializer::IdleMemberIdentity;
use control_plane::string_map::StringMap;
use serde_json::Value;

#[test]
fn production_membership_verifier_accepts_current_owned_deployment_and_statefulset() {
    for kind in ["Deployment", "StatefulSet"] {
        assert!(verify(
            kind,
            &controller_metadata(),
            &vec![owned_pod(kind)],
            &replica_set(),
            &controller_metadata()
        )
        .is_ok());
    }
}

#[test]
fn production_membership_verifier_rejects_controller_replacement_and_scale_races() {
    for change in ["uid", "resourceVersion"] {
        let mut after = controller_metadata();
        if change == "uid" {
            after.uid = Some("changed".to_owned());
        } else {
            after.resource_version = Some("changed".to_owned());
        }
        let error = verify(
            "StatefulSet",
            &controller_metadata(),
            &vec![owned_pod("StatefulSet")],
            &replica_set(),
            &after,
        )
        .expect_err("the controller changed");
        assert!(error.contains("controller changed"), "{error}");
    }
}

#[test]
fn production_membership_verifier_rejects_replaced_or_unowned_replicaset() {
    for change in ["uid", "owner", "terminating"] {
        let mut replica_set = replica_set();
        match change {
            "uid" => replica_set.uid = Some("replacement-rs".to_owned()),
            "owner" => {
                replica_set.owners =
                    Some(vec![owner("Deployment", "app", "other-controller")]);
            }
            "terminating" => replica_set.deleting = true,
            _ => unreachable!(),
        }
        assert!(
            verify(
                "Deployment",
                &controller_metadata(),
                &vec![owned_pod("Deployment")],
                &replica_set,
                &controller_metadata()
            )
            .is_err(),
            "{change}"
        );
    }
}

#[test]
fn workloads_are_told_from_other_objects() {
    let both = vec![workload_ref("Deployment"), workload_ref("StatefulSet")];
    assert!(idle_workload(&both).is_err());
    assert!(idle_workload(&vec![workload_ref("Service")]).is_err());
    let one = vec![workload_ref("Service"), workload_ref("StatefulSet")];
    assert_eq!(idle_workload(&one).expect("one workload").kind, "StatefulSet");
}

#[test]
fn membership_requires_exactly_one_ready_current_pod() {
    let identity = identity();
    assert!(validate_single_pod(&vec![pod()], &identity).is_ok());
    assert!(validate_single_pod(&vec![], &identity).is_err());
    assert!(validate_single_pod(&vec![pod(), pod()], &identity).is_err());
    assert!(validate_single_pod(&vec![unready_pod()], &identity).is_err());
    assert!(validate_single_pod(&vec![pod(), unready_pod()], &identity).is_err());
    assert!(validate_single_pod(&vec![terminating_pod()], &identity).is_err());
    assert!(validate_single_pod(&vec![pod(), terminating_pod()], &identity).is_err());
}

#[test]
fn membership_rejects_stale_uid_generation_and_projection() {
    let mut stale = identity();
    stale.pod_uid = "deleted-pod".to_owned();
    assert!(validate_single_pod(&vec![pod()], &stale).is_err());
    stale = identity();
    stale.instance_generation = Generation::new(6);
    assert!(validate_single_pod(&vec![pod()], &stale).is_err());
    stale = identity();
    stale.materialization_id = MaterializationId::new("new-projection").unwrap();
    assert!(validate_single_pod(&vec![pod()], &stale).is_err());
}

#[test]
fn membership_rejects_controller_scale_and_rolling_updates() {
    for kind in ["Deployment", "StatefulSet"] {
        assert!(validate_controller(
            &metadata("pod-a"),
            &spec(1, "Recreate"),
            kind,
            &identity()
        )
        .is_ok());
        for replicas in [0, 2] {
            assert!(validate_controller(
                &metadata("pod-a"),
                &spec(replicas, "Recreate"),
                kind,
                &identity()
            )
            .is_err());
        }
        if kind == "Deployment" {
            assert!(validate_controller(
                &metadata("pod-a"),
                &spec(1, "RollingUpdate"),
                kind,
                &identity()
            )
            .is_err());
        }
    }
}

fn verify(
    kind: &str,
    before: &LiveMetadata,
    pods: &Vec<LivePod>,
    replica_set: &LiveMetadata,
    after: &LiveMetadata,
) -> Result<(), String> {
    let objects = vec![workload_ref(kind)];
    let identity = identity();
    let workload = idle_workload(&objects).map_err(|error| error.to_string())?;
    validate_controller(before, &spec(1, "Recreate"), &workload.kind, &identity)
        .map_err(|error| error.to_string())?;
    let step = check_pods(&workload.kind, before, pods, &identity)
        .map_err(|error| error.to_string())?;
    if let MembershipStep::LoadReplicaSet { name, uid } = step {
        assert_eq!(name, "app-rs");
        check_replica_set(replica_set, &uid, before).map_err(|error| error.to_string())?;
    }
    check_unchanged(before, after).map_err(|error| error.to_string())
}

fn identity() -> IdleMemberIdentity {
    IdleMemberIdentity {
        instance_id: InstanceId::new("app").unwrap(),
        instance_generation: Generation::new(7),
        materialization_id: MaterializationId::new("app:cluster:apps").unwrap(),
        pod_uid: "pod-a".to_owned(),
    }
}

fn metadata(uid: &str) -> LiveMetadata {
    let mut labels = StringMap::new();
    labels.insert(LABEL_INSTANCE_ID, "app".to_owned());
    labels.insert(LABEL_INSTANCE_GENERATION, "7".to_owned());
    labels.insert(LABEL_MANAGED_BY, LABEL_MANAGED_BY_VALUE.to_owned());
    let mut annotations = StringMap::new();
    annotations.insert(ANNOTATION_MATERIALIZATION_ID, "app:cluster:apps".to_owned());
    LiveMetadata {
        uid: Some(uid.to_owned()),
        resource_version: Some("42".to_owned()),
        deleting: false,
        labels: Some(labels),
        annotations: Some(annotations),
        owners: None,
    }
}

fn controller_metadata() -> LiveMetadata {
    metadata("controller-a")
}

fn replica_set() -> LiveMetadata {
    let mut metadata = metadata("rs-a");
    metadata.owners = Some(vec![owner("Deployment", "app", "controller-a")]);
    metadata
}

fn pod() -> LivePod {
    LivePod {
        metadata: metadata("pod-a"),
        status: Some(PodStatus {
            phase: Some("Running".to_owned()),
            conditions: Some(vec![PodCondition {
                type_: "Ready".to_owned(),
                status: "True".to_owned(),
            }]),
        }),
    }
}

fn unready_pod() -> LivePod {
    let mut member = pod();
    member.status = None;
    member
}

fn terminating_pod() -> LivePod {
    let mut member = pod();
    member.metadata.deleting = true;
    member
}

fn owned_pod(kind: &str) -> LivePod {
    let mut member = pod();
    member.metadata.owners = Some(if kind == "Deployment" {
        vec![owner("ReplicaSet", "app-rs", "rs-a")]
    } else {
        vec![owner("StatefulSet", "app", "controller-a")]
    });
    member
}

fn owner(kind: &str, name: &str, uid: &str) -> OwnerReference {
    OwnerReference {
        controller: Some(true),
        kind: kind.to_owned(),
        api_version: "apps/v1".to_owned(),
        name: name.to_owned(),
        uid: uid.to_owned(),
    }
}

fn workload_ref(kind: &str) -> RenderedObjectRef {
    RenderedObjectRef {
        api_version: "apps/v1".to_owned(),
        kind: kind.to_owned(),
        namespace: "apps".to_owned(),
        name: "app".to_owned(),
    }
}

fn spec(replicas: i64, strategy: &str) -> Value {
    let text = format!(
        r#"{{"spec":{{"replicas":{replicas},"strategy":{{"type":"{strategy}"}}}}}}"#
    );
    serde_json::from_str(&text).expect("valid JSON")
}

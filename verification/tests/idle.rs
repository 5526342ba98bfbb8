//! When an instance goes to sleep.
use std::time::Duration;

use control_plane::idle::run::{IdleAnswer, IdleProgress, IdleQuery, IdleRun};
use control_plane::idle::{
    begin_sleep_request, check_active_count, check_pod_uid, check_ready_age, class_loaded,
    instance_loaded, instance_reloaded, load_sleep_policy, materialization_loaded, member_identity,
    minimum_ready_age, resolve_sleep_policy, sleep_begun, verify_idle_member, BeginStep, IdleStep,
    ReportIdleError, ReportIdleRequest, ReportIdleResult, ReportIdleUnavailableReason,
};
use control_plane::ids::{
    BackendGeneration, Generation, InstanceId, MaterializationId, WorkloadClassId,
};
use control_plane::instance::{InstanceRecord, InstanceState, InstanceValues};
use control_plane::manifest::{
    ContainerPortTemplate, ContainerTemplate, ManifestTemplate, ServicePortTemplate,
    ServiceTemplate, SidecarTemplate, TemplateText, WorkloadKind, WorkloadTemplate,
};
use control_plane::materialization::{
    BeginSleepResult, MaterializationRecord, MaterializationState, MaterializationTarget,
};
use control_plane::materializer::KubernetesClientError;
use control_plane::sleep_policy::{
    IdleTimeoutOverridePolicy, ResolvedSleepPolicy, SleepPolicyError, WorkloadSleepPolicy,
};
use control_plane::store::StoreError;
use control_plane::workload::{
    WorkloadClassVersion, WorkloadClassVersionRef, WorkloadValueSchema,
};

const TIMEOUT: Duration = Duration::from_secs(30);

#[test]
fn reports_of_running_instances_are_verified() {
    let report = report(4);
    assert!(matches!(
        instance_loaded(&report, Ok(Some(instance(InstanceState::Running, 4)))),
        Ok(IdleStep::Verify(_))
    ));
    assert_eq!(
        instance_loaded(&report, Ok(None)),
        Err(ReportIdleError::NotFound)
    );
    assert_eq!(
        instance_loaded(&report, Err(StoreError::unavailable("busy"))),
        Err(ReportIdleError::Store(StoreError::unavailable("busy")))
    );
}

#[test]
fn repeated_reports_are_answered_as_the_first() {
    let report = report(4);
    assert!(matches!(
        instance_loaded(&report, Ok(Some(instance(InstanceState::Draining, 5)))),
        Ok(IdleStep::Done(ReportIdleResult::AlreadyDraining { .. }))
    ));
    assert!(matches!(
        instance_loaded(&report, Ok(Some(instance(InstanceState::Cold, 6)))),
        Ok(IdleStep::Done(ReportIdleResult::Accepted { .. }))
    ));
    assert_eq!(
        instance_loaded(&report, Ok(Some(instance(InstanceState::Waking, 7)))),
        Err(ReportIdleError::GenerationConflict {
            expected: Generation::new(4),
            actual: Generation::new(7),
        })
    );
    assert!(matches!(
        instance_loaded(&report, Ok(Some(instance(InstanceState::Failed, 4)))),
        Ok(IdleStep::Done(ReportIdleResult::Unavailable {
            reason: ReportIdleUnavailableReason::Failed,
            ..
        }))
    ));
}

#[test]
fn busy_and_nameless_pods_do_not_sleep() {
    let mut busy = report(4);
    busy.active_count = 2;
    assert_eq!(
        check_active_count(&busy),
        Err(ReportIdleError::ActiveRequestsPresent { active_count: 2 })
    );
    assert!(check_active_count(&report(4)).is_ok());
    let mut nameless = report(4);
    nameless.pod_uid = " ".to_owned();
    assert!(matches!(
        check_pod_uid(&nameless),
        Err(ReportIdleError::UnsupportedSleep(_))
    ));
}

#[test]
fn members_are_verified_in_order() {
    let current = instance(InstanceState::Running, 4);
    let verify = |class, materialization, age, verified| {
        verify_idle_member(
            &report(4),
            &current,
            class,
            materialization,
            age,
            verified,
            TIMEOUT,
        )
    };
    let old = Ok(Some(Duration::from_secs(600)));
    assert!(verify(Ok(Some(class(1))), Ok(Some(ready(4))), old.clone(), Ok(())).is_ok());
    assert_eq!(
        verify(Ok(None), Ok(Some(ready(4))), old.clone(), Ok(())),
        Err(ReportIdleError::WorkloadClassNotFound)
    );
    assert!(matches!(
        verify(Ok(Some(class(2))), Ok(Some(ready(4))), old.clone(), Ok(())),
        Err(ReportIdleError::UnsupportedSleep(_))
    ));
    assert!(matches!(
        verify(Ok(Some(class(1))), Ok(None), old.clone(), Ok(())),
        Err(ReportIdleError::UnsupportedSleep(_))
    ));
    assert_eq!(
        verify(
            Ok(Some(class(1))),
            Ok(Some(ready(4))),
            Ok(Some(Duration::from_secs(100))),
            Ok(())
        ),
        Err(ReportIdleError::Store(StoreError::SleepDeferred {
            retry_after: Duration::from_secs(200),
        }))
    );
    assert_eq!(
        verify(
            Ok(Some(class(1))),
            Ok(Some(ready(4))),
            old,
            Err(KubernetesClientError::new("not alone"))
        ),
        Err(ReportIdleError::UnsupportedSleep("not alone".to_owned()))
    );
}

#[test]
fn materializations_have_to_be_of_the_report() {
    let current = instance(InstanceState::Running, 4);
    assert!(materialization_loaded(&report(4), &current, Ok(Some(ready(4)))).is_ok());
    let mut pending = ready(4);
    pending.state = MaterializationState::Pending;
    assert!(materialization_loaded(&report(4), &current, Ok(Some(pending))).is_err());
    let mut projected = ready(4);
    projected.projection_generation = Generation::new(5);
    assert_eq!(
        materialization_loaded(&report(4), &current, Ok(Some(projected))),
        Err(ReportIdleError::GenerationConflict {
            expected: Generation::new(4),
            actual: Generation::new(5),
        })
    );
    let identity = member_identity(&report(4), &current, &ready(4));
    assert_eq!(identity.pod_uid, "pod-a");
    assert_eq!(identity.instance_generation, Generation::new(4));
}

#[test]
fn instances_sleep_after_the_longer_of_two_times() {
    let policy = ResolvedSleepPolicy {
        idle_timeout_ms: 10_000,
        idle_retry_backoff_ms: 1,
        drain_grace_timeout_ms: 7_000,
    };
    assert_eq!(minimum_ready_age(&policy, TIMEOUT), TIMEOUT);
    assert_eq!(
        minimum_ready_age(&policy, Duration::from_secs(1)),
        Duration::from_secs(10)
    );
    assert!(check_ready_age(TIMEOUT, Ok(None)).is_ok());
    let request = begin_sleep_request(
        &report(4),
        &instance(InstanceState::Running, 4),
        &policy,
        MaterializationTarget::new("cluster-a", "apps").unwrap(),
        TIMEOUT,
    );
    assert_eq!(request.expected_running_generation, Generation::new(4));
    assert_eq!(request.instance_id.as_str(), "instance-1");
}

#[test]
fn sleeps_that_another_began_are_looked_up() {
    let begun = BeginSleepResult {
        instance: instance(InstanceState::Draining, 5),
        materialization: None,
    };
    assert!(matches!(
        sleep_begun(Ok(begun)),
        Ok(BeginStep::Done(ReportIdleResult::Accepted { .. }))
    ));
    let conflict = |actual| {
        Err(StoreError::GenerationConflict {
            expected: Generation::new(4),
            actual: Generation::new(actual),
        })
    };
    assert!(matches!(
        sleep_begun(conflict(5)),
        Ok(BeginStep::Reload { .. })
    ));
    assert!(matches!(
        sleep_begun(conflict(7)),
        Err(ReportIdleError::GenerationConflict { .. })
    ));
    assert!(matches!(
        instance_reloaded(
            &report(4),
            Generation::new(4),
            Generation::new(5),
            Ok(Some(instance(InstanceState::Draining, 5)))
        ),
        Ok(ReportIdleResult::AlreadyDraining { .. })
    ));
    assert!(instance_reloaded(
        &report(4),
        Generation::new(4),
        Generation::new(5),
        Ok(Some(instance(InstanceState::Cold, 6)))
    )
    .is_err());
}

#[test]
fn sleep_policies_keep_their_bounds() {
    assert!(matches!(
        WorkloadSleepPolicy::new(0, 1, 1),
        Err(SleepPolicyError::ZeroDuration {
            field: "idle_timeout_ms"
        })
    ));
    assert!(IdleTimeoutOverridePolicy::new("idle_ms", 10, 5).is_err());
    let policy = WorkloadSleepPolicy::new(300_000, 5_000, 30_000)
        .unwrap()
        .with_idle_timeout_override(
            IdleTimeoutOverridePolicy::new("idle_ms", 60_000, 600_000).unwrap(),
        )
        .unwrap();
    let mut values = InstanceValues::new();
    assert_eq!(policy.resolve(&values).unwrap().idle_timeout_ms, 300_000);
    values.insert("idle_ms", "120000".to_owned());
    assert_eq!(policy.resolve(&values).unwrap().idle_timeout_ms, 120_000);
    values.insert("idle_ms", "59999".to_owned());
    assert!(policy.resolve(&values).is_err());
    let mut named = class(1);
    named.sleep_policy = policy;
    let mut current = instance(InstanceState::Running, 4);
    current.values.insert("idle_ms", "soon".to_owned());
    assert!(matches!(
        resolve_sleep_policy(&named, &current),
        Err(ReportIdleError::SleepPolicy(_))
    ));
    assert!(class_loaded(Ok(Some(named))).is_ok());
    assert_eq!(
        load_sleep_policy(Ok(Some(class(1))), &instance(InstanceState::Running, 4)).unwrap(),
        resolve_sleep_policy(&class(1), &instance(InstanceState::Running, 4)).unwrap()
    );
    assert!(matches!(
        load_sleep_policy(Ok(None), &current),
        Err(ReportIdleError::WorkloadClassNotFound)
    ));
    assert!(matches!(
        load_sleep_policy(Err(StoreError::internal("lost")), &current),
        Err(ReportIdleError::Store(_))
    ));
}

fn start(request: ReportIdleRequest) -> IdleProgress {
    let target = MaterializationTarget::new("cluster-a", "apps").unwrap();
    IdleRun::start(request, target, TIMEOUT)
}

fn asked(progress: IdleProgress) -> (IdleRun, IdleQuery) {
    match progress {
        IdleProgress::Ask(run) => {
            let query = run.query();
            (run, query)
        }
        IdleProgress::Done(result) => panic!("answered already: {result:?}"),
    }
}

fn verified() -> IdleRun {
    let current = instance(InstanceState::Running, 4);
    let (run, query) = asked(start(report(4)));
    assert!(matches!(query, IdleQuery::Instance(request) if request.instance_id == current.id));
    let (run, query) = asked(run.step(IdleAnswer::Instance(Ok(Some(current)))));
    assert!(matches!(query, IdleQuery::Class(request) if request.reference == reference()));
    let (run, query) = asked(run.step(IdleAnswer::Class(Ok(Some(class(1))))));
    assert!(matches!(
        query,
        IdleQuery::Materialization(request) if request.target.namespace() == "apps"
    ));
    let (run, query) = asked(run.step(IdleAnswer::Materialization(Ok(Some(ready(4))))));
    assert_eq!(query, IdleQuery::ReadyAge(ready(4).id));
    let age = Duration::from_secs(600);
    let (run, query) = asked(run.step(IdleAnswer::ReadyAge(Ok(Some(age)))));
    assert!(matches!(
        query,
        IdleQuery::Member { identity, .. } if identity.pod_uid == "pod-a"
    ));
    let (run, query) = asked(run.step(IdleAnswer::Member(Ok(()))));
    assert!(matches!(query, IdleQuery::Class(_)));
    let (run, query) = asked(run.step(IdleAnswer::Class(Ok(Some(class(1))))));
    assert!(matches!(
        query,
        IdleQuery::BeginSleep(request)
            if request.expected_running_generation == Generation::new(4)
                && request.minimum_ready_age == Some(Duration::from_secs(300))
    ));
    run
}

#[test]
fn instances_sleep_once_all_was_asked() {
    let begun = BeginSleepResult {
        instance: instance(InstanceState::Draining, 5),
        materialization: None,
    };
    assert_eq!(
        verified().step(IdleAnswer::Begun(Ok(begun))),
        IdleProgress::Done(Ok(ReportIdleResult::Accepted {
            instance: instance(InstanceState::Draining, 5),
        }))
    );
    let conflict = StoreError::GenerationConflict {
        expected: Generation::new(4),
        actual: Generation::new(5),
    };
    let (run, query) = asked(verified().step(IdleAnswer::Begun(Err(conflict))));
    assert!(matches!(query, IdleQuery::Instance(_)));
    assert_eq!(
        run.step(IdleAnswer::Instance(Ok(Some(instance(InstanceState::Draining, 5))))),
        IdleProgress::Done(Ok(ReportIdleResult::AlreadyDraining {
            instance: instance(InstanceState::Draining, 5),
        }))
    );
}

#[test]
fn reports_end_where_they_are_refused() {
    let mut busy = report(4);
    busy.active_count = 2;
    assert_eq!(
        start(busy),
        IdleProgress::Done(Err(ReportIdleError::ActiveRequestsPresent { active_count: 2 }))
    );
    let running = || IdleAnswer::Instance(Ok(Some(instance(InstanceState::Running, 4))));
    let mut nameless = report(4);
    nameless.pod_uid = String::new();
    let (run, _) = asked(start(nameless));
    assert!(matches!(
        run.step(running()),
        IdleProgress::Done(Err(ReportIdleError::UnsupportedSleep(_)))
    ));
    let (run, _) = asked(start(report(4)));
    let (run, _) = asked(run.step(running()));
    let (run, query) = asked(run.step(IdleAnswer::Member(Ok(()))));
    assert!(matches!(query, IdleQuery::Class(_)));
    assert_eq!(
        run.step(IdleAnswer::Class(Ok(None))),
        IdleProgress::Done(Err(ReportIdleError::WorkloadClassNotFound))
    );
    let (run, _) = asked(start(report(4)));
    let (run, _) = asked(run.step(running()));
    let (run, _) = asked(run.step(IdleAnswer::Class(Ok(Some(class(1))))));
    let (run, _) = asked(run.step(IdleAnswer::Materialization(Ok(Some(ready(4))))));
    assert_eq!(
        run.step(IdleAnswer::ReadyAge(Ok(Some(Duration::from_secs(299))))),
        IdleProgress::Done(Err(ReportIdleError::Store(StoreError::SleepDeferred {
            retry_after: Duration::from_secs(1),
        })))
    );
}

fn report(expected_generation: u64) -> ReportIdleRequest {
    ReportIdleRequest {
        instance_id: InstanceId::new("instance-1").unwrap(),
        expected_generation: Generation::new(expected_generation),
        active_count: 0,
        pod_uid: "pod-a".to_owned(),
    }
}

fn instance(state: InstanceState, generation: u64) -> InstanceRecord {
    InstanceRecord {
        id: InstanceId::new("instance-1").unwrap(),
        workload_class: reference(),
        values: InstanceValues::new(),
        state,
        generation: Generation::new(generation),
    }
}

fn reference() -> WorkloadClassVersionRef {
    WorkloadClassVersionRef::new(WorkloadClassId::new("class-1").unwrap(), Generation::new(1))
}

fn ready(generation: u64) -> MaterializationRecord {
    MaterializationRecord {
        id: MaterializationId::new("instance-1:cluster-a:apps").unwrap(),
        instance_id: InstanceId::new("instance-1").unwrap(),
        instance_generation: Generation::new(generation),
        projection_generation: Generation::new(generation),
        target: MaterializationTarget::new("cluster-a", "apps").unwrap(),
        state: MaterializationState::Ready,
        backend: None,
        backend_generation: BackendGeneration::new(1),
        rendered_objects: vec![],
        exclusivity_keys: vec![],
    }
}

fn class(replicas: u32) -> WorkloadClassVersion {
    WorkloadClassVersion {
        reference: reference(),
        template_generation: Generation::new(1),
        template: ManifestTemplate {
            workload: WorkloadTemplate {
                kind: WorkloadKind::Deployment,
                name: TemplateText::literal("app"),
                replicas: Some(replicas),
                app_container: ContainerTemplate {
                    name: "app".to_owned(),
                    image: TemplateText::literal("example/app:1"),
                    ports: vec![ContainerPortTemplate {
                        name: None,
                        container_port: 8080,
                    }],
                    env: vec![],
                },
            },
            sidecar: SidecarTemplate {
                name: "sidecar".to_owned(),
                image: TemplateText::literal("sidecar:1"),
                listen_port: 15000,
                mode: None,
            },
            service: Some(ServiceTemplate {
                name: TemplateText::literal("app"),
                ports: vec![ServicePortTemplate {
                    name: None,
                    port: 80,
                    target_port: 8080,
                }],
            }),
            volumes: vec![],
            raw_objects: vec![],
        },
        default_values: InstanceValues::new(),
        value_schema: WorkloadValueSchema::new(true),
        sleep_policy: WorkloadSleepPolicy::new(300_000, 5_000, 30_000).unwrap(),
        exclusivity_keys: vec![],
    }
}

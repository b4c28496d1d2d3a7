use droidnode::error::DroidError;
use droidnode::models::{
    BatteryInfo, Container, ContainerConfig, CpuInfo, Descriptor, Digest, EventType, ImageConfig,
    ImageRef, Manifest, MemoryInfo, NetworkInfo, NodeConditions, NodeProfile, ObjectMeta, Pod,
    PodPhase, PodRunStatus, PodSpec, RuntimeInfo, StorageInfo,
};
use droidnode::services::foundation::image_pull_service::PulledImage;
use droidnode::services::orchestration::image_orchestration_service::{
    ImageOrchestrationServiceImpl, PrepareAction, PrepareEvent, READY_TEXT,
};
use droidnode::services::orchestration::node_registration_service::{
    NodeRegistrationServiceImpl, RegistrationAction, RegistrationEvent,
};
use droidnode::services::orchestration::reconciliation_loop::{LoopAction, LoopEvent};
use droidnode::services::orchestration::reconciliation_service::{
    ReconcileAction, ReconcileEvent, ReconciliationServiceImpl, RECONCILE_INTERVAL_SECS,
};
use droidnode::services::orchestration::workload_lifecycle_service::{
    ProcessState, RunningWorkload, WorkloadLifecycleServiceImpl,
};
use std::collections::BTreeMap;

// Images

fn pulled(layers: &[&str], config: Option<ContainerConfig>) -> PulledImage {
    let descriptor =
        |d: &str| Descriptor { media_type: String::new(), digest: d.to_string(), size: 1 };
    PulledImage {
        manifest: Manifest {
            schema_version: 2,
            media_type: String::new(),
            config: descriptor("c"),
            layers: layers.iter().map(|d| descriptor(d)).collect(),
        },
        config: ImageConfig { config, ..ImageConfig::default() },
        layer_digests: layers.iter().map(|d| Digest::new(d)).collect(),
    }
}

fn prepare(
    image: &str,
    ready: bool,
    layers: &[&str],
    config: Option<ContainerConfig>,
) -> (String, Vec<String>) {
    let service = ImageOrchestrationServiceImpl::new("/rootfs".to_string());
    let (mut preparation, mut action) = service.prepare_image(&ImageRef::parse(image).unwrap());
    let mut log: Vec<String> = Vec::new();
    loop {
        let event = match action {
            PrepareAction::LookFor { path } => {
                log.push(format!("look {path}"));
                PrepareEvent::Found(ready)
            }
            PrepareAction::Pull => PrepareEvent::Pulled(pulled(layers, config.clone())),
            PrepareAction::MakeRoot { path } => {
                log.push(format!("mkdir {path}"));
                PrepareEvent::Done
            }
            PrepareAction::Unpack { digest, rootfs } => {
                log.push(format!("unpack {} {rootfs}", digest.0));
                PrepareEvent::Done
            }
            PrepareAction::WriteConfig { path, config } => {
                log.push(format!("config {path} {:?}", config.cmd));
                PrepareEvent::Done
            }
            PrepareAction::MarkReady { path } => {
                log.push(format!("mark {path}"));
                PrepareEvent::Done
            }
            PrepareAction::Finished { rootfs } => return (rootfs, log),
            PrepareAction::Failed(e) => panic!("{e:?}"),
        };
        assert!(preparation.is_awaiting(&event));
        action = preparation.step(event);
    }
}

const ALPINE: &str = "/rootfs/registry-1.docker.io/library/alpine/latest";

#[test]
fn images_are_unpacked_from_the_base_up() {
    let config = ContainerConfig { cmd: Some(vec!["sh".to_string()]), ..ContainerConfig::default() };
    let (rootfs, log) = prepare("alpine:latest", false, &["a", "b"], Some(config));
    assert_eq!(rootfs, ALPINE);
    assert_eq!(
        log,
        vec![
            format!("look {ALPINE}/.droidnode_ready"),
            format!("mkdir {ALPINE}"),
            format!("unpack a {ALPINE}"),
            format!("unpack b {ALPINE}"),
            format!("config {ALPINE}/.droidnode_image_config.json Some([\"sh\"])"),
            format!("mark {ALPINE}/.droidnode_ready"),
        ]
    );
    assert_eq!(READY_TEXT, "1");
}

#[test]
fn images_without_a_configuration_are_prepared_too() {
    let (_, log) = prepare("alpine", false, &[], None);
    assert_eq!(
        log,
        vec![
            format!("look {ALPINE}/.droidnode_ready"),
            format!("mkdir {ALPINE}"),
            format!("mark {ALPINE}/.droidnode_ready"),
        ]
    );
}

#[test]
fn prepared_images_are_left_alone() {
    let (rootfs, log) = prepare("alpine", true, &["a"], None);
    assert_eq!(rootfs, ALPINE);
    assert_eq!(log, vec![format!("look {ALPINE}/.droidnode_ready")]);
}

#[test]
fn root_file_systems_have_plain_names() {
    let service = ImageOrchestrationServiceImpl::new("/b".to_string());
    let path = |s: &str| service.image_rootfs_path(&ImageRef::parse(s).unwrap());
    assert_eq!(path("ghcr.io/o/a@sha256:12"), "/b/ghcr.io/o/a/sha256-12");
    assert_eq!(path("ghcr.io/o/a@x@y:z"), "/b/ghcr.io/o/a/x_at_y-z");
}

#[test]
fn a_preparation_may_fail() {
    let service = ImageOrchestrationServiceImpl::new("/b".to_string());
    let (mut preparation, _) = service.prepare_image(&ImageRef::parse("a").unwrap());
    preparation.step(PrepareEvent::Found(false));
    match preparation.step(PrepareEvent::Refused(DroidError::Http("down".to_string()))) {
        PrepareAction::Failed(DroidError::Http(m)) => assert_eq!(m, "down"),
        other => panic!("{other:?}"),
    }
    assert!(!preparation.is_awaiting(&PrepareEvent::Done));
}

// Registration

fn profile(node_id: &str) -> NodeProfile {
    NodeProfile {
        node_id: node_id.to_string(),
        cpu: CpuInfo { arch: "aarch64".to_string(), cores: 8 },
        memory: MemoryInfo { total_bytes: 2, available_bytes: 1 },
        storage: StorageInfo { available_bytes: 3 },
        runtime: RuntimeInfo { name: "r".to_string(), version: "v".to_string() },
        battery: BatteryInfo { percent: 1, charging: false },
        network: NetworkInfo { network_type: "wifi".to_string() },
        conditions: NodeConditions {
            ready: true,
            battery_pressure: false,
            memory_pressure: false,
            network_available: true,
        },
    }
}

fn trouble() -> DroidError {
    DroidError::KubeApi("down".to_string())
}

fn go(service: &mut NodeRegistrationServiceImpl, event: RegistrationEvent) -> RegistrationAction {
    assert!(service.is_awaiting(&event));
    service.step(event)
}

#[test]
fn nodes_are_registered_and_then_reported() {
    let mut service = NodeRegistrationServiceImpl::new();
    assert!(matches!(service.run(), RegistrationAction::ReadProfile));
    match go(&mut service, RegistrationEvent::ProfileRead(Ok(profile("n")))) {
        RegistrationAction::Register { profile } => assert_eq!(profile.node_id, "n"),
        other => panic!("{other:?}"),
    }
    for outcome in [Ok(()), Err(trouble())] {
        let event = if matches!(outcome, Ok(())) {
            RegistrationEvent::Registered(Ok(()))
        } else {
            RegistrationEvent::HeartbeatSent(outcome)
        };
        match go(&mut service, event) {
            RegistrationAction::Sleep { seconds } => assert_eq!(seconds, 30),
            other => panic!("{other:?}"),
        }
        assert!(matches!(
            go(&mut service, RegistrationEvent::Slept),
            RegistrationAction::ReadProfile
        ));
        match go(&mut service, RegistrationEvent::ProfileRead(Ok(profile("m")))) {
            RegistrationAction::SendHeartbeat { status } => assert_eq!(status.node_id, "m"),
            other => panic!("{other:?}"),
        }
    }
    assert!(matches!(
        go(&mut service, RegistrationEvent::HeartbeatSent(Ok(()))),
        RegistrationAction::Sleep { .. }
    ));
    go(&mut service, RegistrationEvent::Slept);
    assert!(matches!(
        go(&mut service, RegistrationEvent::ProfileRead(Err(trouble()))),
        RegistrationAction::Sleep { .. }
    ));
}

#[test]
fn registration_may_fail() {
    let mut service = NodeRegistrationServiceImpl::new();
    service.run();
    assert!(matches!(
        go(&mut service, RegistrationEvent::ProfileRead(Err(trouble()))),
        RegistrationAction::Failed(DroidError::KubeApi(_))
    ));
    assert!(!service.is_awaiting(&RegistrationEvent::Slept));
    service.run();
    go(&mut service, RegistrationEvent::ProfileRead(Ok(profile("n"))));
    assert!(matches!(
        go(&mut service, RegistrationEvent::Registered(Err(trouble()))),
        RegistrationAction::Failed(DroidError::KubeApi(_))
    ));
}

// Workloads

fn pod(uid: Option<&str>, name: &str, image: Option<&str>) -> Pod {
    Pod {
        metadata: ObjectMeta {
            name: Some(name.to_string()),
            namespace: None,
            uid: uid.map(|u| u.to_string()),
        },
        spec: Some(PodSpec {
            containers: vec![Container {
                name: "main".to_string(),
                image: image.map(|i| i.to_string()),
                ..Container::default()
            }],
        }),
    }
}

fn workload(p: &Pod) -> RunningWorkload {
    WorkloadLifecycleServiceImpl::new().start(p, "/r", Ok(())).unwrap()
}

#[test]
fn workloads_are_known_by_their_pods() {
    let w = workload(&pod(Some("u"), "p", None));
    assert_eq!(w.pod_uid, "u");
    assert_eq!(w.pod_name, "p");
    assert_eq!(w.namespace, "default");
    assert_eq!(w.container_name, "main");
    assert_eq!(w.rootfs, "/r");
    assert_eq!(w.log_key(), "p");
    let bare = workload(&Pod::default());
    assert_eq!(bare.pod_uid, "");
    assert_eq!(bare.pod_name, "");
    assert_eq!(bare.container_name, "container");
    let service = WorkloadLifecycleServiceImpl::new();
    match service.start(&Pod::default(), "/r", Err(DroidError::Workload("w".to_string()))) {
        Err(DroidError::Workload(m)) => assert_eq!(m, "w"),
        other => panic!("{other:?}"),
    }
}

#[test]
fn statuses_follow_from_processes() {
    let service = WorkloadLifecycleServiceImpl::new();
    let w = workload(&pod(Some("u"), "p", None));
    let seen = |process: ProcessState| {
        let s = service.status(&w, process).unwrap();
        assert_eq!(s.pod_uid, "u");
        assert_eq!(s.pod_name, "p");
        assert_eq!(s.namespace, "default");
        assert_eq!(s.message, None);
        assert_eq!(s.containers.len(), 1);
        assert_eq!(s.containers[0].name, "main");
        assert_eq!(s.containers[0].ready, s.containers[0].running);
        (s.phase, s.containers[0].running, s.containers[0].exit_code)
    };
    assert_eq!(seen(ProcessState::Running), (PodPhase::Running, true, None));
    assert_eq!(
        seen(ProcessState::Exited { success: true, code: Some(0) }),
        (PodPhase::Succeeded, false, Some(0))
    );
    assert_eq!(
        seen(ProcessState::Exited { success: false, code: Some(2) }),
        (PodPhase::Failed, false, Some(2))
    );
    assert_eq!(
        seen(ProcessState::Exited { success: false, code: None }),
        (PodPhase::Failed, false, None)
    );
    assert_eq!(seen(ProcessState::Unknown), (PodPhase::Unknown, false, None));
}

#[test]
fn workloads_are_killed() {
    let service = WorkloadLifecycleServiceImpl::new();
    assert!(service.stop(Ok(())).is_ok());
    match service.stop(Err("no".to_string())) {
        Err(DroidError::Process(m)) => assert_eq!(m, "kill failed: no"),
        other => panic!("{other:?}"),
    }
}

// Reconciliation

/// A cluster and a node in memory.
#[derive(Default)]
struct World {
    pods: Vec<Pod>,
    /// The phases of the workloads, by uid.
    phases: BTreeMap<String, PodPhase>,
    log: Vec<String>,
    no_image: bool,
    no_start: bool,
    no_report: bool,
    no_list: bool,
}

fn phase_text(s: &PodRunStatus) -> String {
    format!("report {} {} {}", s.pod_name, s.namespace, s.phase.as_str())
}

impl World {
    fn pass(&mut self, service: &mut ReconciliationServiceImpl) -> Result<(), DroidError> {
        let lifecycle = WorkloadLifecycleServiceImpl::new();
        let mut action = service.begin();
        loop {
            let event = match action {
                ReconcileAction::FetchAssignedPods => {
                    ReconcileEvent::PodsFetched(if self.no_list {
                        Err(DroidError::KubeApi("list".to_string()))
                    } else {
                        Ok(self.pods.clone())
                    })
                }
                ReconcileAction::CheckStatus { at } => {
                    let (uid, w) = &service.running[at];
                    let process = match self.phases[uid] {
                        PodPhase::Succeeded => ProcessState::Exited { success: true, code: Some(0) },
                        PodPhase::Failed => ProcessState::Exited { success: false, code: Some(1) },
                        _ => ProcessState::Running,
                    };
                    ReconcileEvent::StatusKnown(lifecycle.status(w, process))
                }
                ReconcileAction::ReportStatus { status, .. } => {
                    self.log.push(phase_text(&status));
                    ReconcileEvent::StatusReported(if self.no_report {
                        Err(DroidError::KubeApi("report".to_string()))
                    } else {
                        Ok(())
                    })
                }
                ReconcileAction::PrepareImage { image } => {
                    self.log.push(format!("prepare {}", image.repository));
                    ReconcileEvent::ImagePrepared(if self.no_image {
                        Err(DroidError::ImageNotFound("x".to_string()))
                    } else {
                        Ok("/r".to_string())
                    })
                }
                ReconcileAction::StartWorkload { pod, rootfs } => {
                    let p = &service.desired[pod];
                    self.log.push(format!("start {}", p.metadata.name.clone().unwrap()));
                    let process = if self.no_start {
                        Err(DroidError::Workload("y".to_string()))
                    } else {
                        self.phases.insert(p.metadata.uid.clone().unwrap(), PodPhase::Running);
                        Ok(())
                    };
                    ReconcileEvent::WorkloadStarted(lifecycle.start(p, &rootfs, process))
                }
                ReconcileAction::RecordEvent { event_type, reason, message, pod_id } => {
                    let kind = if event_type == EventType::Normal { "normal" } else { "warning" };
                    self.log.push(format!("{kind} {reason} {message} {}", pod_id.unwrap()));
                    ReconcileEvent::EventRecorded
                }
                ReconcileAction::StopWorkload { uid, workload } => {
                    self.log.push(format!("stop {uid} {}", workload.pod_name));
                    ReconcileEvent::WorkloadStopped
                }
                ReconcileAction::Finished => return Ok(()),
                ReconcileAction::Failed(e) => return Err(e),
            };
            assert!(service.is_awaiting(&event));
            action = service.step(event);
        }
    }

    fn take_log(&mut self) -> Vec<String> {
        std::mem::take(&mut self.log)
    }
}

fn service() -> ReconciliationServiceImpl {
    ReconciliationServiceImpl::new("n".to_string())
}

#[test]
fn assigned_pods_are_started() {
    let mut world = World { pods: vec![pod(Some("1"), "a", Some("alpine"))], ..World::default() };
    let mut s = service();
    world.pass(&mut s).unwrap();
    assert_eq!(
        world.take_log(),
        vec![
            "prepare library/alpine",
            "start a",
            "normal Started workload started successfully 1",
            "report a default Running",
        ]
    );
    assert_eq!(s.find("1"), Some(0));
    world.pass(&mut s).unwrap();
    assert_eq!(world.take_log(), vec!["report a default Running", "report a default Running"]);
    assert_eq!(RECONCILE_INTERVAL_SECS, 15);
}

#[test]
fn passes_go_on_whatever_comes_of_them() {
    let (mut passes, mut action) = service().run_loop();
    for passed in [Ok(()), Err(trouble()), Ok(())] {
        assert_eq!(action, LoopAction::Reconcile);
        assert!(!passes.is_awaiting(&LoopEvent::Slept));
        let event = LoopEvent::Passed(passed);
        assert!(passes.is_awaiting(&event));
        assert_eq!(passes.step(event), LoopAction::Sleep { seconds: 15 });
        assert!(passes.is_awaiting(&LoopEvent::Slept));
        action = passes.step(LoopEvent::Slept);
    }
    assert_eq!(action, LoopAction::Reconcile);
}

#[test]
fn pods_run_once() {
    for phase in [PodPhase::Succeeded, PodPhase::Failed] {
        let mut world =
            World { pods: vec![pod(Some("1"), "a", Some("alpine"))], ..World::default() };
        let mut s = service();
        world.pass(&mut s).unwrap();
        world.phases.insert("1".to_string(), phase);
        world.take_log();
        world.pass(&mut s).unwrap();
        let report = format!("report a default {}", phase.as_str());
        assert_eq!(world.take_log(), vec![report.clone(), report]);
        assert_eq!(s.find("1"), None);
        world.pass(&mut s).unwrap();
        assert!(world.take_log().is_empty());
    }
}

#[test]
fn pods_that_are_no_longer_assigned_are_stopped() {
    let mut world = World {
        pods: vec![pod(Some("1"), "a", Some("x")), pod(Some("2"), "b", Some("x"))],
        ..World::default()
    };
    let mut s = service();
    world.pass(&mut s).unwrap();
    world.take_log();
    world.pods = vec![pod(Some("2"), "b", Some("x"))];
    world.pass(&mut s).unwrap();
    assert_eq!(
        world.take_log(),
        vec!["report b default Running", "stop 1 a", "report b default Running"]
    );
    assert_eq!(s.find("1"), None);
    assert_eq!(s.find("2"), Some(0));
}

#[test]
fn pods_that_run_are_reported_though_they_name_no_image() {
    let mut world = World { pods: vec![pod(Some("1"), "a", Some("x"))], ..World::default() };
    let mut s = service();
    world.pass(&mut s).unwrap();
    world.take_log();
    world.pods = vec![pod(Some("1"), "a", None)];
    world.pass(&mut s).unwrap();
    assert_eq!(world.take_log(), vec!["report a default Running", "report a default Running"]);
    assert_eq!(s.find("1"), Some(0));
}

#[test]
fn a_pass_reports_what_stays_and_what_is_dropped() {
    let mut world = World {
        pods: vec![pod(Some("1"), "a", Some("x")), pod(Some("2"), "b", Some("x"))],
        ..World::default()
    };
    let mut s = service();
    world.pass(&mut s).unwrap();
    world.take_log();
    world.phases.insert("1".to_string(), PodPhase::Failed);
    world.pods.push(pod(Some("3"), "c", Some("x")));
    world.pass(&mut s).unwrap();
    let log = world.take_log();
    assert_eq!(
        log[log.len() - 3..],
        ["report a default Failed", "report b default Running", "report c default Running"]
    );
    assert_eq!((s.find("1"), s.find("2"), s.find("3")), (None, Some(0), Some(1)));
}

#[test]
fn pods_without_an_identifier_or_an_image_are_passed_over() {
    let mut world = World {
        pods: vec![
            pod(None, "a", Some("x")),
            pod(Some("2"), "b", None),
            pod(Some("3"), "c", Some("")),
            Pod { metadata: ObjectMeta { uid: Some("4".to_string()), ..ObjectMeta::default() }, spec: None },
        ],
        ..World::default()
    };
    let mut s = service();
    world.pass(&mut s).unwrap();
    assert!(world.take_log().is_empty());
    assert!(s.running.is_empty());
}

#[test]
fn images_that_cannot_be_prepared_are_noted_and_tried_again() {
    let mut world = World {
        pods: vec![pod(Some("1"), "a", Some("x"))],
        no_image: true,
        ..World::default()
    };
    let mut s = service();
    for _ in 0..2 {
        world.pass(&mut s).unwrap();
        assert_eq!(
            world.take_log(),
            vec!["prepare library/x", "warning ImagePullFailed Image not found: x 1"]
        );
    }
}

#[test]
fn workloads_that_cannot_be_started_are_noted_and_tried_again() {
    let mut world = World {
        pods: vec![pod(Some("1"), "a", Some("x"))],
        no_start: true,
        ..World::default()
    };
    let mut s = service();
    for _ in 0..2 {
        world.pass(&mut s).unwrap();
        assert_eq!(
            world.take_log(),
            vec!["prepare library/x", "start a", "warning WorkloadFailed Workload error: y 1"]
        );
    }
    assert!(s.running.is_empty());
}

#[test]
fn a_pass_may_be_given_up() {
    let mut world = World { pods: vec![pod(Some("1"), "a", Some("x"))], ..World::default() };
    let mut s = service();
    world.pass(&mut s).unwrap();
    world.no_report = true;
    match world.pass(&mut s) {
        Err(DroidError::KubeApi(m)) => assert_eq!(m, "report"),
        other => panic!("{other:?}"),
    }
    assert_eq!(s.find("1"), Some(0));
    world.no_list = true;
    match world.pass(&mut s) {
        Err(DroidError::KubeApi(m)) => assert_eq!(m, "list"),
        other => panic!("{other:?}"),
    }
    assert_eq!(s.find("1"), Some(0));
}

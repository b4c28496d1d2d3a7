use droidnode::brokers::filesystem_broker::FilesystemBrokerImpl;
use droidnode::error::DroidError;
use droidnode::models::{
    BatteryInfo, Container, ContainerConfig, Descriptor, Digest, EnvVar, EventType, HttpProbe,
    ImageConfig, ImageRef, Manifest, MemoryInfo, NetworkInfo, ObjectMeta, Pod, PodSpec,
    ProbeConfig, ProbeType, VolumeMount,
};
use droidnode::services::foundation::event_recording_service::EventRecordingServiceImpl;
use droidnode::services::foundation::health_probe_service::{
    http_refusal, HealthProbeServiceImpl, ProbeAction, ProbeOutcome, HTTP_TIMEOUT_SECS,
};
use droidnode::services::foundation::image_pull_service::{
    ImagePullServiceImpl, PullAction, PullEvent, PulledImage,
};
use droidnode::services::foundation::node_capability_service::{
    battery_pressure, is_ready, parse_meminfo_kb, read_battery_info, read_cpu_info,
    read_memory_info, read_memory_kb, read_network_info, read_storage_info,
    NodeCapabilityServiceImpl, SystemReadings,
};
use droidnode::services::foundation::workload_execution_service::WorkloadExecutionServiceImpl;

fn strings(items: &[&str]) -> Vec<String> {
    items.iter().map(|s| s.to_string()).collect()
}

// Events

#[test]
fn events_are_made_for_the_node() {
    let service = EventRecordingServiceImpl::new("n".to_string());
    let normal = service.record_normal("r", "m", Some("p".to_string()));
    assert_eq!(normal.node_id, "n");
    assert_eq!(normal.event_type, EventType::Normal);
    assert_eq!(normal.reason, "r");
    assert_eq!(normal.message, "m");
    assert_eq!(normal.pod_id.as_deref(), Some("p"));
    let warning = service.record_warning("r", "m", None);
    assert_eq!(warning.event_type, EventType::Warning);
    assert_eq!(warning.pod_id, None);
}

// Probes

fn probe(exec: Option<&[&str]>, http: Option<HttpProbe>) -> ProbeConfig {
    ProbeConfig {
        probe_type: ProbeType::Liveness,
        exec_command: exec.map(strings),
        http_get: http,
        initial_delay_seconds: 0,
        period_seconds: 10,
        failure_threshold: 3,
        success_threshold: 1,
        timeout_seconds: 5,
    }
}

fn http() -> HttpProbe {
    HttpProbe { host: "127.0.0.1".to_string(), port: 8080, path: "/healthz".to_string() }
}

#[test]
fn probes_run_programs_or_send_requests() {
    let service = HealthProbeServiceImpl::new();
    match service.execute_probe(&probe(Some(&["cat", "/x"]), Some(http()))) {
        Ok(ProbeAction::Exec { command }) => assert_eq!(command, strings(&["cat", "/x"])),
        other => panic!("{other:?}"),
    }
    match service.execute_probe(&probe(None, Some(http()))) {
        Ok(ProbeAction::Get { url }) => assert_eq!(url, "http://127.0.0.1:8080/healthz"),
        other => panic!("{other:?}"),
    }
    match service.execute_probe(&probe(None, None)) {
        Err(DroidError::Config(m)) => assert_eq!(m, "probe has no exec or httpGet configured"),
        other => panic!("{other:?}"),
    }
    assert_eq!(HTTP_TIMEOUT_SECS, 30);
    assert_eq!(service.http_timeout_secs, 30);
}

fn failure(outcome: ProbeOutcome) -> String {
    match HealthProbeServiceImpl::new().run_probe(&probe(Some(&["cat"]), None), outcome) {
        Err(DroidError::ProbeFailed(m)) => m,
        other => panic!("{other:?}"),
    }
}

#[test]
fn probes_fail_with_reasons() {
    assert_eq!(failure(ProbeOutcome::TimedOut), "probe timed out after 5s");
    assert_eq!(
        failure(ProbeOutcome::Exited { success: false, code: Some(2) }),
        "exec probe exited with status 2"
    );
    assert_eq!(
        failure(ProbeOutcome::Exited { success: false, code: None }),
        "exec probe exited with status -1"
    );
    assert_eq!(failure(ProbeOutcome::NoAnswer("down".to_string())), "HTTP probe error: down");
    assert_eq!(
        failure(ProbeOutcome::Answered { status: 503 }),
        "HTTP probe returned status 503 Service Unavailable"
    );
    match http_refusal("500 X") {
        DroidError::ProbeFailed(m) => assert_eq!(m, "HTTP probe returned status 500 X"),
        other => panic!("{other:?}"),
    }
}

#[test]
fn probes_pass_or_pass_errors_on() {
    let service = HealthProbeServiceImpl::new();
    let config = probe(None, Some(http()));
    let run = |outcome: ProbeOutcome| service.run_probe(&config, outcome);
    assert!(run(ProbeOutcome::Exited { success: true, code: Some(0) }).is_ok());
    assert!(run(ProbeOutcome::Answered { status: 204 }).is_ok());
    match run(ProbeOutcome::Lost("gone".to_string())) {
        Err(DroidError::Process(m)) => assert_eq!(m, "probe wait: gone"),
        other => panic!("{other:?}"),
    }
    match run(ProbeOutcome::NotStarted(DroidError::Workload("w".to_string()))) {
        Err(DroidError::Workload(m)) => assert_eq!(m, "w"),
        other => panic!("{other:?}"),
    }
}

#[test]
fn probes_of_nothing_never_pass() {
    let outcomes = vec![
        ProbeOutcome::Exited { success: true, code: Some(0) },
        ProbeOutcome::Answered { status: 200 },
        ProbeOutcome::TimedOut,
        ProbeOutcome::NoAnswer("down".to_string()),
        ProbeOutcome::Lost("gone".to_string()),
        ProbeOutcome::NotStarted(DroidError::Workload("w".to_string())),
    ];
    for outcome in outcomes {
        match HealthProbeServiceImpl::new().run_probe(&probe(None, None), outcome) {
            Err(DroidError::Config(m)) => assert_eq!(m, "probe has no exec or httpGet configured"),
            other => panic!("{other:?}"),
        }
    }
}

// Pulls

fn descriptor(digest: &str) -> Descriptor {
    Descriptor { media_type: String::new(), digest: digest.to_string(), size: 1 }
}

fn manifest(layers: &[&str]) -> Manifest {
    Manifest {
        schema_version: 2,
        media_type: String::new(),
        config: descriptor("sha256:cfg"),
        layers: layers.iter().map(|d| descriptor(d)).collect(),
    }
}

/// Pulls an image against a registry and a disk in memory, where each cached path is there.
fn pull(layers: &[&str], cached: &[&str]) -> (PulledImage, Vec<String>) {
    let files = FilesystemBrokerImpl::new("/l".to_string());
    let service = ImagePullServiceImpl::new(files);
    let (mut pull, mut action) = service.pull_image(ImageRef::parse("app").unwrap());
    let mut log: Vec<String> = Vec::new();
    loop {
        let event = match action {
            PullAction::FetchManifest => PullEvent::Manifest(manifest(layers)),
            PullAction::FetchConfig { digest } => {
                log.push(format!("config {}", digest.0));
                PullEvent::Config(ImageConfig::default())
            }
            PullAction::LookForLayer { path } => {
                PullEvent::Found(cached.contains(&path.as_str()))
            }
            PullAction::MakeLayerDir { path } => {
                log.push(format!("mkdir {path}"));
                PullEvent::Done
            }
            PullAction::FetchLayer { digest } => {
                log.push(format!("fetch {}", digest.0));
                PullEvent::Layer(digest.0.into_bytes())
            }
            PullAction::WriteLayer { path, data } => {
                log.push(format!("write {path} {}", String::from_utf8(data).unwrap()));
                PullEvent::Done
            }
            PullAction::Finished => return (pull.finish(), log),
            PullAction::Failed(e) => panic!("{e:?}"),
        };
        assert!(pull.is_awaiting(&event));
        action = pull.step(event);
    }
}

fn names(image: &PulledImage) -> Vec<&str> {
    image.layer_digests.iter().map(|d| d.0.as_str()).collect()
}

#[test]
fn images_are_pulled_layer_by_layer() {
    let (image, log) = pull(&["sha256:a", "sha256:b"], &[]);
    assert_eq!(names(&image), vec!["sha256:a", "sha256:b"]);
    assert_eq!(image.manifest.layers.len(), 2);
    assert_eq!(
        log,
        strings(&[
            "config sha256:cfg",
            "mkdir /l/sha256-a",
            "fetch sha256:a",
            "write /l/sha256-a/layer.tar.gz sha256:a",
            "mkdir /l/sha256-b",
            "fetch sha256:b",
            "write /l/sha256-b/layer.tar.gz sha256:b",
        ])
    );
}

#[test]
fn cached_layers_are_not_fetched() {
    let cached = ["/l/sha256-a/layer.tar.gz", "/l/sha256-c/layer.tar.gz"];
    let (image, log) = pull(&["sha256:a", "sha256:b", "sha256:c"], &cached);
    assert_eq!(names(&image), vec!["sha256:a", "sha256:b", "sha256:c"]);
    assert_eq!(
        log,
        strings(&[
            "config sha256:cfg",
            "mkdir /l/sha256-b",
            "fetch sha256:b",
            "write /l/sha256-b/layer.tar.gz sha256:b",
        ])
    );
}

#[test]
fn a_layer_that_was_not_fetched_is_fetched_by_the_next_pull() {
    let service = ImagePullServiceImpl::new(FilesystemBrokerImpl::new("/l".to_string()));
    let (mut first, mut action) = service.pull_image(ImageRef::parse("app").unwrap());
    let mut disk: Vec<String> = Vec::new();
    loop {
        let event = match action {
            PullAction::FetchManifest => PullEvent::Manifest(manifest(&["sha256:a"])),
            PullAction::FetchConfig { .. } => PullEvent::Config(ImageConfig::default()),
            PullAction::LookForLayer { path } => PullEvent::Found(disk.contains(&path)),
            PullAction::MakeLayerDir { path } => {
                disk.push(path);
                PullEvent::Done
            }
            PullAction::FetchLayer { .. } => {
                PullEvent::Refused(DroidError::OciRegistry("down".to_string()))
            }
            PullAction::Failed(DroidError::OciRegistry(m)) => {
                assert_eq!(m, "down");
                break;
            }
            other => panic!("{other:?}"),
        };
        assert!(first.is_awaiting(&event));
        action = first.step(event);
    }
    assert_eq!(disk, strings(&["/l/sha256-a"]));
    let left: Vec<&str> = disk.iter().map(|path| path.as_str()).collect();
    let (image, log) = pull(&["sha256:a"], &left);
    assert_eq!(names(&image), vec!["sha256:a"]);
    assert!(log.contains(&"fetch sha256:a".to_string()));
    assert!(log.contains(&"write /l/sha256-a/layer.tar.gz sha256:a".to_string()));
}

#[test]
fn images_may_have_no_layers() {
    let (image, log) = pull(&[], &[]);
    assert!(image.layer_digests.is_empty());
    assert_eq!(log, strings(&["config sha256:cfg"]));
}

#[test]
fn errors_end_a_pull() {
    let service = ImagePullServiceImpl::new(FilesystemBrokerImpl::new("/l".to_string()));
    let (mut pull, _) = service.pull_image(ImageRef::parse("app").unwrap());
    let event = PullEvent::Refused(DroidError::ImageNotFound("app".to_string()));
    assert!(pull.is_awaiting(&event));
    match pull.step(event) {
        PullAction::Failed(DroidError::ImageNotFound(m)) => assert_eq!(m, "app"),
        other => panic!("{other:?}"),
    }
    assert!(!pull.is_awaiting(&PullEvent::Done));
}

// Capabilities

const MEMINFO: &str = "MemTotal:       8192000 kB\nMemFree: 1 kB\nMemAvailable:    524288 kB\n";

fn readings(meminfo: Option<&str>) -> SystemReadings {
    SystemReadings {
        parallelism: Some(8),
        machine: "aarch64".to_string(),
        meminfo: meminfo.map(|s| s.to_string()),
        blocks_available: 10,
        block_size: 4096,
    }
}

#[test]
fn memory_is_read_from_meminfo() {
    assert_eq!(parse_meminfo_kb("MemTotal:       8192000 kB"), 8192000);
    assert_eq!(parse_meminfo_kb("MemTotal:"), 0);
    assert_eq!(parse_meminfo_kb("MemTotal: x kB"), 0);
    assert_eq!(read_memory_kb(MEMINFO, "MemFree:"), 1);
    assert_eq!(read_memory_kb("MemTotal: 1\nMemTotal: 2", "MemTotal:"), 2);
    assert_eq!(read_memory_kb("", "MemTotal:"), 0);
    let memory = read_memory_info(MEMINFO);
    assert_eq!(memory.total_bytes, 8192000 * 1024);
    assert_eq!(memory.available_bytes, 536870912);
}

#[test]
fn profiles_tell_what_the_node_can_do() {
    let service = NodeCapabilityServiceImpl::new("n".to_string(), "/l".to_string());
    let input = readings(Some(MEMINFO));
    assert!(input.check_countable());
    let profile = service.get_profile(&input).unwrap();
    assert_eq!(profile.node_id, "n");
    assert_eq!(profile.cpu.arch, "aarch64");
    assert_eq!(profile.cpu.cores, 8);
    assert_eq!(profile.storage.available_bytes, 40960);
    assert_eq!(profile.runtime.name, "proot-oci-runner");
    assert_eq!(profile.runtime.version, "0.1.0");
    assert_eq!(profile.battery, BatteryInfo { percent: 100, charging: true });
    assert_eq!(profile.network.network_type, "wifi");
    assert!(profile.conditions.ready);
    assert!(!profile.conditions.memory_pressure);
    assert!(!profile.conditions.battery_pressure);
    assert!(profile.conditions.network_available);
}

#[test]
fn nodes_with_little_memory_are_not_ready() {
    let service = NodeCapabilityServiceImpl::new("n".to_string(), "/l".to_string());
    let profile = service.get_profile(&readings(Some("MemAvailable: 524287 kB"))).unwrap();
    assert!(!profile.conditions.ready);
    assert!(profile.conditions.memory_pressure);
    let blind = service.get_profile(&readings(None)).unwrap();
    assert_eq!(blind.memory.total_bytes, 0);
    assert!(!blind.conditions.ready);
}

#[test]
fn amounts_have_to_be_countable() {
    assert!(!readings(Some("MemTotal: 18446744073709551615 kB")).check_countable());
    assert!(!readings(Some("MemAvailable: 18014398509481984 kB")).check_countable());
    assert!(readings(Some("MemAvailable: 18014398509481983 kB")).check_countable());
    let mut large = readings(None);
    large.blocks_available = u64::MAX;
    assert!(!large.check_countable());
}

#[test]
fn readiness_needs_memory_power_and_a_network() {
    let memory = |available_bytes: u64| MemoryInfo { total_bytes: 1 << 40, available_bytes };
    let battery = |percent: u8, charging: bool| BatteryInfo { percent, charging };
    let network = |t: &str| NetworkInfo { network_type: t.to_string() };
    assert!(is_ready(&memory(536870912), &battery(20, false), &network("wifi")));
    assert!(is_ready(&memory(536870912), &battery(0, true), &network("cellular")));
    assert!(!is_ready(&memory(536870911), &battery(100, true), &network("wifi")));
    assert!(!is_ready(&memory(536870912), &battery(19, false), &network("wifi")));
    assert!(!is_ready(&memory(536870912), &battery(100, true), &network("none")));
    assert!(battery_pressure(&battery(19, false)));
    assert!(!battery_pressure(&battery(19, true)));
    assert!(!battery_pressure(&battery(20, false)));
}

#[test]
fn readings_have_defaults() {
    assert_eq!(read_cpu_info(None, "x".to_string()).cores, 1);
    assert_eq!(read_cpu_info(Some(4), "x".to_string()).arch, "x");
    assert_eq!(read_storage_info(2, 3).available_bytes, 6);
    assert_eq!(read_battery_info(), BatteryInfo { percent: 100, charging: true });
    assert_eq!(read_network_info().network_type, "wifi");
}

// Execution

fn image(entrypoint: Option<&[&str]>, cmd: Option<&[&str]>, env: Option<&[&str]>) -> ContainerConfig {
    ContainerConfig {
        entrypoint: entrypoint.map(strings),
        cmd: cmd.map(strings),
        env: env.map(strings),
        working_dir: None,
        user: None,
    }
}

fn container(command: Option<&[&str]>, args: Option<&[&str]>) -> Container {
    Container { command: command.map(strings), args: args.map(strings), ..Container::default() }
}

fn pod(container: Container) -> Pod {
    Pod {
        metadata: ObjectMeta { name: Some("hello".to_string()), ..ObjectMeta::default() },
        spec: Some(PodSpec { containers: vec![container] }),
    }
}

#[test]
fn pods_say_what_to_run() {
    let defaults = image(Some(&["e"]), Some(&["c"]), None);
    let resolve = |c: &Container, i: Option<&ContainerConfig>| {
        WorkloadExecutionServiceImpl::resolve_command(c, i)
    };
    assert_eq!(resolve(&container(None, None), Some(&defaults)), strings(&["e", "c"]));
    assert_eq!(resolve(&container(Some(&["p"]), None), Some(&defaults)), strings(&["p", "c"]));
    assert_eq!(resolve(&container(None, Some(&["a"])), Some(&defaults)), strings(&["e", "a"]));
    assert_eq!(
        resolve(&container(Some(&["p", "q"]), Some(&["a"])), Some(&defaults)),
        strings(&["p", "q", "a"])
    );
    assert_eq!(resolve(&container(Some(&[]), None), Some(&defaults)), strings(&["c"]));
    assert!(resolve(&container(None, None), None).is_empty());
}

#[test]
fn pod_variables_come_after_those_of_the_image() {
    let defaults = image(None, None, Some(&["A=1", "B=x=y", "C", "=d"]));
    let var = |name: &str, value: Option<&str>| EnvVar {
        name: name.to_string(),
        value: value.map(|v| v.to_string()),
    };
    let mut c = container(None, None);
    c.env = Some(vec![var("A", Some("2")), var("SECRET", None), var("D", Some(""))]);
    let env = WorkloadExecutionServiceImpl::resolve_env(&c, Some(&defaults));
    let pairs: Vec<(&str, &str)> = env.iter().map(|(k, v)| (k.as_str(), v.as_str())).collect();
    assert_eq!(
        pairs,
        vec![("A", "1"), ("B", "x=y"), ("C", ""), ("", "d"), ("A", "2"), ("D", "")]
    );
    assert!(WorkloadExecutionServiceImpl::resolve_env(&container(None, None), None).is_empty());
}

#[test]
fn mounts_are_taken_from_the_pod() {
    let mut c = container(None, None);
    assert!(WorkloadExecutionServiceImpl::resolve_mounts(&c).is_empty());
    let mount = |path: &str, read_only: Option<bool>| VolumeMount {
        mount_path: path.to_string(),
        read_only,
    };
    c.volume_mounts = Some(vec![mount("/a", None), mount("/b", Some(true))]);
    let mounts = WorkloadExecutionServiceImpl::resolve_mounts(&c);
    let seen: Vec<(&str, &str, bool)> = mounts
        .iter()
        .map(|m| (m.source.as_str(), m.target.as_str(), m.read_only))
        .collect();
    assert_eq!(seen, vec![("/a", "/a", false), ("/b", "/b", true)]);
}

#[test]
fn workloads_are_planned() {
    let service = WorkloadExecutionServiceImpl::new();
    let plan = service.execute_workload(&pod(container(Some(&["sh"]), None)), None).unwrap();
    assert_eq!(plan.command, strings(&["sh"]));
    assert!(plan.env.is_empty());
    assert!(plan.mounts.is_empty());
    assert_eq!(plan.cwd, None);
    assert_eq!(service.image_config_path("/r"), "/r/.droidnode_image_config.json");
}

#[test]
fn pods_without_anything_to_run_are_refused() {
    let service = WorkloadExecutionServiceImpl::new();
    match service.execute_workload(&Pod::default(), None) {
        Err(DroidError::Workload(m)) => assert_eq!(m, "pod has no containers"),
        other => panic!("{other:?}"),
    }
    match service.execute_workload(&pod(container(None, None)), None) {
        Err(DroidError::Workload(m)) => {
            assert_eq!(m, "pod hello: no command or entrypoint defined")
        }
        other => panic!("{other:?}"),
    }
    let mut unnamed = pod(container(None, None));
    unnamed.metadata.name = None;
    match service.execute_workload(&unnamed, None) {
        Err(DroidError::Workload(m)) => assert_eq!(m, "pod ?: no command or entrypoint defined"),
        other => panic!("{other:?}"),
    }
}

#[test]
fn digests_name_layers() {
    assert_eq!(Digest::new("sha256:1").0, "sha256:1");
}

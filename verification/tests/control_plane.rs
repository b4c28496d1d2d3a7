use droidnode::brokers::control_plane_broker::{
    ContainerState, ControlPlaneBrokerImpl, CreateOutcome, CONFLICT, FIELD_MANAGER,
};
use droidnode::error::DroidError;
use droidnode::models::{
    BatteryInfo, ContainerRunStatus, CpuInfo, EventType, MemoryInfo, NetworkInfo, NodeConditions,
    NodeEvent, NodeProfile, PodPhase, PodRunStatus, RuntimeInfo, StorageInfo,
};

fn profile(node_id: &str) -> NodeProfile {
    NodeProfile {
        node_id: node_id.to_string(),
        cpu: CpuInfo { arch: "amd64".to_string(), cores: 4 },
        memory: MemoryInfo {
            total_bytes: 8 * 1024 * 1024 * 1024,
            available_bytes: 4 * 1024 * 1024 * 1024,
        },
        storage: StorageInfo { available_bytes: 10 * 1024 * 1024 * 1024 },
        runtime: RuntimeInfo { name: "proot-oci-runner".to_string(), version: "0.1.0".to_string() },
        battery: BatteryInfo { percent: 100, charging: true },
        network: NetworkInfo { network_type: "wifi".to_string() },
        conditions: NodeConditions {
            ready: true,
            battery_pressure: false,
            memory_pressure: false,
            network_available: true,
        },
    }
}

fn broker() -> ControlPlaneBrokerImpl {
    ControlPlaneBrokerImpl::new("droidnode-test-broker".to_string())
}

#[test]
fn nodes_are_labelled() {
    let node = broker().build_node_object(&profile("x"));
    assert_eq!(node.name, "droidnode-test-broker");
    let labels: Vec<(&str, &str)> =
        node.labels.iter().map(|(k, v)| (k.as_str(), v.as_str())).collect();
    assert_eq!(
        labels,
        vec![
            ("kubernetes.io/hostname", "droidnode-test-broker"),
            ("kubernetes.io/arch", "amd64"),
            ("kubernetes.io/os", "linux"),
            ("droidnode/managed", "true"),
        ]
    );
}

#[test]
fn heartbeats_report_conditions_and_memory() {
    let patch = broker().send_heartbeat(&profile("x").status());
    let said: Vec<(&str, &str, &str, Option<&str>)> = patch
        .conditions
        .iter()
        .map(|c| (c.condition_type, c.status, c.reason, c.message))
        .collect();
    assert_eq!(
        said,
        vec![
            ("Ready", "True", "DroidNodeReady", Some("droidnode agent is running")),
            ("MemoryPressure", "False", "DroidNodeMemory", None),
            ("NetworkUnavailable", "False", "DroidNodeNetwork", None),
        ]
    );
    assert_eq!(patch.allocatable_cpu, "0");
    assert_eq!(patch.allocatable_memory, "4194304Ki");
    assert_eq!(patch.capacity_memory, "8388608Ki");
    assert_eq!(FIELD_MANAGER, "droidnode");
}

#[test]
fn heartbeats_report_trouble() {
    let mut status = profile("x").status();
    status.conditions.ready = false;
    status.conditions.memory_pressure = true;
    status.conditions.network_available = false;
    status.memory = MemoryInfo { total_bytes: 2047, available_bytes: 1023 };
    let patch = broker().send_heartbeat(&status);
    let said: Vec<&str> = patch.conditions.iter().map(|c| c.status).collect();
    assert_eq!(said, vec!["False", "True", "True"]);
    assert_eq!(patch.allocatable_memory, "0Ki");
    assert_eq!(patch.capacity_memory, "1Ki");
}

#[test]
fn nodes_that_are_there_already_are_registered_too() {
    let refused = |code: u16| CreateOutcome::Refused { code, message: "m".to_string() };
    assert!(broker().register_node(&profile("x"), CreateOutcome::Created).is_ok());
    let again = broker().register_node(&profile("x"), refused(CONFLICT)).unwrap();
    assert_eq!(again.capacity_memory, "8388608Ki");
    match broker().register_node(&profile("x"), refused(403)) {
        Err(DroidError::KubeApi(m)) => assert_eq!(m, "m"),
        other => panic!("{other:?}"),
    }
    match broker().register_node(&profile("x"), CreateOutcome::Failed("down".to_string())) {
        Err(DroidError::KubeApi(m)) => assert_eq!(m, "down"),
        other => panic!("{other:?}"),
    }
}

#[test]
fn pods_are_selected_by_node() {
    assert_eq!(broker().get_assigned_pods(), "spec.nodeName=droidnode-test-broker");
}

#[test]
fn pod_statuses_are_reported() {
    let container = |name: &str, running: bool, exit_code: Option<i32>| ContainerRunStatus {
        name: name.to_string(),
        ready: running,
        running,
        exit_code,
    };
    let status = PodRunStatus {
        pod_uid: "u".to_string(),
        pod_name: "p".to_string(),
        namespace: "n".to_string(),
        phase: PodPhase::Failed,
        message: Some("m".to_string()),
        containers: vec![
            container("a", true, None),
            container("b", false, Some(137)),
            container("c", false, None),
        ],
    };
    let patch = broker().report_pod_status(&status);
    assert_eq!(patch.phase, "Failed");
    assert_eq!(patch.message.as_deref(), Some("m"));
    let said: Vec<(&str, bool, ContainerState)> =
        patch.container_statuses.iter().map(|c| (c.name.as_str(), c.ready, c.state)).collect();
    assert_eq!(
        said,
        vec![
            ("a", true, ContainerState::Running),
            ("b", false, ContainerState::Terminated { exit_code: 137 }),
            ("c", false, ContainerState::Terminated { exit_code: 0 }),
        ]
    );
}

#[test]
fn events_name_the_node() {
    let event = |event_type: EventType| NodeEvent {
        node_id: "droidnode-test-broker".to_string(),
        event_type,
        reason: "TestEvent".to_string(),
        message: "control plane broker integration test".to_string(),
        pod_id: None,
    };
    let object = broker().record_event(&event(EventType::Normal));
    assert_eq!(object.generate_name, "droidnode-test-broker-");
    assert_eq!(object.namespace, "default");
    assert_eq!(object.action, "TestEvent");
    assert_eq!(object.reason, "TestEvent");
    assert_eq!(object.message, "control plane broker integration test");
    assert_eq!(object.event_type, "Normal");
    assert_eq!(object.reporting_component, "droidnode");
    assert_eq!(object.reporting_instance, "droidnode-test-broker");
    assert_eq!(broker().record_event(&event(EventType::Warning)).event_type, "Warning");
}

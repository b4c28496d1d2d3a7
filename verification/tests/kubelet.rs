use droidnode::exposers::virtual_kubelet_exposer::{
    healthz, local_address, KubeletState, LOG_CAPACITY,
};
use droidnode::models::{
    BatteryInfo, CpuInfo, MemoryInfo, NetworkInfo, NodeConditions, NodeProfile, PodPhase,
    PodRunStatus, RuntimeInfo, StorageInfo,
};

fn status(uid: &str, phase: PodPhase) -> PodRunStatus {
    PodRunStatus {
        pod_uid: uid.to_string(),
        pod_name: format!("pod-{uid}"),
        namespace: "default".to_string(),
        phase,
        message: None,
        containers: vec![],
    }
}

#[test]
fn logs_are_kept_for_each_pod() {
    let mut state = KubeletState::new();
    assert_eq!(state.container_logs("a"), "");
    state.append_log("a", "one".to_string());
    state.append_log("b", "other".to_string());
    state.append_log("a", "two".to_string());
    assert_eq!(state.container_logs("a"), "one\ntwo");
    assert_eq!(state.container_logs("b"), "other");
    assert_eq!(state.container_logs("c"), "");
}

#[test]
fn logs_hold_the_last_lines() {
    let mut state = KubeletState::default();
    for i in 0..LOG_CAPACITY + 3 {
        state.append_log("a", i.to_string());
    }
    let text = state.container_logs("a");
    let kept: Vec<&str> = text.split('\n').collect();
    assert_eq!(kept.len(), 10_000);
    assert_eq!(kept[0], "3");
    assert_eq!(kept[9_999], "10002");
}

#[test]
fn the_last_status_of_a_pod_counts() {
    let mut state = KubeletState::new();
    assert!(state.list_pods().is_empty());
    state.update_status(status("a", PodPhase::Running));
    state.update_status(status("b", PodPhase::Pending));
    state.update_status(status("a", PodPhase::Succeeded));
    let mut pods: Vec<(&str, PodPhase)> =
        state.list_pods().into_iter().map(|s| (s.pod_uid.as_str(), s.phase)).collect();
    pods.sort_by_key(|p| p.0.to_string());
    assert_eq!(pods, vec![("a", PodPhase::Succeeded), ("b", PodPhase::Pending)]);
}

#[test]
fn metrics_are_written_for_prometheus() {
    let mut state = KubeletState::new();
    assert_eq!(state.metrics(), "");
    state.node_profile = Some(NodeProfile {
        node_id: "n".to_string(),
        cpu: CpuInfo { arch: "aarch64".to_string(), cores: 8 },
        memory: MemoryInfo { total_bytes: 4096, available_bytes: 1024 },
        storage: StorageInfo { available_bytes: 77 },
        runtime: RuntimeInfo { name: "r".to_string(), version: "v".to_string() },
        battery: BatteryInfo { percent: 55, charging: false },
        network: NetworkInfo { network_type: "wifi".to_string() },
        conditions: NodeConditions {
            ready: true,
            battery_pressure: false,
            memory_pressure: false,
            network_available: true,
        },
    });
    let expected = "# HELP droidnode_memory_available_bytes Available memory in bytes\n\
                    # TYPE droidnode_memory_available_bytes gauge\n\
                    droidnode_memory_available_bytes 1024\n\
                    # HELP droidnode_memory_total_bytes Total memory in bytes\n\
                    # TYPE droidnode_memory_total_bytes gauge\n\
                    droidnode_memory_total_bytes 4096\n\
                    # HELP droidnode_storage_available_bytes Available storage in bytes\n\
                    # TYPE droidnode_storage_available_bytes gauge\n\
                    droidnode_storage_available_bytes 77\n\
                    # HELP droidnode_battery_percent Battery charge percentage\n\
                    # TYPE droidnode_battery_percent gauge\n\
                    droidnode_battery_percent 55\n\
                    # HELP droidnode_node_ready Node readiness (1=ready)\n\
                    # TYPE droidnode_node_ready gauge\n\
                    droidnode_node_ready 1\n";
    assert_eq!(state.metrics(), expected);
}

#[test]
fn the_node_is_alive() {
    assert_eq!(healthz(), "ok");
}

#[test]
fn nodes_without_an_address_have_their_own() {
    assert_eq!(local_address(Some("10.0.0.7".to_string())), "10.0.0.7");
    assert_eq!(local_address(None), "127.0.0.1");
}

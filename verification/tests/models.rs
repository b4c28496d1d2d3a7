use droidnode::error::DroidError;
use droidnode::models::{
    BatteryInfo, Container, CpuInfo, Digest, ImageRef, MemoryInfo, NetworkInfo, NodeConditions,
    NodeProfile, Pod, PodPhase, PodSpec, RuntimeInfo, StorageInfo,
};

fn parts(s: &str) -> (String, String, String) {
    let r = ImageRef::parse(s).unwrap();
    (r.registry, r.repository, r.reference)
}

fn triple(a: &str, b: &str, c: &str) -> (String, String, String) {
    (a.to_string(), b.to_string(), c.to_string())
}

#[test]
fn plain_name_is_an_official_image() {
    assert_eq!(parts("ubuntu"), triple("registry-1.docker.io", "library/ubuntu", "latest"));
    assert_eq!(
        parts("  alpine:latest\n"),
        triple("registry-1.docker.io", "library/alpine", "latest")
    );
}

#[test]
fn names_without_a_host_belong_to_docker_hub() {
    assert_eq!(parts("library/ubuntu:22.04"), triple("registry-1.docker.io", "library/ubuntu", "22.04"));
    assert_eq!(parts("a/b/c"), triple("registry-1.docker.io", "a/b/c", "latest"));
}

#[test]
fn hosts_have_dots_or_ports() {
    assert_eq!(parts("ghcr.io/org/app:v1"), triple("ghcr.io", "org/app", "v1"));
    assert_eq!(parts("localhost:5000/app"), triple("localhost:5000", "app", "latest"));
    assert_eq!(parts("localhost:5000/app:x"), triple("localhost:5000", "app", "x"));
    assert_eq!(parts("localhost:5000"), triple("registry-1.docker.io", "library/localhost", "5000"));
}

#[test]
fn digests_follow_the_first_at_sign() {
    assert_eq!(
        parts("ghcr.io/org/app@sha256:abc"),
        triple("ghcr.io", "org/app", "sha256:abc")
    );
    assert_eq!(
        parts("ubuntu:22.04@sha256:abc"),
        triple("registry-1.docker.io", "library/ubuntu:22.04", "sha256:abc")
    );
    assert_eq!(parts("a@b@c"), triple("registry-1.docker.io", "library/a", "b@c"));
}

#[test]
fn empty_references_are_read_too() {
    assert_eq!(parts(""), triple("registry-1.docker.io", "library/", "latest"));
    assert_eq!(parts("a:"), triple("registry-1.docker.io", "library/a", ""));
    assert_eq!(parts("/a"), triple("registry-1.docker.io", "/a", "latest"));
}

#[test]
fn references_with_hosts_are_read_as_their_parts() {
    for host in ["ghcr.io", "localhost:5000", "a.b.c:1"] {
        for repository in ["app", "org/app", "x/y/z"] {
            for tag in ["latest", "v1.2.3", "1"] {
                assert_eq!(
                    parts(&format!("{host}/{repository}:{tag}")),
                    triple(host, repository, tag)
                );
            }
            assert_eq!(
                parts(&format!("{host}/{repository}@sha256:00ff")),
                triple(host, repository, "sha256:00ff")
            );
        }
    }
}

#[test]
fn registries_are_reached_over_https() {
    let r = ImageRef::parse("ghcr.io/org/app").unwrap();
    assert_eq!(r.registry_url(), "https://ghcr.io");
}

#[test]
fn digests_lose_their_prefix_and_their_colons() {
    let d = Digest::new("sha256:00:ff");
    assert_eq!(d.hex(), "00:ff");
    assert_eq!(d.as_fs_name(), "sha256-00-ff");
    let other = Digest::new("md5:1");
    assert_eq!(other.hex(), "md5:1");
    assert_eq!(other.as_fs_name(), "md5-1");
    assert_eq!(Digest::new("sha256:sha256:1").hex(), "sha256:1");
}

#[test]
fn errors_are_sentences() {
    let s = |t: &str| t.to_string();
    assert_eq!(DroidError::OciRegistry(s("x")).describe(), "OCI registry error: x");
    assert_eq!(DroidError::Http(s("x")).describe(), "HTTP error: x");
    assert_eq!(DroidError::Filesystem(s("x")).describe(), "Filesystem error: x");
    assert_eq!(DroidError::Json(s("x")).describe(), "JSON error: x");
    assert_eq!(DroidError::KubeApi(s("x")).describe(), "Kubernetes API error: x");
    assert_eq!(DroidError::Process(s("x")).describe(), "Process execution error: x");
    assert_eq!(DroidError::ImageNotFound(s("x")).describe(), "Image not found: x");
    assert_eq!(
        DroidError::DigestMismatch { expected: s("a"), actual: s("b") }.describe(),
        "Layer digest mismatch: expected a, got b"
    );
    assert_eq!(DroidError::Workload(s("x")).describe(), "Workload error: x");
    assert_eq!(DroidError::ProbeFailed(s("x")).describe(), "Health probe failed: x");
    assert_eq!(DroidError::NodeRegistration(s("x")).describe(), "Node registration error: x");
    assert_eq!(DroidError::Config(s("x")).describe(), "Configuration error: x");
    assert_eq!(DroidError::Unsupported(s("x")).describe(), "Unsupported operation: x");
}

#[test]
fn phases_have_names() {
    assert_eq!(PodPhase::Pending.as_str(), "Pending");
    assert_eq!(PodPhase::Running.as_str(), "Running");
    assert_eq!(PodPhase::Succeeded.as_str(), "Succeeded");
    assert_eq!(PodPhase::Failed.as_str(), "Failed");
    assert_eq!(PodPhase::Unknown.as_str(), "Unknown");
}

#[test]
fn only_the_first_container_counts() {
    assert!(Pod::default().first_container().is_none());
    let empty = Pod { spec: Some(PodSpec::default()), ..Pod::default() };
    assert!(empty.first_container().is_none());
    let named = |n: &str| Container { name: n.to_string(), ..Container::default() };
    let pod = Pod {
        spec: Some(PodSpec { containers: vec![named("a"), named("b")] }),
        ..Pod::default()
    };
    assert_eq!(pod.first_container().unwrap().name, "a");
}

#[test]
fn a_status_is_part_of_a_profile() {
    let profile = NodeProfile {
        node_id: "n".to_string(),
        cpu: CpuInfo { arch: "aarch64".to_string(), cores: 8 },
        memory: MemoryInfo { total_bytes: 4, available_bytes: 3 },
        storage: StorageInfo { available_bytes: 9 },
        runtime: RuntimeInfo { name: "r".to_string(), version: "v".to_string() },
        battery: BatteryInfo { percent: 7, charging: true },
        network: NetworkInfo { network_type: "wifi".to_string() },
        conditions: NodeConditions {
            ready: true,
            battery_pressure: false,
            memory_pressure: true,
            network_available: false,
        },
    };
    let status = profile.status();
    assert_eq!(status.node_id, "n");
    assert_eq!(status.memory, profile.memory);
    assert_eq!(status.storage, profile.storage);
    assert_eq!(status.battery, profile.battery);
    assert_eq!(status.network.network_type, "wifi");
    assert_eq!(status.conditions, profile.conditions);
}

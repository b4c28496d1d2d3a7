use droidnode::config::{hostname_or_uuid, node_name, Config, Environment};
use droidnode::exposers::kubelet_tls::TlsSetup;

fn nothing() -> Environment {
    Environment {
        data_dir: None,
        home: None,
        user_profile: None,
        node_id: None,
        proot_path: None,
        layers_dir: None,
        rootfs_dir: None,
        kubelet_port: None,
        hostname: None,
    }
}

fn some(s: &str) -> Option<String> {
    Some(s.to_string())
}

fn is_uuid(s: &str) -> bool {
    let groups: Vec<usize> = s.split('-').map(|g| g.len()).collect();
    groups == vec![8, 4, 4, 4, 12]
        && s.chars().all(|c| c == '-' || c.is_ascii_digit() || ('a'..='f').contains(&c))
        && s.as_bytes()[14] == b'4'
        && "89ab".contains(s.as_bytes()[19] as char)
}

#[test]
fn files_are_kept_in_the_home_directory() {
    let config = Config::from_env(Environment { home: some("/home/u"), ..nothing() });
    assert_eq!(config.proot_path, "/home/u/.droidnode/proot");
    assert_eq!(config.layers_root, "/home/u/.droidnode/layers");
    assert_eq!(config.rootfs_base, "/home/u/.droidnode/rootfs");
    assert_eq!(config.kubelet_addr, "0.0.0.0:10250");
}

#[test]
fn there_are_other_places_for_files() {
    let profile = Environment { user_profile: some("/p"), ..nothing() };
    assert_eq!(Config::from_env(profile).layers_root, "/p/.droidnode/layers");
    let both = Environment { home: some("/h"), user_profile: some("/p"), ..nothing() };
    assert_eq!(Config::from_env(both).layers_root, "/h/.droidnode/layers");
    assert_eq!(Config::from_env(nothing()).layers_root, "/tmp/.droidnode/layers");
    let set = Environment { data_dir: some("/d"), home: some("/h"), ..nothing() };
    assert_eq!(Config::from_env(set).layers_root, "/d/layers");
}

#[test]
fn every_path_can_be_set() {
    let config = Config::from_env(Environment {
        data_dir: some("/d"),
        proot_path: some("/x/proot"),
        layers_dir: some("/l"),
        rootfs_dir: some("/r"),
        ..nothing()
    });
    assert_eq!(config.proot_path, "/x/proot");
    assert_eq!(config.layers_root, "/l");
    assert_eq!(config.rootfs_base, "/r");
}

#[test]
fn ports_that_are_none_are_ignored() {
    let addr = |port: &str| {
        Config::from_env(Environment { kubelet_port: some(port), ..nothing() }).kubelet_addr
    };
    assert_eq!(addr("8443"), "0.0.0.0:8443");
    assert_eq!(addr("0"), "0.0.0.0:0");
    assert_eq!(addr("+1"), "0.0.0.0:1");
    assert_eq!(addr("65535"), "0.0.0.0:65535");
    assert_eq!(addr("65536"), "0.0.0.0:10250");
    assert_eq!(addr("x"), "0.0.0.0:10250");
    assert_eq!(addr(""), "0.0.0.0:10250");
}

#[test]
fn nodes_are_named_after_their_hosts() {
    let id = |node_id: Option<String>, hostname: Option<String>| {
        Config::from_env(Environment { node_id, hostname, ..nothing() }).node_id
    };
    assert_eq!(id(some("mine"), some("phone")), "mine");
    assert_eq!(id(None, some("phone")), "droidnode-phone");
    let random = id(None, None);
    assert!(is_uuid(random.strip_prefix("droidnode-").unwrap()), "{random}");
    assert_ne!(id(None, None), random);
    assert_eq!(node_name("x"), "droidnode-x");
}

#[test]
fn hosts_without_a_name_get_a_random_one() {
    assert_eq!(hostname_or_uuid(some("phone")), "phone");
    assert!(is_uuid(&hostname_or_uuid(None)));
}

#[test]
fn the_authority_is_kept_with_the_rest() {
    for data_dir in [some("/d"), None] {
        for home in [some("/h"), None] {
            for user_profile in [some("/u"), None] {
                let (setup, _) =
                    TlsSetup::begin(data_dir.clone(), &home, &user_profile, "10.0.0.7");
                let config = Config::from_env(Environment {
                    data_dir: data_dir.clone(),
                    home: home.clone(),
                    user_profile,
                    ..nothing()
                });
                let dir = config.layers_root.strip_suffix("/layers").unwrap();
                assert_eq!(setup.key_path, format!("{dir}/kubelet-ca.key"));
                assert_eq!(setup.certificate_path, format!("{dir}/kubelet-ca.crt"));
            }
        }
    }
}

//! How the agent is configured.
use vstd::prelude::*;

use crate::paths::{path_join, path_joined};
use crate::text::{cat2, decimal, parse_number, parsed_number, show};

verus! {

/// The port of the kubelet endpoint, unless another is set.
pub const KUBELET_PORT: u64 = 10250;

/// The variables that configure the agent, and the name of the host, as far as they are set
/// to texts.
#[derive(Debug)]
pub struct Environment {
    /// `DROIDNODE_DATA_DIR`
    pub data_dir: Option<String>,
    /// `HOME`
    pub home: Option<String>,
    /// `USERPROFILE`
    pub user_profile: Option<String>,
    /// `DROIDNODE_NODE_ID`
    pub node_id: Option<String>,
    /// `DROIDNODE_PROOT_PATH`
    pub proot_path: Option<String>,
    /// `DROIDNODE_LAYERS_DIR`
    pub layers_dir: Option<String>,
    /// `DROIDNODE_ROOTFS_DIR`
    pub rootfs_dir: Option<String>,
    /// `DROIDNODE_KUBELET_PORT`
    pub kubelet_port: Option<String>,
    pub hostname: Option<String>,
}

/// The configuration of the agent.
#[derive(Debug)]
pub struct Config {
    pub node_id: String,
    pub proot_path: String,
    pub layers_root: String,
    pub rootfs_base: String,
    /// The address of the kubelet endpoint, with its port.
    pub kubelet_addr: String,
}

/// The home directory, or one for temporary files.
pub open spec fn home_of(home: Option<String>, user_profile: Option<String>) -> Seq<char> {
    match (home, user_profile) {
        (Some(h), _) => h@,
        (None, Some(u)) => u@,
        (None, None) => "/tmp"@,
    }
}

/// A path that is set, or else a name in the directory `base`.
pub open spec fn set_or_below(set: Option<String>, base: Seq<char>, name: Seq<char>) -> Seq<char> {
    match set {
        Some(path) => path@,
        None => path_joined(base, name),
    }
}

/// The directory that the agent keeps its files in: the one that is set, or else one in the
/// home directory.
pub open spec fn data_directory(
    set: Option<String>,
    home: Option<String>,
    user_profile: Option<String>,
) -> Seq<char> {
    set_or_below(set, home_of(home, user_profile), ".droidnode"@)
}

impl Environment {
    /// The directory that the agent keeps its files in.
    pub open spec fn base_dir(self) -> Seq<char> {
        data_directory(self.data_dir, self.home, self.user_profile)
    }

    /// The port of the kubelet endpoint.
    pub open spec fn port(self) -> nat {
        match self.kubelet_port {
            Some(text) => match parsed_number(text@, u16::MAX as nat) {
                Some(n) => n,
                None => KUBELET_PORT as nat,
            },
            None => KUBELET_PORT as nat,
        }
    }
}

/// A lower-case hexadecimal digit.
pub open spec fn is_hex(c: char) -> bool {
    '0' <= c <= '9' || 'a' <= c <= 'f'
}

/// The text is a random UUID: hexadecimal digits in groups of 8, 4, 4, 4 and 12.
pub open spec fn is_random_uuid(s: Seq<char>) -> bool {
    &&& s.len() == 36
    &&& forall|i: int|
        0 <= i < 36 ==> if i == 8 || i == 13 || i == 18 || i == 23 {
            #[trigger] s[i] == '-'
        } else {
            is_hex(s[i])
        }
    &&& s[14] == '4'
    &&& s[19] == '8' || s[19] == '9' || s[19] == 'a' || s[19] == 'b'
}

/// Calls `uuid::Uuid::new_v4` and writes what it returns. Claims that the text is a random
/// UUID; which one is left to chance. The call does not return where the system has no random
/// numbers to give.
#[verifier::external_body]
fn new_uuid() -> (r: String)
    ensures
        is_random_uuid(r@),
{
    uuid::Uuid::new_v4().to_string()
}

/// The name of the host, or a random one.
pub fn hostname_or_uuid(hostname: Option<String>) -> (r: String)
    ensures
        match hostname {
            Some(h) => r == h,
            None => is_random_uuid(r@),
        },
{
    match hostname {
        Some(h) => h,
        None => new_uuid(),
    }
}

/// The home directory, or one for temporary files.
pub fn dirs_or_home(home: &Option<String>, user_profile: &Option<String>) -> (r: String)
    ensures
        r@ == home_of(*home, *user_profile),
{
    match (home, user_profile) {
        (Some(h), _) => h.clone(),
        (None, Some(u)) => u.clone(),
        (None, None) => "/tmp".to_owned(),
    }
}

fn path_or(set: Option<String>, base: &str, name: &str) -> (r: String)
    ensures
        r@ == set_or_below(set, base@, name@),
{
    match set {
        Some(path) => path,
        None => path_join(base, name),
    }
}

/// The directory that the agent keeps its files in.
pub fn data_dir_or_home(
    set: Option<String>,
    home: &Option<String>,
    user_profile: &Option<String>,
) -> (r: String)
    ensures
        r@ == data_directory(set, *home, *user_profile),
{
    let base: String = dirs_or_home(home, user_profile);
    path_or(set, base.as_str(), ".droidnode")
}

/// The name of a node on the host `host`.
pub fn node_name(host: &str) -> (r: String)
    ensures
        r@ == "droidnode-"@ + host@,
{
    cat2("droidnode-", host)
}

impl Config {
    /// The configuration is one that an environment asks for. A node without an identifier,
    /// on a host without a name, has a random one.
    pub open spec fn is_for(self, env: Environment) -> bool {
        &&& match (env.node_id, env.hostname) {
            (Some(id), _) => self.node_id == id,
            (None, Some(host)) => self.node_id@ == "droidnode-"@ + host@,
            (None, None) => exists|u: Seq<char>| #[trigger]
                is_random_uuid(u) && self.node_id@ == "droidnode-"@ + u,
        }
        &&& self.proot_path@ == set_or_below(env.proot_path, env.base_dir(), "proot"@)
        &&& self.layers_root@ == set_or_below(env.layers_dir, env.base_dir(), "layers"@)
        &&& self.rootfs_base@ == set_or_below(env.rootfs_dir, env.base_dir(), "rootfs"@)
        &&& self.kubelet_addr@ == "0.0.0.0:"@ + decimal(env.port())
    }

    /// The configuration that an environment asks for.
    pub fn from_env(env: Environment) -> (r: Self)
        ensures
            r.is_for(env),
    {
        let base: String = data_dir_or_home(env.data_dir, &env.home, &env.user_profile);
        let node_id: String = match env.node_id {
            Some(id) => id,
            None => {
                let host: String = hostname_or_uuid(env.hostname);
                node_name(host.as_str())
            },
        };
        let port: u64 = match env.kubelet_port {
            Some(text) => match parse_number(text.as_str(), u16::MAX as u64) {
                Some(n) => n,
                None => KUBELET_PORT,
            },
            None => KUBELET_PORT,
        };
        Config {
            node_id,
            proot_path: path_or(env.proot_path, base.as_str(), "proot"),
            layers_root: path_or(env.layers_dir, base.as_str(), "layers"),
            rootfs_base: path_or(env.rootfs_dir, base.as_str(), "rootfs"),
            kubelet_addr: cat2("0.0.0.0:", show(port).as_str()),
        }
    }
}

// ---------------------------------------------------------------------------

/// The port of the kubelet endpoint is one that there can be.
pub proof fn law_the_port_is_a_port(env: Environment)
    ensures
        env.port() <= u16::MAX,
{
}

/// The configuration of an environment: what is set counts, and what is not stands in the directory
/// of the agent, which is the one that is set, or else `.droidnode` in the home directory, or else
/// in `/tmp`. The endpoint listens on every address, at the port that is set as a number, or else at
/// the usual one.
pub proof fn law_what_is_set_counts(env: Environment, r: Config)
    requires
        call_ensures(Config::from_env, (env,), r),
    ensures
        ({
            let home = match (env.home, env.user_profile) {
                (Some(h), _) => h@,
                (None, Some(u)) => u@,
                (None, None) => "/tmp"@,
            };
            let dir = match env.data_dir {
                Some(d) => d@,
                None => path_joined(home, ".droidnode"@),
            };
            &&& r.proot_path@ == match env.proot_path {
                Some(p) => p@,
                None => path_joined(dir, "proot"@),
            }
            &&& r.layers_root@ == match env.layers_dir {
                Some(p) => p@,
                None => path_joined(dir, "layers"@),
            }
            &&& r.rootfs_base@ == match env.rootfs_dir {
                Some(p) => p@,
                None => path_joined(dir, "rootfs"@),
            }
        }),
        env.node_id matches Some(id) ==> r.node_id@ == id@,
        env.node_id is None ==> (env.hostname matches Some(host) ==> r.node_id@ == "droidnode-"@
            + host@),
        env.node_id is None && env.hostname is None ==> exists|u: Seq<char>| #[trigger]
            is_random_uuid(u) && r.node_id@ == "droidnode-"@ + u,
        r.kubelet_addr@ == "0.0.0.0:"@ + decimal(
            match env.kubelet_port {
                Some(text) => match parsed_number(text@, 65535) {
                    Some(port) => port,
                    None => 10250,
                },
                None => 10250,
            },
        ),
{
}

/// A node goes by the name of its host, if that is known.
pub proof fn law_nodes_go_by_their_hosts(hostname: Option<String>, name: String, host: &str, r: String)
    requires
        call_ensures(hostname_or_uuid, (hostname,), name),
        call_ensures(node_name, (host,), r),
    ensures
        hostname matches Some(h) ==> name@ == h@,
        hostname is None ==> is_random_uuid(name@),
        r@ == "droidnode-"@ + host@,
{
}

} // verus!

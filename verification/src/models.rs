//! The data that the agent works on.
use vstd::prelude::*;
use vstd::string::*;

use crate::error::DroidError;
use crate::text::{
    cat2, chars_of, find_char, find_char_from_end, has_char, is_blank, is_space,
    law_prefixes_are_taken_away, law_replacing_one_character_keeps_the_others,
    law_trimming_takes_white_space_away, replace, replaced, starts_with, text_of, trim, trimmed,
    without_prefix,
};

verus! {

// ---------------------------------------------------------------------------
// Image references
// ---------------------------------------------------------------------------

/// Where an image is kept: a registry, a repository in it, and a tag or digest.
#[derive(Debug, Clone)]
pub struct ImageRef {
    pub registry: String,
    pub repository: String,
    /// Tag or digest.
    pub reference: String,
}

/// An image reference split into the image's name and its tag or digest.
///
/// What follows an at sign is a digest. Otherwise what follows the last colon is a
/// tag, where a colon before the first slash is part of a host and port. An image
/// with neither is the latest one.
pub open spec fn split_reference(s: Seq<char>) -> (Seq<char>, Seq<char>) {
    match s.index_of_first('@') {
        Some(at) => (s.take(at), s.skip(at + 1)),
        None => {
            let slash = match s.index_of_first('/') {
                Some(i) => i,
                None => 0,
            };
            match s.skip(slash).index_of_last(':') {
                Some(colon) => (s.take(slash + colon), s.skip(slash + colon + 1)),
                None => (s, "latest"@),
            }
        },
    }
}

/// A text that can only be the name of a host.
pub open spec fn looks_like_host(s: Seq<char>) -> bool {
    s.contains('.') || s.contains(':')
}

/// The name of an image split into registry and repository.
///
/// Names without a host belong to Docker Hub, and names without a slash to its
/// official images.
pub open spec fn split_registry(name: Seq<char>) -> (Seq<char>, Seq<char>) {
    match name.index_of_first('/') {
        Some(i) => if looks_like_host(name.take(i)) {
            (name.take(i), name.skip(i + 1))
        } else {
            ("registry-1.docker.io"@, name)
        },
        None => ("registry-1.docker.io"@, "library/"@ + name),
    }
}

impl ImageRef {
    /// This is the image that `s` refers to.
    pub open spec fn refers_to(self, s: Seq<char>) -> bool {
        let (name, reference) = split_reference(trimmed(s));
        let (registry, repository) = split_registry(name);
        &&& self.registry@ == registry
        &&& self.repository@ == repository
        &&& self.reference@ == reference
    }

    /// Reads an image reference as container tools write it.
    pub fn parse(s: &str) -> (r: Result<ImageRef, DroidError>)
        ensures
            r is Ok,
            r->Ok_0.refers_to(s@),
    {
        let t: String = trim(s);
        let cs = chars_of(t.as_str());
        assert(cs@.skip(0) =~= cs@);
        let total: usize = cs.len();
        let name_end: usize;
        let reference: String;
        match find_char(&cs, '@', 0) {
            Some(at) => {
                name_end = at;
                reference = text_of(&cs, at + 1, total);
                assert(cs@.subrange(at + 1, cs@.len() as int) =~= cs@.skip(at + 1));
            },
            None => {
                let slash: usize = match find_char(&cs, '/', 0) {
                    Some(i) => i,
                    None => 0,
                };
                match find_char_from_end(&cs, ':', slash) {
                    Some(colon) => {
                        name_end = colon;
                        reference = text_of(&cs, colon + 1, total);
                        assert(cs@.subrange(colon + 1, cs@.len() as int) =~= cs@.skip(colon + 1));
                    },
                    None => {
                        name_end = total;
                        reference = "latest".to_owned();
                        assert(cs@.take(cs@.len() as int) =~= cs@);
                    },
                }
            },
        }
        let ghost name = split_reference(trimmed(s@)).0;
        assert(name =~= cs@.take(name_end as int));
        let part: String = text_of(&cs, 0, name_end);
        assert(part@ =~= name);
        let ns = chars_of(part.as_str());
        assert(ns@.skip(0) =~= ns@);
        let (registry, repository) = match find_char(&ns, '/', 0) {
            Some(i) => {
                assert(ns@.subrange(0, i as int) =~= name.take(i as int));
                if has_char(&ns, '.', 0, i) || has_char(&ns, ':', 0, i) {
                    assert(ns@.subrange(i + 1, ns@.len() as int) =~= name.skip(i + 1));
                    (text_of(&ns, 0, i), text_of(&ns, i + 1, ns.len()))
                } else {
                    ("registry-1.docker.io".to_owned(), part)
                }
            },
            None => ("registry-1.docker.io".to_owned(), cat2("library/", part.as_str())),
        };
        Ok(ImageRef { registry, repository, reference })
    }

    /// The address of the registry.
    pub fn registry_url(&self) -> (r: String)
        ensures
            r@ == "https://"@ + self.registry@,
    {
        cat2("https://", self.registry.as_str())
    }
}

// ---------------------------------------------------------------------------
// Digests
// ---------------------------------------------------------------------------

/// The digest of a blob, with the name of its hash function in front.
#[derive(Debug, Clone, PartialEq, Eq, Hash)]
pub struct Digest(pub String);

impl Digest {
    pub fn new(s: &str) -> (r: Digest)
        ensures
            r.0@ == s@,
    {
        Digest(s.to_owned())
    }

    /// The digest without `sha256:` in front.
    pub fn hex(&self) -> (r: &str)
        ensures
            match without_prefix(self.0@, "sha256:"@) {
                Some(rest) => r@ == rest,
                None => r@ == self.0@,
            },
    {
        if starts_with(self.0.as_str(), "sha256:") {
            let n: usize = "sha256:".unicode_len();
            let total: usize = self.0.as_str().unicode_len();
            assert(self.0@.subrange(n as int, total as int) =~= self.0@.skip(n as int));
            self.0.as_str().substring_char(n, total)
        } else {
            self.0.as_str()
        }
    }

    /// The digest as a file name: a hyphen in the place of each colon.
    pub fn as_fs_name(&self) -> (r: String)
        ensures
            r@ == replaced(self.0@, ':', "-"@),
    {
        replace(self.0.as_str(), ':', "-")
    }
}

// ---------------------------------------------------------------------------
// Image manifests
// ---------------------------------------------------------------------------

#[derive(Debug, Clone)]
pub struct Descriptor {
    pub media_type: String,
    pub digest: String,
    pub size: i64,
}

#[derive(Debug, Clone)]
pub struct Manifest {
    pub schema_version: u32,
    pub media_type: String,
    pub config: Descriptor,
    pub layers: Vec<Descriptor>,
}

#[derive(Debug, Clone, Default)]
pub struct ImageConfig {
    pub architecture: Option<String>,
    pub os: Option<String>,
    pub config: Option<ContainerConfig>,
}

/// What an image says of the process to run in it.
#[derive(Debug, Clone, Default)]
pub struct ContainerConfig {
    pub entrypoint: Option<Vec<String>>,
    pub cmd: Option<Vec<String>>,
    pub env: Option<Vec<String>>,
    pub working_dir: Option<String>,
    pub user: Option<String>,
}

// ---------------------------------------------------------------------------
// Pods
// ---------------------------------------------------------------------------

/// A pod, as far as the agent reads it.
#[derive(Debug, Clone, Default)]
pub struct Pod {
    pub metadata: ObjectMeta,
    pub spec: Option<PodSpec>,
}

#[derive(Debug, Clone, Default)]
pub struct ObjectMeta {
    pub name: Option<String>,
    pub namespace: Option<String>,
    pub uid: Option<String>,
}

#[derive(Debug, Clone, Default)]
pub struct PodSpec {
    pub containers: Vec<Container>,
}

#[derive(Debug, Clone, Default)]
pub struct Container {
    pub name: String,
    pub image: Option<String>,
    pub command: Option<Vec<String>>,
    pub args: Option<Vec<String>>,
    pub env: Option<Vec<EnvVar>>,
    pub volume_mounts: Option<Vec<VolumeMount>>,
}

#[derive(Debug, Clone, Default)]
pub struct EnvVar {
    pub name: String,
    /// Absent where the value is taken from somewhere else.
    pub value: Option<String>,
}

#[derive(Debug, Clone, Default)]
pub struct VolumeMount {
    pub mount_path: String,
    pub read_only: Option<bool>,
}

impl Pod {
    /// The container that the agent runs.
    pub open spec fn spec_first_container(self) -> Option<Container> {
        match self.spec {
            Some(s) => if s.containers@.len() > 0 {
                Some(s.containers@[0])
            } else {
                None
            },
            None => None,
        }
    }

    /// The container that the agent runs: the first one.
    pub fn first_container(&self) -> (r: Option<&Container>)
        ensures
            match r {
                Some(c) => self.spec_first_container() == Some(*c),
                None => self.spec_first_container() is None,
            },
    {
        match &self.spec {
            Some(s) => if s.containers.len() > 0 {
                Some(&s.containers[0])
            } else {
                None
            },
            None => None,
        }
    }
}

// ---------------------------------------------------------------------------
// Running
// ---------------------------------------------------------------------------

/// A path of the host that is seen at a path of the guest.
#[derive(Debug, Clone)]
pub struct Mount {
    pub source: String,
    pub target: String,
    pub read_only: bool,
}

// ---------------------------------------------------------------------------
// The node
// ---------------------------------------------------------------------------

#[derive(Debug, Clone)]
pub struct NodeProfile {
    pub node_id: String,
    pub cpu: CpuInfo,
    pub memory: MemoryInfo,
    pub storage: StorageInfo,
    pub runtime: RuntimeInfo,
    pub battery: BatteryInfo,
    pub network: NetworkInfo,
    pub conditions: NodeConditions,
}

#[derive(Debug, Clone)]
pub struct CpuInfo {
    pub arch: String,
    pub cores: u32,
}

#[derive(Debug, Clone, Copy, PartialEq, Eq)]
pub struct MemoryInfo {
    pub total_bytes: u64,
    pub available_bytes: u64,
}

#[derive(Debug, Clone, Copy, PartialEq, Eq)]
pub struct StorageInfo {
    pub available_bytes: u64,
}

#[derive(Debug, Clone)]
pub struct RuntimeInfo {
    pub name: String,
    pub version: String,
}

#[derive(Debug, Clone, Copy, Default, PartialEq, Eq)]
pub struct BatteryInfo {
    pub percent: u8,
    pub charging: bool,
}

#[derive(Debug, Default)]
pub struct NetworkInfo {
    pub network_type: String,
}

impl Clone for NetworkInfo {
    fn clone(&self) -> (r: Self)
        ensures
            r == *self,
    {
        NetworkInfo { network_type: self.network_type.clone() }
    }
}

#[derive(Debug, Clone, Copy, PartialEq, Eq)]
pub struct NodeConditions {
    pub ready: bool,
    pub battery_pressure: bool,
    pub memory_pressure: bool,
    pub network_available: bool,
}

#[derive(Debug, Clone)]
pub struct NodeStatus {
    pub node_id: String,
    pub conditions: NodeConditions,
    pub memory: MemoryInfo,
    pub storage: StorageInfo,
    pub battery: BatteryInfo,
    pub network: NetworkInfo,
}

impl NodeProfile {
    /// The part of the profile that is reported again and again.
    pub open spec fn has_status(self, s: NodeStatus) -> bool {
        &&& s.node_id == self.node_id
        &&& s.conditions == self.conditions
        &&& s.memory == self.memory
        &&& s.storage == self.storage
        &&& s.battery == self.battery
        &&& s.network == self.network
    }

    /// The part of the profile that is reported again and again.
    pub fn status(&self) -> (r: NodeStatus)
        ensures
            self.has_status(r),
    {
        NodeStatus {
            node_id: self.node_id.clone(),
            conditions: self.conditions,
            memory: self.memory,
            storage: self.storage,
            battery: self.battery,
            network: self.network.clone(),
        }
    }
}

// ---------------------------------------------------------------------------
// Events
// ---------------------------------------------------------------------------

#[derive(Debug, Clone)]
pub struct NodeEvent {
    pub node_id: String,
    pub event_type: EventType,
    pub reason: String,
    pub message: String,
    pub pod_id: Option<String>,
}

#[derive(Debug, Clone, Copy, PartialEq, Eq, Structural)]
pub enum EventType {
    Normal,
    Warning,
}

// ---------------------------------------------------------------------------
// The status of a pod
// ---------------------------------------------------------------------------

#[derive(Debug, Clone)]
pub struct PodRunStatus {
    pub pod_uid: String,
    pub pod_name: String,
    pub namespace: String,
    pub phase: PodPhase,
    pub message: Option<String>,
    pub containers: Vec<ContainerRunStatus>,
}

#[derive(Debug, Clone, Copy, PartialEq, Eq, Structural)]
pub enum PodPhase {
    Pending,
    Running,
    Succeeded,
    Failed,
    Unknown,
}

impl PodPhase {
    /// The phase as Kubernetes writes it.
    pub open spec fn text(self) -> Seq<char> {
        match self {
            PodPhase::Pending => "Pending"@,
            PodPhase::Running => "Running"@,
            PodPhase::Succeeded => "Succeeded"@,
            PodPhase::Failed => "Failed"@,
            PodPhase::Unknown => "Unknown"@,
        }
    }

    /// The phase as Kubernetes writes it.
    pub fn as_str(&self) -> (r: &'static str)
        ensures
            r@ == self.text(),
    {
        match self {
            PodPhase::Pending => "Pending",
            PodPhase::Running => "Running",
            PodPhase::Succeeded => "Succeeded",
            PodPhase::Failed => "Failed",
            PodPhase::Unknown => "Unknown",
        }
    }
}

#[derive(Debug, Clone)]
pub struct ContainerRunStatus {
    pub name: String,
    pub ready: bool,
    pub running: bool,
    pub exit_code: Option<i32>,
}

// ---------------------------------------------------------------------------
// Health probes
// ---------------------------------------------------------------------------

#[derive(Debug, Clone, Copy, PartialEq, Eq)]
pub enum ProbeType {
    Startup,
    Liveness,
    Readiness,
}

#[derive(Debug, Clone)]
pub struct HttpProbe {
    pub host: String,
    pub port: u16,
    pub path: String,
}

#[derive(Debug, Clone)]
pub struct ProbeConfig {
    pub probe_type: ProbeType,
    pub exec_command: Option<Vec<String>>,
    pub http_get: Option<HttpProbe>,
    pub initial_delay_seconds: u32,
    pub period_seconds: u32,
    pub failure_threshold: u32,
    pub success_threshold: u32,
    pub timeout_seconds: u32,
}

// ---------------------------------------------------------------------------

/// A text that neither starts nor ends with white space.
pub open spec fn is_trim(s: Seq<char>) -> bool {
    s.len() > 0 && !is_space(s[0]) && !is_space(s.last())
}

proof fn lemma_first_of(a: Seq<char>, c: char, b: Seq<char>)
    requires
        !a.contains(c),
    ensures
        (a.push(c) + b).index_of_first(c) == Some(a.len() as int),
        (a.push(c) + b).take(a.len() as int) == a,
        (a.push(c) + b).skip(a.len() as int + 1) == b,
{
    let s = a.push(c) + b;
    s.index_of_first_ensures(c);
    assert(s[a.len() as int] == c);
    assert(s.contains(c));
    let i = s.index_of_first(c)->0;
    if i < a.len() {
        assert(a[i] == c);
    }
    assert(s.take(a.len() as int) =~= a);
    assert(s.skip(a.len() as int + 1) =~= b);
}

proof fn lemma_last_of(a: Seq<char>, c: char, b: Seq<char>)
    requires
        !b.contains(c),
    ensures
        (a.push(c) + b).index_of_last(c) == Some(a.len() as int),
{
    let s = a.push(c) + b;
    s.index_of_last_ensures(c);
    assert(s[a.len() as int] == c);
    assert(s.contains(c));
    let i = s.index_of_last(c)->0;
    if i > a.len() {
        assert(b[i - a.len() - 1] == c);
    }
}

proof fn lemma_split_named(registry: Seq<char>, repository: Seq<char>)
    requires
        looks_like_host(registry),
        !registry.contains('/'),
    ensures
        split_registry(registry.push('/') + repository) == (registry, repository),
{
    lemma_first_of(registry, '/', repository);
}

/// A reference with a host and a tag is read as its parts.
pub proof fn law_tagged_references_are_read(
    image: ImageRef,
    registry: Seq<char>,
    repository: Seq<char>,
    tag: Seq<char>,
)
    requires
        looks_like_host(registry),
        !registry.contains('/'),
        !(registry.push('/') + repository.push(':') + tag).contains('@'),
        !tag.contains(':'),
        is_trim(registry.push('/') + repository.push(':') + tag),
        image.refers_to(registry.push('/') + repository.push(':') + tag),
    ensures
        image.registry@ == registry,
        image.repository@ == repository,
        image.reference@ == tag,
{
    let s = registry.push('/') + repository.push(':') + tag;
    let name = registry.push('/') + repository;
    assert(trimmed(s) == s);
    s.index_of_first_ensures('@');
    assert(s =~= registry.push('/') + (repository.push(':') + tag));
    lemma_first_of(registry, '/', repository.push(':') + tag);
    let slash = registry.len() as int;
    let rest = seq!['/'] + repository;
    assert(s.skip(slash) =~= rest.push(':') + tag);
    lemma_last_of(rest, ':', tag);
    assert(s.take(slash + rest.len()) =~= name);
    assert(s.skip(slash + rest.len() + 1) =~= tag);
    lemma_split_named(registry, repository);
}

/// A reference with a host and a digest is read as its parts.
pub proof fn law_digest_references_are_read(
    image: ImageRef,
    registry: Seq<char>,
    repository: Seq<char>,
    digest: Seq<char>,
)
    requires
        looks_like_host(registry),
        !registry.contains('/'),
        !(registry.push('/') + repository).contains('@'),
        is_trim((registry.push('/') + repository).push('@') + digest),
        image.refers_to((registry.push('/') + repository).push('@') + digest),
    ensures
        image.registry@ == registry,
        image.repository@ == repository,
        image.reference@ == digest,
{
    let name = registry.push('/') + repository;
    let s = name.push('@') + digest;
    assert(trimmed(s) == s);
    lemma_first_of(name, '@', digest);
    lemma_split_named(registry, repository);
}

/// A plain name is the latest version of an official image.
pub proof fn law_plain_names_are_official_images(image: ImageRef, name: Seq<char>)
    requires
        is_trim(name),
        !name.contains('@'),
        !name.contains(':'),
        !name.contains('/'),
        image.refers_to(name),
    ensures
        image.registry@ == "registry-1.docker.io"@,
        image.repository@ == "library/"@ + name,
        image.reference@ == "latest"@,
{
    assert(trimmed(name) == name);
    name.index_of_first_ensures('@');
    name.index_of_first_ensures('/');
    assert(name.skip(0) =~= name);
    name.index_of_last_ensures(':');
}

/// White space around a reference means nothing.
pub proof fn law_white_space_around_references_means_nothing(
    image: ImageRef,
    front: Seq<char>,
    s: Seq<char>,
    back: Seq<char>,
)
    requires
        is_blank(front),
        is_blank(back),
        is_trim(s),
    ensures
        image.refers_to(front + s + back) <==> image.refers_to(s),
{
    law_trimming_takes_white_space_away(front, s, back);
    law_trimming_takes_white_space_away(Seq::empty(), s, Seq::empty());
    assert(Seq::<char>::empty() + s + Seq::<char>::empty() =~= s);
}

/// What has a dot or a colon in it is a host, and nothing else is.
pub proof fn law_hosts_have_dots_or_ports(s: Seq<char>)
    ensures
        looks_like_host(s) <==> exists|i: int|
            0 <= i < s.len() && (#[trigger] s[i] == '.' || s[i] == ':'),
{
    if s.contains('.') {
        let i = choose|i: int| 0 <= i < s.len() && s[i] == '.';
        assert(s[i] == '.');
    }
    if s.contains(':') {
        let i = choose|i: int| 0 <= i < s.len() && s[i] == ':';
        assert(s[i] == ':');
    }
}

/// A plain name with a tag is that version of an official image.
pub proof fn law_plain_names_may_have_tags(image: ImageRef, name: Seq<char>, tag: Seq<char>)
    requires
        is_trim(name.push(':') + tag),
        !(name.push(':') + tag).contains('@'),
        !(name.push(':') + tag).contains('/'),
        !tag.contains(':'),
        image.refers_to(name.push(':') + tag),
    ensures
        image.registry@ == "registry-1.docker.io"@,
        image.repository@ == "library/"@ + name,
        image.reference@ == tag,
{
    let s = name.push(':') + tag;
    assert(trimmed(s) == s);
    s.index_of_first_ensures('@');
    s.index_of_first_ensures('/');
    assert(s.skip(0) =~= s);
    lemma_last_of(name, ':', tag);
    assert(s.take(name.len() as int) =~= name);
    assert(s.skip(name.len() as int + 1) =~= tag);
    assert(!name.contains('/')) by {
        if name.contains('/') {
            let i = choose|i: int| 0 <= i < name.len() && name[i] == '/';
            assert(s[i] == '/');
        }
    }
    name.index_of_first_ensures('/');
}

/// A name whose first part is no host belongs to Docker Hub as it is, and without a tag it is the
/// latest version.
pub proof fn law_names_without_hosts_belong_to_docker_hub(
    image: ImageRef,
    owner: Seq<char>,
    rest: Seq<char>,
)
    requires
        !owner.contains('/'),
        !owner.contains('.'),
        is_trim(owner.push('/') + rest),
        !(owner.push('/') + rest).contains('@'),
        !(owner.push('/') + rest).contains(':'),
        image.refers_to(owner.push('/') + rest),
    ensures
        image.registry@ == "registry-1.docker.io"@,
        image.repository@ == owner.push('/') + rest,
        image.reference@ == "latest"@,
{
    let s = owner.push('/') + rest;
    assert(trimmed(s) == s);
    s.index_of_first_ensures('@');
    lemma_first_of(owner, '/', rest);
    let tail = s.skip(owner.len() as int);
    assert(!tail.contains(':')) by {
        if tail.contains(':') {
            let i = choose|i: int| 0 <= i < tail.len() && tail[i] == ':';
            assert(s[i + owner.len()] == ':');
        }
    }
    tail.index_of_last_ensures(':');
    assert(!owner.contains(':')) by {
        if owner.contains(':') {
            let i = choose|i: int| 0 <= i < owner.len() && owner[i] == ':';
            assert(s[i] == ':');
        }
    }
}

/// A name whose first part is no host belongs to Docker Hub as it is, in the version of its tag.
pub proof fn law_names_without_hosts_may_have_tags(
    image: ImageRef,
    owner: Seq<char>,
    rest: Seq<char>,
    tag: Seq<char>,
)
    requires
        !owner.contains('/'),
        !owner.contains('.'),
        !owner.contains(':'),
        !tag.contains(':'),
        is_trim(owner.push('/') + rest.push(':') + tag),
        !(owner.push('/') + rest.push(':') + tag).contains('@'),
        image.refers_to(owner.push('/') + rest.push(':') + tag),
    ensures
        image.registry@ == "registry-1.docker.io"@,
        image.repository@ == owner.push('/') + rest,
        image.reference@ == tag,
{
    let s = owner.push('/') + rest.push(':') + tag;
    assert(trimmed(s) == s);
    s.index_of_first_ensures('@');
    assert(s =~= owner.push('/') + (rest.push(':') + tag));
    lemma_first_of(owner, '/', rest.push(':') + tag);
    let slash = owner.len() as int;
    let middle = seq!['/'] + rest;
    assert(s.skip(slash) =~= middle.push(':') + tag);
    lemma_last_of(middle, ':', tag);
    let name = owner.push('/') + rest;
    assert(s.take(slash + middle.len()) =~= name);
    assert(s.skip(slash + middle.len() + 1) =~= tag);
    lemma_first_of(owner, '/', rest);
}

/// A reference with a host, whose port is not taken for a tag, and without a tag is the latest
/// version.
pub proof fn law_references_without_tags_are_the_latest(
    image: ImageRef,
    registry: Seq<char>,
    repository: Seq<char>,
)
    requires
        looks_like_host(registry),
        !registry.contains('/'),
        !repository.contains(':'),
        !(registry.push('/') + repository).contains('@'),
        is_trim(registry.push('/') + repository),
        image.refers_to(registry.push('/') + repository),
    ensures
        image.registry@ == registry,
        image.repository@ == repository,
        image.reference@ == "latest"@,
{
    let s = registry.push('/') + repository;
    assert(trimmed(s) == s);
    s.index_of_first_ensures('@');
    lemma_first_of(registry, '/', repository);
    let tail = s.skip(registry.len() as int);
    assert(!tail.contains(':')) by {
        if tail.contains(':') {
            let i = choose|i: int| 0 <= i < tail.len() && tail[i] == ':';
            assert(tail[0] == '/');
            assert(repository[i - 1] == ':');
        }
    }
    tail.index_of_last_ensures(':');
    lemma_split_named(registry, repository);
}

/// Any text is read as a reference, and the image is the one that it refers to. Its registry is
/// reached over HTTPS.
pub proof fn law_references_are_always_read(
    s: &str,
    r: Result<ImageRef, DroidError>,
    image: &ImageRef,
    url: String,
)
    requires
        call_ensures(ImageRef::parse, (s,), r),
        call_ensures(ImageRef::registry_url, (image,), url),
    ensures
        r matches Ok(read) && read.refers_to(s@),
        url@ == "https://"@ + image.registry@,
{
}

/// A digest as text is what it was made of. Its hexadecimal part is what stands behind `sha256:`,
/// and as a file name it has hyphens where it has colons.
pub proof fn law_digests_are_what_they_were_made_of(
    s: &str,
    digest: Digest,
    asked: &Digest,
    hex: &str,
    name: String,
    i: int,
)
    requires
        call_ensures(Digest::new, (s,), digest),
        call_ensures(Digest::hex, (asked,), hex),
        call_ensures(Digest::as_fs_name, (asked,), name),
    ensures
        digest.0@ == s@,
        asked.0@ == "sha256:"@ + hex@ || (asked.0@ == hex@ && !"sha256:"@.is_prefix_of(asked.0@)),
        name@.len() == asked.0@.len(),
        0 <= i < name@.len() ==> name@[i] == (if asked.0@[i] == ':' {
            '-'
        } else {
            asked.0@[i]
        }),
{
    law_prefixes_are_taken_away("sha256:"@, hex@, asked.0@);
    reveal_strlit("-");
    assert("-"@ =~= seq!['-']);
    law_replacing_one_character_keeps_the_others(asked.0@, ':', '-');
}

/// A phase is written as Kubernetes does.
pub proof fn law_phases_are_written_as_kubernetes_does(phase: &PodPhase, r: &'static str)
    requires
        call_ensures(PodPhase::as_str, (phase,), r),
    ensures
        r@ == match phase {
            PodPhase::Pending => "Pending"@,
            PodPhase::Running => "Running"@,
            PodPhase::Succeeded => "Succeeded"@,
            PodPhase::Failed => "Failed"@,
            PodPhase::Unknown => "Unknown"@,
        },
{
}

/// The status of a node is the part of its profile that changes.
pub proof fn law_statuses_are_part_of_the_profile(profile: &NodeProfile, r: NodeStatus)
    requires
        call_ensures(NodeProfile::status, (profile,), r),
    ensures
        r.node_id == profile.node_id,
        r.conditions == profile.conditions,
        r.memory == profile.memory,
        r.storage == profile.storage,
        r.battery == profile.battery,
        r.network == profile.network,
{
}

/// The container that the agent runs is the first one of the pod.
pub proof fn law_the_agent_runs_the_first_container(pod: &Pod, r: Option<&Container>)
    requires
        call_ensures(Pod::first_container, (pod,), r),
    ensures
        r is Some <==> pod.spec is Some && pod.spec->0.containers@.len() > 0,
        r matches Some(c) ==> *c == pod.spec->0.containers@[0],
{
}

/// A name without a host may have a digest: it belongs to Docker Hub, to the official images if it
/// has no slash, and what stands behind the at sign is the digest.
pub proof fn law_names_without_hosts_may_have_digests(
    image: ImageRef,
    owner: Seq<char>,
    name: Seq<char>,
    digest: Seq<char>,
    plain: ImageRef,
)
    requires
        !owner.contains('/') && !owner.contains('.') && !owner.contains(':'),
        !name.contains('/') && !name.contains('@'),
        !(owner.push('/') + name).contains('@'),
        is_trim((owner.push('/') + name).push('@') + digest),
        is_trim(name.push('@') + digest),
        image.refers_to((owner.push('/') + name).push('@') + digest),
        plain.refers_to(name.push('@') + digest),
    ensures
        image.registry@ == "registry-1.docker.io"@,
        image.repository@ == owner.push('/') + name,
        image.reference@ == digest,
        plain.registry@ == "registry-1.docker.io"@,
        plain.repository@ == "library/"@ + name,
        plain.reference@ == digest,
{
    let full = owner.push('/') + name;
    assert(trimmed(full.push('@') + digest) == full.push('@') + digest);
    assert(trimmed(name.push('@') + digest) == name.push('@') + digest);
    lemma_first_of(full, '@', digest);
    lemma_first_of(name, '@', digest);
    lemma_first_of(owner, '/', name);
    name.index_of_first_ensures('/');
}

} // verus!

//! Runs programs inside a root file system with proot.
use vstd::prelude::*;

use crate::brokers::proot_launch::{LaunchAction, LaunchStage, ProotLaunch};
use crate::error::DroidError;
use crate::models::Mount;
use crate::paths::{
    below_root, is_absolute, path_join, path_joined, path_renamed, strip_root, with_file_name,
};
use crate::text::{cat2, cat3, cat4, cat5, join, joined, views};

verus! {

/// Starts workloads with the proot program at a path.
#[derive(Debug)]
pub struct ProotBrokerImpl {
    pub proot_path: String,
}

impl Clone for ProotBrokerImpl {
    fn clone(&self) -> (r: Self)
        ensures
            r == *self,
    {
        ProotBrokerImpl { proot_path: self.proot_path.clone() }
    }
}

/// A program with its environment, as variables in the order in which they are set, and
/// its arguments. A variable that is set again has its last value.
#[derive(Debug)]
pub struct ProotCommand {
    pub program: String,
    pub env: Vec<(String, String)>,
    pub args: Vec<String>,
}

/// What is there on the host.
#[derive(Debug)]
pub struct HostFacts {
    /// The loader that proot uses in the guest.
    pub loader: bool,
    /// The host's `/etc/resolv.conf`.
    pub resolv_conf: bool,
    /// The host's `/etc/hosts`.
    pub hosts: bool,
    /// For each mount, its source.
    pub mounts: Vec<bool>,
}

/// The views of a sequence of variables.
pub open spec fn pair_views(v: Seq<(String, String)>) -> Seq<(Seq<char>, Seq<char>)> {
    v.map_values(|p: (String, String)| (p.0@, p.1@))
}

/// The value that a variable has when the variables of `env` were set one after the other.
pub open spec fn value_of(env: Seq<(Seq<char>, Seq<char>)>, key: Seq<char>) -> Option<Seq<char>>
    decreases env.len(),
{
    if env.len() == 0 {
        None
    } else if env.last().0 == key {
        Some(env.last().1)
    } else {
        value_of(env.drop_last(), key)
    }
}

/// The search path of the guest, unless the workload has its own.
pub open spec fn guest_path() -> Seq<char> {
    "/usr/local/sbin:/usr/local/bin:/usr/sbin:/usr/bin:/sbin:/bin"@
}

/// The variables that proot runs with, before those of the workload.
pub open spec fn proot_env(
    tmp: Seq<char>,
    loader: Option<Seq<char>>,
) -> Seq<(Seq<char>, Seq<char>)> {
    seq![
        ("PROOT_NO_SECCOMP"@, "1"@),
        ("PROOT_TMP_DIR"@, tmp),
        ("TMPDIR"@, "/tmp"@),
        ("PATH"@, guest_path()),
    ] + match loader {
        Some(l) => seq![("PROOT_LOADER"@, l)],
        None => Seq::empty(),
    }
}

/// The arguments that make `path` of the host visible in the guest.
pub open spec fn bind(path: Seq<char>) -> Seq<Seq<char>> {
    seq!["-b"@, path]
}

/// The arguments for the mounts whose sources are there.
pub open spec fn mount_args(mounts: Seq<Mount>, present: Seq<bool>) -> Seq<Seq<char>>
    decreases mounts.len(),
{
    if mounts.len() == 0 {
        Seq::empty()
    } else {
        let n = mounts.len() - 1;
        mount_args(mounts.drop_last(), present) + if present[n] {
            bind(mounts[n].source@ + ":"@ + mounts[n].target@)
        } else {
            Seq::empty()
        }
    }
}

/// The arguments of proot before those for the mounts.
pub open spec fn base_args(
    rootfs: Seq<char>,
    cwd: Seq<char>,
    resolv_conf: bool,
    hosts: bool,
) -> Seq<Seq<char>> {
    seq!["-r"@, rootfs, "-w"@, cwd] + bind("/dev"@) + bind("/proc"@) + bind("/sys"@) + (
    if resolv_conf {
        bind("/etc/resolv.conf"@)
    } else {
        Seq::empty()
    }) + (if hosts {
        bind("/etc/hosts"@)
    } else {
        Seq::empty()
    })
}

/// The first names of a directory, at most `n` of them, without those that are no text.
pub open spec fn names_among(entries: Seq<Option<String>>, n: int) -> Seq<Seq<char>>
    decreases n,
{
    if n <= 0 {
        Seq::empty()
    } else if n > entries.len() {
        names_among(entries, n - 1)
    } else {
        match entries[n - 1] {
            Some(name) => names_among(entries, n - 1).push(name@),
            None => names_among(entries, n - 1),
        }
    }
}

/// How the `bin` directory of a root file system is listed in an error.
pub open spec fn bin_listing(entries: Option<Vec<Option<String>>>) -> Seq<char> {
    match entries {
        Some(names) => joined(names_among(names@, 20), ","@),
        None => "<missing bin dir>"@,
    }
}

fn push_arg(args: &mut Vec<String>, arg: &str)
    ensures
        views(final(args)@) == views(old(args)@).push(arg@),
{
    let ghost before = args@;
    args.push(arg.to_owned());
    assert(views(args@) =~= views(before).push(arg@));
}

fn push_bind(args: &mut Vec<String>, path: &str)
    ensures
        views(final(args)@) == views(old(args)@) + bind(path@),
{
    let ghost before = views(args@);
    push_arg(args, "-b");
    push_arg(args, path);
    assert(views(args@) =~= before + bind(path@));
}

fn push_var(env: &mut Vec<(String, String)>, key: &str, value: &str)
    ensures
        pair_views(final(env)@) == pair_views(old(env)@).push((key@, value@)),
{
    let ghost before = env@;
    env.push((key.to_owned(), value.to_owned()));
    assert(pair_views(env@) =~= pair_views(before).push((key@, value@)));
}

impl ProotBrokerImpl {
    pub fn new(proot_path: String) -> (r: Self)
        ensures
            r.proot_path == proot_path,
    {
        ProotBrokerImpl { proot_path }
    }

    /// Begins to run `command` inside `rootfs`, with `proot_tmp` for proot's own files.
    pub fn execute(
        &self,
        rootfs: &str,
        command: Vec<String>,
        env: Vec<(String, String)>,
        mounts: Vec<Mount>,
        cwd: Option<String>,
        proot_tmp: &str,
    ) -> (r: Result<(ProotLaunch, LaunchAction), DroidError>)
        ensures
            match r {
                Err(e) => command@.len() == 0 && (e matches DroidError::Process(m) && m@
                    == "command is empty"@),
                Ok((launch, action)) => {
                    &&& command@.len() > 0
                    &&& launch.wf()
                    &&& launch.broker == *self
                    &&& launch.rootfs@ == rootfs@
                    &&& launch.command == command
                    &&& launch.env == env
                    &&& launch.mounts == mounts
                    &&& launch.cwd == cwd
                    &&& launch.proot_tmp@ == proot_tmp@
                    &&& launch.stage == LaunchStage::MakingGuestTmp
                    &&& action matches LaunchAction::MakeDir { path }
                    &&& path@ == path_joined(rootfs@, "tmp"@)
                },
            },
    {
        if command.len() == 0 {
            return Err(DroidError::Process("command is empty".to_owned()));
        }
        let launch = ProotLaunch {
            broker: self.clone(),
            rootfs: rootfs.to_owned(),
            command,
            env,
            mounts,
            cwd,
            proot_tmp: proot_tmp.to_owned(),
            facts: HostFacts {
                loader: false,
                resolv_conf: false,
                hosts: false,
                mounts: Vec::new(),
            },
            reason: String::new(),
            stage: LaunchStage::MakingGuestTmp,
        };
        Ok((launch, LaunchAction::MakeDir { path: path_join(rootfs, "tmp") }))
    }

    /// The path of the loader, which stands beside the proot program.
    pub fn loader_path(&self) -> (r: String)
        ensures
            r@ == path_renamed(self.proot_path@, "libproot_loader.so"@),
    {
        with_file_name(self.proot_path.as_str(), "libproot_loader.so")
    }

    /// The command that runs `command` inside `rootfs`, on a host of which `facts` tells what
    /// is there.
    pub(crate) fn command_line(
        &self,
        rootfs: &str,
        command: &Vec<String>,
        env: &Vec<(String, String)>,
        mounts: &Vec<Mount>,
        cwd: &Option<String>,
        proot_tmp: &str,
        facts: &HostFacts,
    ) -> (r: ProotCommand)
        requires
            command@.len() > 0,
            facts.mounts@.len() == mounts@.len(),
        ensures
            r.program == self.proot_path,
            pair_views(r.env@) == proot_env(
                proot_tmp@,
                if facts.loader {
                    Some(path_renamed(self.proot_path@, "libproot_loader.so"@))
                } else {
                    None
                },
            ) + pair_views(env@),
            views(r.args@) == base_args(
                rootfs@,
                match cwd {
                    Some(dir) => dir@,
                    None => "/"@,
                },
                facts.resolv_conf,
                facts.hosts,
            ) + mount_args(mounts@, facts.mounts@) + views(command@),
    {
        let mut vars: Vec<(String, String)> = Vec::new();
        push_var(&mut vars, "PROOT_NO_SECCOMP", "1");
        push_var(&mut vars, "PROOT_TMP_DIR", proot_tmp);
        push_var(&mut vars, "TMPDIR", "/tmp");
        push_var(
            &mut vars,
            "PATH",
            "/usr/local/sbin:/usr/local/bin:/usr/sbin:/usr/bin:/sbin:/bin",
        );
        let ghost loader: Option<Seq<char>> = None;
        if facts.loader {
            let path: String = self.loader_path();
            push_var(&mut vars, "PROOT_LOADER", path.as_str());
            proof {
                loader = Some(path@);
            }
        }
        let ghost own = pair_views(vars@);
        assert(own =~= proot_env(proot_tmp@, loader));
        let mut i: usize = 0;
        while i < env.len()
            invariant
                i <= env@.len(),
                pair_views(vars@) == own + pair_views(env@.take(i as int)),
            decreases env.len() - i,
        {
            push_var(&mut vars, env[i].0.as_str(), env[i].1.as_str());
            assert(own + pair_views(env@.take(i + 1)) =~= (own + pair_views(
                env@.take(i as int),
            )).push((env@[i as int].0@, env@[i as int].1@)));
            i = i + 1;
        }
        assert(env@.take(env@.len() as int) =~= env@);

        let dir: &str = match cwd {
            Some(d) => d.as_str(),
            None => "/",
        };
        let mut args: Vec<String> = Vec::new();
        push_arg(&mut args, "-r");
        push_arg(&mut args, rootfs);
        push_arg(&mut args, "-w");
        push_arg(&mut args, dir);
        assert(views(args@) =~= seq!["-r"@, rootfs@, "-w"@, dir@]);
        push_bind(&mut args, "/dev");
        push_bind(&mut args, "/proc");
        push_bind(&mut args, "/sys");
        if facts.resolv_conf {
            push_bind(&mut args, "/etc/resolv.conf");
        }
        if facts.hosts {
            push_bind(&mut args, "/etc/hosts");
        }
        let ghost base = views(args@);
        assert(base =~= base_args(rootfs@, dir@, facts.resolv_conf, facts.hosts));
        let mut j: usize = 0;
        assert(mounts@.take(0) =~= Seq::<Mount>::empty());
        assert(base =~= base + mount_args(mounts@.take(0), facts.mounts@));
        while j < mounts.len()
            invariant
                j <= mounts@.len(),
                facts.mounts@.len() == mounts@.len(),
                views(args@) == base + mount_args(mounts@.take(j as int), facts.mounts@),
            decreases mounts.len() - j,
        {
            assert(mounts@.take(j + 1).drop_last() =~= mounts@.take(j as int));
            let ghost before = mount_args(mounts@.take(j as int), facts.mounts@);
            if facts.mounts[j] {
                let text: String = cat3(mounts[j].source.as_str(), ":", mounts[j].target.as_str());
                push_bind(&mut args, text.as_str());
                assert(base + before + bind(text@) =~= base + (before + bind(text@)));
            } else {
                assert(before + Seq::empty() =~= before);
            }
            j = j + 1;
        }
        assert(mounts@.take(mounts@.len() as int) =~= mounts@);
        let ghost mounted = views(args@);
        let mut k: usize = 0;
        assert(mounted =~= mounted + views(command@.take(0)));
        while k < command.len()
            invariant
                k <= command@.len(),
                views(args@) == mounted + views(command@.take(k as int)),
            decreases command.len() - k,
        {
            push_arg(&mut args, command[k].as_str());
            assert(mounted + views(command@.take(k + 1)) =~= (mounted + views(
                command@.take(k as int),
            )).push(command@[k as int]@));
            k = k + 1;
        }
        assert(command@.take(command@.len() as int) =~= command@);
        ProotCommand { program: self.proot_path.clone(), env: vars, args }
    }
}

/// What was found where the program of a workload has to be.
#[derive(Debug)]
pub enum CommandLookup {
    /// There is something.
    Found,
    /// There is nothing, for a reason. The names in the `bin` directory of the guest are
    /// listed, if there is one: those that are no text are left blank.
    Missing { reason: String, bin_entries: Option<Vec<Option<String>>> },
}

/// The program is named by an absolute path of the guest.
pub open spec fn is_named_by_path(program: Seq<char>) -> bool {
    program.len() > 0 && program[0] == '/'
}

/// Where a program of the guest is on the host.
pub open spec fn host_path(rootfs: Seq<char>, program: Seq<char>) -> Seq<char> {
    path_joined(rootfs, below_root(program))
}

/// Where the program of a workload has to be on the host, if the workload names it by an
/// absolute path of the guest.
pub fn guest_program(rootfs: &str, command: &Vec<String>) -> (r: Option<String>)
    requires
        command@.len() > 0,
    ensures
        match r {
            Some(path) => is_named_by_path(command@[0]@) && path@ == host_path(
                rootfs@,
                command@[0]@,
            ),
            None => !is_named_by_path(command@[0]@),
        },
{
    let program: &String = &command[0];
    if is_absolute(program.as_str()) {
        let relative: String = strip_root(program.as_str());
        Some(path_join(rootfs, relative.as_str()))
    } else {
        None
    }
}

/// Whether the program of a workload is where it has to be. A program that is named without
/// a path is left for proot to find.
pub fn ensure_workload_command_exists(
    rootfs: &str,
    command: &Vec<String>,
    lookup: &CommandLookup,
) -> (r: Result<(), DroidError>)
    requires
        command@.len() > 0,
    ensures
        match lookup {
            CommandLookup::Missing { reason, bin_entries } => if is_named_by_path(command@[0]@) {
                r matches Err(DroidError::Workload(m)) && m@ == "workload command "@
                    + command@[0]@ + " not found at "@ + host_path(rootfs@, command@[0]@) + ": "@
                    + reason@ + "; rootfs bin entries: "@ + bin_listing(*bin_entries)
            } else {
                r is Ok
            },
            CommandLookup::Found => r is Ok,
        },
{
    match (guest_program(rootfs, command), lookup) {
        (Some(path), CommandLookup::Missing { reason, bin_entries }) => Err(
            missing_command(command[0].as_str(), path.as_str(), reason.as_str(), bin_entries),
        ),
        _ => Ok(()),
    }
}

/// The error for a workload whose program is not where it has to be.
fn missing_command(
    program: &str,
    guest_program: &str,
    reason: &str,
    bin_entries: &Option<Vec<Option<String>>>,
) -> (r: DroidError)
    ensures
        r matches DroidError::Workload(m) && m@ == "workload command "@ + program@
            + " not found at "@ + guest_program@ + ": "@ + reason@ + "; rootfs bin entries: "@
            + bin_listing(*bin_entries),
{
    let listing: String = match bin_entries {
        Some(entries) => {
            let mut names: Vec<String> = Vec::new();
            let mut i: usize = 0;
            assert(views(names@) =~= names_among(entries@, 0));
            while i < 20
                invariant
                    i <= 20,
                    views(names@) == names_among(entries@, i as int),
                decreases 20 - i,
            {
                if i < entries.len() {
                    if let Some(name) = &entries[i] {
                        push_arg(&mut names, name.as_str());
                    }
                }
                i = i + 1;
            }
            join(&names, ",")
        },
        None => "<missing bin dir>".to_owned(),
    };
    let place: String = cat5("workload command ", program, " not found at ", guest_program, ": ");
    DroidError::Workload(
        cat4(place.as_str(), reason, "; rootfs bin entries: ", listing.as_str()),
    )
}

/// The error for a proot program that could not be started.
pub fn spawn_failure(reason: &str) -> (r: DroidError)
    ensures
        r matches DroidError::Process(m) && m@ == "proot spawn failed: "@ + reason@,
{
    DroidError::Process(cat2("proot spawn failed: ", reason))
}

// ---------------------------------------------------------------------------

/// Variables that are set later have precedence.
pub proof fn lemma_value_of_concat(
    a: Seq<(Seq<char>, Seq<char>)>,
    b: Seq<(Seq<char>, Seq<char>)>,
    key: Seq<char>,
)
    ensures
        value_of(a + b, key) == match value_of(b, key) {
            Some(v) => Some(v),
            None => value_of(a, key),
        },
    decreases b.len(),
{
    if b.len() == 0 {
        assert(a + b =~= a);
    } else {
        assert((a + b).drop_last() =~= a + b.drop_last());
        assert((a + b).last() == b.last());
        lemma_value_of_concat(a, b.drop_last(), key);
    }
}

/// The variables of a workload have precedence over those that proot runs with: a variable
/// that the workload sets has the workload's value, and any other has proot's.
pub proof fn law_workload_variables_have_precedence(
    tmp: Seq<char>,
    loader: Option<Seq<char>>,
    env: Seq<(Seq<char>, Seq<char>)>,
    key: Seq<char>,
)
    ensures
        value_of(proot_env(tmp, loader) + env, key) == match value_of(env, key) {
            Some(v) => Some(v),
            None => value_of(proot_env(tmp, loader), key),
        },
{
    lemma_value_of_concat(proot_env(tmp, loader), env, key);
}

/// A workload that does not set `PATH` finds the programs of the guest.
pub proof fn law_guest_path_is_the_default(
    tmp: Seq<char>,
    loader: Option<Seq<char>>,
    env: Seq<(Seq<char>, Seq<char>)>,
)
    requires
        value_of(env, "PATH"@) is None,
    ensures
        value_of(proot_env(tmp, loader) + env, "PATH"@) == Some(guest_path()),
{
    lemma_value_of_concat(proot_env(tmp, loader), env, "PATH"@);
    reveal_strlit("PATH");
    reveal_strlit("PROOT_LOADER");
    assert("PATH"@.len() != "PROOT_LOADER"@.len());
    let fixed = proot_env(tmp, None);
    assert(fixed.last() == ("PATH"@, guest_path()));
    assert(value_of(fixed, "PATH"@) == Some(guest_path()));
    match loader {
        Some(l) => {
            let all = proot_env(tmp, loader);
            assert(all.last() == ("PROOT_LOADER"@, l));
            assert(all.drop_last() =~= fixed);
        },
        None => {},
    }
}

} // verus!

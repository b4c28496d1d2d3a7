//! What proot is started with.
use vstd::prelude::*;

use crate::brokers::proot_broker::{
    base_args, bin_listing, ensure_workload_command_exists, guest_program, mount_args,
    names_among, pair_views, proot_env, spawn_failure, CommandLookup, ProotBrokerImpl,
};
use crate::brokers::proot_launch::{LaunchAction, LaunchEvent, LaunchStage, ProotLaunch};
use crate::error::DroidError;
use crate::models::Mount;
use crate::paths::{below_root, path_joined, path_renamed};
use crate::text::{joined, views};

verus! {

/// A launch is made for just what was asked for, and begins with the directory for temporary
/// files in the guest. Nothing to run is an error.
pub proof fn law_a_launch_is_for_what_was_asked(
    broker: &ProotBrokerImpl,
    rootfs: &str,
    command: Vec<String>,
    env: Vec<(String, String)>,
    mounts: Vec<Mount>,
    cwd: Option<String>,
    proot_tmp: &str,
    r: Result<(ProotLaunch, LaunchAction), DroidError>,
)
    requires
        call_ensures(
            ProotBrokerImpl::execute,
            (broker, rootfs, command, env, mounts, cwd, proot_tmp),
            r,
        ),
    ensures
        command@.len() == 0 ==> (r matches Err(DroidError::Process(m)) && m@
            == "command is empty"@),
        command@.len() > 0 ==> {
            &&& r matches Ok((launch, action))
            &&& launch.broker.proot_path == broker.proot_path
            &&& launch.rootfs@ == rootfs@
            &&& launch.command == command
            &&& launch.env == env
            &&& launch.mounts == mounts
            &&& launch.cwd == cwd
            &&& launch.proot_tmp@ == proot_tmp@
            &&& launch.stage == LaunchStage::MakingGuestTmp
            &&& action matches LaunchAction::MakeDir { path }
            &&& path@ == path_joined(rootfs@, "tmp"@)
        },
{
}

/// What a launch does in each of its stages. The directory for proot's own files is made. A
/// program that is named by an absolute path is looked for in the root file system, and where it
/// is not there the launch fails. Then it is looked for the loader beside proot, the two files
/// that tell how names are resolved, and the source of each mount.
pub proof fn law_a_launch_looks_before_it_starts(
    pre: ProotLaunch,
    event: LaunchEvent,
    post: ProotLaunch,
    action: LaunchAction,
)
    requires
        pre.wf(),
        pre.awaits(event),
        pre.steps_to(event, post, action),
    ensures
        ({
            let program = pre.command@[0]@;
            let loader = path_renamed(pre.broker.proot_path@, "libproot_loader.so"@);
            match (pre.stage, event) {
                (LaunchStage::MakingGuestTmp, LaunchEvent::Done) => {
                    &&& action matches LaunchAction::MakeDir { path }
                    &&& path@ == pre.proot_tmp@
                    &&& post.stage == LaunchStage::MakingProotTmp
                },
                (LaunchStage::MakingProotTmp, LaunchEvent::Done) => if program.len() > 0
                    && program[0] == '/' {
                    &&& action matches LaunchAction::LookForProgram { path }
                    &&& path@ == path_joined(pre.rootfs@, below_root(program))
                    &&& post.stage == LaunchStage::LookingForProgram
                } else {
                    looks_for(action, loader) && post.stage == LaunchStage::LookingForLoader
                },
                (LaunchStage::LookingForProgram, LaunchEvent::Done) => looks_for(action, loader)
                    && post.stage == LaunchStage::LookingForLoader,
                (LaunchStage::LookingForProgram, LaunchEvent::Missing(reason)) => {
                    &&& action matches LaunchAction::ListDir { path }
                    &&& path@ == path_joined(pre.rootfs@, "bin"@)
                    &&& post.reason == reason
                    &&& post.stage == LaunchStage::ListingBin
                },
                (LaunchStage::ListingBin, LaunchEvent::Listed(_)) => action
                    matches LaunchAction::Failed(DroidError::Workload(_)),
                (LaunchStage::LookingForLoader, LaunchEvent::Found(found)) => {
                    &&& looks_for(action, "/etc/resolv.conf"@)
                    &&& post.facts.loader == found
                    &&& post.stage == LaunchStage::LookingForResolvConf
                },
                (LaunchStage::LookingForResolvConf, LaunchEvent::Found(found)) => {
                    &&& looks_for(action, "/etc/hosts"@)
                    &&& post.facts.resolv_conf == found
                    &&& post.facts.loader == pre.facts.loader
                    &&& post.stage == LaunchStage::LookingForHosts
                },
                (LaunchStage::LookingForHosts, LaunchEvent::Found(found)) => {
                    &&& post.facts.hosts == found
                    &&& post.facts.loader == pre.facts.loader
                    &&& post.facts.resolv_conf == pre.facts.resolv_conf
                    &&& post.facts.mounts@.len() == 0
                    &&& is_at_mount(post, 0, action)
                },
                (LaunchStage::LookingForMount, LaunchEvent::Found(found)) => {
                    let k = pre.facts.mounts@.len() as int;
                    &&& post.facts.mounts@.len() == k + 1
                    &&& post.facts.mounts@[k] == found
                    &&& forall|i: int|
                        0 <= i < k ==> #[trigger] post.facts.mounts@[i] == pre.facts.mounts@[i]
                    &&& post.facts.hosts == pre.facts.hosts
                    &&& post.facts.loader == pre.facts.loader
                    &&& post.facts.resolv_conf == pre.facts.resolv_conf
                    &&& is_at_mount(post, k + 1, action)
                },
                (LaunchStage::Spawning, LaunchEvent::Done) => action is Finished,
                (LaunchStage::Spawning, LaunchEvent::Refused(reason)) => action
                    matches LaunchAction::Failed(DroidError::Process(m)) && m@
                    == "proot spawn failed: "@ + reason@,
                (_, LaunchEvent::Refused(reason)) => action == LaunchAction::Failed(
                    DroidError::Filesystem(reason),
                ),
                _ => false,
            }
        }),
        post.broker == pre.broker,
        post.rootfs == pre.rootfs,
        post.command == pre.command,
        post.env == pre.env,
        post.mounts == pre.mounts,
        post.cwd == pre.cwd,
        post.proot_tmp == pre.proot_tmp,
{
}

/// The action looks for something at `path`.
pub open spec fn looks_for(action: LaunchAction, path: Seq<char>) -> bool {
    action matches LaunchAction::LookFor { path: p } && p@ == path
}

/// The launch looks for the source of the mount at place `k`, or starts proot when there is no
/// such mount.
pub open spec fn is_at_mount(launch: ProotLaunch, k: int, action: LaunchAction) -> bool {
    if k < launch.mounts@.len() {
        looks_for(action, launch.mounts@[k].source@) && launch.stage
            == LaunchStage::LookingForMount
    } else {
        action is Spawn && launch.stage == LaunchStage::Spawning
    }
}

/// The words `-b` and `path` stand in `args` at place `i`.
pub open spec fn binds_at(args: Seq<String>, i: int, path: Seq<char>) -> bool {
    &&& 0 <= i && i + 1 < args.len()
    &&& args[i]@ == "-b"@
    &&& args[i + 1]@ == path
}

/// Proot is started from its own path, on the root file system and in the directory that was
/// asked for, or else the root. The host's devices and kernel files are shown to the guest.
pub proof fn law_proot_runs_on_the_rootfs(
    pre: ProotLaunch,
    event: LaunchEvent,
    post: ProotLaunch,
    action: LaunchAction,
)
    requires
        pre.wf(),
        pre.awaits(event),
        pre.steps_to(event, post, action),
        action is Spawn,
    ensures
        ({
            let args = action->command.args@;
            &&& action->command.program == pre.broker.proot_path
            &&& args.len() >= 10 + pre.command@.len()
            &&& args[0]@ == "-r"@
            &&& args[1]@ == pre.rootfs@
            &&& args[2]@ == "-w"@
            &&& pre.cwd matches Some(dir) ==> args[3]@ == dir@
            &&& pre.cwd is None ==> args[3]@ == "/"@
            &&& binds_at(args, 4, "/dev"@)
            &&& binds_at(args, 6, "/proc"@)
            &&& binds_at(args, 8, "/sys"@)
            &&& post.facts.resolv_conf ==> binds_at(args, 10, "/etc/resolv.conf"@)
            &&& post.facts.hosts ==> binds_at(
                args,
                if post.facts.resolv_conf {
                    12
                } else {
                    10
                },
                "/etc/hosts"@,
            )
        }),
{
    let command = action->command;
    let n = views(command.args@).len();
    assert(n == command.args@.len());
    assert(views(pre.command@).len() == pre.command@.len());
    assert forall|i: int| 0 <= i < n implies #[trigger] views(command.args@)[i]
        == command.args@[i]@ by {}
    let a = views(command.args@);
    assert(a[0] == "-r"@ && a[1] == pre.rootfs@ && a[2] == "-w"@);
    assert(a[3] == match pre.cwd {
        Some(dir) => dir@,
        None => "/"@,
    });
    assert(a[4] == "-b"@ && a[5] == "/dev"@ && a[6] == "-b"@ && a[7] == "/proc"@ && a[8] == "-b"@
        && a[9] == "/sys"@);
    if post.facts.resolv_conf {
        assert(a[10] == "-b"@ && a[11] == "/etc/resolv.conf"@);
        if post.facts.hosts {
            assert(a[12] == "-b"@ && a[13] == "/etc/hosts"@);
        }
    } else if post.facts.hosts {
        assert(a[10] == "-b"@ && a[11] == "/etc/hosts"@);
    }
}

/// How many of the first `n` mounts have sources that are there.
pub open spec fn present_among(present: Seq<bool>, n: int) -> int
    decreases n,
{
    if n <= 0 {
        0
    } else {
        present_among(present, n - 1) + if present[n - 1] {
            1int
        } else {
            0int
        }
    }
}

proof fn lemma_mount_args(mounts: Seq<Mount>, present: Seq<bool>, k: int)
    requires
        mounts.len() <= present.len(),
    ensures
        mount_args(mounts, present).len() == 2 * present_among(present, mounts.len() as int),
        0 <= present_among(present, mounts.len() as int),
        0 <= k < mounts.len() && present[k] ==> {
            let at = 2 * present_among(present, k);
            &&& 0 <= at && at + 1 < mount_args(mounts, present).len()
            &&& mount_args(mounts, present)[at] == "-b"@
            &&& mount_args(mounts, present)[at + 1] == mounts[k].source@ + ":"@ + mounts[k].target@
        },
    decreases mounts.len(),
{
    if mounts.len() > 0 {
        let n = mounts.len() - 1;
        lemma_mount_args(mounts.drop_last(), present, k);
    }
}

/// What proot runs in the guest is the command that was asked for, word for word, behind one
/// pair of arguments for each mount whose source is there: the words end the arguments, the
/// mounts stand right before them, and there are no other arguments than these and those that
/// every launch has.
pub proof fn law_proot_runs_the_command(
    pre: ProotLaunch,
    event: LaunchEvent,
    post: ProotLaunch,
    action: LaunchAction,
    k: int,
)
    requires
        pre.wf(),
        pre.awaits(event),
        pre.steps_to(event, post, action),
        action is Spawn,
    ensures
        ({
            let args = action->command.args@;
            let fixed = 10 + (if post.facts.resolv_conf {
                2int
            } else {
                0int
            }) + (if post.facts.hosts {
                2int
            } else {
                0int
            });
            let mounts = 2 * present_among(post.facts.mounts@, pre.mounts@.len() as int);
            &&& args.len() == fixed + mounts + pre.command@.len()
            &&& 0 <= k < pre.command@.len() ==> args[fixed + mounts + k]@ == pre.command@[k]@
            &&& 0 <= k < pre.mounts@.len() && post.facts.mounts@[k] ==> binds_at(
                args,
                fixed + 2 * present_among(post.facts.mounts@, k),
                pre.mounts@[k].source@ + ":"@ + pre.mounts@[k].target@,
            )
        }),
{
    let command = action->command;
    let args = views(command.args@);
    assert(args.len() == command.args@.len());
    assert forall|i: int| 0 <= i < args.len() implies #[trigger] args[i] == command.args@[i]@ by {}
    lemma_mount_args(pre.mounts@, post.facts.mounts@, k);
    let base = base_args(
        pre.rootfs@,
        match pre.cwd {
            Some(dir) => dir@,
            None => "/"@,
        },
        post.facts.resolv_conf,
        post.facts.hosts,
    );
    let fixed = 10 + (if post.facts.resolv_conf {
        2int
    } else {
        0int
    }) + (if post.facts.hosts {
        2int
    } else {
        0int
    });
    assert(base.len() == fixed);
    let middle = mount_args(pre.mounts@, post.facts.mounts@);
    assert(args == base + middle + views(pre.command@));
    if 0 <= k < pre.command@.len() {
        assert(args[fixed + middle.len() + k] == views(pre.command@)[k]);
    }
    if 0 <= k < pre.mounts@.len() && post.facts.mounts@[k] {
        let at = 2 * present_among(post.facts.mounts@, k);
        assert(args[fixed + at] == middle[at]);
        assert(args[fixed + at + 1] == middle[at + 1]);
    }
}

/// Proot runs with its own variables first: no seccomp, its directory for temporary files, that of
/// the guest, the search path of the guest, and the loader if it is there. Then come the
/// variables of the workload, as they are.
pub proof fn law_proot_runs_with_these_variables(
    pre: ProotLaunch,
    event: LaunchEvent,
    post: ProotLaunch,
    action: LaunchAction,
    k: int,
)
    requires
        pre.wf(),
        pre.awaits(event),
        pre.steps_to(event, post, action),
        action is Spawn,
    ensures
        ({
            let env = action->command.env@;
            let own = if post.facts.loader {
                5int
            } else {
                4int
            };
            &&& env.len() == own + pre.env@.len()
            &&& env[0].0@ == "PROOT_NO_SECCOMP"@ && env[0].1@ == "1"@
            &&& env[1].0@ == "PROOT_TMP_DIR"@ && env[1].1@ == pre.proot_tmp@
            &&& env[2].0@ == "TMPDIR"@ && env[2].1@ == "/tmp"@
            &&& env[3].0@ == "PATH"@ && env[3].1@
                == "/usr/local/sbin:/usr/local/bin:/usr/sbin:/usr/bin:/sbin:/bin"@
            &&& post.facts.loader ==> env[4].0@ == "PROOT_LOADER"@ && env[4].1@ == path_renamed(
                pre.broker.proot_path@,
                "libproot_loader.so"@,
            )
            &&& 0 <= k < pre.env@.len() ==> env[own + k].0@ == pre.env@[k].0@ && env[own + k].1@
                == pre.env@[k].1@
        }),
{
    let env = action->command.env@;
    let all = pair_views(env);
    assert(all.len() == env.len());
    assert forall|i: int| 0 <= i < all.len() implies #[trigger] all[i] == (
        env[i].0@,
        env[i].1@,
    ) by {}
    let loader = if post.facts.loader {
        Some(path_renamed(pre.broker.proot_path@, "libproot_loader.so"@))
    } else {
        None
    };
    let own = proot_env(pre.proot_tmp@, loader);
    assert(all == own + pair_views(pre.env@));
    assert(all[0] == own[0] && all[1] == own[1] && all[2] == own[2] && all[3] == own[3]);
    if post.facts.loader {
        assert(all[4] == own[4]);
    }
    if 0 <= k < pre.env@.len() {
        assert(all[own.len() + k] == pair_views(pre.env@)[k]);
    }
}

/// A program that is not where it has to be is an error that names the program, where it was
/// looked for, why it is not there, and what there is in `bin`.
pub proof fn law_missing_programs_are_told(
    pre: ProotLaunch,
    entries: Option<Vec<Option<String>>>,
    post: ProotLaunch,
    action: LaunchAction,
)
    requires
        pre.wf(),
        pre.stage == LaunchStage::ListingBin,
        pre.steps_to(LaunchEvent::Listed(entries), post, action),
    ensures
        action matches LaunchAction::Failed(DroidError::Workload(m)) && exists|listing: Seq<char>|
            m@ == "workload command "@ + pre.command@[0]@ + " not found at "@ + path_joined(
                pre.rootfs@,
                below_root(pre.command@[0]@),
            ) + ": "@ + pre.reason@ + "; rootfs bin entries: "@ + listing && #[trigger] lists(
                listing,
                entries,
            ),
{
    let listing = bin_listing(entries);
    if let Some(names) = entries {
        lemma_names(names@, 20);
    }
    assert(lists(listing, entries));
}

/// The text lists the first names of a directory, with commas between them, and leaves out those
/// that are no text. A directory that could not be read is told to be missing.
pub open spec fn lists(text: Seq<char>, entries: Option<Vec<Option<String>>>) -> bool {
    match entries {
        None => text == "<missing bin dir>"@,
        Some(names) => text == joined(
            texts_in(
                if names@.len() > 20 {
                    names@.take(20)
                } else {
                    names@
                },
            ),
            ","@,
        ),
    }
}

/// The names that are text.
pub open spec fn texts_in(names: Seq<Option<String>>) -> Seq<Seq<char>>
    decreases names.len(),
{
    if names.len() == 0 {
        Seq::empty()
    } else {
        match names.last() {
            Some(name) => texts_in(names.drop_last()).push(name@),
            None => texts_in(names.drop_last()),
        }
    }
}

proof fn lemma_names(names: Seq<Option<String>>, n: int)
    requires
        0 <= n,
    ensures
        names_among(names, n) == texts_in(
            if names.len() > n {
                names.take(n)
            } else {
                names
            },
        ),
    decreases n,
{
    if n > 0 {
        lemma_names(names, n - 1);
        if n <= names.len() {
            assert(names.take(n).drop_last() =~= names.take(n - 1));
            assert(names.take(n).last() == names[n - 1]);
            assert(names.take(names.len() as int) =~= names);
        }
    } else {
        assert(names.take(0) =~= Seq::<Option<String>>::empty());
    }
}

/// Only a program that is named by an absolute path has a place on the host: the same path below
/// the root file system.
pub proof fn law_absolute_programs_have_a_place_on_the_host(
    rootfs: &str,
    command: &Vec<String>,
    r: Option<String>,
)
    requires
        call_ensures(guest_program, (rootfs, command), r),
        command@.len() > 0,
    ensures
        r is Some <==> command@[0]@.len() > 0 && command@[0]@[0] == '/',
        r matches Some(path) ==> path@ == path_joined(rootfs@, below_root(command@[0]@)),
{
}

/// A workload may be started unless its program is named by an absolute path and is not there.
pub proof fn law_only_missing_absolute_programs_are_refused(
    rootfs: &str,
    command: &Vec<String>,
    lookup: &CommandLookup,
    r: Result<(), DroidError>,
)
    requires
        call_ensures(ensure_workload_command_exists, (rootfs, command, lookup), r),
        command@.len() > 0,
    ensures
        r is Err <==> lookup is Missing && command@[0]@.len() > 0 && command@[0]@[0] == '/',
        r matches Err(e) ==> e is Workload,
{
}

/// A launch takes the answer to what it asked last, and each step of it is one that the laws speak
/// of.
pub proof fn law_a_launch_takes_the_answer_to_its_question(
    launch: &ProotLaunch,
    asked: &LaunchEvent,
    r: bool,
    pre: &mut ProotLaunch,
    event: LaunchEvent,
    action: LaunchAction,
)
    requires
        call_ensures(ProotLaunch::is_awaiting, (launch, asked), r),
        call_ensures(ProotLaunch::step, (pre, event), action),
    ensures
        r == match launch.stage {
            LaunchStage::MakingGuestTmp
            | LaunchStage::MakingProotTmp
            | LaunchStage::Spawning => asked is Done || asked is Refused,
            LaunchStage::LookingForProgram => asked is Done || asked is Missing,
            LaunchStage::ListingBin => asked is Listed,
            LaunchStage::LookingForLoader
            | LaunchStage::LookingForResolvConf
            | LaunchStage::LookingForHosts
            | LaunchStage::LookingForMount => asked is Found,
            LaunchStage::Over => false,
        },
        old(pre).steps_to(event, *final(pre), action),
{
}

/// The loader stands beside proot, and proot that could not be started is an error with the reason.
pub proof fn law_the_loader_stands_beside_proot(
    path: String,
    broker: ProotBrokerImpl,
    used: &ProotBrokerImpl,
    loader: String,
    reason: &str,
    e: DroidError,
)
    requires
        call_ensures(ProotBrokerImpl::new, (path,), broker),
        call_ensures(ProotBrokerImpl::loader_path, (used,), loader),
        call_ensures(spawn_failure, (reason,), e),
    ensures
        broker.proot_path == path,
        loader@ == path_renamed(used.proot_path@, "libproot_loader.so"@),
        e matches DroidError::Process(m) && m@ == "proot spawn failed: "@ + reason@,
{
}

} // verus!

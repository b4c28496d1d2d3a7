//! The start of a program with proot.
//!
//! A launch is a conversation: [`ProotLaunch`] says which directories are to be made, what is
//! to be looked for on the host and what is to be started. Its caller does it and tells what
//! came of it.
use vstd::prelude::*;

use crate::brokers::proot_broker::{
    base_args, bin_listing, ensure_workload_command_exists, guest_program, host_path,
    is_named_by_path, mount_args, pair_views, proot_env, spawn_failure, CommandLookup, HostFacts,
    ProotBrokerImpl, ProotCommand,
};
use crate::error::DroidError;
use crate::models::Mount;
use crate::paths::{path_join, path_joined, path_renamed};
use crate::text::views;

verus! {

/// What is to be done next.
#[derive(Debug)]
pub enum LaunchAction {
    /// Make a directory, and those above it.
    MakeDir { path: String },
    /// Find out whether there is anything at a path, be it a link to nothing.
    LookForProgram { path: String },
    /// List the names in a directory, if it can be read.
    ListDir { path: String },
    /// Find out whether there is something at a path.
    LookFor { path: String },
    /// Start a program, so that what it writes can be read.
    Spawn { command: ProotCommand },
    /// The program runs.
    Finished,
    /// It cannot be run.
    Failed(DroidError),
}

/// What came of an action.
#[derive(Debug)]
pub enum LaunchEvent {
    /// It was done.
    Done,
    /// Whether something is there.
    Found(bool),
    /// Nothing is there, for a reason.
    Missing(String),
    /// The names in a directory. Those that are no text are left blank.
    Listed(Option<Vec<Option<String>>>),
    /// It could not be done.
    Refused(String),
}

/// What the launch waits for.
#[derive(Debug, Clone, Copy, PartialEq, Eq, Structural)]
pub enum LaunchStage {
    MakingGuestTmp,
    MakingProotTmp,
    LookingForProgram,
    ListingBin,
    LookingForLoader,
    LookingForResolvConf,
    LookingForHosts,
    /// The source of the mount behind those that are known.
    LookingForMount,
    Spawning,
    Over,
}

/// The launch of one program.
#[derive(Debug)]
pub struct ProotLaunch {
    pub broker: ProotBrokerImpl,
    pub rootfs: String,
    pub command: Vec<String>,
    pub env: Vec<(String, String)>,
    pub mounts: Vec<Mount>,
    /// The directory of the guest to run in.
    pub cwd: Option<String>,
    /// The directory for proot's own files.
    pub proot_tmp: String,
    /// What is known of the host so far.
    pub facts: HostFacts,
    /// Why the program is not there, if it is not.
    pub reason: String,
    pub stage: LaunchStage,
}

impl ProotLaunch {
    /// What holds between two steps.
    pub open spec fn wf(self) -> bool {
        &&& self.command@.len() > 0
        &&& match self.stage {
            LaunchStage::LookingForMount => self.facts.mounts@.len() < self.mounts@.len(),
            LaunchStage::Spawning | LaunchStage::Over => true,
            LaunchStage::LookingForProgram | LaunchStage::ListingBin => {
                &&& self.facts.mounts@.len() == 0
                &&& is_named_by_path(self.command@[0]@)
            },
            _ => self.facts.mounts@.len() == 0,
        }
    }

    /// The event answers the last action.
    pub open spec fn awaits(self, event: LaunchEvent) -> bool {
        match self.stage {
            LaunchStage::MakingGuestTmp | LaunchStage::MakingProotTmp | LaunchStage::Spawning =>
                event is Done || event is Refused,
            LaunchStage::LookingForProgram => event is Done || event is Missing,
            LaunchStage::ListingBin => event is Listed,
            LaunchStage::LookingForLoader
            | LaunchStage::LookingForResolvConf
            | LaunchStage::LookingForHosts
            | LaunchStage::LookingForMount => event is Found,
            LaunchStage::Over => false,
        }
    }

    /// What was asked for is the same.
    pub open spec fn keeps(self, post: Self) -> bool {
        &&& post.broker == self.broker
        &&& post.rootfs == self.rootfs
        &&& post.command == self.command
        &&& post.env == self.env
        &&& post.mounts == self.mounts
        &&& post.cwd == self.cwd
        &&& post.proot_tmp == self.proot_tmp
    }

    /// The command runs what was asked for, on a host with what is known to be there.
    pub open spec fn is_command(self, c: ProotCommand) -> bool {
        &&& c.program == self.broker.proot_path
        &&& pair_views(c.env@) == proot_env(
            self.proot_tmp@,
            if self.facts.loader {
                Some(path_renamed(self.broker.proot_path@, "libproot_loader.so"@))
            } else {
                None
            },
        ) + pair_views(self.env@)
        &&& views(c.args@) == base_args(
            self.rootfs@,
            match self.cwd {
                Some(dir) => dir@,
                None => "/"@,
            },
            self.facts.resolv_conf,
            self.facts.hosts,
        ) + mount_args(self.mounts@, self.facts.mounts@) + views(self.command@)
    }

    /// The launch looks for `path`.
    pub open spec fn is_looking(
        self,
        stage: LaunchStage,
        path: Seq<char>,
        action: LaunchAction,
    ) -> bool {
        &&& self.stage == stage
        &&& action matches LaunchAction::LookFor { path: p }
        &&& p@ == path
    }

    /// The launch looks for the loader.
    pub open spec fn is_at_loader(self, action: LaunchAction) -> bool {
        self.is_looking(
            LaunchStage::LookingForLoader,
            path_renamed(self.broker.proot_path@, "libproot_loader.so"@),
            action,
        )
    }

    /// The launch looks for the source of its next mount, or starts the program when all are
    /// known.
    pub open spec fn is_at_mounts(self, action: LaunchAction) -> bool {
        let n = self.facts.mounts@.len();
        if n < self.mounts@.len() {
            self.is_looking(
                LaunchStage::LookingForMount,
                self.mounts@[n as int].source@,
                action,
            )
        } else {
            &&& self.stage == LaunchStage::Spawning
            &&& action matches LaunchAction::Spawn { command }
            &&& self.is_command(command)
        }
    }

    /// The launch ends with an error, and nothing else changes.
    pub open spec fn gives_up(self, post: Self, action: LaunchAction) -> bool {
        &&& post == (ProotLaunch { stage: LaunchStage::Over, ..self })
        &&& action is Failed
    }

    /// One step: `event` leads from `self` to `post`, where `action` is to be done.
    pub open spec fn steps_to(self, event: LaunchEvent, post: Self, action: LaunchAction) -> bool {
        match (self.stage, event) {
            (LaunchStage::MakingGuestTmp, LaunchEvent::Done) => {
                &&& post == (ProotLaunch { stage: LaunchStage::MakingProotTmp, ..self })
                &&& action matches LaunchAction::MakeDir { path }
                &&& path@ == self.proot_tmp@
            },
            (LaunchStage::MakingProotTmp, LaunchEvent::Done) => if is_named_by_path(
                self.command@[0]@,
            ) {
                &&& post == (ProotLaunch { stage: LaunchStage::LookingForProgram, ..self })
                &&& action matches LaunchAction::LookForProgram { path }
                &&& path@ == host_path(self.rootfs@, self.command@[0]@)
            } else {
                &&& post == (ProotLaunch { stage: LaunchStage::LookingForLoader, ..self })
                &&& post.is_at_loader(action)
            },
            (LaunchStage::LookingForProgram, LaunchEvent::Done) => {
                &&& post == (ProotLaunch { stage: LaunchStage::LookingForLoader, ..self })
                &&& post.is_at_loader(action)
            },
            (LaunchStage::LookingForProgram, LaunchEvent::Missing(reason)) => {
                &&& post == (ProotLaunch { stage: LaunchStage::ListingBin, reason, ..self })
                &&& action matches LaunchAction::ListDir { path }
                &&& path@ == path_joined(self.rootfs@, "bin"@)
            },
            (LaunchStage::ListingBin, LaunchEvent::Listed(entries)) => {
                &&& self.gives_up(post, action)
                &&& action->Failed_0 matches DroidError::Workload(m)
                &&& m@ == "workload command "@ + self.command@[0]@ + " not found at "@ + host_path(
                    self.rootfs@,
                    self.command@[0]@,
                ) + ": "@ + self.reason@ + "; rootfs bin entries: "@ + bin_listing(entries)
            },
            (LaunchStage::LookingForLoader, LaunchEvent::Found(found)) => {
                &&& post == (ProotLaunch {
                    facts: HostFacts { loader: found, ..self.facts },
                    stage: LaunchStage::LookingForResolvConf,
                    ..self
                })
                &&& post.is_looking(
                    LaunchStage::LookingForResolvConf,
                    "/etc/resolv.conf"@,
                    action,
                )
            },
            (LaunchStage::LookingForResolvConf, LaunchEvent::Found(found)) => {
                &&& post == (ProotLaunch {
                    facts: HostFacts { resolv_conf: found, ..self.facts },
                    stage: LaunchStage::LookingForHosts,
                    ..self
                })
                &&& post.is_looking(LaunchStage::LookingForHosts, "/etc/hosts"@, action)
            },
            (LaunchStage::LookingForHosts, LaunchEvent::Found(found)) => {
                &&& self.keeps(post)
                &&& post.reason == self.reason
                &&& post.facts == (HostFacts { hosts: found, ..self.facts })
                &&& post.is_at_mounts(action)
            },
            (LaunchStage::LookingForMount, LaunchEvent::Found(found)) => {
                &&& self.keeps(post)
                &&& post.reason == self.reason
                &&& post.facts.loader == self.facts.loader
                &&& post.facts.resolv_conf == self.facts.resolv_conf
                &&& post.facts.hosts == self.facts.hosts
                &&& post.facts.mounts@ == self.facts.mounts@.push(found)
                &&& post.is_at_mounts(action)
            },
            (LaunchStage::Spawning, LaunchEvent::Done) => {
                &&& post == (ProotLaunch { stage: LaunchStage::Over, ..self })
                &&& action is Finished
            },
            (LaunchStage::Spawning, LaunchEvent::Refused(reason)) => {
                &&& self.gives_up(post, action)
                &&& action->Failed_0 matches DroidError::Process(m)
                &&& m@ == "proot spawn failed: "@ + reason@
            },
            (_, LaunchEvent::Refused(reason)) => {
                &&& self.gives_up(post, action)
                &&& action->Failed_0 == DroidError::Filesystem(reason)
            },
            _ => false,
        }
    }

    /// Whether an event answers the last action.
    pub fn is_awaiting(&self, event: &LaunchEvent) -> (r: bool)
        ensures
            r == self.awaits(*event),
    {
        match self.stage {
            LaunchStage::MakingGuestTmp | LaunchStage::MakingProotTmp | LaunchStage::Spawning =>
                matches!(event, LaunchEvent::Done) || matches!(event, LaunchEvent::Refused(_)),
            LaunchStage::LookingForProgram => matches!(event, LaunchEvent::Done) || matches!(
                event,
                LaunchEvent::Missing(_)
            ),
            LaunchStage::ListingBin => matches!(event, LaunchEvent::Listed(_)),
            LaunchStage::LookingForLoader
            | LaunchStage::LookingForResolvConf
            | LaunchStage::LookingForHosts
            | LaunchStage::LookingForMount => matches!(event, LaunchEvent::Found(_)),
            LaunchStage::Over => false,
        }
    }

    fn give_up(&mut self, e: DroidError) -> (action: LaunchAction)
        requires
            old(self).command@.len() > 0,
        ensures
            final(self).wf(),
            old(self).gives_up(*final(self), action),
            action == LaunchAction::Failed(e),
    {
        self.stage = LaunchStage::Over;
        LaunchAction::Failed(e)
    }

    fn look_for_loader(&mut self) -> (action: LaunchAction)
        ensures
            *final(self) == (ProotLaunch { stage: LaunchStage::LookingForLoader, ..*old(self) }),
            final(self).is_at_loader(action),
    {
        self.stage = LaunchStage::LookingForLoader;
        LaunchAction::LookFor { path: self.broker.loader_path() }
    }

    fn look_for_mounts(&mut self) -> (action: LaunchAction)
        requires
            old(self).command@.len() > 0,
            old(self).facts.mounts@.len() <= old(self).mounts@.len(),
        ensures
            final(self).wf(),
            old(self).keeps(*final(self)),
            final(self).facts == old(self).facts,
            final(self).reason == old(self).reason,
            final(self).is_at_mounts(action),
    {
        let n: usize = self.facts.mounts.len();
        if n < self.mounts.len() {
            self.stage = LaunchStage::LookingForMount;
            LaunchAction::LookFor { path: self.mounts[n].source.clone() }
        } else {
            self.stage = LaunchStage::Spawning;
            let command = self.broker.command_line(
                self.rootfs.as_str(),
                &self.command,
                &self.env,
                &self.mounts,
                &self.cwd,
                self.proot_tmp.as_str(),
                &self.facts,
            );
            LaunchAction::Spawn { command }
        }
    }

    /// Takes note of what came of the last action, and says what is to be done next.
    pub fn step(&mut self, event: LaunchEvent) -> (action: LaunchAction)
        requires
            old(self).wf(),
            old(self).awaits(event),
        ensures
            final(self).wf(),
            old(self).steps_to(event, *final(self), action),
    {
        match event {
            LaunchEvent::Refused(reason) => {
                let e = if matches!(self.stage, LaunchStage::Spawning) {
                    spawn_failure(reason.as_str())
                } else {
                    DroidError::Filesystem(reason)
                };
                self.give_up(e)
            },
            LaunchEvent::Done => match self.stage {
                LaunchStage::MakingGuestTmp => {
                    self.stage = LaunchStage::MakingProotTmp;
                    LaunchAction::MakeDir { path: self.proot_tmp.clone() }
                },
                LaunchStage::MakingProotTmp => match guest_program(
                    self.rootfs.as_str(),
                    &self.command,
                ) {
                    Some(path) => {
                        self.stage = LaunchStage::LookingForProgram;
                        LaunchAction::LookForProgram { path }
                    },
                    None => self.look_for_loader(),
                },
                LaunchStage::LookingForProgram => self.look_for_loader(),
                _ => {
                    self.stage = LaunchStage::Over;
                    LaunchAction::Finished
                },
            },
            LaunchEvent::Missing(reason) => {
                self.reason = reason;
                self.stage = LaunchStage::ListingBin;
                LaunchAction::ListDir { path: path_join(self.rootfs.as_str(), "bin") }
            },
            LaunchEvent::Listed(bin_entries) => {
                let lookup = CommandLookup::Missing { reason: self.reason.clone(), bin_entries };
                match ensure_workload_command_exists(self.rootfs.as_str(), &self.command, &lookup) {
                    Ok(_) => vstd::pervasive::unreached(),
                    Err(e) => self.give_up(e),
                }
            },
            LaunchEvent::Found(found) => match self.stage {
                LaunchStage::LookingForLoader => {
                    self.facts.loader = found;
                    self.stage = LaunchStage::LookingForResolvConf;
                    LaunchAction::LookFor { path: "/etc/resolv.conf".to_owned() }
                },
                LaunchStage::LookingForResolvConf => {
                    self.facts.resolv_conf = found;
                    self.stage = LaunchStage::LookingForHosts;
                    LaunchAction::LookFor { path: "/etc/hosts".to_owned() }
                },
                LaunchStage::LookingForHosts => {
                    self.facts.hosts = found;
                    self.look_for_mounts()
                },
                _ => {
                    self.facts.mounts.push(found);
                    self.look_for_mounts()
                },
            },
        }
    }
}

// ---------------------------------------------------------------------------

/// How much of a launch is left at most.
pub open spec fn steps_left(launch: ProotLaunch) -> int {
    let mounts = launch.mounts@.len() - launch.facts.mounts@.len();
    match launch.stage {
        LaunchStage::MakingGuestTmp => mounts + 7,
        LaunchStage::MakingProotTmp => mounts + 6,
        LaunchStage::LookingForProgram => mounts + 5,
        LaunchStage::LookingForLoader => mounts + 4,
        LaunchStage::LookingForResolvConf => mounts + 3,
        LaunchStage::LookingForHosts => mounts + 2,
        LaunchStage::LookingForMount => mounts + 1,
        LaunchStage::Spawning | LaunchStage::ListingBin => 1,
        LaunchStage::Over => 0,
    }
}

/// A launch comes to an end.
pub proof fn law_a_launch_ends(
    pre: ProotLaunch,
    event: LaunchEvent,
    post: ProotLaunch,
    action: LaunchAction,
)
    requires
        pre.wf(),
        pre.awaits(event),
        pre.steps_to(event, post, action),
    ensures
        0 <= steps_left(post) < steps_left(pre),
        action is Finished || action is Failed <==> post.stage == LaunchStage::Over,
        pre.keeps(post),
{
}

/// The record of a launch: from the state `states[i]`, the event `events[i]` leads to the state
/// `states[i + 1]`, where `actions[i]` is to be done.
pub open spec fn is_launch(
    states: Seq<ProotLaunch>,
    events: Seq<LaunchEvent>,
    actions: Seq<LaunchAction>,
) -> bool {
    &&& states.len() == events.len() + 1
    &&& states.len() == actions.len() + 1
    &&& states[0].stage == LaunchStage::MakingGuestTmp
    &&& forall|i: int|
        0 <= i < events.len() ==> {
            &&& states[i].awaits(#[trigger] events[i])
            &&& states[i].steps_to(events[i], states[i + 1], actions[i])
        }
}

/// Something was looked for at `path`, and was there.
pub open spec fn program_was_there(
    events: Seq<LaunchEvent>,
    actions: Seq<LaunchAction>,
    path: Seq<char>,
) -> bool {
    exists|i: int| #![trigger events[i]]
        0 < i < events.len() && is_look_for(actions[i - 1], path) && events[i] is Done
}

/// The program is looked for at `path`.
pub open spec fn is_look_for(action: LaunchAction, path: Seq<char>) -> bool {
    action matches LaunchAction::LookForProgram { path: p } && p@ == path
}

/// The launch is past looking for the program.
spec fn is_past_program(stage: LaunchStage) -> bool {
    stage == LaunchStage::LookingForLoader || stage == LaunchStage::LookingForResolvConf || stage
        == LaunchStage::LookingForHosts || stage == LaunchStage::LookingForMount || stage
        == LaunchStage::Spawning
}

proof fn lemma_past_program(
    states: Seq<ProotLaunch>,
    events: Seq<LaunchEvent>,
    actions: Seq<LaunchAction>,
    n: int,
)
    requires
        is_launch(states, events, actions),
        0 <= n <= events.len(),
    ensures
        states[0].keeps(states[n]),
        states[n].stage == LaunchStage::LookingForProgram ==> n > 0 && is_look_for(
            actions[n - 1],
            host_path(states[0].rootfs@, states[0].command@[0]@),
        ),
        is_past_program(states[n].stage) && is_named_by_path(states[0].command@[0]@)
            ==> program_was_there(
            events,
            actions,
            host_path(states[0].rootfs@, states[0].command@[0]@),
        ),
    decreases n,
{
    if n > 0 {
        lemma_past_program(states, events, actions, n - 1);
        assert(states[n - 1].awaits(events[n - 1]));
    }
}

/// A program that is named by an absolute path is started only where it was looked for in the
/// root file system and was there.
pub proof fn law_missing_programs_are_not_started(
    states: Seq<ProotLaunch>,
    events: Seq<LaunchEvent>,
    actions: Seq<LaunchAction>,
)
    requires
        is_launch(states, events, actions),
        events.len() > 0,
        actions.last() is Spawn,
        is_named_by_path(states[0].command@[0]@),
    ensures
        program_was_there(
            events,
            actions,
            host_path(states[0].rootfs@, states[0].command@[0]@),
        ),
{
    let n = events.len() as int;
    assert(states[n - 1].awaits(events[n - 1]));
    lemma_past_program(states, events, actions, n);
}

} // verus!

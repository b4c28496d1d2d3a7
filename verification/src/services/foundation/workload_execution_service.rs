//! What runs in a workload: the wishes of its pod, over the defaults of its image.
use vstd::prelude::*;

use crate::brokers::proot_broker::{lemma_value_of_concat, pair_views, value_of};
use crate::error::DroidError;
use crate::models::{Container, ContainerConfig, EnvVar, Mount, Pod, VolumeMount};
use crate::paths::{path_join, path_joined};
use crate::text::{cat3, chars_of, find_char, text_of, views};

verus! {

/// The file in a root file system that holds what its image says of the process to run.
pub const IMAGE_CONFIG_FILE: &'static str = ".droidnode_image_config.json";

/// What is to be run for a pod.
#[derive(Debug)]
pub struct WorkloadPlan {
    pub command: Vec<String>,
    pub env: Vec<(String, String)>,
    pub mounts: Vec<Mount>,
    /// The directory to run in.
    pub cwd: Option<String>,
}

/// The strings of an optional list.
pub open spec fn texts_of(list: Option<Vec<String>>) -> Option<Seq<Seq<char>>> {
    match list {
        Some(v) => Some(views(v@)),
        None => None,
    }
}

/// The first of two lists that is there.
pub open spec fn first_of(a: Option<Seq<Seq<char>>>, b: Option<Seq<Seq<char>>>) -> Seq<Seq<char>> {
    match (a, b) {
        (Some(v), _) => v,
        (None, Some(v)) => v,
        (None, None) => Seq::empty(),
    }
}

/// The program of a container and its arguments: the pod's command goes before the
/// entrypoint of the image, and the pod's arguments before those of the image.
pub open spec fn command_of(container: Container, image: Option<ContainerConfig>) -> Seq<Seq<char>> {
    first_of(
        texts_of(container.command),
        match image {
            Some(c) => texts_of(c.entrypoint),
            None => None,
        },
    ) + first_of(
        texts_of(container.args),
        match image {
            Some(c) => texts_of(c.cmd),
            None => None,
        },
    )
}

/// A variable, from a text such as `KEY=value`.
pub open spec fn variable_of(e: Seq<char>) -> (Seq<char>, Seq<char>) {
    match e.index_of_first('=') {
        Some(i) => (e.take(i), e.skip(i + 1)),
        None => (e, Seq::empty()),
    }
}

/// The variables that an image sets.
pub open spec fn image_env(image: Option<ContainerConfig>) -> Seq<(Seq<char>, Seq<char>)> {
    match image {
        Some(c) => match c.env {
            Some(vars) => vars@.map_values(|e: String| variable_of(e@)),
            None => Seq::empty(),
        },
        None => Seq::empty(),
    }
}

/// The variables of a list that have values.
pub open spec fn set_vars(vars: Seq<EnvVar>) -> Seq<(Seq<char>, Seq<char>)>
    decreases vars.len(),
{
    if vars.len() == 0 {
        Seq::empty()
    } else {
        match vars.last().value {
            Some(v) => set_vars(vars.drop_last()).push((vars.last().name@, v@)),
            None => set_vars(vars.drop_last()),
        }
    }
}

/// The variables that a pod sets.
pub open spec fn pod_env(container: Container) -> Seq<(Seq<char>, Seq<char>)> {
    match container.env {
        Some(vars) => set_vars(vars@),
        None => Seq::empty(),
    }
}

/// A mount is the one that a volume mount asks for.
pub open spec fn is_mount_of(m: Mount, vm: VolumeMount) -> bool {
    &&& m.source@ == vm.mount_path@
    &&& m.target@ == vm.mount_path@
    &&& m.read_only == (vm.read_only == Some(true))
}

/// The mounts are the ones that a container asks for, in the same order.
pub open spec fn are_mounts_of(mounts: Seq<Mount>, container: Container) -> bool {
    let asked = match container.volume_mounts {
        Some(v) => v@,
        None => Seq::empty(),
    };
    &&& mounts.len() == asked.len()
    &&& forall|i: int| 0 <= i < asked.len() ==> is_mount_of(#[trigger] mounts[i], asked[i])
}

fn push_all(out: &mut Vec<String>, from: &Vec<String>)
    ensures
        views(final(out)@) == views(old(out)@) + views(from@),
{
    let ghost before = views(out@);
    let mut i: usize = 0;
    assert(views(from@).take(0) =~= Seq::<Seq<char>>::empty());
    assert(before + views(from@).take(0) =~= before);
    while i < from.len()
        invariant
            i <= from@.len(),
            views(out@) == before + views(from@).take(i as int),
        decreases from.len() - i,
    {
        let ghost sofar = out@;
        out.push(from[i].clone());
        assert(views(out@) =~= views(sofar).push(from@[i as int]@));
        assert(views(from@).take(i + 1) =~= views(from@).take(i as int).push(from@[i as int]@));
        i = i + 1;
    }
    assert(views(from@).take(from@.len() as int) =~= views(from@));
}

/// Decides what runs in workloads.
#[derive(Debug, Clone, Copy)]
pub struct WorkloadExecutionServiceImpl {}

impl WorkloadExecutionServiceImpl {
    pub fn new() -> (r: Self)
        ensures
            r == (WorkloadExecutionServiceImpl {  }),
    {
        WorkloadExecutionServiceImpl {  }
    }

    /// The program of a container and its arguments.
    pub fn resolve_command(container: &Container, image_config: Option<&ContainerConfig>) -> (r: Vec<
        String,
    >)
        ensures
            views(r@) == command_of(
                *container,
                match image_config {
                    Some(c) => Some(*c),
                    None => None,
                },
            ),
    {
        let mut out: Vec<String> = Vec::new();
        assert(views(out@) =~= Seq::<Seq<char>>::empty());
        match (&container.command, image_config) {
            (Some(command), _) => push_all(&mut out, command),
            (None, Some(config)) => match &config.entrypoint {
                Some(entrypoint) => push_all(&mut out, entrypoint),
                None => {},
            },
            (None, None) => {},
        }
        let ghost program = views(out@);
        match (&container.args, image_config) {
            (Some(args), _) => push_all(&mut out, args),
            (None, Some(config)) => match &config.cmd {
                Some(cmd) => push_all(&mut out, cmd),
                None => {},
            },
            (None, None) => {},
        }
        assert(views(out@) =~= command_of(
            *container,
            match image_config {
                Some(c) => Some(*c),
                None => None,
            },
        ));
        out
    }

    /// The variables of a container: those of the image, then those of the pod.
    pub fn resolve_env(container: &Container, image_config: Option<&ContainerConfig>) -> (r: Vec<
        (String, String),
    >)
        ensures
            pair_views(r@) == image_env(
                match image_config {
                    Some(c) => Some(*c),
                    None => None,
                },
            ) + pod_env(*container),
    {
        let mut out: Vec<(String, String)> = Vec::new();
        let ghost image = image_env(
            match image_config {
                Some(c) => Some(*c),
                None => None,
            },
        );
        assert(pair_views(out@) =~= Seq::<(Seq<char>, Seq<char>)>::empty());
        if let Some(config) = image_config {
            if let Some(vars) = &config.env {
                let mut i: usize = 0;
                assert(image.take(0) =~= pair_views(out@));
                while i < vars.len()
                    invariant
                        i <= vars@.len(),
                        image == vars@.map_values(|e: String| variable_of(e@)),
                        pair_views(out@) == image.take(i as int),
                    decreases vars.len() - i,
                {
                    let ghost sofar = out@;
                    let pair = split_variable(vars[i].as_str());
                    out.push(pair);
                    assert(pair_views(out@) =~= pair_views(sofar).push((pair.0@, pair.1@)));
                    assert(image.take(i + 1) =~= image.take(i as int).push(image[i as int]));
                    i = i + 1;
                }
                assert(image.take(vars@.len() as int) =~= image);
            }
        }
        assert(pair_views(out@) == image);
        if let Some(vars) = &container.env {
            let mut i: usize = 0;
            assert(set_vars(vars@.take(0)) =~= Seq::<(Seq<char>, Seq<char>)>::empty());
            assert(image + set_vars(vars@.take(0)) =~= image);
            while i < vars.len()
                invariant
                    i <= vars@.len(),
                    pair_views(out@) == image + set_vars(vars@.take(i as int)),
                decreases vars.len() - i,
            {
                let ghost sofar = out@;
                assert(vars@.take(i + 1).drop_last() =~= vars@.take(i as int));
                if let Some(val) = &vars[i].value {
                    out.push((vars[i].name.clone(), val.clone()));
                    assert(pair_views(out@) =~= pair_views(sofar).push(
                        (vars@[i as int].name@, val@),
                    ));
                    assert(pair_views(out@) =~= image + set_vars(vars@.take(i + 1)));
                }
                i = i + 1;
            }
            assert(vars@.take(vars@.len() as int) =~= vars@);
        }
        assert(pair_views(out@) =~= image + pod_env(*container));
        out
    }

    /// The mounts of a container.
    pub fn resolve_mounts(container: &Container) -> (r: Vec<Mount>)
        ensures
            are_mounts_of(r@, *container),
    {
        let mut out: Vec<Mount> = Vec::new();
        if let Some(asked) = &container.volume_mounts {
            let mut i: usize = 0;
            while i < asked.len()
                invariant
                    i <= asked@.len(),
                    out@.len() == i,
                    forall|j: int| 0 <= j < i ==> is_mount_of(#[trigger] out@[j], asked@[j]),
                decreases asked.len() - i,
            {
                let vm = &asked[i];
                out.push(
                    Mount {
                        source: vm.mount_path.clone(),
                        target: vm.mount_path.clone(),
                        read_only: match vm.read_only {
                            Some(b) => b,
                            None => false,
                        },
                    },
                );
                i = i + 1;
            }
        }
        out
    }

    /// The file that says what the image of a root file system is to run.
    pub fn image_config_path(&self, rootfs: &str) -> (r: String)
        ensures
            r@ == path_joined(rootfs@, IMAGE_CONFIG_FILE@),
    {
        path_join(rootfs, IMAGE_CONFIG_FILE)
    }

    /// What is to be run for a pod: its first container.
    pub fn execute_workload(&self, pod: &Pod, image_config: Option<&ContainerConfig>) -> (r: Result<
        WorkloadPlan,
        DroidError,
    >)
        ensures
            ({
                let image = match image_config {
                    Some(c) => Some(*c),
                    None => None,
                };
                match pod.spec_first_container() {
                    None => r matches Err(DroidError::Workload(m)) && m@
                        == "pod has no containers"@,
                    Some(container) => if command_of(container, image).len() == 0 {
                        r matches Err(DroidError::Workload(m)) && m@ == "pod "@ + (
                        match pod.metadata.name {
                            Some(n) => n@,
                            None => "?"@,
                        }) + ": no command or entrypoint defined"@
                    } else {
                        &&& r matches Ok(plan)
                        &&& views(plan.command@) == command_of(container, image)
                        &&& pair_views(plan.env@) == image_env(image) + pod_env(container)
                        &&& are_mounts_of(plan.mounts@, container)
                        &&& plan.cwd is None
                    },
                }
            }),
    {
        let container = match pod.first_container() {
            Some(c) => c,
            None => {
                return Err(DroidError::Workload("pod has no containers".to_owned()));
            },
        };
        let command: Vec<String> = WorkloadExecutionServiceImpl::resolve_command(
            container,
            image_config,
        );
        if command.len() == 0 {
            let unknown: String = "?".to_owned();
            let name: &str = match &pod.metadata.name {
                Some(n) => n.as_str(),
                None => unknown.as_str(),
            };
            return Err(
                DroidError::Workload(cat3("pod ", name, ": no command or entrypoint defined")),
            );
        }
        Ok(
            WorkloadPlan {
                command,
                env: WorkloadExecutionServiceImpl::resolve_env(container, image_config),
                mounts: WorkloadExecutionServiceImpl::resolve_mounts(container),
                cwd: None,
            },
        )
    }
}

/// A variable, from a text such as `KEY=value`.
fn split_variable(e: &str) -> (r: (String, String))
    ensures
        (r.0@, r.1@) == variable_of(e@),
{
    let cs = chars_of(e);
    let total: usize = cs.len();
    assert(cs@.skip(0) =~= cs@);
    match find_char(&cs, '=', 0) {
        Some(i) => {
            assert(cs@.subrange(0, i as int) =~= cs@.take(i as int));
            assert(cs@.subrange(i + 1, cs@.len() as int) =~= cs@.skip(i + 1));
            (text_of(&cs, 0, i), text_of(&cs, i + 1, total))
        },
        None => (e.to_owned(), String::new()),
    }
}

// ---------------------------------------------------------------------------

/// A variable that the pod sets has the pod's value, whatever the image says. Any other has
/// the value that the image gives it.
pub proof fn law_pod_variables_have_precedence(
    container: Container,
    image: Option<ContainerConfig>,
    key: Seq<char>,
)
    ensures
        value_of(image_env(image) + pod_env(container), key) == (match value_of(
            pod_env(container),
            key,
        ) {
            Some(v) => Some(v),
            None => value_of(image_env(image), key),
        }),
{
    lemma_value_of_concat(image_env(image), pod_env(container), key);
}

/// A pod that says what to run runs just that, whatever the image says.
pub proof fn law_pod_commands_have_precedence(
    container: Container,
    image: Option<ContainerConfig>,
)
    requires
        container.command is Some,
        container.args is Some,
    ensures
        command_of(container, image) == views(container.command->0@) + views(container.args->0@),
{
}

/// A pod that does not say what to run runs what the image says.
pub proof fn law_images_have_default_commands(container: Container, image: ContainerConfig)
    requires
        container.command is None,
        container.args is None,
        image.entrypoint is Some,
        image.cmd is Some,
    ensures
        command_of(container, Some(image)) == views(image.entrypoint->0@) + views(image.cmd->0@),
{
}

} // verus!

//! What runs for a pod, in terms of what the pod and its image say.
use vstd::prelude::*;

use crate::brokers::proot_broker::pair_views;
use crate::error::DroidError;
use crate::models::{Container, ContainerConfig, EnvVar, Mount, Pod};
use crate::paths::path_joined;
use crate::services::foundation::workload_execution_service::{
    image_env, pod_env, set_vars, variable_of, WorkloadExecutionServiceImpl, WorkloadPlan,
};
use crate::text::views;

verus! {

/// The program that a container runs: the command of the pod, or else the entrypoint of the
/// image, or else nothing.
pub open spec fn program_of(container: Container, image: Option<&ContainerConfig>) -> Seq<String> {
    match (container.command, image) {
        (Some(command), _) => command@,
        (None, Some(config)) => match config.entrypoint {
            Some(entrypoint) => entrypoint@,
            None => Seq::empty(),
        },
        (None, None) => Seq::empty(),
    }
}

/// The arguments of the program: those of the pod, or else those of the image, or else none.
pub open spec fn arguments_of(container: Container, image: Option<&ContainerConfig>) -> Seq<
    String,
> {
    match (container.args, image) {
        (Some(args), _) => args@,
        (None, Some(config)) => match config.cmd {
            Some(cmd) => cmd@,
            None => Seq::empty(),
        },
        (None, None) => Seq::empty(),
    }
}

/// The command is the program of a container followed by its arguments, word for word.
pub open spec fn is_command_of(
    command: Seq<String>,
    container: Container,
    image: Option<&ContainerConfig>,
) -> bool {
    let program = program_of(container, image);
    let arguments = arguments_of(container, image);
    &&& command.len() == program.len() + arguments.len()
    &&& forall|i: int| 0 <= i < program.len() ==> (#[trigger] command[i])@ == program[i]@
    &&& forall|i: int|
        program.len() <= i < command.len() ==> (#[trigger] command[i])@ == arguments[i
            - program.len()]@
}

proof fn lemma_views(command: Seq<String>, program: Seq<String>, arguments: Seq<String>)
    requires
        views(command) == views(program) + views(arguments),
    ensures
        command.len() == program.len() + arguments.len(),
        forall|i: int| 0 <= i < program.len() ==> (#[trigger] command[i])@ == program[i]@,
        forall|i: int|
            program.len() <= i < command.len() ==> (#[trigger] command[i])@ == arguments[i
                - program.len()]@,
{
    assert(views(command).len() == command.len());
    assert forall|i: int| 0 <= i < command.len() implies (#[trigger] command[i])@ == (if i
        < program.len() {
        program[i]@
    } else {
        arguments[i - program.len()]@
    }) by {
        assert(views(command)[i] == command[i]@);
    }
}

/// A container runs the command of its pod, or else the entrypoint of its image, and with the
/// arguments of its pod, or else those of its image. The program and the arguments are found
/// apart: an image without an entrypoint still gives the arguments.
pub proof fn law_commands_are_those_of_the_pod_or_the_image(
    container: &Container,
    image: Option<&ContainerConfig>,
    r: Vec<String>,
)
    requires
        call_ensures(WorkloadExecutionServiceImpl::resolve_command, (container, image), r),
    ensures
        is_command_of(r@, *container, image),
{
    assert(views(Seq::<String>::empty()) =~= Seq::<Seq<char>>::empty());
    let program = program_of(*container, image);
    let arguments = arguments_of(*container, image);
    assert(views(r@) =~= views(program) + views(arguments));
    lemma_views(r@, program, arguments);
}

/// A container whose pod gives no arguments ends its command with those of the image, whether or
/// not the image has an entrypoint. With neither a command nor an entrypoint, they are all of it.
pub proof fn law_image_arguments_are_the_default(
    container: &Container,
    image: &ContainerConfig,
    r: Vec<String>,
)
    requires
        call_ensures(WorkloadExecutionServiceImpl::resolve_command, (container, Some(image)), r),
        container.args is None,
        image.cmd is Some,
    ensures
        r@.len() >= image.cmd->0@.len(),
        forall|i: int|
            0 <= i < image.cmd->0@.len() ==> (#[trigger] r@[r@.len() - image.cmd->0@.len() + i])@
                == image.cmd->0@[i]@,
        container.command is None && image.entrypoint is None ==> r@.len() == image.cmd->0@.len(),
{
    law_commands_are_those_of_the_pod_or_the_image(container, Some(image), r);
}

/// The variable is the one that a text such as `KEY=value` sets: what stands before the first
/// equals sign has what stands behind it. A text without one sets a variable to nothing.
pub open spec fn is_set_by(variable: (String, String), text: Seq<char>) -> bool {
    if text.contains('=') {
        &&& !variable.0@.contains('=')
        &&& text == variable.0@.push('=') + variable.1@
    } else {
        &&& variable.0@ == text
        &&& variable.1@.len() == 0
    }
}

/// The texts that set the variables of an image.
pub open spec fn texts_of_image(image: Option<&ContainerConfig>) -> Seq<String> {
    match image {
        Some(config) => match config.env {
            Some(texts) => texts@,
            None => Seq::empty(),
        },
        None => Seq::empty(),
    }
}

/// The variables that a pod names.
pub open spec fn vars_of_pod(container: Container) -> Seq<EnvVar> {
    match container.env {
        Some(vars) => vars@,
        None => Seq::empty(),
    }
}

/// The variable `name` has the value `value` when all were set one after the other: it is set to
/// it, and not set again.
pub open spec fn ends_up_as(
    variables: Seq<(String, String)>,
    name: Seq<char>,
    value: Seq<char>,
) -> bool {
    exists|j: int| #![trigger variables[j]]
        {
            &&& 0 <= j < variables.len()
            &&& variables[j].0@ == name
            &&& variables[j].1@ == value
            &&& forall|k: int| j < k < variables.len() ==> (#[trigger] variables[k]).0@ != name
        }
}

/// One of the variables that a pod names is `name`, with the value `value`.
pub open spec fn is_given(vars: Seq<EnvVar>, name: Seq<char>, value: Seq<char>) -> bool {
    exists|k: int| #![trigger vars[k]]
        0 <= k < vars.len() && vars[k].name@ == name && (vars[k].value matches Some(v) && v@
            == value)
}

/// The variables are those of the image, in their order, and then those of the pod that have
/// values. The last value that the pod gives a variable is the one that it has.
pub open spec fn are_variables_of(
    variables: Seq<(String, String)>,
    container: Container,
    image: Option<&ContainerConfig>,
) -> bool {
    let texts = texts_of_image(image);
    let vars = vars_of_pod(container);
    &&& variables.len() >= texts.len()
    &&& forall|i: int|
        0 <= i < texts.len() ==> is_set_by(#[trigger] variables[i], texts[i]@)
    &&& forall|i: int|
        texts.len() <= i < variables.len() ==> is_given(
            vars,
            (#[trigger] variables[i]).0@,
            variables[i].1@,
        )
    &&& forall|k: int| #![trigger vars[k]]
        0 <= k < vars.len() && vars[k].value is Some && (forall|m: int|
            k < m < vars.len() ==> (#[trigger] vars[m]).name@ != vars[k].name@ || vars[m].value
                is None) ==> ends_up_as(variables, vars[k].name@, vars[k].value->0@)
}

proof fn lemma_variable_of(text: Seq<char>, variable: (String, String))
    requires
        (variable.0@, variable.1@) == variable_of(text),
    ensures
        is_set_by(variable, text),
{
    text.index_of_first_ensures('=');
    match text.index_of_first('=') {
        Some(i) => {
            assert(text =~= text.take(i).push('=') + text.skip(i + 1));
            if variable.0@.contains('=') {
                let j = choose|j: int| 0 <= j < variable.0@.len() && variable.0@[j] == '=';
                assert(text[j] == '=');
            }
        },
        None => {},
    }
}

proof fn lemma_set_vars_come_from_the_pod(vars: Seq<EnvVar>, i: int)
    requires
        0 <= i < set_vars(vars).len(),
    ensures
        is_given(vars, set_vars(vars)[i].0, set_vars(vars)[i].1),
    decreases vars.len(),
{
    let rest = set_vars(vars.drop_last());
    if i < rest.len() {
        lemma_set_vars_come_from_the_pod(vars.drop_last(), i);
        let short = vars.drop_last();
        let k = choose|k: int| #![trigger short[k]]
            0 <= k < short.len() && short[k].name@ == rest[i].0 && (
            short[k].value matches Some(v) && v@ == rest[i].1);
        assert(vars[k] == vars.drop_last()[k]);
    } else {
        assert(vars[vars.len() - 1] == vars.last());
    }
}

proof fn lemma_last_value(vars: Seq<EnvVar>, k: int)
    requires
        0 <= k < vars.len(),
        vars[k].value is Some,
        forall|m: int|
            k < m < vars.len() ==> (#[trigger] vars[m]).name@ != vars[k].name@ || vars[m].value
                is None,
    ensures
        exists|j: int| #![trigger set_vars(vars)[j]]
            {
                &&& 0 <= j < set_vars(vars).len()
                &&& set_vars(vars)[j] == (vars[k].name@, vars[k].value->0@)
                &&& forall|i: int|
                    j < i < set_vars(vars).len() ==> (#[trigger] set_vars(vars)[i]).0
                        != vars[k].name@
            },
    decreases vars.len(),
{
    let all = set_vars(vars);
    let short = vars.drop_last();
    let rest = set_vars(short);
    if k == vars.len() - 1 {
        assert(all[all.len() - 1] == (vars[k].name@, vars[k].value->0@));
    } else {
        assert(short[k] == vars[k]);
        assert forall|m: int| k < m < short.len() implies (#[trigger] short[m]).name@
            != short[k].name@ || short[m].value is None by {
            assert(vars[m] == short[m]);
        }
        lemma_last_value(short, k);
        let j = choose|j: int| #![trigger rest[j]]
            {
                &&& 0 <= j < rest.len()
                &&& rest[j] == (vars[k].name@, vars[k].value->0@)
                &&& forall|i: int| j < i < rest.len() ==> (#[trigger] rest[i]).0 != vars[k].name@
            };
        assert(all[j] == rest[j]);
        assert forall|i: int| j < i < all.len() implies (#[trigger] all[i]).0 != vars[k].name@ by {
            if i < rest.len() {
                assert(all[i] == rest[i]);
            } else {
                assert(vars[vars.len() - 1] == vars.last());
            }
        }
    }
}

proof fn lemma_variables(
    variables: Seq<(String, String)>,
    container: Container,
    image: Option<&ContainerConfig>,
)
    requires
        pair_views(variables) == image_env(
            match image {
                Some(c) => Some(*c),
                None => None,
            },
        ) + pod_env(container),
    ensures
        are_variables_of(variables, container, image),
{
    let texts = texts_of_image(image);
    let vars = vars_of_pod(container);
    let first = image_env(
        match image {
            Some(c) => Some(*c),
            None => None,
        },
    );
    let own = set_vars(vars);
    assert(set_vars(Seq::empty()) =~= Seq::empty());
    assert(pod_env(container) == own);
    assert(first.len() == texts.len());
    assert(pair_views(variables).len() == variables.len());
    assert forall|i: int| 0 <= i < variables.len() implies (
        #[trigger] variables[i].0@,
        variables[i].1@,
    ) == (first + own)[i] by {
        assert(pair_views(variables)[i] == (variables[i].0@, variables[i].1@));
    }
    assert forall|i: int| 0 <= i < texts.len() implies is_set_by(
        #[trigger] variables[i],
        texts[i]@,
    ) by {
        assert((variables[i].0@, variables[i].1@) == (first + own)[i]);
        lemma_variable_of(texts[i]@, variables[i]);
    }
    assert forall|i: int| texts.len() <= i < variables.len() implies is_given(
        vars,
        (#[trigger] variables[i]).0@,
        variables[i].1@,
    ) by {
        assert((variables[i].0@, variables[i].1@) == (first + own)[i]);
        lemma_set_vars_come_from_the_pod(vars, i - texts.len());
    }
    assert forall|k: int| #![trigger vars[k]]
        0 <= k < vars.len() && vars[k].value is Some && (forall|m: int|
            k < m < vars.len() ==> (#[trigger] vars[m]).name@ != vars[k].name@ || vars[m].value
                is None) implies ends_up_as(variables, vars[k].name@, vars[k].value->0@) by {
        lemma_last_value(vars, k);
        let j = choose|j: int| #![trigger own[j]]
            {
                &&& 0 <= j < own.len()
                &&& own[j] == (vars[k].name@, vars[k].value->0@)
                &&& forall|i: int| j < i < own.len() ==> (#[trigger] own[i]).0 != vars[k].name@
            };
        let at = texts.len() + j;
        assert((variables[at].0@, variables[at].1@) == (first + own)[at]);
        assert forall|i: int| at < i < variables.len() implies (#[trigger] variables[i]).0@
            != vars[k].name@ by {
            assert((variables[i].0@, variables[i].1@) == (first + own)[i]);
            assert(own[i - texts.len()].0 != vars[k].name@);
        }
    }
}

/// A container has the variables of its image and those of its pod, and where both set one, it
/// has the value of the pod.
pub proof fn law_variables_are_those_of_the_image_and_the_pod(
    container: &Container,
    image: Option<&ContainerConfig>,
    r: Vec<(String, String)>,
)
    requires
        call_ensures(WorkloadExecutionServiceImpl::resolve_env, (container, image), r),
    ensures
        are_variables_of(r@, *container, image),
{
    lemma_variables(r@, *container, image);
}

/// Each mount shows a path of the host at the same path of the guest, and lets it be written
/// unless the pod says that it is only to be read.
pub open spec fn are_the_mounts(mounts: Seq<Mount>, container: Container) -> bool {
    match container.volume_mounts {
        Some(asked) => {
            &&& mounts.len() == asked@.len()
            &&& forall|i: int|
                0 <= i < mounts.len() ==> {
                    &&& (#[trigger] mounts[i]).source@ == asked@[i].mount_path@
                    &&& mounts[i].target@ == asked@[i].mount_path@
                    &&& mounts[i].read_only <==> asked@[i].read_only == Some(true)
                }
        },
        None => mounts.len() == 0,
    }
}

/// A container has the mounts that its pod asks for.
pub proof fn law_mounts_are_those_of_the_pod(container: &Container, r: Vec<Mount>)
    requires
        call_ensures(WorkloadExecutionServiceImpl::resolve_mounts, (container,), r),
    ensures
        are_the_mounts(r@, *container),
{
}

/// The first container of a pod is run, with its command, its variables and its mounts. A pod
/// without containers, or without anything to run, is an error.
pub proof fn law_the_first_container_is_run(
    service: &WorkloadExecutionServiceImpl,
    pod: &Pod,
    image: Option<&ContainerConfig>,
    r: Result<WorkloadPlan, DroidError>,
)
    requires
        call_ensures(WorkloadExecutionServiceImpl::execute_workload, (service, pod, image), r),
    ensures
        pod.spec is None || pod.spec->0.containers@.len() == 0 ==> (
        r matches Err(DroidError::Workload(m)) && m@ == "pod has no containers"@),
        pod.spec is Some && pod.spec->0.containers@.len() > 0 ==> {
            let container = pod.spec->0.containers@[0];
            let length = program_of(container, image).len() + arguments_of(container, image).len();
            match r {
                Ok(plan) => {
                    &&& length > 0
                    &&& is_command_of(plan.command@, container, image)
                    &&& are_variables_of(plan.env@, container, image)
                    &&& are_the_mounts(plan.mounts@, container)
                    &&& plan.cwd is None
                },
                Err(e) => {
                    &&& length == 0
                    &&& e matches DroidError::Workload(m)
                    &&& pod.metadata.name matches Some(name) ==> m@ == "pod "@ + name@
                        + ": no command or entrypoint defined"@
                    &&& pod.metadata.name is None ==> m@
                        == "pod ?: no command or entrypoint defined"@
                },
            }
        },
{
    assert(views(Seq::<String>::empty()) =~= Seq::<Seq<char>>::empty());
    if pod.spec is Some && pod.spec->0.containers@.len() > 0 {
        let container = pod.spec->0.containers@[0];
        let program = program_of(container, image);
        let arguments = arguments_of(container, image);
        if let Ok(plan) = r {
            assert(views(plan.command@) =~= views(program) + views(arguments));
            lemma_views(plan.command@, program, arguments);
            lemma_variables(plan.env@, container, image);
        }
        reveal_strlit("pod ");
        reveal_strlit("?");
        reveal_strlit(": no command or entrypoint defined");
        reveal_strlit("pod ?: no command or entrypoint defined");
        assert("pod "@ + "?"@ + ": no command or entrypoint defined"@
            =~= "pod ?: no command or entrypoint defined"@);
    }
}

/// The configuration of an image is read from where its preparation writes it.
pub proof fn law_image_configurations_are_read_where_they_are_written(
    service: &WorkloadExecutionServiceImpl,
    rootfs: &str,
    r: String,
)
    requires
        call_ensures(WorkloadExecutionServiceImpl::image_config_path, (service, rootfs), r),
    ensures
        r@ == path_joined(rootfs@, ".droidnode_image_config.json"@),
{
}

} // verus!

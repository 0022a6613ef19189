//! Which steps a project needs, said of its rows.

use super::Preparation;
use crate::records::ProcessRecord;
use vstd::prelude::*;

verus! {

/// What a row declares as a step: the command without the white space around
/// it, and nothing where that is all there is.
pub proof fn law_a_blank_command_is_no_step(process: ProcessRecord)
    ensures
        ({
            let install = process.install_command;
            let build = process.build_command;
            &&& super::install_of(process) is Some <==> install is Some && crate::text::trimmed(
                install->0@,
            ).len() > 0
            &&& super::install_of(process) is Some ==> super::install_of(process)->0
                == crate::text::trimmed(install->0@)
            &&& super::build_of(process) is Some <==> build is Some && crate::text::trimmed(
                build->0@,
            ).len() > 0
            &&& super::build_of(process) is Some ==> super::build_of(process)->0
                == crate::text::trimmed(build->0@)
        }),
{
}

/// Whether two rows declare the same install: the same words in the same
/// directory.
pub open spec fn same_install(one: ProcessRecord, other: ProcessRecord) -> bool {
    &&& one.working_dir@ == other.working_dir@
    &&& super::install_of(one) == super::install_of(other)
}

/// An install step is that of the first row that declares it, and install steps
/// come in the order of those rows.
pub proof fn law_an_install_is_its_first_rows(processes: Seq<ProcessRecord>, at: int)
    requires
        0 <= at < super::needed(processes).len(),
        super::needed(processes)[at].phase == "install"@,
    ensures
        ({
            let steps = super::needed(processes);
            let step: Preparation = steps[at];
            &&& 0 <= step.process_index < processes.len()
            &&& step.working_dir == processes[step.process_index].working_dir@
            &&& processes[step.process_index].install_command is Some
            &&& step.command == crate::text::trimmed(
                processes[step.process_index].install_command->0@,
            )
            &&& step.command.len() > 0
            &&& forall|j: int|
                0 <= j < step.process_index ==> !same_install(
                    #[trigger] processes[j],
                    processes[step.process_index],
                )
            &&& forall|k: int|
                0 <= k < at ==> (#[trigger] steps[k]).phase == "install"@ && steps[k].process_index
                    < step.process_index
        }),
{
    super::phases_differ();
    let all = processes.len() as int;
    super::installs_are_installs(processes, all);
    super::builds_are_builds(processes, all);
    let done = super::installs(processes, all);
    let made = super::builds(processes, all);
    let steps = super::needed(processes);
    if at >= done.len() {
        assert(steps[at] == made[at - done.len()]);
    }
    assert(steps[at] == done[at]);
    let step = done[at];
    assert forall|j: int| 0 <= j < step.process_index implies !same_install(
        #[trigger] processes[j],
        processes[step.process_index],
    ) by {
        if same_install(processes[j], processes[step.process_index]) {
            assert(processes[j].working_dir@ == step.working_dir);
            assert(super::declared(
                processes,
                step.process_index,
                step.working_dir,
                step.command,
            ));
        }
    }
    assert forall|k: int| 0 <= k < at implies (#[trigger] steps[k]).phase == "install"@
        && steps[k].process_index < step.process_index by {
        assert(steps[k] == done[k]);
    }
}

/// Every install a row declares is run, for that row or for one before it that
/// declares the same.
pub proof fn law_every_declared_install_is_run(processes: Seq<ProcessRecord>, index: int)
    requires
        0 <= index < processes.len(),
        processes[index].install_command is Some,
        crate::text::trimmed(processes[index].install_command->0@).len() > 0,
    ensures
        exists|at: int|
            0 <= at < super::needed(processes).len() && (#[trigger] super::needed(
                processes,
            )[at]).phase == "install"@ && super::needed(processes)[at].working_dir
                == processes[index].working_dir@ && super::needed(processes)[at].command
                == crate::text::trimmed(processes[index].install_command->0@),
{
    super::law_no_install_is_left_out(processes, index);
}

/// A build step is that of the row that declares it, in that row's directory;
/// every row that declares a build has one, after every install, and builds
/// come in the order of the rows.
pub proof fn law_a_build_is_its_own_rows(processes: Seq<ProcessRecord>)
    ensures
        ({
            let steps = super::needed(processes);
            &&& forall|at: int|
                0 <= at < steps.len() && (#[trigger] steps[at]).phase != "install"@ ==> {
                    let row = processes[steps[at].process_index];
                    &&& steps[at].phase == "build"@
                    &&& 0 <= steps[at].process_index < processes.len()
                    &&& steps[at].working_dir == row.working_dir@
                    &&& row.build_command is Some
                    &&& steps[at].command == crate::text::trimmed(row.build_command->0@)
                    &&& steps[at].command.len() > 0
                }
            &&& forall|i: int|
                0 <= i < processes.len() && (#[trigger] processes[i]).build_command is Some
                    && crate::text::trimmed(processes[i].build_command->0@).len() > 0 ==> exists|
                    at: int,
                |
                    0 <= at < steps.len() && (#[trigger] steps[at]).phase == "build"@
                        && steps[at].process_index == i
            &&& forall|k: int, l: int|
                0 <= k < l < steps.len() && (#[trigger] steps[k]).phase == "build"@ ==> (
                #[trigger] steps[l]).phase == "build"@ && steps[k].process_index
                    < steps[l].process_index
        }),
{
    super::phases_differ();
    let all = processes.len() as int;
    super::installs_are_installs(processes, all);
    super::builds_are_builds(processes, all);
    super::law_every_process_builds_for_itself(processes);
    let done = super::installs(processes, all);
    let made = super::builds(processes, all);
    let steps = super::needed(processes);
    assert forall|at: int| 0 <= at < steps.len() implies #[trigger] steps[at] == if at < done.len() {
        done[at]
    } else {
        made[at - done.len()]
    } by {}
    assert forall|i: int|
        0 <= i < processes.len() && (#[trigger] processes[i]).build_command is Some
            && crate::text::trimmed(processes[i].build_command->0@).len() > 0 implies exists|
        at: int,
    |
        0 <= at < steps.len() && (#[trigger] steps[at]).phase == "build"@
            && steps[at].process_index == i by {
        assert(super::build_of(processes[i]) is Some);
    }
    assert forall|k: int, l: int|
        0 <= k < l < steps.len() && (#[trigger] steps[k]).phase == "build"@ implies (
    #[trigger] steps[l]).phase == "build"@ && steps[k].process_index < steps[l].process_index by {
        if k < done.len() {
            assert(steps[k] == done[k]);
        }
        assert(steps[l] == made[l - done.len()]);
        assert(steps[k] == made[k - done.len()]);
    }
}

/// A step is read as it is written.
pub proof fn law_a_step_is_read_whole(step: super::PrepareStep)
    ensures
        step@.phase == step.phase@,
        step@.working_dir == step.working_dir@,
        step@.command == step.command@,
        step@.process_index == step.process_index,
{
}

} // verus!

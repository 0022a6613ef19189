//! Which install and build steps a project actually needs.
//!
//! A project with three processes declares three installs and three builds,
//! most of which are the same step written down three times.
//!
//! **Installs are deduplicated by directory and command; builds are not.** A
//! single-repository project declares the same root `npm install` on its API
//! and on its web process, and running it twice is wasted minutes. A monorepo
//! declares `npm install` in two directories: the same words, different work.
//! Keying on the directory and the command gets both right. Two processes that
//! both run `npm run build` produce their own output, so builds run once per
//! process, in start order.

pub mod laws;

use crate::records::ProcessRecord;
use crate::text::{same, trim};
use vstd::prelude::*;

verus! {

/// One command to run before any process starts.
#[derive(Debug, Clone, PartialEq, Eq)]
pub struct PrepareStep {
    /// `"install"` or `"build"`, which is what the log line is labelled with.
    pub phase: &'static str,
    /// Relative to the project directory, as stored.
    pub working_dir: String,
    pub command: String,
    /// Which process this step was declared by, so a failure can name it.
    pub process_index: usize,
}

/// A step as a mathematical value.
pub struct Preparation {
    pub phase: Seq<char>,
    pub working_dir: Seq<char>,
    pub command: Seq<char>,
    pub process_index: int,
}

impl View for PrepareStep {
    type V = Preparation;

    open spec fn view(&self) -> Preparation {
        Preparation {
            phase: self.phase@,
            working_dir: self.working_dir@,
            command: self.command@,
            process_index: self.process_index as int,
        }
    }
}

/// Steps as mathematical values.
pub open spec fn preparations(steps: Seq<PrepareStep>) -> Seq<Preparation> {
    steps.map_values(|step: PrepareStep| step@)
}

/// A command worth running: what is left of it without the white space around
/// it, unless that is nothing.
pub open spec fn worth_running(command: Option<Seq<char>>) -> Option<Seq<char>> {
    match command {
        Some(command) => if crate::text::trimmed(command).len() > 0 {
            Some(crate::text::trimmed(command))
        } else {
            None
        },
        None => None,
    }
}

/// The install a process declares.
pub open spec fn install_of(process: ProcessRecord) -> Option<Seq<char>> {
    worth_running(crate::text::optional(process.install_command))
}

/// The build a process declares.
pub open spec fn build_of(process: ProcessRecord) -> Option<Seq<char>> {
    worth_running(crate::text::optional(process.build_command))
}

/// Whether one of the first processes declares that install in that directory.
pub open spec fn declared(
    processes: Seq<ProcessRecord>,
    first: int,
    working_dir: Seq<char>,
    command: Seq<char>,
) -> bool {
    exists|i: int|
        0 <= i < first && (#[trigger] processes[i]).working_dir@ == working_dir && install_of(
            processes[i],
        ) == Some(command)
}

/// The installs of the first processes: each directory and command once, for
/// the process that declares it first.
pub open spec fn installs(processes: Seq<ProcessRecord>, first: int) -> Seq<Preparation>
    decreases first,
{
    if first <= 0 {
        Seq::empty()
    } else {
        let process = processes[first - 1];
        let earlier = installs(processes, first - 1);
        match install_of(process) {
            Some(command) => if declared(
                processes,
                first - 1,
                process.working_dir@,
                command,
            ) {
                earlier
            } else {
                earlier.push(
                    Preparation {
                        phase: "install"@,
                        working_dir: process.working_dir@,
                        command,
                        process_index: first - 1,
                    },
                )
            },
            None => earlier,
        }
    }
}

/// The builds of the first processes: one for each process that declares one.
pub open spec fn builds(processes: Seq<ProcessRecord>, first: int) -> Seq<Preparation>
    decreases first,
{
    if first <= 0 {
        Seq::empty()
    } else {
        let process = processes[first - 1];
        let earlier = builds(processes, first - 1);
        match build_of(process) {
            Some(command) => earlier.push(
                Preparation {
                    phase: "build"@,
                    working_dir: process.working_dir@,
                    command,
                    process_index: first - 1,
                },
            ),
            None => earlier,
        }
    }
}

/// Every step, installs first, in the order they should run.
pub open spec fn needed(processes: Seq<ProcessRecord>) -> Seq<Preparation> {
    installs(processes, processes.len() as int) + builds(processes, processes.len() as int)
}

/// Every step, installs first, in the order they should run.
pub fn prepare_steps(processes: &[ProcessRecord]) -> (steps: Vec<PrepareStep>)
    ensures
        preparations(steps@) == needed(processes@),
{
    let mut steps: Vec<PrepareStep> = Vec::new();
    let mut index: usize = 0;
    assert(preparations(steps@) =~= Seq::empty());
    while index < processes.len()
        invariant
            index <= processes@.len(),
            preparations(steps@) == installs(processes@, index as int),
        decreases processes@.len() - index,
    {
        let process = &processes[index];
        if let Some(command) = usable(&process.install_command) {
            if !already_declared(processes, index, process.working_dir.as_str(), command) {
                let ghost earlier = steps@;
                steps.push(
                    PrepareStep {
                        phase: "install",
                        working_dir: process.working_dir.clone(),
                        command: command.to_owned(),
                        process_index: index,
                    },
                );
                assert(preparations(steps@) =~= preparations(earlier).push(steps@.last()@));
            }
        }
        index += 1;
    }

    // Every install precedes every build. A build in one directory can depend
    // on a dependency installed in another, which is what a workspace is, so
    // interleaving them would work by luck.
    let ghost installed = steps@;
    let mut index: usize = 0;
    assert(preparations(steps@) =~= preparations(installed) + builds(processes@, 0));
    while index < processes.len()
        invariant
            index <= processes@.len(),
            preparations(steps@) == preparations(installed) + builds(processes@, index as int),
        decreases processes@.len() - index,
    {
        let process = &processes[index];
        if let Some(command) = usable(&process.build_command) {
            let ghost earlier = steps@;
            steps.push(
                PrepareStep {
                    phase: "build",
                    working_dir: process.working_dir.clone(),
                    command: command.to_owned(),
                    process_index: index,
                },
            );
            assert(preparations(steps@) =~= preparations(earlier).push(steps@.last()@));
            assert(preparations(steps@) =~= preparations(installed) + builds(
                processes@,
                index + 1,
            ));
        }
        index += 1;
    }
    steps
}

/// A command worth running. Blank is not a step; the column is nullable and
/// the interface writes an empty string when a field is cleared.
fn usable(command: &Option<String>) -> (usable: Option<&str>)
    ensures
        crate::text::optional_slice(usable) == worth_running(crate::text::optional(*command)),
{
    match command {
        Some(command) => {
            let command = trim(command.as_str());
            if command.is_empty() {
                None
            } else {
                Some(command)
            }
        },
        None => None,
    }
}

fn already_declared(
    processes: &[ProcessRecord],
    first: usize,
    working_dir: &str,
    command: &str,
) -> (found: bool)
    requires
        first <= processes@.len(),
    ensures
        found == declared(processes@, first as int, working_dir@, command@),
{
    let mut index: usize = 0;
    while index < first
        invariant
            index <= first <= processes@.len(),
            !declared(processes@, index as int, working_dir@, command@),
        decreases first - index,
    {
        let process = &processes[index];
        if same(process.working_dir.as_str(), working_dir) && crate::text::same_as(
            usable(&process.install_command),
            command,
        ) {
            assert(processes@[index as int].working_dir@ == working_dir@);
            return true;
        }
        index += 1;
    }
    false
}

pub(crate) proof fn phases_differ()
    ensures
        "install"@ != "build"@,
{
    reveal_strlit("install");
    reveal_strlit("build");
    assert("install"@.len() != "build"@.len());
}

pub(crate) proof fn installs_are_installs(processes: Seq<ProcessRecord>, first: int)
    requires
        0 <= first <= processes.len(),
    ensures
        forall|k: int|
            0 <= k < installs(processes, first).len() ==> {
                let step = #[trigger] installs(processes, first)[k];
                &&& step.phase == "install"@
                &&& 0 <= step.process_index < first
                &&& step.working_dir == processes[step.process_index].working_dir@
                &&& install_of(processes[step.process_index]) == Some(step.command)
                &&& !declared(processes, step.process_index, step.working_dir, step.command)
            },
        forall|k: int, l: int|
            0 <= k < l < installs(processes, first).len() ==> (#[trigger] installs(
                processes,
                first,
            )[k]).process_index < (#[trigger] installs(processes, first)[l]).process_index,
    decreases first,
{
    if first > 0 {
        installs_are_installs(processes, first - 1);
    }
}

pub(crate) proof fn builds_are_builds(processes: Seq<ProcessRecord>, first: int)
    requires
        0 <= first <= processes.len(),
    ensures
        forall|k: int|
            0 <= k < builds(processes, first).len() ==> {
                let step = #[trigger] builds(processes, first)[k];
                &&& step.phase == "build"@
                &&& 0 <= step.process_index < first
                &&& step.working_dir == processes[step.process_index].working_dir@
                &&& build_of(processes[step.process_index]) == Some(step.command)
            },
        forall|k: int, l: int|
            0 <= k < l < builds(processes, first).len() ==> (#[trigger] builds(
                processes,
                first,
            )[k]).process_index < (#[trigger] builds(processes, first)[l]).process_index,
        forall|i: int|
            0 <= i < first && build_of(#[trigger] processes[i]) is Some ==> exists|k: int|
                0 <= k < builds(processes, first).len() && (#[trigger] builds(
                    processes,
                    first,
                )[k]).process_index == i,
    decreases first,
{
    if first > 0 {
        builds_are_builds(processes, first - 1);
        let earlier = builds(processes, first - 1);
        let all = builds(processes, first);
        assert forall|i: int|
            0 <= i < first && build_of(#[trigger] processes[i]) is Some implies exists|k: int|
            0 <= k < all.len() && (#[trigger] all[k]).process_index == i by {
            if i < first - 1 {
                let k = choose|k: int|
                    0 <= k < earlier.len() && (#[trigger] earlier[k]).process_index == i;
                assert(all[k] == earlier[k]);
            } else {
                assert(all.last().process_index == i);
            }
        }
    }
}

proof fn installs_cover(processes: Seq<ProcessRecord>, first: int, index: int)
    requires
        0 <= index < first <= processes.len(),
        install_of(processes[index]) is Some,
    ensures
        exists|k: int|
            0 <= k < installs(processes, first).len() && (#[trigger] installs(
                processes,
                first,
            )[k]).working_dir == processes[index].working_dir@ && Some(
                installs(processes, first)[k].command,
            ) == install_of(processes[index]),
    decreases first, index,
{
    let all = installs(processes, first);
    let command = install_of(processes[index])->0;
    if index == first - 1 {
        if declared(processes, index, processes[index].working_dir@, command) {
            let i = choose|i: int|
                0 <= i < index && (#[trigger] processes[i]).working_dir@
                    == processes[index].working_dir@ && install_of(processes[i]) == Some(command);
            installs_cover(processes, first, i);
        } else {
            assert(all.last().working_dir == processes[index].working_dir@);
        }
    } else {
        installs_cover(processes, first - 1, index);
        let earlier = installs(processes, first - 1);
        let k = choose|k: int|
            0 <= k < earlier.len() && (#[trigger] earlier[k]).working_dir
                == processes[index].working_dir@ && Some(earlier[k].command) == install_of(
                processes[index],
            );
        assert(all[k] == earlier[k]);
    }
}

/// Every install comes before every build.
pub proof fn law_installs_precede_builds(processes: Seq<ProcessRecord>, first: int, second: int)
    requires
        0 <= first < needed(processes).len(),
        0 <= second < needed(processes).len(),
        needed(processes)[first].phase == "install"@,
        needed(processes)[second].phase == "build"@,
    ensures
        first < second,
{
    phases_differ();
    installs_are_installs(processes, processes.len() as int);
    builds_are_builds(processes, processes.len() as int);
    let done = installs(processes, processes.len() as int);
    let made = builds(processes, processes.len() as int);
    if first >= done.len() {
        assert(needed(processes)[first] == made[first - done.len()]);
    }
    if second < done.len() {
        assert(needed(processes)[second] == done[second]);
    }
}

/// No directory sees the same install twice.
pub proof fn law_an_install_runs_once(processes: Seq<ProcessRecord>, first: int, second: int)
    requires
        0 <= first < second < needed(processes).len(),
        needed(processes)[first].phase == "install"@,
        needed(processes)[second].phase == "install"@,
    ensures
        needed(processes)[first].working_dir != needed(processes)[second].working_dir || needed(
            processes,
        )[first].command != needed(processes)[second].command,
{
    phases_differ();
    installs_are_installs(processes, processes.len() as int);
    builds_are_builds(processes, processes.len() as int);
    let done = installs(processes, processes.len() as int);
    let made = builds(processes, processes.len() as int);
    if second >= done.len() {
        assert(needed(processes)[second] == made[second - done.len()]);
    }
    assert(needed(processes)[first] == done[first]);
    assert(needed(processes)[second] == done[second]);
    let a = done[first];
    let b = done[second];
    if a.working_dir == b.working_dir && a.command == b.command {
        assert(processes[a.process_index].working_dir@ == b.working_dir);
        assert(declared(processes, b.process_index, b.working_dir, b.command));
    }
}

/// Every install that some process declares is run, in that process's
/// directory.
pub proof fn law_no_install_is_left_out(processes: Seq<ProcessRecord>, index: int)
    requires
        0 <= index < processes.len(),
        install_of(processes[index]) is Some,
    ensures
        exists|k: int|
            0 <= k < needed(processes).len() && (#[trigger] needed(processes)[k]).phase
                == "install"@ && needed(processes)[k].working_dir == processes[index].working_dir@
                && Some(needed(processes)[k].command) == install_of(processes[index]),
{
    installs_are_installs(processes, processes.len() as int);
    installs_cover(processes, processes.len() as int, index);
    let done = installs(processes, processes.len() as int);
    let k = choose|k: int|
        0 <= k < done.len() && (#[trigger] done[k]).working_dir == processes[index].working_dir@
            && Some(done[k].command) == install_of(processes[index]);
    assert(needed(processes)[k] == done[k]);
}

/// Each process that declares a build has it run exactly once, and builds run
/// in the order of the processes.
pub proof fn law_every_process_builds_for_itself(processes: Seq<ProcessRecord>)
    ensures
        forall|i: int|
            0 <= i < processes.len() && build_of(#[trigger] processes[i]) is Some ==> exists|k: int|
                0 <= k < needed(processes).len() && (#[trigger] needed(processes)[k]).phase
                    == "build"@ && needed(processes)[k].process_index == i,
        forall|k: int, l: int|
            0 <= k < l < needed(processes).len() && (#[trigger] needed(processes)[k]).phase
                == "build"@ && (#[trigger] needed(processes)[l]).phase == "build"@ ==> needed(
                processes,
            )[k].process_index < needed(processes)[l].process_index,
{
    phases_differ();
    let all = processes.len() as int;
    installs_are_installs(processes, all);
    builds_are_builds(processes, all);
    let done = installs(processes, all);
    let made = builds(processes, all);
    assert forall|i: int|
        0 <= i < processes.len() && build_of(#[trigger] processes[i]) is Some implies exists|k: int|
        0 <= k < needed(processes).len() && (#[trigger] needed(processes)[k]).phase == "build"@
            && needed(processes)[k].process_index == i by {
        let k = choose|k: int| 0 <= k < made.len() && (#[trigger] made[k]).process_index == i;
        assert(needed(processes)[k + done.len()] == made[k]);
    }
    assert forall|k: int, l: int|
        0 <= k < l < needed(processes).len() && (#[trigger] needed(processes)[k]).phase == "build"@
            && (#[trigger] needed(processes)[l]).phase == "build"@ implies needed(
        processes,
    )[k].process_index < needed(processes)[l].process_index by {
        if k < done.len() {
            assert(needed(processes)[k] == done[k]);
        } else {
            assert(needed(processes)[k] == made[k - done.len()]);
            assert(needed(processes)[l] == made[l - done.len()]);
        }
    }
}

/// A step names the process that declared it, runs in that process's
/// directory, and is never blank.
pub proof fn law_a_step_names_its_process(processes: Seq<ProcessRecord>, at: int)
    requires
        0 <= at < needed(processes).len(),
    ensures
        ({
            let step = needed(processes)[at];
            &&& 0 <= step.process_index < processes.len()
            &&& step.working_dir == processes[step.process_index].working_dir@
            &&& step.command.len() > 0
            &&& (step.phase == "install"@ && install_of(processes[step.process_index]) == Some(
                step.command,
            )) || (step.phase == "build"@ && build_of(processes[step.process_index]) == Some(
                step.command,
            ))
        }),
{
    installs_are_installs(processes, processes.len() as int);
    builds_are_builds(processes, processes.len() as int);
    let done = installs(processes, processes.len() as int);
    if at < done.len() {
        assert(needed(processes)[at] == done[at]);
    } else {
        assert(needed(processes)[at] == builds(processes, processes.len() as int)[at
            - done.len()]);
    }
}

} // verus!

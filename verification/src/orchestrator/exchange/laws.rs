//! What carrying out the machine's actions takes, action by action, and what
//! a request says.

use super::{Ask, Deed, Request};
use crate::orchestration::{Act};
use crate::orchestrator::registry::RunningProcess;
use crate::records::ProcessRecord;
use vstd::prelude::*;

verus! {

/// The supervisor of a row is that of the first running process under the
/// row's id, and there is none where nothing runs under it.
pub proof fn law_a_supervisor_is_found_by_the_rows_id(
    running: Seq<RunningProcess>,
    process_id: Seq<char>,
)
    ensures
        match super::supervisor_of(running, process_id) {
            Some(handle) => exists|at: int|
                0 <= at < running.len() && (#[trigger] running[at]).handle == handle
                    && running[at].process_id@ == process_id && forall|j: int|
                    0 <= j < at ==> (#[trigger] running[j]).process_id@ != process_id,
            None => forall|j: int|
                0 <= j < running.len() ==> (#[trigger] running[j]).process_id@ != process_id,
        },
{
    the_first_supervisor(running, process_id, 0);
}

proof fn the_first_supervisor(running: Seq<RunningProcess>, process_id: Seq<char>, from: int)
    requires
        0 <= from <= running.len(),
    ensures
        match super::supervisor_from(running, process_id, from) {
            Some(handle) => exists|at: int|
                from <= at < running.len() && (#[trigger] running[at]).handle == handle
                    && running[at].process_id@ == process_id && forall|j: int|
                    from <= j < at ==> (#[trigger] running[j]).process_id@ != process_id,
            None => forall|j: int|
                from <= j < running.len() ==> (#[trigger] running[j]).process_id@ != process_id,
        },
    decreases running.len() - from,
{
    if from < running.len() {
        if running[from].process_id@ == process_id {
            assert(running[from].handle == running[from].handle);
        } else {
            the_first_supervisor(running, process_id, from + 1);
            if super::supervisor_from(running, process_id, from + 1) is Some {
                let handle = super::supervisor_from(running, process_id, from + 1)->0;
                let at = choose|at: int|
                    from + 1 <= at < running.len() && (#[trigger] running[at]).handle == handle
                        && running[at].process_id@ == process_id && forall|j: int|
                        from + 1 <= j < at ==> (#[trigger] running[j]).process_id@ != process_id;
                assert(running[at].handle == handle);
            }
        }
    }
}

/// Actions are carried out one by one, in their order: what two lists of them
/// take together is what the one takes and then what the other does.
pub proof fn law_actions_are_carried_out_in_order(
    first: Seq<Act>,
    second: Seq<Act>,
    processes: Seq<ProcessRecord>,
    running: Seq<RunningProcess>,
)
    ensures
        super::all_carried_out(first + second, processes, running) == super::all_carried_out(
            first,
            processes,
            running,
        ) + super::all_carried_out(second, processes, running),
    decreases second.len(),
{
    if second.len() == 0 {
        assert(first + second =~= first);
    } else {
        let all = first + second;
        assert(all.drop_last() =~= first + second.drop_last());
        law_actions_are_carried_out_in_order(first, second.drop_last(), processes, running);
        assert(super::all_carried_out(all, processes, running) =~= super::all_carried_out(
            first,
            processes,
            running,
        ) + super::all_carried_out(second, processes, running));
    }
}

/// What one action takes: a status is written in the row of its process, with
/// its reason and beside its supervisor; a stop goes to the supervisor of its
/// process, where it has one; nothing else takes anything.
pub proof fn law_an_action_concerns_its_own_row(
    act: Act,
    processes: Seq<ProcessRecord>,
    running: Seq<RunningProcess>,
)
    ensures
        ({
            let deeds = super::all_carried_out(seq![act], processes, running);
            match act {
                Act::Write(index, state, reason) => if 0 <= index < processes.len() {
                    deeds == seq![
                        Deed::Record {
                            process_id: processes[index].id@,
                            state,
                            reason,
                            handle: super::supervisor_of(running, processes[index].id@),
                        },
                    ]
                } else {
                    deeds.len() == 0
                },
                Act::Stop(index) => if 0 <= index < processes.len() && super::supervisor_of(
                    running,
                    processes[index].id@,
                ) is Some {
                    deeds == seq![
                        Deed::Stop(super::supervisor_of(running, processes[index].id@)->0),
                    ]
                } else {
                    deeds.len() == 0
                },
                _ => deeds.len() == 0,
            }
        }),
{
    let acts = seq![act];
    assert(acts.drop_last() =~= Seq::empty());
    assert(super::all_carried_out(acts.drop_last(), processes, running) =~= Seq::empty());
    assert(super::all_carried_out(acts, processes, running) =~= super::carried_out(
        act,
        processes,
        running,
    ));
}

/// What is spawned is the first process that the actions spawn, and nothing
/// where they spawn none.
pub proof fn law_the_first_spawn_is_taken(acts: Seq<Act>)
    ensures
        match super::spawn_in(acts) {
            Some(index) => exists|at: int|
                0 <= at < acts.len() && #[trigger] acts[at] == Act::Spawn(index) && forall|j: int|
                    0 <= j < at ==> !(#[trigger] acts[j] is Spawn),
            None => forall|j: int| 0 <= j < acts.len() ==> !(#[trigger] acts[j] is Spawn),
        },
{
    the_first_spawn(acts, 0);
}

proof fn the_first_spawn(acts: Seq<Act>, from: int)
    requires
        0 <= from <= acts.len(),
    ensures
        match super::spawn_from(acts, from) {
            Some(index) => exists|at: int|
                from <= at < acts.len() && #[trigger] acts[at] == Act::Spawn(index) && forall|
                    j: int,
                |
                    from <= j < at ==> !(#[trigger] acts[j] is Spawn),
            None => forall|j: int| from <= j < acts.len() ==> !(#[trigger] acts[j] is Spawn),
        },
    decreases acts.len() - from,
{
    if from < acts.len() {
        if acts[from] is Spawn {
            assert(acts[from] == Act::Spawn(acts[from]->Spawn_0));
        } else {
            the_first_spawn(acts, from + 1);
            if super::spawn_from(acts, from + 1) is Some {
                let index = super::spawn_from(acts, from + 1)->0;
                let at = choose|at: int|
                    from + 1 <= at < acts.len() && #[trigger] acts[at] == Act::Spawn(index)
                        && forall|j: int|
                        from + 1 <= j < at ==> !(#[trigger] acts[j] is Spawn);
                assert(acts[at] == Act::Spawn(index));
            }
        }
    }
}

/// A request for a command says everything the command is made from.
pub proof fn law_a_command_is_asked_for_whole(request: Request)
    requires
        request is BuildCommand,
    ensures
        request@ is BuildCommand,
        request@->BuildCommand_runtime == request->BuildCommand_runtime@,
        request@->BuildCommand_text == request->BuildCommand_text@,
        request@->BuildCommand_directory.base == request->BuildCommand_directory.base@,
        request@->BuildCommand_directory.parts.len() == request->BuildCommand_directory.parts@.len(),
        forall|i: int|
            0 <= i < request->BuildCommand_directory.parts@.len() ==> #[trigger] request@->BuildCommand_directory.parts[i]
                == request->BuildCommand_directory.parts@[i]@,
        request@->BuildCommand_toolchain == request->BuildCommand_toolchain,
        request@->BuildCommand_port == request->BuildCommand_port,
        request@->BuildCommand_env.len() == request->BuildCommand_env@.len(),
        forall|i: int|
            0 <= i < request->BuildCommand_env@.len() ==> (
            #[trigger] request@->BuildCommand_env[i]).0 == request->BuildCommand_env@[i].0
                && request@->BuildCommand_env[i].1 == request->BuildCommand_env@[i].1@,
{
}

/// A request to spawn says everything the process is spawned with.
pub proof fn law_a_spawn_is_asked_for_whole(request: Request)
    requires
        request is Spawn,
    ensures
        request@ is Spawn,
        ({
            let command = request->Spawn_command;
            let launch = request@->Spawn_command;
            &&& launch.program == command.program@
            &&& launch.args.len() == command.args@.len()
            &&& forall|i: int|
                0 <= i < command.args@.len() ==> #[trigger] launch.args[i] == command.args@[i]@
            &&& launch.cwd.base == command.cwd.base@
            &&& launch.cwd.parts.len() == command.cwd.parts@.len()
            &&& forall|i: int|
                0 <= i < command.cwd.parts@.len() ==> #[trigger] launch.cwd.parts[i]
                    == command.cwd.parts@[i]@
            &&& launch.env.len() == command.env@.len()
            &&& forall|i: int|
                0 <= i < command.env@.len() ==> (#[trigger] launch.env[i]).0 == command.env@[i].0
                    && launch.env[i].1 == command.env@[i].1@
        }),
        request@->Spawn_restart_on_crash == request->Spawn_restart_on_crash,
        request->Spawn_health is Some <==> request@->Spawn_health is Some,
        request->Spawn_health is Some ==> ({
            let policy = request->Spawn_health->0;
            let asked = request@->Spawn_health->0;
            &&& asked.kind == policy.check.kind@
            &&& asked.target is Some <==> policy.check.target is Some
            &&& asked.target is Some ==> asked.target->0 == policy.check.target->0@
            &&& asked.timeout_s == policy.check.timeout_s
            &&& asked.port == policy.check.port
            &&& asked.interval_s == policy.interval_s
            &&& asked.start_period_s == policy.start_period_s
        }),
{
}

/// A status is written with everything that is known of it.
pub proof fn law_a_record_is_written_whole(request: Request)
    ensures
        request is RecordStatus ==> ({
            &&& request@ is Record
            &&& request@->Record_0 is Record
            &&& request@->Record_0->Record_process_id == request->RecordStatus_process_id@
            &&& request@->Record_0->Record_state == request->RecordStatus_state
            &&& request@->Record_0->Record_handle == request->RecordStatus_handle
            &&& request@->Record_0->Record_reason is Some <==> request->RecordStatus_reason is Some
            &&& request->RecordStatus_reason is Some ==> request@->Record_0->Record_reason->0
                == request->RecordStatus_reason->0@
        }),
        request is RecordObserved ==> ({
            &&& request@ is RecordObserved
            &&& request@->RecordObserved_process_id == request->RecordObserved_process_id@
            &&& request@->RecordObserved_state == request->RecordObserved_state
            &&& request@->RecordObserved_handle == request->RecordObserved_handle
            &&& request@->RecordObserved_exit_code == request->RecordObserved_exit_code
            &&& request@->RecordObserved_reason is Some <==> request->RecordObserved_reason is Some
            &&& request->RecordObserved_reason is Some ==> request@->RecordObserved_reason->0
                == request->RecordObserved_reason->0@
        }),
{
}

/// Every other request says what it is about.
pub proof fn law_a_request_says_what_it_is_about(request: Request)
    ensures
        match request {
            Request::ListProcesses { project_id } => request@ == Ask::ListProcesses(project_id@),
            Request::FindRuntime { project_id } => request@ == Ask::FindRuntime(project_id@),
            Request::ListCandidates { runtime } => request@ == Ask::ListCandidates(runtime@),
            Request::Probe { runtime } => request@ == Ask::Probe(runtime@),
            Request::TakeRegistered { project_id } => request@ == Ask::TakeRegistered(project_id@),
            Request::FindHandle { project_id, process } => request@ == Ask::FindHandle(
                project_id@,
                process@,
            ),
            Request::Stop { handle } => request@ == Ask::Stop(handle),
            Request::CheckPort { project_id } => request@ == Ask::CheckPort(project_id@),
            Request::ResolveEnvironment { project_id } => request@ == Ask::ResolveEnvironment(
                project_id@,
            ),
            Request::ListPorts { project_id } => request@ == Ask::ListPorts(project_id@),
            Request::Announce { project_id, status } => request@ == Ask::Announce(
                project_id@,
                status,
            ),
            Request::RunStep { phase, command } => request@ == Ask::RunStep(phase@, command@),
            Request::FindExecutable => request@ == Ask::FindExecutable,
            Request::Register { project_id, running } => request@ == Ask::Register(
                project_id@,
                running@,
            ),
            Request::ReplaceHandle { project_id, process, handle } => request@
                == Ask::ReplaceHandle(project_id@, process@, handle),
            Request::Observe { handle } => request@ == Ask::Observe(handle),
            Request::Poll { handle } => request@ == Ask::Poll(handle),
            Request::Sleep { ms } => request@ == Ask::Sleep(ms),
            Request::RecordStarted { project_id } => request@ == Ask::RecordStarted(project_id@),
            Request::ObserveAll { handles } => request@ == Ask::ObserveAll(handles@),
            Request::CountRestart { process_id } => request@ == Ask::CountRestart(process_id@),
            Request::Nothing => request@ == Ask::Nothing,
            _ => true,
        },
{
}

/// An effect is read as it is written, and effects in their order.
pub proof fn law_effects_are_read_whole(effects: Seq<super::Effect>, at: int)
    requires
        0 <= at < effects.len(),
    ensures
        super::deeds(effects).len() == effects.len(),
        match effects[at] {
            super::Effect::Stop { handle } => super::deeds(effects)[at] == Deed::Stop(handle),
            super::Effect::Record { process_id, state, reason, handle } => {
                let deed = super::deeds(effects)[at];
                &&& deed is Record
                &&& deed->Record_process_id == process_id@
                &&& deed->Record_state == state
                &&& deed->Record_handle == handle
                &&& deed->Record_reason is Some <==> reason is Some
                &&& reason is Some ==> deed->Record_reason->0 == reason->0@
            },
        },
{
}

} // verus!

//! What holds of every start, whatever replies it gets.

use super::{Next, Phase, Starting};
use crate::lifecycle::Failure;
use crate::orchestration::{Act, Happening, ProcessState, ProjectStatus};
use crate::orchestrator::exchange::{Ask, Reply};
use crate::orchestrator::observed::Verdict;
use crate::orchestrator::registry::RunningProcess;
use vstd::prelude::*;

verus! {

/// How far along a start is in a phase.
pub open spec fn rank(phase: Phase) -> int {
    match phase {
        Phase::Processes => 0,
        Phase::Runtime => 1,
        Phase::Candidates => 2,
        Phase::Toolchain => 3,
        Phase::Registered => 4,
        Phase::StopPrevious(left) => 5,
        Phase::Port => 6,
        Phase::Environment => 7,
        Phase::Ports => 8,
        Phase::Building => 9,
        Phase::Prepare(at) => 10,
        Phase::RunStep(at, command) => 10,
        Phase::Built => 11,
        Phase::Apply(effects, at, then_next) => 12,
        Phase::Executable(index) => 12,
        Phase::Command(index) => 12,
        Phase::Spawn(index, command) => 12,
        Phase::Register(index, handle) => 12,
        Phase::Settle(index, handle) => 12,
        Phase::Poll(index, handle) => 12,
        Phase::Sleep(index, handle) => 12,
        Phase::StopUnhealthy(index, handle) => 12,
        Phase::StopAll(left, failure) => 13,
        Phase::RegisterAll => 13,
        Phase::RecordStarted => 14,
        Phase::ObserveAll => 15,
        Phase::Finished(result) => 16,
    }
}

/// The start after a whole series of replies.
pub open spec fn after_all(start: Starting, replies: Seq<Reply>) -> Starting
    decreases replies.len(),
{
    if replies.len() == 0 {
        start
    } else {
        after_all(start.after(replies[0]), replies.skip(1))
    }
}

/// Whether a request changes anything: takes a registration, stops or runs
/// something, or writes.
pub open spec fn touches(ask: Ask) -> bool {
    match ask {
        Ask::TakeRegistered(project) => true,
        Ask::Stop(handle) => true,
        Ask::Announce(project, status) => true,
        Ask::RunStep(phase, command) => true,
        Ask::Record(deed) => true,
        Ask::Spawn { command, health, restart_on_crash } => true,
        Ask::Register(project, running) => true,
        Ask::ReplaceHandle(project, process, handle) => true,
        Ask::RecordStarted(project) => true,
        Ask::RecordObserved { process_id, state, handle, exit_code, reason } => true,
        Ask::CountRestart(process) => true,
        _ => false,
    }
}

/// Whether what runs is the first rows, each under its own id and name.
pub open spec fn runs_the_first_rows(start: Starting) -> bool {
    &&& start.running.len() <= start.processes.len()
    &&& forall|k: int|
        0 <= k < start.running.len() ==> (#[trigger] start.running[k]).process_id
            == start.processes[k].id && start.running[k].name == start.processes[k].name
}

/// Whether the machine, the ports and the steps are those of the rows.
pub open spec fn laid_out(start: Starting) -> bool {
    &&& start.machine.wf()
    &&& start.machine.checks == super::checks_of(start.processes)
    &&& start.ports.len() == start.processes.len()
    &&& start.steps == crate::orchestrator::prepare::needed(start.processes)
}

/// Whether a start is at the point where the process at `index` is next, with
/// those before it running and nothing else.
pub open spec fn up_to(start: Starting, index: int) -> bool {
    &&& laid_out(start)
    &&& runs_the_first_rows(start)
    &&& crate::orchestration::laws::starting_in_order(start.machine, index)
    &&& start.running.len() == index
}

/// Whether a start is at the point where the process at `index` was spawned,
/// with those before it running.
pub open spec fn spawned(start: Starting, index: int, handle: u64) -> bool {
    &&& laid_out(start)
    &&& runs_the_first_rows(start)
    &&& crate::orchestration::laws::starting_in_order(start.machine, index)
    &&& start.running.len() == index + 1
    &&& start.running[index].handle == handle
}

/// Whether a start has nothing left to bring up: every process runs, or one of
/// them failed.
pub open spec fn settled(start: Starting) -> bool {
    &&& laid_out(start)
    &&& runs_the_first_rows(start)
    &&& (start.machine.status() == ProjectStatus::RUNNING && start.running.len()
        == start.processes.len()) || start.machine.status() == ProjectStatus::FAILED
}

/// What every start keeps.
pub open spec fn sound(start: Starting) -> bool {
    &&& start.wf()
    &&& rank(start.phase) < 9 ==> start.running.len() == 0
    &&& 1 <= rank(start.phase) < 16 ==> start.processes.len() > 0
    &&& match start.phase {
        Phase::Building => laid_out(start) && start.running.len() == 0,
        Phase::Prepare(at) => laid_out(start) && start.running.len() == 0,
        Phase::RunStep(at, command) => laid_out(start) && start.running.len() == 0,
        Phase::Built => laid_out(start) && start.running.len() == 0 && start.steps.len() > 0,
        Phase::Apply(effects, at, then_next) => match then_next {
            Next::Start(index) => up_to(start, index),
            Next::Rest => settled(start),
            Next::Fail(failure) => start.running.len() == 0,
            Next::Abandon(failure) => laid_out(start) && runs_the_first_rows(start),
        },
        Phase::Executable(index) => up_to(start, index) && start.runtime->0.serves_itself(),
        Phase::Command(index) => up_to(start, index) && !start.runtime->0.serves_itself(),
        Phase::Spawn(index, command) => up_to(start, index),
        Phase::Register(index, handle) => spawned(start, index, handle),
        Phase::Settle(index, handle) => spawned(start, index, handle),
        Phase::Poll(index, handle) => spawned(start, index, handle)
            && start.processes[index].checked(),
        Phase::Sleep(index, handle) => spawned(start, index, handle)
            && start.processes[index].checked(),
        Phase::StopUnhealthy(index, handle) => spawned(start, index, handle),
        Phase::StopAll(left, failure) => laid_out(start) && runs_the_first_rows(start),
        Phase::RegisterAll => settled(start),
        Phase::RecordStarted => settled(start) && start.machine.status() == ProjectStatus::RUNNING,
        Phase::ObserveAll => settled(start),
        _ => true,
    }
}

proof fn a_spawn_found_is_there(acts: Seq<Act>, from: int)
    requires
        0 <= from,
        crate::orchestrator::exchange::spawn_from(acts, from) is Some,
    ensures
        exists|k: int|
            from <= k < acts.len() && #[trigger] acts[k] == Act::Spawn(
                crate::orchestrator::exchange::spawn_from(acts, from)->0,
            ),
    decreases acts.len() - from,
{
    if acts[from] is Spawn {
        assert(acts[from] == Act::Spawn(acts[from]->Spawn_0));
    } else {
        a_spawn_found_is_there(acts, from + 1);
    }
}

/// An event that brings no process up spawns none.
proof fn no_spawn_without_coming_up(machine: crate::orchestration::Project, event: Happening)
    requires
        !(event is Settled),
        !(event is Healthy),
    ensures
        crate::orchestrator::exchange::spawn_in(machine.acts(event)) is None,
{
    let acts = machine.acts(event);
    if crate::orchestrator::exchange::spawn_in(acts) is Some {
        a_spawn_found_is_there(acts, 0);
        let spawned = crate::orchestrator::exchange::spawn_in(acts)->0;
        let k = choose|k: int| 0 <= k < acts.len() && #[trigger] acts[k] == Act::Spawn(spawned);
        crate::orchestration::laws::law_a_spawn_is_the_first_one_waiting(
            machine,
            event,
            k,
            spawned,
        );
    }
}

proof fn beginning_is_sound(start: Starting)
    requires
        start.wf(),
        start.runtime is Some,
        start.processes.len() > 0,
        laid_out(start),
        start.running.len() == 0,
    ensures
        sound(start.begun()),
        rank(start.begun().phase) == 12,
        start.begun().phase is Apply ==> start.begun().phase->Apply_2 == Next::Start(0),
{
    let machine = start.machine;
    crate::orchestration::laws::law_a_start_spawns_the_first_process(machine);
    crate::orchestration::laws::law_processes_are_kept(machine, Happening::StopRequested);
    let acts = machine.start_acts();
    reveal_with_fuel(crate::orchestrator::exchange::spawn_from, 4);
    assert(acts[1] == Act::Spawn(0));
    assert(crate::orchestrator::exchange::spawn_in(acts) == Some(0int));
    let next = Starting { machine: machine.started(), ..start };
    assert(up_to(next, 0));
}

proof fn coming_up_is_sound(start: Starting, event: Happening, index: int)
    requires
        start.wf(),
        start.runtime is Some,
        start.processes.len() > 0,
        laid_out(start),
        runs_the_first_rows(start),
        crate::orchestration::laws::starting_in_order(start.machine, index),
        start.running.len() == index + 1,
        crate::orchestration::laws::comes_up(start.machine, event, index),
    ensures
        sound(start.heard(event)),
        12 <= rank(start.heard(event).phase) <= 13,
{
    let machine = start.machine;
    let acts = machine.acts(event);
    let next = Starting { machine: machine.after(event), ..start };
    crate::orchestration::laws::law_processes_are_kept(machine, event);
    reveal_with_fuel(crate::orchestrator::exchange::spawn_from, 5);
    if index + 1 < machine.states.len() {
        crate::orchestration::laws::law_processes_start_in_order(machine, event, index);
        assert(acts[2] == Act::Spawn(index + 1));
        assert(crate::orchestrator::exchange::spawn_in(acts) == Some(index + 1));
        assert(up_to(next, index + 1));
    } else {
        crate::orchestration::laws::law_the_last_one_up_completes_the_start(machine, event, index);
        assert(acts.len() == 2);
        assert(crate::orchestrator::exchange::spawn_in(acts) is None);
        crate::orchestration::laws::law_running_means_everything_runs(next.machine);
        assert(settled(next));
    }
}

proof fn dying_is_sound(start: Starting, index: int)
    requires
        start.wf(),
        start.runtime is Some,
        start.processes.len() > 0,
        laid_out(start),
        runs_the_first_rows(start),
        crate::orchestration::laws::starting_in_order(start.machine, index),
    ensures
        sound(start.heard(Happening::Exited(index, true))),
        12 <= rank(start.heard(Happening::Exited(index, true)).phase) <= 13,
        start.heard(Happening::Exited(index, true)).machine.status() == ProjectStatus::FAILED,
{
    let event = Happening::Exited(index, true);
    let machine = start.machine;
    let next = Starting { machine: machine.after(event), ..start };
    crate::orchestration::laws::law_processes_are_kept(machine, event);
    no_spawn_without_coming_up(machine, event);
    crate::orchestration::laws::law_a_terminal_exit_stops_every_other_process(
        machine,
        event,
        index,
    );
    assert(next.machine.states[index] == ProcessState::Failed);
    crate::orchestration::laws::law_trouble_is_not_hidden(next.machine);
    assert(crate::orchestration::some_in(next.machine.states, ProcessState::Failed));
    assert(settled(next));
}

proof fn abandoning_is_sound(start: Starting, index: int, failure: Failure)
    requires
        start.wf(),
        start.runtime is Some,
        start.processes.len() > 0,
        laid_out(start),
        runs_the_first_rows(start),
    ensures
        sound(start.abandoned(index, failure)),
        rank(start.abandoned(index, failure).phase) >= 12,
{
    let event = Happening::PrepareFailed(index, failure.text());
    crate::orchestration::laws::law_processes_are_kept(start.machine, event);
}

proof fn laying_out_is_sound(start: Starting, ports: Seq<crate::records::PortRecord>)
    requires
        start.wf(),
        start.runtime is Some,
        start.processes.len() > 0,
        start.running.len() == 0,
    ensures
        sound(start.laid_out(ports)),
{
    let next = Starting {
        ports: crate::orchestrator::settings::ports_of(ports, start.processes),
        steps: crate::orchestrator::prepare::needed(start.processes),
        machine: crate::orchestration::Project {
            checks: super::checks_of(start.processes),
            states: Seq::new(start.processes.len(), |i: int| ProcessState::Stopped),
            stopping: false,
        },
        ..start
    };
    assert(laid_out(next));
    if next.steps.len() == 0 {
        beginning_is_sound(next.at(Phase::Processes));
    }
}

/// A new start is sound, and every reply keeps it so: processes start one
/// after another in the order of their rows, nothing runs before everything is
/// prepared, and what is registered is what was started.
#[verifier::spinoff_prover]
#[verifier::rlimit(40)]
pub proof fn law_a_start_stays_sound(start: Starting, reply: Reply)
    requires
        sound(start),
    ensures
        sound(start.after(reply)),
{
    match (start.phase, reply) {
        (Phase::Ports, Reply::Ports(result)) => {
            if result is Ok {
                laying_out_is_sound(start, (result->Ok_0)@);
            }
        },
        (Phase::Built, Reply::Recorded(result)) => {
            if result is Ok {
                beginning_is_sound(start);
            }
        },
        (Phase::Executable(index), Reply::Executable(executable)) => {
            if super::teardown::refusal(start, reply) is Some {
                abandoning_is_sound(start, index, super::teardown::refusal(start, reply)->0);
            }
        },
        (Phase::Command(index), Reply::Command(result)) => {
            if result is Err {
                abandoning_is_sound(start, index, Failure::Command((result->Err_0)@));
            }
        },
        (Phase::Spawn(index, command), Reply::Spawned(result)) => {
            if result is Err {
                abandoning_is_sound(start, index, Failure::Host((result->Err_0)@));
            }
        },
        (Phase::Settle(index, handle), Reply::Observed(observed)) => {
            if observed.status != crate::orchestrator::observed::HostStatus::Running {
                dying_is_sound(start, index);
            } else if !start.processes[index].checked() {
                assert(!start.machine.gated(index));
                coming_up_is_sound(start, Happening::Settled(index), index);
            }
        },
        (Phase::Poll(index, handle), Reply::Polled { health, status, waited_ms }) => {
            let decided = crate::orchestrator::observed::verdict(
                health,
                status,
                waited_ms as int,
                crate::orchestrator::settings::patience(start.processes[index]),
            );
            if decided == Verdict::Passed {
                assert(start.machine.gated(index));
                coming_up_is_sound(start, Happening::Healthy(index), index);
            }
        },
        (Phase::StopUnhealthy(index, handle), Reply::Stopped(result)) => {
            dying_is_sound(start, index);
        },
        _ => {},
    }
}

/// A start begins sound.
pub proof fn law_a_new_start_is_sound(start: Starting)
    requires
        start.wf(),
        start.phase == Phase::Processes,
        start.running == Seq::<RunningProcess>::empty(),
    ensures
        sound(start),
{
}

/// A start never goes back: each reply leaves it where it is or further along.
#[verifier::spinoff_prover]
#[verifier::rlimit(40)]
pub proof fn law_a_start_goes_forward(start: Starting, reply: Reply)
    requires
        start.wf(),
    ensures
        rank(start.phase) <= rank(start.after(reply).phase),
{
    match start.phase {
        Phase::Ports => {
            if reply is Ports && reply->Ports_0 is Ok {
                laying_out_goes_forward(start, (reply->Ports_0->Ok_0)@);
            }
        },
        Phase::RunStep(at, command) => {
            if reply is Stepped {
                if reply->Stepped_0 is Err {
                    let error = (reply->Stepped_0->Err_0)@;
                    hearing_goes_forward(
                        start,
                        Happening::PrepareFailed(start.steps[at].process_index, error),
                        Next::Fail(Failure::Host(error)),
                    );
                }
            }
        },
        Phase::Built => {
            beginning_goes_forward(start);
        },
        Phase::Executable(index) | Phase::Command(index) | Phase::Spawn(index, _) => {
            if super::teardown::refusal(start, reply) is Some {
                let failure = super::teardown::refusal(start, reply)->0;
                hearing_goes_forward(
                    start,
                    Happening::PrepareFailed(index, failure.text()),
                    Next::Abandon(failure),
                );
            }
        },
        Phase::Settle(index, handle) => {
            let dead = Happening::Exited(index, true);
            let up = Happening::Settled(index);
            hearing_goes_forward(start, dead, Starting::next_of(start.machine.acts(dead)));
            hearing_goes_forward(start, up, Starting::next_of(start.machine.acts(up)));
        },
        Phase::Poll(index, handle) => {
            let up = Happening::Healthy(index);
            hearing_goes_forward(start, up, Starting::next_of(start.machine.acts(up)));
        },
        Phase::StopUnhealthy(index, handle) => {
            let dead = Happening::Exited(index, true);
            hearing_goes_forward(start, dead, Starting::next_of(start.machine.acts(dead)));
        },
        _ => {},
    }
}

proof fn hearing_goes_forward(start: Starting, event: Happening, then_next: Next)
    ensures
        rank(start.heard_then(event, then_next).phase) >= 12,
{
}

proof fn beginning_goes_forward(start: Starting)
    ensures
        rank(start.begun().phase) >= 12,
{
}

proof fn laying_out_goes_forward(start: Starting, ports: Seq<crate::records::PortRecord>)
    ensures
        rank(start.laid_out(ports).phase) >= 9,
{
}

/// Once a start is over nothing more is asked, and no reply changes what it
/// came to.
pub proof fn law_a_finished_start_is_over(start: Starting, reply: Reply)
    requires
        start.phase is Finished,
    ensures
        start.request() == Ask::Nothing,
        start.after(reply) == start,
{
}

/// Nothing is stopped, run, registered or written before the project is known
/// to have processes and a runtime, and before its toolchain was looked for.
/// So a start that is refused for one of those leaves everything as it was.
pub proof fn law_a_refusal_touches_nothing(start: Starting)
    requires
        sound(start),
        touches(start.request()),
    ensures
        start.processes.len() > 0,
        start.runtime is Some,
        rank(start.phase) > rank(Phase::Toolchain),
{
}

/// A project with no processes is refused by name.
pub proof fn law_a_project_with_no_processes_is_refused(start: Starting, reply: Reply)
    requires
        start.phase == Phase::Processes,
        reply matches Reply::Processes(Ok(processes)) && processes@.len() == 0,
    ensures
        start.after(reply).phase == Phase::Finished(
            Err(Failure::NoProcesses(start.project.id@)),
        ),
{
}

/// What is left of a previous run is told to stop, last process first, and
/// only then is the port asked about: before that, a restart would find its
/// own process holding the port and refuse itself.
pub proof fn law_a_previous_run_is_ended_first(start: Starting, replies: Seq<Reply>)
    requires
        start.phase is StopPrevious,
        start.phase->StopPrevious_0.len() > 0,
        replies.len() == start.phase->StopPrevious_0.len(),
        forall|k: int| 0 <= k < replies.len() ==> #[trigger] replies[k] is Stopped,
    ensures
        after_all(start, replies) == start.at(Phase::Port),
        forall|k: int|
            0 <= k < replies.len() ==> #[trigger] after_all(start, replies.take(k)).request()
                == Ask::Stop(
                start.phase->StopPrevious_0[start.phase->StopPrevious_0.len() - 1 - k].handle,
            ),
    decreases replies.len(),
{
    let left = start.phase->StopPrevious_0;
    let next = start.after(replies[0]);
    let rest = replies.skip(1);
    assert(replies[0] is Stopped);
    assert forall|k: int| 0 <= k < rest.len() implies #[trigger] rest[k] is Stopped by {
        assert(rest[k] == replies[k + 1]);
    }
    if left.len() == 1 {
        assert(rest =~= Seq::empty());
        assert(next == start.at(Phase::Port));
        assert(after_all(next, rest) == next);
        assert(replies.take(0) =~= Seq::empty());
    } else {
        assert(next.phase == Phase::StopPrevious(left.drop_last()));
        law_a_previous_run_is_ended_first(next, rest);
        assert forall|k: int| 0 <= k < replies.len() implies #[trigger] after_all(
            start,
            replies.take(k),
        ).request() == Ask::Stop(left[left.len() - 1 - k].handle) by {
            if k > 0 {
                assert(replies.take(k).skip(1) =~= rest.take(k - 1));
                assert(replies.take(k)[0] == replies[0]);
                assert(after_all(next, rest.take(k - 1)).request() == Ask::Stop(
                    left.drop_last()[left.len() - 2 - (k - 1)].handle,
                ));
            } else {
                assert(replies.take(0) =~= Seq::empty());
            }
        }
    }
}

/// The port is asked about only once nothing of a previous run is left to
/// stop.
pub proof fn law_the_port_is_asked_about_last(start: Starting, reply: Reply)
    requires
        start.wf(),
        !(start.phase is Port),
        start.after(reply).phase is Port,
    ensures
        match start.phase {
            Phase::Registered => reply matches Reply::Registered(previous) && previous@.len() == 0,
            Phase::StopPrevious(left) => left.len() == 1 && reply is Stopped,
            _ => false,
        },
{
}

/// A port that is held refuses the start before anything is spawned or
/// written: no step runs, no process is spawned or registered and no status is
/// recorded before the port was found free.
pub proof fn law_a_held_port_is_reported_before_anything_runs(start: Starting)
    requires
        sound(start),
        start.request() is Announce || start.request() is RunStep || start.request() is Spawn
            || start.request() is Record || start.request() is Register || start.request() is RecordStarted,
    ensures
        rank(start.phase) > rank(Phase::Port),
{
}

/// Whether a start is bringing processes up.
pub open spec fn brings_up(start: Starting) -> bool {
    start.bringing_up() is Some || match start.phase {
        Phase::Apply(effects, at, then_next) => then_next is Start,
        _ => false,
    }
}

/// Steps are run one after another, in their order, each only once the one
/// before it succeeded.
pub proof fn law_steps_run_in_order(start: Starting, reply: Reply, at: int)
    requires
        sound(start),
        start.after(reply).phase == Phase::Prepare(at),
        start.phase != start.after(reply).phase,
    ensures
        match start.phase {
            Phase::Building => at == 0 && (reply matches Reply::Recorded(Ok(_))),
            Phase::RunStep(done, command) => at == done + 1 && (reply matches Reply::Stepped(Ok(
                _,
            ))),
            _ => false,
        },
{
}

/// A project is being built while it prepares, and no longer: `BUILDING` is
/// written before the first step is run, `STARTING` once the last one has
/// succeeded, and neither where there is nothing to prepare.
pub proof fn law_a_project_is_building_while_it_prepares(start: Starting, reply: Reply)
    requires
        sound(start),
    ensures
        start.phase is Building ==> start.request() == Ask::Announce(
            start.project.id@,
            crate::records::ProjectStatus::Building,
        ),
        start.phase is Built ==> start.request() == Ask::Announce(
            start.project.id@,
            crate::records::ProjectStatus::Starting,
        ),
        start.request() is Announce ==> start.phase is Building || start.phase is Built,
        start.request() is Announce ==> crate::orchestrator::prepare::needed(
            start.processes,
        ).len() > 0,
        start.phase is Ports && (reply matches Reply::Ports(Ok(rows))) ==> (start.after(reply).phase
            is Building <==> crate::orchestrator::prepare::needed(start.processes).len() > 0),
        rank(start.phase) < 10 && rank(start.after(reply).phase) == 10 ==> start.phase is Building,
        rank(start.phase) == 10 ==> !brings_up(start.after(reply)),
        start.phase is RunStep && (reply matches Reply::Stepped(Ok(_)))
            && start.phase->RunStep_0 + 1 == start.steps.len() ==> start.after(reply).phase
            is Built,
{
    law_a_start_stays_sound(start, reply);
}

/// A start is past its preparation only once the last step succeeded.
pub proof fn law_building_ends_with_the_last_step(start: Starting, reply: Reply)
    requires
        sound(start),
        !(start.phase is Built),
        start.after(reply).phase is Built,
    ensures
        start.phase is RunStep,
        start.phase->RunStep_0 + 1 == start.steps.len(),
        reply matches Reply::Stepped(Ok(_)),
{
}

/// No process is brought up before every install and every build succeeded.
pub proof fn law_nothing_starts_unprepared(start: Starting, reply: Reply)
    requires
        sound(start),
        !brings_up(start),
        brings_up(start.after(reply)),
    ensures
        start.after(reply).steps == crate::orchestrator::prepare::needed(
            start.after(reply).processes,
        ),
        match start.phase {
            Phase::Ports => start.after(reply).steps.len() == 0,
            // Reached only once the last step succeeded.
            Phase::Built => true,
            _ => false,
        },
{
    law_a_start_stays_sound(start, reply);
}

proof fn records_only(
    acts: Seq<Act>,
    processes: Seq<crate::records::ProcessRecord>,
    running: Seq<RunningProcess>,
)
    requires
        running.len() == 0,
    ensures
        forall|k: int|
            0 <= k < crate::orchestrator::exchange::all_carried_out(
                acts,
                processes,
                running,
            ).len() ==> (#[trigger] crate::orchestrator::exchange::all_carried_out(
                acts,
                processes,
                running,
            )[k]) is Record,
    decreases acts.len(),
{
    if acts.len() > 0 {
        records_only(acts.drop_last(), processes, running);
    }
}

/// Whether a start is only writing down a failure of its preparation.
pub open spec fn failing(start: Starting, failure: Failure) -> bool {
    &&& start.wf()
    &&& match start.phase {
        Phase::Apply(effects, at, then_next) => then_next == Next::Fail(failure) && forall|k: int|
            0 <= k < effects.len() ==> #[trigger] effects[k] is Record,
        Phase::Finished(result) => result == Err::<crate::orchestrator::observed::Seen, Failure>(
            failure,
        ),
        _ => false,
    }
}

/// A step that fails fails the start, with its own words: what is left is
/// writing that down.
pub proof fn law_a_failed_step_fails_the_start(start: Starting, reply: Reply, error: String)
    requires
        sound(start),
        start.phase is RunStep,
        reply == Reply::Stepped(Err(error)),
    ensures
        failing(start.after(reply), Failure::Host(error@)),
{
    let event = Happening::PrepareFailed(
        start.steps[start.phase->RunStep_0].process_index,
        error@,
    );
    records_only(start.machine.acts(event), start.processes, start.running);
    law_a_start_stays_sound(start, reply);
}

/// A start whose preparation failed starts nothing and stops nothing, and ends
/// with that failure.
pub proof fn law_a_failing_start_runs_nothing(start: Starting, reply: Reply, failure: Failure)
    requires
        failing(start, failure),
    ensures
        start.request() is Record || start.request() is Nothing,
        failing(start.after(reply), failure),
{
}

/// A start that could not start a process tells everything it started to stop,
/// last process first, and ends with the reason.
pub proof fn law_an_abandoned_start_stops_what_runs(start: Starting, replies: Seq<Reply>)
    requires
        start.wf(),
        start.phase is StopAll,
        replies.len() == start.phase->StopAll_0,
        forall|k: int| 0 <= k < replies.len() ==> #[trigger] replies[k] is Stopped,
    ensures
        after_all(start, replies).phase == Phase::Finished(
            Err(start.phase->StopAll_1),
        ),
        forall|k: int|
            0 <= k < replies.len() ==> #[trigger] after_all(start, replies.take(k)).request()
                == Ask::Stop(start.running[start.phase->StopAll_0 - 1 - k].handle),
    decreases replies.len(),
{
    let left = start.phase->StopAll_0;
    let next = start.after(replies[0]);
    let rest = replies.skip(1);
    assert(replies[0] is Stopped);
    assert forall|k: int| 0 <= k < rest.len() implies #[trigger] rest[k] is Stopped by {
        assert(rest[k] == replies[k + 1]);
    }
    if left == 1 {
        assert(rest =~= Seq::empty());
        assert(after_all(next, rest) == next);
        assert(replies.take(0) =~= Seq::empty());
    } else {
        law_an_abandoned_start_stops_what_runs(next, rest);
        assert forall|k: int| 0 <= k < replies.len() implies #[trigger] after_all(
            start,
            replies.take(k),
        ).request() == Ask::Stop(start.running[left - 1 - k].handle) by {
            if k > 0 {
                assert(replies.take(k).skip(1) =~= rest.take(k - 1));
                assert(replies.take(k)[0] == replies[0]);
                assert(after_all(next, rest.take(k - 1)).request() == Ask::Stop(
                    start.running[left - 2 - (k - 1)].handle,
                ));
            } else {
                assert(replies.take(0) =~= Seq::empty());
            }
        }
    }
}

/// A process is spawned in its turn: those before it all run, each of them was
/// registered under its own row, and nothing after it has been started.
pub proof fn law_a_process_is_spawned_in_its_turn(start: Starting)
    requires
        sound(start),
        start.request() is Spawn,
    ensures
        start.phase is Spawn,
        start.phase->Spawn_0 == start.running.len(),
        forall|i: int|
            0 <= i < start.running.len() ==> #[trigger] start.machine.states[i] is Running,
        forall|i: int|
            start.running.len() < i < start.processes.len()
                ==> #[trigger] start.machine.states[i] is Pending,
        runs_the_first_rows(start),
{
}

/// A process that never reports healthy is itself stopped, and the project has
/// then failed.
pub proof fn law_an_unhealthy_process_is_stopped(
    start: Starting,
    polled: Reply,
    stopped: Reply,
    index: int,
    handle: u64,
)
    requires
        sound(start),
        start.phase == Phase::Poll(index, handle),
        polled matches Reply::Polled { health, status, waited_ms }
            && crate::orchestrator::observed::verdict(
            health,
            status,
            waited_ms as int,
            crate::orchestrator::settings::patience(start.processes[index]),
        ) == Verdict::GaveUp,
        stopped is Stopped,
    ensures
        start.after(polled).request() == Ask::Stop(handle),
        start.after(polled).after(stopped).machine.status() == ProjectStatus::FAILED,
{
    law_a_start_stays_sound(start, polled);
    dying_is_sound(start.after(polled), index);
}

/// A process that did not survive its settle window fails the project.
pub proof fn law_a_process_that_dies_at_once_fails_the_project(
    start: Starting,
    reply: Reply,
    index: int,
    handle: u64,
)
    requires
        sound(start),
        start.phase == Phase::Settle(index, handle),
        reply matches Reply::Observed(observed) && observed.status
            != crate::orchestrator::observed::HostStatus::Running,
    ensures
        start.after(reply).machine.status() == ProjectStatus::FAILED,
{
    dying_is_sound(start, index);
}

/// A start that comes to an end reports what happened: running where every
/// process of the project came up and is registered, and failed otherwise.
pub proof fn law_a_start_reports_what_happened(start: Starting, reply: Reply)
    requires
        sound(start),
        !(start.phase is Finished),
        start.after(reply).phase matches Phase::Finished(Ok(_)),
    ensures
        ({
            let seen = start.after(reply).phase->Finished_0->Ok_0;
            if seen.status == crate::records::ProjectStatus::Running {
                &&& start.running.len() == start.processes.len()
                &&& runs_the_first_rows(start)
                &&& forall|i: int|
                    0 <= i < start.processes.len()
                        ==> #[trigger] start.machine.states[i] is Running
            } else {
                seen.status == crate::records::ProjectStatus::Failed
            }
        }),
{
    crate::orchestration::laws::law_running_means_everything_runs(start.machine);
}

/// The project is recorded as started exactly when every process came up.
pub proof fn law_only_a_running_project_is_recorded_as_started(start: Starting, reply: Reply)
    requires
        sound(start),
        start.phase is RegisterAll,
        reply is Done,
    ensures
        start.after(reply).request() is RecordStarted <==> start.machine.status()
            == ProjectStatus::RUNNING,
{
}

} // verus!

//! What a project's rows mean for each of its processes.

use super::{HealthPolicy, Probed, Sought, Toolchain};
use crate::lifecycle::Failure;
use crate::records::{PortRecord, ProcessRecord};
use vstd::prelude::*;

verus! {

/// The port a row names, where it is one a process can listen on.
pub open spec fn listening(row: PortRecord) -> Option<u16> {
    if row.host_port is Some && 0 <= row.host_port->0 <= 65535 {
        Some(row.host_port->0 as u16)
    } else {
        None
    }
}

/// Whether a row is that process's.
pub open spec fn belongs(row: PortRecord, id: Seq<char>) -> bool {
    row.process_id is Some && row.process_id->0@ == id
}

/// Whether a process has no port of its own: no row is its, or the first that
/// is names no port to listen on.
pub open spec fn has_no_port(ports: Seq<PortRecord>, id: Seq<char>) -> bool {
    forall|k: int|
        0 <= k < ports.len() && belongs(#[trigger] ports[k], id) ==> listening(ports[k]) is None
            || exists|j: int| 0 <= j < k && belongs(#[trigger] ports[j], id)
}

proof fn no_port_is_allocated(ports: Seq<PortRecord>, id: Seq<char>)
    requires
        has_no_port(ports, id),
    ensures
        super::allocated(super::first_row(ports, Sought::Of(id), 0)) is None,
{
    let first = a_first_row_is_the_first(ports, Sought::Of(id), 0);
    if first < ports.len() {
        assert(belongs(ports[first], id));
        if listening(ports[first]) is Some {
            let j = choose|j: int| 0 <= j < first && belongs(#[trigger] ports[j], id);
            assert(Sought::Of(id).matches(ports[j]));
        }
    }
}

proof fn a_first_row_is_the_first(ports: Seq<PortRecord>, sought: Sought, from: int) -> (at: int)
    requires
        0 <= from <= ports.len(),
    ensures
        from <= at <= ports.len(),
        forall|j: int| from <= j < at ==> !sought.matches(#[trigger] ports[j]),
        at < ports.len() ==> sought.matches(ports[at]) && super::first_row(ports, sought, from)
            == Some(ports[at]),
        at == ports.len() ==> super::first_row(ports, sought, from) is None,
    decreases ports.len() - from,
{
    if from >= ports.len() || sought.matches(ports[from]) {
        from
    } else {
        a_first_row_is_the_first(ports, sought, from + 1)
    }
}

/// A process listens on the port of the first row that is its own.
pub proof fn law_a_process_has_its_own_port(
    ports: Seq<PortRecord>,
    processes: Seq<ProcessRecord>,
    index: int,
    at: int,
)
    requires
        0 <= index < processes.len(),
        0 <= at < ports.len(),
        belongs(ports[at], processes[index].id@),
        forall|j: int| 0 <= j < at ==> !belongs(#[trigger] ports[j], processes[index].id@),
        listening(ports[at]) is Some,
    ensures
        super::ports_of(ports, processes).len() == processes.len(),
        super::ports_of(ports, processes)[index] == listening(ports[at]),
        super::port_of(ports, processes[index].id@, index) == listening(ports[at]),
        super::port_at(super::ports_of(ports, processes), index) == listening(ports[at]),
{
    let sought = Sought::Of(processes[index].id@);
    let first = a_first_row_is_the_first(ports, sought, 0);
    assert(sought.matches(ports[at]));
    assert(first <= at);
    if first < at {
        assert(!belongs(ports[first], processes[index].id@));
    }
}

/// A process with no port of its own has none, unless it is the first.
pub proof fn law_a_later_process_borrows_no_port(
    ports: Seq<PortRecord>,
    processes: Seq<ProcessRecord>,
    index: int,
)
    requires
        0 < index < processes.len(),
        has_no_port(ports, processes[index].id@),
    ensures
        super::ports_of(ports, processes)[index] is None,
{
    no_port_is_allocated(ports, processes[index].id@);
}

/// A port of the project's own goes to the first process where that has none:
/// the first primary one, or the first of all where none is primary.
pub proof fn law_the_projects_port_goes_to_the_first_process(
    ports: Seq<PortRecord>,
    processes: Seq<ProcessRecord>,
    at: int,
)
    requires
        processes.len() > 0,
        has_no_port(ports, processes[0].id@),
        0 <= at < ports.len(),
        ports[at].process_id is None,
        ports[at].is_primary ==> forall|j: int|
            0 <= j < at ==> !((#[trigger] ports[j]).process_id is None && ports[j].is_primary),
        !ports[at].is_primary ==> (forall|j: int|
            0 <= j < ports.len() ==> !((#[trigger] ports[j]).process_id is None
                && ports[j].is_primary)) && (forall|j: int|
            0 <= j < at ==> (#[trigger] ports[j]).process_id is Some),
    ensures
        super::ports_of(ports, processes)[0] == listening(ports[at]),
{
    no_port_is_allocated(ports, processes[0].id@);
    let primary = a_first_row_is_the_first(ports, Sought::Primary, 0);
    let free = a_first_row_is_the_first(ports, Sought::Unassigned, 0);
    assert(Sought::Unassigned.matches(ports[at]));
    if ports[at].is_primary {
        assert(Sought::Primary.matches(ports[at]));
        assert(primary <= at);
        if primary < at {
            assert(ports[primary].process_id is None && ports[primary].is_primary);
        }
    } else {
        if primary < ports.len() {
            assert(ports[primary].process_id is None && ports[primary].is_primary);
        }
        assert(free <= at);
        if free < at {
            assert(ports[free].process_id is Some);
        }
    }
}

/// The first process has no port where neither it nor the project has one.
pub proof fn law_no_port_is_made_up(ports: Seq<PortRecord>, processes: Seq<ProcessRecord>)
    requires
        processes.len() > 0,
        has_no_port(ports, processes[0].id@),
        forall|j: int| 0 <= j < ports.len() ==> (#[trigger] ports[j]).process_id is Some,
    ensures
        super::ports_of(ports, processes)[0] is None,
{
    no_port_is_allocated(ports, processes[0].id@);
    let primary = a_first_row_is_the_first(ports, Sought::Primary, 0);
    let free = a_first_row_is_the_first(ports, Sought::Unassigned, 0);
    if primary < ports.len() {
        assert(ports[primary].process_id is Some);
    }
    if free < ports.len() {
        assert(ports[free].process_id is Some);
    }
}

/// There is a port for a position only where there is a process.
pub proof fn law_a_port_is_read_at_its_position(ports: Seq<Option<u16>>, index: int)
    ensures
        0 <= index < ports.len() ==> super::port_at(ports, index) == ports[index],
        !(0 <= index < ports.len()) ==> super::port_at(ports, index) is None,
{
}

/// Whether a number is the nearest one to `value` between two bounds.
pub open spec fn nearest(kept: int, value: int, least: int, most: int) -> bool {
    &&& least <= kept <= most
    &&& least <= value <= most ==> kept == value
    &&& value < least ==> kept == least
    &&& value > most ==> kept == most
}

/// A row whose check is `NONE` asks nothing. Any other asks what the row says,
/// on the port it is given, as often as the row says and after the time it
/// says, within an hour.
pub proof fn law_a_check_asks_what_the_row_says(process: ProcessRecord, port: Option<u16>)
    ensures
        ({
            let asked = crate::orchestrator::exchange::asked_of(process, port);
            &&& asked is None <==> process.health_check_type@ == "NONE"@
            &&& asked is Some ==> {
                &&& asked->0.kind == process.health_check_type@
                &&& asked->0.target is Some <==> process.health_check_target is Some
                &&& process.health_check_target is Some ==> asked->0.target == Some(
                    process.health_check_target->0@,
                )
                &&& asked->0.timeout_s == process.health_timeout_s
                &&& asked->0.port == port
                &&& nearest(asked->0.interval_s, process.health_interval_s as int, 1, 3600)
                &&& nearest(
                    asked->0.start_period_s,
                    process.health_start_period_s as int,
                    0,
                    3600,
                )
            }
        }),
{
}

/// A policy made from a row asks what the row says.
pub proof fn law_a_policy_asks_what_the_row_says(
    policy: HealthPolicy,
    process: ProcessRecord,
    port: Option<u16>,
)
    requires
        super::policy_of(policy, process, port),
    ensures
        policy.check.kind@ == process.health_check_type@,
        policy.check.target is Some <==> process.health_check_target is Some,
        process.health_check_target is Some ==> policy.check.target->0@
            == process.health_check_target->0@,
        policy.check.timeout_s == process.health_timeout_s,
        policy.check.port == port,
        nearest(policy.interval_s as int, process.health_interval_s as int, 1, 3600),
        nearest(policy.start_period_s as int, process.health_start_period_s as int, 0, 3600),
        process.checked() ==> crate::orchestrator::exchange::asking(Some(policy))
            == crate::orchestrator::exchange::asked_of(process, port),
{
    assert(process.health_check_target is Some ==> crate::text::optional(policy.check.target)
        == Some(process.health_check_target->0@));
}

/// A check is waited for as long as the start takes and every try together: the
/// start period, and an interval for each of the tries.
pub proof fn law_a_check_is_waited_for(
    process: ProcessRecord,
    start_period: int,
    interval: int,
    tries: int,
)
    requires
        nearest(start_period, process.health_start_period_s as int, 0, 3600),
        nearest(interval, process.health_interval_s as int, 1, 3600),
        nearest(tries, process.health_retries as int, 1, 100),
    ensures
        super::patience(process) == start_period + interval * tries,
{
}

/// A toolchain that was found is used, and one that is not needed is not
/// waited for; one that is missing refuses the start, by the runtime's name and
/// with everything that was looked for.
pub proof fn law_a_missing_toolchain_is_named(runtime: Seq<char>, probed: Probed)
    ensures
        match probed {
            Probed::Found(program) => super::resolved(runtime, probed) == Ok::<Toolchain, Failure>(
                Toolchain::Found(program),
            ),
            Probed::NotRequired => super::resolved(runtime, probed) == Ok::<Toolchain, Failure>(
                Toolchain::NotRequired,
            ),
            Probed::Missing { looked_for } => {
                &&& super::resolved(runtime, probed) is Err
                &&& super::resolved(runtime, probed)->Err_0 is ToolchainMissing
                &&& super::resolved(runtime, probed)->Err_0->ToolchainMissing_0 == runtime
                &&& super::resolved(runtime, probed)->Err_0->ToolchainMissing_1.len()
                    == looked_for@.len()
                &&& forall|i: int|
                    0 <= i < looked_for@.len() ==> #[trigger] super::resolved(
                        runtime,
                        probed,
                    )->Err_0->ToolchainMissing_1[i] == looked_for@[i]@
            },
        },
{
}

} // verus!

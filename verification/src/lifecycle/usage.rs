//! What projects cost this machine, and whether it can take another.

use super::run::Admission;
use super::LifecycleError;
use crate::orchestrator::observed::HostStatus;
use crate::orchestrator::registry::{ProcessRegistry, RunningProcess};
use crate::records::ProjectRecord;
use crate::text::same;
use vstd::prelude::*;

verus! {

/// Whether a stored status word means the project is up or on its way there.
/// The transitional words count: a project that is starting is not a project
/// it is safe to reconfigure.
pub open spec fn up_or_moving(status: Seq<char>) -> bool {
    ||| status == "RUNNING"@
    ||| status == "STARTING"@
    ||| status == "RESTARTING"@
    ||| status == "STOPPING"@
    ||| status == "BUILDING"@
    ||| status == "UNHEALTHY"@
}

/// Whether a stored status word means the project is up or on its way there.
///
/// Used to refuse changes that only make sense on a stopped project.
pub fn is_running(status: &str) -> (running: bool)
    ensures
        running == up_or_moving(status@),
{
    same(status, "RUNNING") || same(status, "STARTING") || same(status, "RESTARTING") || same(
        status,
        "STOPPING",
    ) || same(status, "BUILDING") || same(status, "UNHEALTHY")
}

/// A declared memory limit in bytes; nothing where the limit is negative.
pub open spec fn limit_bytes(memory_limit_mb: i64) -> int {
    if memory_limit_mb > 0 {
        memory_limit_mb * 1024 * 1024
    } else {
        0
    }
}

/// What a project is expected to need, in bytes: its own memory limit.
///
/// For a host project it is an estimate and nothing enforces it, which is
/// precisely why the start is gated rather than the process capped.
pub fn wanted_bytes(project: &ProjectRecord) -> (bytes: u64)
    requires
        limit_bytes(project.memory_limit_mb) <= u64::MAX,
    ensures
        bytes == limit_bytes(project.memory_limit_mb),
{
    if project.memory_limit_mb > 0 {
        (project.memory_limit_mb as u64) * 1024 * 1024
    } else {
        0
    }
}

/// A project that is up, and the memory it uses.
#[derive(Debug, PartialEq, Eq)]
pub struct RunningProject {
    pub project_id: String,
    pub display_name: String,
    pub memory_bytes: u64,
}

/// What was measured of a handle's process tree, where it was.
pub open spec fn reading_from(usage: Seq<(u64, u64)>, handle: u64, from: int) -> int
    decreases usage.len() - from,
{
    if from >= usage.len() {
        0
    } else if usage[from].0 == handle {
        usage[from].1 as int
    } else {
        reading_from(usage, handle, from + 1)
    }
}

/// What was measured of the first processes, together.
pub open spec fn measured(
    processes: Seq<RunningProcess>,
    usage: Seq<(u64, u64)>,
    first: int,
) -> int
    decreases first,
{
    if first <= 0 {
        0
    } else {
        measured(processes, usage, first - 1) + reading_from(
            usage,
            processes[first - 1].handle,
            0,
        )
    }
}

/// What a project costs. Everything it runs is counted: counting only the
/// first process would understate a full-stack project by however much its web
/// server uses. A project not running here counts with its declared limit,
/// which is an upper bound rather than a reading.
pub open spec fn cost(
    project: ProjectRecord,
    registry: Seq<(Seq<char>, Seq<RunningProcess>)>,
    usage: Seq<(u64, u64)>,
) -> int {
    let processes = crate::orchestrator::registry::registered(registry, project.id@);
    if processes.len() > 0 {
        measured(processes, usage, processes.len() as int)
    } else {
        limit_bytes(project.memory_limit_mb)
    }
}

/// A running project as a mathematical value.
pub struct Costing {
    pub project_id: Seq<char>,
    pub display_name: Seq<char>,
    pub memory_bytes: int,
}

impl View for RunningProject {
    type V = Costing;

    open spec fn view(&self) -> Costing {
        Costing {
            project_id: self.project_id@,
            display_name: self.display_name@,
            memory_bytes: self.memory_bytes as int,
        }
    }
}

/// What every project of the first rows that is up costs.
pub open spec fn costing(
    records: Seq<ProjectRecord>,
    registry: Seq<(Seq<char>, Seq<RunningProcess>)>,
    usage: Seq<(u64, u64)>,
    first: int,
) -> Seq<Costing>
    decreases first,
{
    if first <= 0 {
        Seq::empty()
    } else {
        let record = records[first - 1];
        let earlier = costing(records, registry, usage, first - 1);
        if up_or_moving(record.status@) {
            earlier.push(
                Costing {
                    project_id: record.id@,
                    display_name: record.display_name@,
                    memory_bytes: cost(record, registry, usage),
                },
            )
        } else {
            earlier
        }
    }
}

fn reading(usage: &Vec<(u64, u64)>, handle: u64) -> (bytes: u64)
    ensures
        bytes == reading_from(usage@, handle, 0),
{
    let mut index: usize = 0;
    while index < usage.len()
        invariant
            index <= usage@.len(),
            reading_from(usage@, handle, index as int) == reading_from(usage@, handle, 0),
        decreases usage@.len() - index,
    {
        let (at, bytes) = usage[index];
        if at == handle {
            return bytes;
        }
        index += 1;
    }
    0
}

proof fn measured_grows(
    processes: Seq<RunningProcess>,
    usage: Seq<(u64, u64)>,
    first: int,
    last: int,
)
    requires
        0 <= first <= last,
    ensures
        measured(processes, usage, first) <= measured(processes, usage, last),
    decreases last,
{
    if first < last {
        measured_grows(processes, usage, first, last - 1);
        readings_are_not_negative(usage, processes[last - 1].handle, 0);
    }
}

proof fn readings_are_not_negative(usage: Seq<(u64, u64)>, handle: u64, from: int)
    ensures
        0 <= reading_from(usage, handle, from),
    decreases usage.len() - from,
{
    if from < usage.len() && usage[from].0 != handle {
        readings_are_not_negative(usage, handle, from + 1);
    }
}

/// What every project that is currently up is costing this machine, going by
/// the memory measured of each handle's process tree. A handle whose process
/// could not be measured counts for nothing.
pub fn running_projects(
    records: &Vec<ProjectRecord>,
    registry: &ProcessRegistry,
    usage: &Vec<(u64, u64)>,
) -> (running: Vec<RunningProject>)
    requires
        forall|i: int|
            0 <= i < records@.len() && up_or_moving((#[trigger] records@[i]).status@) ==> cost(
                records@[i],
                registry@,
                usage@,
            ) <= u64::MAX,
    ensures
        running@.map_values(|project: RunningProject| project@) == costing(
            records@,
            registry@,
            usage@,
            records@.len() as int,
        ),
{
    let mut running: Vec<RunningProject> = Vec::new();
    let mut index: usize = 0;
    assert(running@.map_values(|project: RunningProject| project@) =~= Seq::empty());
    while index < records.len()
        invariant
            index <= records@.len(),
            forall|i: int|
                0 <= i < records@.len() && up_or_moving((#[trigger] records@[i]).status@) ==> cost(
                    records@[i],
                    registry@,
                    usage@,
                ) <= u64::MAX,
            running@.map_values(|project: RunningProject| project@) == costing(
                records@,
                registry@,
                usage@,
                index as int,
            ),
        decreases records@.len() - index,
    {
        let record = &records[index];
        if is_running(record.status.as_str()) {
            let processes = registry.processes(record.id.as_str());
            let memory_bytes = if processes.len() > 0 {
                let mut total: u64 = 0;
                let mut at: usize = 0;
                while at < processes.len()
                    invariant
                        at <= processes@.len(),
                        measured(processes@, usage@, processes@.len() as int) <= u64::MAX,
                        total == measured(processes@, usage@, at as int),
                    decreases processes@.len() - at,
                {
                    proof {
                        measured_grows(processes@, usage@, at + 1, processes@.len() as int);
                    }
                    total = total + reading(usage, processes[at].handle);
                    at += 1;
                }
                total
            } else {
                wanted_bytes(record)
            };
            let ghost earlier = running@.map_values(|project: RunningProject| project@);
            running.push(
                RunningProject {
                    project_id: record.id.clone(),
                    display_name: record.display_name.clone(),
                    memory_bytes,
                },
            );
            assert(running@.map_values(|project: RunningProject| project@) =~= earlier.push(
                running@.last()@,
            ));
        }
        index += 1;
    }
    running
}

/// How many projects would stop if the application quit now, going by where
/// each handle's process is.
///
/// What the quit dialog counts. It is asked before the user has decided, and
/// changes nothing.
pub fn host_projects_running(registry: &ProcessRegistry, seen: &Vec<(u64, HostStatus)>) -> (count:
    usize)
    ensures
        count == crate::orchestrator::registry::count_up(
            registry@,
            seen@,
            registry@.len() as int,
        ),
{
    registry.running(seen)
}

/// Decide whether this machine can take one more project, from what the
/// governor says of it.
pub fn admit_project(decision: Admission) -> (admitted: Result<(), LifecycleError>)
    ensures
        match decision {
            Admission::Allow => admitted is Ok,
            Admission::Refuse(shortfall) => admitted == Err::<(), LifecycleError>(
                LifecycleError::NotEnoughMemory(shortfall),
            ),
        },
{
    match decision {
        Admission::Allow => Ok(()),
        Admission::Refuse(shortfall) => Err(LifecycleError::NotEnoughMemory(shortfall)),
    }
}

/// A project that is running, by the word the lifecycle writes, is one it is
/// not safe to reconfigure; so is one that is on its way up or down.
pub proof fn law_transitional_words_count_as_running(status: crate::records::ProjectStatus)
    ensures
        up_or_moving(status.word()) <==> !(status is Stopped || status is Crashed || status
            is Failed),
{
    reveal_strlit("RUNNING");
    reveal_strlit("STARTING");
    reveal_strlit("RESTARTING");
    reveal_strlit("STOPPING");
    reveal_strlit("BUILDING");
    reveal_strlit("UNHEALTHY");
    reveal_strlit("STOPPED");
    reveal_strlit("CRASHED");
    reveal_strlit("FAILED");
    assert("STOPPED"@.len() == 7 && "CRASHED"@.len() == 7 && "FAILED"@.len() == 6);
    assert("RUNNING"@.len() == 7 && "STARTING"@.len() == 8 && "RESTARTING"@.len() == 10);
    assert("STOPPING"@.len() == 8 && "BUILDING"@.len() == 8 && "UNHEALTHY"@.len() == 9);
    assert("RUNNING"@[0] == 'R' && "STOPPED"@[0] == 'S' && "CRASHED"@[0] == 'C');
}

/// The words that mean a project is up or on its way: these six and no other.
pub proof fn law_these_words_mean_running(status: Seq<char>)
    ensures
        up_or_moving(status) <==> (status == "RUNNING"@ || status == "STARTING"@ || status
            == "RESTARTING"@ || status == "STOPPING"@ || status == "BUILDING"@ || status
            == "UNHEALTHY"@),
{
}

/// A limit is what the row declares, in megabytes; a negative one is none.
pub proof fn law_a_limit_is_counted_in_megabytes(memory_limit_mb: i64)
    ensures
        memory_limit_mb >= 0 ==> limit_bytes(memory_limit_mb) == memory_limit_mb * 1048576,
        memory_limit_mb < 0 ==> limit_bytes(memory_limit_mb) == 0,
{
}

proof fn a_reading_is_the_first(usage: Seq<(u64, u64)>, handle: u64, from: int, at: int)
    requires
        0 <= from <= at <= usage.len(),
        forall|j: int| from <= j < at ==> (#[trigger] usage[j]).0 != handle,
        at < usage.len() ==> usage[at].0 == handle,
    ensures
        reading_from(usage, handle, from) == if at < usage.len() {
            usage[at].1 as int
        } else {
            0
        },
    decreases at - from,
{
    if from < at {
        assert(usage[from].0 != handle);
        a_reading_is_the_first(usage, handle, from + 1, at);
    }
}

/// What a process counts for is the first reading of its handle, and nothing
/// where it was not read.
pub proof fn law_a_process_counts_for_its_reading(usage: Seq<(u64, u64)>, handle: u64, at: int)
    requires
        0 <= at <= usage.len(),
        forall|j: int| 0 <= j < at ==> (#[trigger] usage[j]).0 != handle,
        at < usage.len() ==> usage[at].0 == handle,
    ensures
        at < usage.len() ==> reading_from(usage, handle, 0) == usage[at].1,
        at == usage.len() ==> reading_from(usage, handle, 0) == 0,
{
    a_reading_is_the_first(usage, handle, 0, at);
}

/// Everything a project runs is counted: one more process counts for what was
/// read of it, on top of what the others count for.
pub proof fn law_every_process_is_counted(
    processes: Seq<RunningProcess>,
    more: RunningProcess,
    usage: Seq<(u64, u64)>,
)
    ensures
        measured(Seq::empty(), usage, 0) == 0,
        measured(processes.push(more), usage, processes.len() as int + 1) == measured(
            processes,
            usage,
            processes.len() as int,
        ) + reading_from(usage, more.handle, 0),
{
    the_first_count_alike(processes, processes.push(more), usage, processes.len() as int);
}

proof fn the_first_count_alike(
    one: Seq<RunningProcess>,
    other: Seq<RunningProcess>,
    usage: Seq<(u64, u64)>,
    first: int,
)
    requires
        first <= one.len(),
        first <= other.len(),
        forall|i: int| 0 <= i < first ==> #[trigger] one[i] == other[i],
    ensures
        measured(one, usage, first) == measured(other, usage, first),
    decreases first,
{
    if first > 0 {
        assert(one[first - 1] == other[first - 1]);
        the_first_count_alike(one, other, usage, first - 1);
    }
}

/// A project that runs here costs what its processes use together, and one that
/// does not counts with its declared limit.
pub proof fn law_a_project_costs_what_it_uses(
    project: ProjectRecord,
    registry: Seq<(Seq<char>, Seq<RunningProcess>)>,
    usage: Seq<(u64, u64)>,
)
    ensures
        ({
            let processes = crate::orchestrator::registry::registered(registry, project.id@);
            &&& processes.len() > 0 ==> cost(project, registry, usage) == measured(
                processes,
                usage,
                processes.len() as int,
            )
            &&& processes.len() == 0 ==> cost(project, registry, usage) == limit_bytes(
                project.memory_limit_mb,
            )
        }),
{
}

/// Projects are listed in the order of their rows: one more row adds its
/// project, under its own id and name and with what it costs, where it is up or
/// on its way, and nothing where it is not.
pub proof fn law_projects_are_listed_row_by_row(
    records: Seq<ProjectRecord>,
    more: ProjectRecord,
    registry: Seq<(Seq<char>, Seq<RunningProcess>)>,
    usage: Seq<(u64, u64)>,
)
    ensures
        ({
            let listed = costing(records, registry, usage, records.len() as int);
            let longer = costing(records.push(more), registry, usage, records.len() as int + 1);
            &&& costing(Seq::empty(), registry, usage, 0).len() == 0
            &&& !up_or_moving(more.status@) ==> longer == listed
            &&& up_or_moving(more.status@) ==> {
                &&& longer.len() == listed.len() + 1
                &&& longer.drop_last() == listed
                &&& longer.last().project_id == more.id@
                &&& longer.last().display_name == more.display_name@
                &&& longer.last().memory_bytes == cost(more, registry, usage)
            }
        }),
{
    the_first_rows_are_listed_alike(
        records,
        records.push(more),
        registry,
        usage,
        records.len() as int,
    );
    let listed = costing(records, registry, usage, records.len() as int);
    let longer = costing(records.push(more), registry, usage, records.len() as int + 1);
    if up_or_moving(more.status@) {
        assert(longer.drop_last() =~= listed);
    }
}

proof fn the_first_rows_are_listed_alike(
    one: Seq<ProjectRecord>,
    other: Seq<ProjectRecord>,
    registry: Seq<(Seq<char>, Seq<RunningProcess>)>,
    usage: Seq<(u64, u64)>,
    first: int,
)
    requires
        first <= one.len(),
        first <= other.len(),
        forall|i: int| 0 <= i < first ==> #[trigger] one[i] == other[i],
    ensures
        costing(one, registry, usage, first) == costing(other, registry, usage, first),
    decreases first,
{
    if first > 0 {
        assert(one[first - 1] == other[first - 1]);
        the_first_rows_are_listed_alike(one, other, registry, usage, first - 1);
    }
}

/// A running project is read as it is written.
pub proof fn law_a_running_project_is_read_whole(project: RunningProject)
    ensures
        project@.project_id == project.project_id@,
        project@.display_name == project.display_name@,
        project@.memory_bytes == project.memory_bytes,
{
}

} // verus!

//! Every process this application is running, by project.

use super::observed::HostStatus;
use crate::ordered::TextMap;
use crate::text::same;
use vstd::prelude::*;

verus! {

/// One supervised process, and which row it belongs to.
///
/// The handle is the number the process's supervisor goes by.
#[derive(Debug, PartialEq, Eq)]
pub struct RunningProcess {
    pub process_id: String,
    pub name: String,
    pub handle: u64,
}

impl Clone for RunningProcess {
    fn clone(&self) -> (copy: RunningProcess)
        ensures
            copy == *self,
    {
        RunningProcess {
            process_id: self.process_id.clone(),
            name: self.name.clone(),
            handle: self.handle,
        }
    }
}

/// A list of its own of the same processes.
pub fn duplicate(processes: &Vec<RunningProcess>) -> (copy: Vec<RunningProcess>)
    ensures
        copy@ == processes@,
{
    let mut copy: Vec<RunningProcess> = Vec::new();
    let mut index: usize = 0;
    while index < processes.len()
        invariant
            index <= processes@.len(),
            copy@ == processes@.take(index as int),
        decreases processes@.len() - index,
    {
        copy.push(processes[index].clone());
        assert(copy@ =~= processes@.take(index + 1));
        index += 1;
    }
    assert(processes@.take(index as int) =~= processes@);
    copy
}

/// Every process this application is running, by project.
///
/// Process-scoped by nature rather than by choice: a supervisor owns a child
/// of *this* process, so a registry that outlived the process would be
/// describing children that no longer exist.
#[derive(Debug)]
pub struct ProcessRegistry {
    projects: TextMap<Vec<RunningProcess>>,
}

/// The processes registered for one project; none where it is not registered.
pub open spec fn registered(
    projects: Seq<(Seq<char>, Seq<RunningProcess>)>,
    project_id: Seq<char>,
) -> Seq<RunningProcess> {
    match crate::ordered::looked_up(projects, project_id) {
        Some(processes) => processes,
        None => Seq::empty(),
    }
}

/// The first process of that name at or after `from`; the number of processes
/// where there is none.
pub open spec fn first_named(processes: Seq<RunningProcess>, name: Seq<char>, from: int) -> int
    decreases processes.len() - from,
{
    if from >= processes.len() || processes[from].name@ == name {
        from
    } else {
        first_named(processes, name, from + 1)
    }
}

/// The handle of the first process of that name.
pub open spec fn handle_of(processes: Seq<RunningProcess>, name: Seq<char>) -> Option<u64> {
    let at = first_named(processes, name, 0);
    if at < processes.len() {
        Some(processes[at].handle)
    } else {
        None
    }
}

/// The processes with a fresh handle for the first one of that name.
pub open spec fn swapped(
    processes: Seq<RunningProcess>,
    name: Seq<char>,
    handle: u64,
) -> Seq<RunningProcess> {
    let at = first_named(processes, name, 0);
    if at < processes.len() {
        processes.update(at, RunningProcess { handle, ..processes[at] })
    } else {
        processes
    }
}

/// Whether a handle was seen running.
pub open spec fn seen_running(seen: Seq<(u64, HostStatus)>, handle: u64) -> bool {
    exists|i: int|
        0 <= i < seen.len() && (#[trigger] seen[i]).0 == handle && seen[i].1 == HostStatus::Running
}

/// Whether some process of a project was seen running.
pub open spec fn some_up(processes: Seq<RunningProcess>, seen: Seq<(u64, HostStatus)>) -> bool {
    exists|i: int|
        0 <= i < processes.len() && seen_running(seen, (#[trigger] processes[i]).handle)
}

/// How many of the first projects have a process up.
pub open spec fn count_up(
    projects: Seq<(Seq<char>, Seq<RunningProcess>)>,
    seen: Seq<(u64, HostStatus)>,
    first: int,
) -> nat
    decreases first,
{
    if first <= 0 {
        0
    } else {
        count_up(projects, seen, first - 1) + if some_up(projects[first - 1].1, seen) {
            1nat
        } else {
            0nat
        }
    }
}

fn find_named(processes: &Vec<RunningProcess>, name: &str) -> (at: usize)
    ensures
        at == first_named(processes@, name@, 0),
        at <= processes@.len(),
{
    let mut at: usize = 0;
    while at < processes.len() && !same(processes[at].name.as_str(), name)
        invariant
            at <= processes@.len(),
            first_named(processes@, name@, at as int) == first_named(processes@, name@, 0),
        decreases processes@.len() - at,
    {
        at += 1;
    }
    at
}

fn was_seen_running(seen: &Vec<(u64, HostStatus)>, handle: u64) -> (up: bool)
    ensures
        up == seen_running(seen@, handle),
{
    let mut index: usize = 0;
    while index < seen.len()
        invariant
            index <= seen@.len(),
            forall|i: int|
                0 <= i < index ==> !((#[trigger] seen@[i]).0 == handle && seen@[i].1
                    == HostStatus::Running),
        decreases seen@.len() - index,
    {
        let (at, status) = seen[index];
        if at == handle && status == HostStatus::Running {
            assert(seen@[index as int].0 == handle);
            return true;
        }
        index += 1;
    }
    false
}

/// Whether some process of a project was seen running.
pub fn any_up(processes: &Vec<RunningProcess>, seen: &Vec<(u64, HostStatus)>) -> (up: bool)
    ensures
        up == some_up(processes@, seen@),
{
    let mut index: usize = 0;
    while index < processes.len()
        invariant
            index <= processes@.len(),
            forall|i: int|
                0 <= i < index ==> !seen_running(seen@, (#[trigger] processes@[i]).handle),
        decreases processes@.len() - index,
    {
        if was_seen_running(seen, processes[index].handle) {
            assert(seen_running(seen@, processes@[index as int].handle));
            return true;
        }
        index += 1;
    }
    false
}

/// What a list of projects holds, as mathematical values.
pub open spec fn listed(projects: Seq<(String, Vec<RunningProcess>)>) -> Seq<
    (Seq<char>, Seq<RunningProcess>),
> {
    projects.map_values(|project: (String, Vec<RunningProcess>)| (project.0@, project.1@))
}

impl View for ProcessRegistry {
    type V = Seq<(Seq<char>, Seq<RunningProcess>)>;

    closed spec fn view(&self) -> Seq<(Seq<char>, Seq<RunningProcess>)> {
        crate::ordered::mapped(self.projects@, |processes: Vec<RunningProcess>| processes@)
    }
}

impl ProcessRegistry {
    pub fn new() -> (registry: ProcessRegistry)
        ensures
            registry@ == Seq::<(Seq<char>, Seq<RunningProcess>)>::empty(),
    {
        let registry = ProcessRegistry { projects: TextMap::new() };
        assert(registry@ =~= Seq::empty());
        registry
    }

    /// Register a project's processes, in place of any it had.
    pub fn set(&mut self, project_id: &str, processes: Vec<RunningProcess>)
        ensures
            final(self)@ == crate::ordered::inserted(old(self)@, project_id@, processes@),
            crate::ordered::in_order(old(self)@),
            crate::ordered::in_order(final(self)@),
    {
        let ghost was = self.projects@;
        self.projects.insert(project_id.to_owned(), processes);
        proof {
            crate::ordered::mapping_keeps_the_keys(
                was,
                |processes: Vec<RunningProcess>| processes@,
                project_id@,
                processes,
            );
            crate::ordered::law_an_insertion_is_read_back(was, project_id@, processes);
            crate::ordered::mapping_keeps_the_keys(
                self.projects@,
                |processes: Vec<RunningProcess>| processes@,
                project_id@,
                processes,
            );
        }
    }

    /// Take a project's processes out of the registry.
    pub fn remove(&mut self, project_id: &str) -> (processes: Vec<RunningProcess>)
        ensures
            processes@ == registered(old(self)@, project_id@),
            final(self)@ == crate::ordered::removed(old(self)@, project_id@),
            crate::ordered::in_order(old(self)@),
    {
        let ghost was = self.projects@;
        let taken = self.projects.remove(project_id);
        proof {
            crate::ordered::mapping_keeps_the_keys(
                was,
                |processes: Vec<RunningProcess>| processes@,
                project_id@,
                arbitrary(),
            );
        }
        match taken {
            Some(processes) => processes,
            None => Vec::new(),
        }
    }

    /// Every process of one project, in start order.
    pub fn processes(&self, project_id: &str) -> (processes: Vec<RunningProcess>)
        ensures
            processes@ == registered(self@, project_id@),
            crate::ordered::in_order(self@),
    {
        let found = self.projects.get(project_id);
        proof {
            crate::ordered::mapping_keeps_the_keys(
                self.projects@,
                |processes: Vec<RunningProcess>| processes@,
                project_id@,
                arbitrary(),
            );
        }
        match found {
            Some(processes) => duplicate(processes),
            None => Vec::new(),
        }
    }

    /// Swap one process's handle for a fresh one, leaving its siblings alone.
    ///
    /// What a single-process restart needs: the project's entry keeps its
    /// order and its other handles, and only the named one is replaced.
    /// Answers whether the name was there to replace.
    pub fn replace_handle(&mut self, project_id: &str, process_name: &str, handle: u64) -> (found:
        bool)
        ensures
            found == (handle_of(registered(old(self)@, project_id@), process_name@) is Some),
            final(self)@ == if found {
                crate::ordered::inserted(
                    old(self)@,
                    project_id@,
                    swapped(registered(old(self)@, project_id@), process_name@, handle),
                )
            } else {
                old(self)@
            },
    {
        let mut processes = self.processes(project_id);
        let at = find_named(&processes, process_name);
        if at >= processes.len() {
            return false;
        }
        let fresh = RunningProcess {
            process_id: processes[at].process_id.clone(),
            name: processes[at].name.clone(),
            handle,
        };
        processes.set(at, fresh);
        self.set(project_id, processes);
        true
    }

    /// One project's first supervisor.
    ///
    /// What the console reads when no process was named. Reading a project's
    /// output is not a lifecycle operation, so it does not go through the
    /// orchestrator.
    pub fn handle(&self, project_id: &str) -> (handle: Option<u64>)
        ensures
            handle == if registered(self@, project_id@).len() > 0 {
                Some(registered(self@, project_id@)[0].handle)
            } else {
                None
            },
    {
        let processes = self.processes(project_id);
        if processes.len() > 0 {
            Some(processes[0].handle)
        } else {
            None
        }
    }

    /// One named process of one project.
    pub fn handle_named(&self, project_id: &str, process_name: &str) -> (handle: Option<u64>)
        ensures
            handle == handle_of(registered(self@, project_id@), process_name@),
    {
        let processes = self.processes(project_id);
        let at = find_named(&processes, process_name);
        if at < processes.len() {
            Some(processes[at].handle)
        } else {
            None
        }
    }

    /// Every project id and its processes, in the order of the ids.
    pub fn all(&self) -> (projects: Vec<(String, Vec<RunningProcess>)>)
        ensures
            listed(projects@) == self@,
            crate::ordered::in_order(self@),
    {
        let count = self.projects.len();
        proof {
            crate::ordered::mapping_keeps_the_keys(
                self.projects@,
                |processes: Vec<RunningProcess>| processes@,
                Seq::empty(),
                arbitrary(),
            );
        }
        let mut projects: Vec<(String, Vec<RunningProcess>)> = Vec::new();
        let mut index: usize = 0;
        while index < count
            invariant
                index <= count,
                count == self@.len(),
                self@ == crate::ordered::mapped(
                    self.projects@,
                    |processes: Vec<RunningProcess>| processes@,
                ),
                listed(projects@) == self@.take(index as int),
            decreases count - index,
        {
            let (id, processes) = self.projects.entry(index);
            let ghost earlier = projects@;
            projects.push((id.to_owned(), duplicate(processes)));
            assert(listed(projects@) =~= listed(earlier).push(self@[index as int]));
            assert(self@.take(index + 1) =~= self@.take(index as int).push(self@[index as int]));
            index += 1;
        }
        assert(self@.take(index as int) =~= self@);
        projects
    }

    /// How many *projects* have at least one process up, going by what was
    /// seen of the handles.
    ///
    /// Projects rather than processes: this is what the quit dialog counts,
    /// and "3 projects will stop" is the sentence a user can act on where
    /// "7 processes will stop" is not.
    pub fn running(&self, seen: &Vec<(u64, HostStatus)>) -> (count: usize)
        ensures
            count == count_up(self@, seen@, self@.len() as int),
    {
        let projects = self.all();
        let mut count: usize = 0;
        let mut index: usize = 0;
        while index < projects.len()
            invariant
                index <= projects@.len(),
                listed(projects@) == self@,
                count <= index,
                count == count_up(self@, seen@, index as int),
            decreases projects@.len() - index,
        {
            assert(self@[index as int].1 == projects@[index as int].1@);
            if any_up(&projects[index].1, seen) {
                count += 1;
            }
            index += 1;
        }
        count
    }
}

/// A project that was registered is found again, and registering it disturbs
/// no other.
pub proof fn law_a_registered_project_is_found(
    projects: Seq<(Seq<char>, Seq<RunningProcess>)>,
    project_id: Seq<char>,
    processes: Seq<RunningProcess>,
    other: Seq<char>,
)
    requires
        crate::ordered::in_order(projects),
    ensures
        registered(
            crate::ordered::inserted(projects, project_id, processes),
            project_id,
        ) == processes,
        other != project_id ==> registered(
            crate::ordered::inserted(projects, project_id, processes),
            other,
        ) == registered(projects, other),
{
    crate::ordered::law_an_insertion_is_read_back(projects, project_id, processes);
}

/// A project that was taken out is gone, and no other is.
pub proof fn law_a_removed_project_is_gone(
    projects: Seq<(Seq<char>, Seq<RunningProcess>)>,
    project_id: Seq<char>,
    other: Seq<char>,
)
    requires
        crate::ordered::in_order(projects),
    ensures
        registered(crate::ordered::removed(projects, project_id), project_id) == Seq::<
            RunningProcess,
        >::empty(),
        other != project_id ==> registered(
            crate::ordered::removed(projects, project_id),
            other,
        ) == registered(projects, other),
{
    crate::ordered::law_a_removal_takes_one_key(projects, project_id);
}

proof fn first_named_is_named(processes: Seq<RunningProcess>, name: Seq<char>, from: int)
    requires
        0 <= from <= processes.len(),
    ensures
        from <= first_named(processes, name, from) <= processes.len(),
        first_named(processes, name, from) < processes.len() ==> processes[first_named(
            processes,
            name,
            from,
        )].name@ == name,
        forall|i: int|
            from <= i < first_named(processes, name, from) ==> (#[trigger] processes[i]).name@
                != name,
    decreases processes.len() - from,
{
    if from < processes.len() && processes[from].name@ != name {
        first_named_is_named(processes, name, from + 1);
    }
}

/// Replacing one process's handle leaves its siblings, their handles and their
/// order as they were, and the fresh handle is the one found by that name.
pub proof fn law_a_replaced_handle_leaves_siblings_alone(
    processes: Seq<RunningProcess>,
    name: Seq<char>,
    handle: u64,
)
    requires
        handle_of(processes, name) is Some,
    ensures
        swapped(processes, name, handle).len() == processes.len(),
        handle_of(swapped(processes, name, handle), name) == Some(handle),
        forall|i: int|
            0 <= i < processes.len() ==> (#[trigger] swapped(processes, name, handle)[i]).name
                == processes[i].name && swapped(processes, name, handle)[i].process_id
                == processes[i].process_id,
        forall|i: int|
            0 <= i < processes.len() && (#[trigger] processes[i]).name@ != name ==> swapped(
                processes,
                name,
                handle,
            )[i] == processes[i],
{
    let now = swapped(processes, name, handle);
    let at = first_named(processes, name, 0);
    first_named_is_named(processes, name, 0);
    first_named_is_named(now, name, 0);
    let found = first_named(now, name, 0);
    assert(now[at].name@ == name);
    if found < at {
        assert(now[found].name == processes[found].name);
    }
}

/// A name finds the first process that bears it, and nothing where none does.
pub proof fn law_a_name_finds_the_first(processes: Seq<RunningProcess>, name: Seq<char>)
    ensures
        match handle_of(processes, name) {
            Some(handle) => exists|at: int|
                0 <= at < processes.len() && (#[trigger] processes[at]).handle == handle
                    && processes[at].name@ == name && forall|j: int|
                    0 <= j < at ==> (#[trigger] processes[j]).name@ != name,
            None => forall|j: int|
                0 <= j < processes.len() ==> (#[trigger] processes[j]).name@ != name,
        },
{
    first_named_is_named(processes, name, 0);
    let at = first_named(processes, name, 0);
    if at < processes.len() {
        assert(processes[at].handle == processes[at].handle);
    }
}

/// A fresh handle takes the place of the first one under its name, and of no
/// other, not even of a second one of that name.
pub proof fn law_one_handle_is_replaced(
    processes: Seq<RunningProcess>,
    name: Seq<char>,
    handle: u64,
    at: int,
)
    requires
        0 <= at < processes.len(),
        processes[at].name@ == name,
        forall|j: int| 0 <= j < at ==> (#[trigger] processes[j]).name@ != name,
    ensures
        swapped(processes, name, handle).len() == processes.len(),
        swapped(processes, name, handle)[at].handle == handle,
        swapped(processes, name, handle)[at].name == processes[at].name,
        swapped(processes, name, handle)[at].process_id == processes[at].process_id,
        forall|i: int|
            0 <= i < processes.len() && i != at ==> #[trigger] swapped(processes, name, handle)[i]
                == processes[i],
{
    first_named_is_named(processes, name, 0);
}

/// What is registered for a project is what the registry holds under its id.
pub proof fn law_a_project_is_found_by_its_id(
    projects: Seq<(Seq<char>, Seq<RunningProcess>)>,
    at: int,
)
    requires
        crate::ordered::in_order(projects),
        0 <= at < projects.len(),
    ensures
        registered(projects, projects[at].0) == projects[at].1,
{
    crate::ordered::law_an_entry_is_found(projects, at);
}

/// A project that the registry does not hold has nothing registered.
pub proof fn law_an_unknown_project_has_nothing(
    projects: Seq<(Seq<char>, Seq<RunningProcess>)>,
    project_id: Seq<char>,
)
    requires
        forall|i: int| 0 <= i < projects.len() ==> (#[trigger] projects[i]).0 != project_id,
    ensures
        registered(projects, project_id).len() == 0,
{
}

/// A project is up where one of its processes was seen running, and only
/// there.
pub proof fn law_one_running_process_keeps_a_project_up(
    processes: Seq<RunningProcess>,
    seen: Seq<(u64, HostStatus)>,
)
    ensures
        some_up(processes, seen) <==> exists|i: int, k: int|
            0 <= i < processes.len() && 0 <= k < seen.len() && (#[trigger] seen[k]).0 == (
            #[trigger] processes[i]).handle && seen[k].1 == HostStatus::Running,
{
    if some_up(processes, seen) {
        let i = choose|i: int|
            0 <= i < processes.len() && seen_running(seen, (#[trigger] processes[i]).handle);
        let k = choose|k: int|
            0 <= k < seen.len() && (#[trigger] seen[k]).0 == processes[i].handle && seen[k].1
                == HostStatus::Running;
        assert(seen[k].0 == processes[i].handle);
    }
    if exists|i: int, k: int|
        0 <= i < processes.len() && 0 <= k < seen.len() && (#[trigger] seen[k]).0 == (
        #[trigger] processes[i]).handle && seen[k].1 == HostStatus::Running {
        let (i, k) = choose|i: int, k: int|
            0 <= i < processes.len() && 0 <= k < seen.len() && (#[trigger] seen[k]).0 == (
            #[trigger] processes[i]).handle && seen[k].1 == HostStatus::Running;
        assert(seen_running(seen, processes[i].handle));
    }
}

/// Projects are counted, not processes: one more project counts for one where
/// it is up, and for nothing where it is not.
pub proof fn law_projects_are_counted_one_by_one(
    projects: Seq<(Seq<char>, Seq<RunningProcess>)>,
    seen: Seq<(u64, HostStatus)>,
    more: (Seq<char>, Seq<RunningProcess>),
)
    ensures
        count_up(Seq::empty(), seen, 0) == 0,
        count_up(projects.push(more), seen, projects.len() as int + 1) == count_up(
            projects,
            seen,
            projects.len() as int,
        ) + if some_up(more.1, seen) {
            1nat
        } else {
            0nat
        },
{
    the_first_are_counted_alike(projects, projects.push(more), seen, projects.len() as int);
}

proof fn the_first_are_counted_alike(
    one: Seq<(Seq<char>, Seq<RunningProcess>)>,
    other: Seq<(Seq<char>, Seq<RunningProcess>)>,
    seen: Seq<(u64, HostStatus)>,
    first: int,
)
    requires
        first <= one.len(),
        first <= other.len(),
        forall|i: int| 0 <= i < first ==> #[trigger] one[i] == other[i],
    ensures
        count_up(one, seen, first) == count_up(other, seen, first),
    decreases first,
{
    if first > 0 {
        assert(one[first - 1] == other[first - 1]);
        the_first_are_counted_alike(one, other, seen, first - 1);
    }
}

} // verus!

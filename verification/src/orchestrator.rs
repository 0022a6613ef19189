//! Running every one of a project's processes.
//!
//! There is no container, so there is no filesystem isolation, no network
//! isolation, no resource limit and no non-root user. A project runs as the
//! user, with the user's files and the user's network, and it is a child of
//! this process.
//!
//! The consequence that shapes this module: **projects stop when the
//! application quits.** They are not detached and not adopted on the next
//! launch. Recording a pid and reattaching fails on exactly the case that
//! matters: after a reboot the pid has been reused, and the application adopts
//! a stranger's process.
//!
//! Ordering, the crash rule and status aggregation live in
//! [`crate::orchestration`]. The modules here turn what happened into events,
//! feed them in, and say what carrying out the actions takes.

pub mod command;
pub mod exchange;
pub mod laws;
pub mod observed;
pub mod prepare;
pub mod registry;
pub mod restart;
pub mod settings;
pub mod start;

pub use command::SERVE_STATIC_FLAG;
pub use observed::Observed;
pub use registry::{ProcessRegistry, RunningProcess};

use crate::records::ProjectRecord;
use exchange::{Reply, Request};
use observed::HostObserved;
use restart::RestartRun;
use start::StartRun;
use vstd::prelude::*;

verus! {

/// Everything needed to start one project.
#[derive(Debug)]
pub struct StartContext {
    pub project: ProjectRecord,
    pub directory: String,
}

/// Starts projects as processes on this machine.
#[derive(Debug)]
pub struct Orchestrator {
    registry: ProcessRegistry,
    logs_root: String,
}

/// An orchestrator as a mathematical value.
pub struct Orchestrating {
    pub registry: Seq<(Seq<char>, Seq<RunningProcess>)>,
    pub logs_root: Seq<char>,
}

impl View for Orchestrator {
    type V = Orchestrating;

    closed spec fn view(&self) -> Orchestrating {
        Orchestrating { registry: self.registry@, logs_root: self.logs_root@ }
    }
}

/// The handles of the processes, last one first: the order they are stopped
/// in, because a process was started against the ones before it.
pub open spec fn reversed_handles(running: Seq<RunningProcess>) -> Seq<u64> {
    Seq::new(running.len(), |i: int| running[running.len() - 1 - i].handle)
}

/// The handles of the processes, last one first.
pub fn stop_order(running: &Vec<RunningProcess>) -> (handles: Vec<u64>)
    ensures
        handles@ == reversed_handles(running@),
        handles@.len() == running@.len(),
        forall|k: int|
            0 <= k < running@.len() ==> #[trigger] handles@[k] == running@[running@.len() - 1
                - k].handle,
{
    let mut handles: Vec<u64> = Vec::new();
    let mut left: usize = running.len();
    while left > 0
        invariant
            left <= running@.len(),
            handles@ == reversed_handles(running@).take(running@.len() - left),
        decreases left,
    {
        left -= 1;
        handles.push(running[left].handle);
        assert(handles@ =~= reversed_handles(running@).take(running@.len() - left));
    }
    assert(reversed_handles(running@).take(running@.len() as int) =~= reversed_handles(running@));
    handles
}

/// What the registry answers to a request, and what it then holds. Most
/// requests are not the registry's to answer.
pub open spec fn answered(
    registry: Seq<(Seq<char>, Seq<RunningProcess>)>,
    request: Request,
    after: Seq<(Seq<char>, Seq<RunningProcess>)>,
    reply: Option<Reply>,
) -> bool {
    match request {
        Request::FindHandle { project_id, process } => {
            &&& reply == Some(
                Reply::Handle(
                    registry::handle_of(
                        registry::registered(registry, project_id@),
                        process@,
                    ),
                ),
            )
            &&& after == registry
        },
        Request::TakeRegistered { project_id } => {
            &&& reply matches Some(Reply::Registered(taken)) && taken@
                == registry::registered(registry, project_id@)
            &&& after == crate::ordered::removed(registry, project_id@)
        },
        Request::Register { project_id, running } => {
            &&& reply == Some(Reply::Done)
            &&& after == crate::ordered::inserted(registry, project_id@, running@)
        },
        Request::ReplaceHandle { project_id, process, handle } => {
            let held = registry::registered(registry, project_id@);
            let found = registry::handle_of(held, process@) is Some;
            &&& reply == Some(Reply::Replaced(found))
            &&& after == if found {
                crate::ordered::inserted(
                    registry,
                    project_id@,
                    registry::swapped(held, process@, handle),
                )
            } else {
                registry
            }
        },
        _ => reply is None && after == registry,
    }
}

impl Orchestrator {
    pub fn new(registry: ProcessRegistry, logs_root: String) -> (orchestrator: Orchestrator)
        ensures
            orchestrator@ == (Orchestrating { registry: registry@, logs_root: logs_root@ }),
    {
        Orchestrator { registry, logs_root }
    }

    /// Where the projects' output is kept.
    pub fn logs_root(&self) -> (root: &str)
        ensures
            root@ == self@.logs_root,
    {
        self.logs_root.as_str()
    }

    /// Every process this application is running, by project.
    pub fn registry(&self) -> (registry: &ProcessRegistry)
        ensures
            registry@ == self@.registry,
    {
        &self.registry
    }

    /// Start every process, in order.
    pub fn start(&self, context: StartContext) -> (run: StartRun)
        ensures
            run@.project == context.project,
            run@.directory == context.directory@,
            run@.phase == start::Phase::Processes,
            start::laws::sound(run@),
    {
        StartRun::new(context)
    }

    /// Stop every process, in reverse order: the handles to stop, which are
    /// registered no more.
    pub fn stop(&mut self, project: &ProjectRecord) -> (handles: Vec<u64>)
        ensures
            handles@ == reversed_handles(
                registry::registered(old(self)@.registry, project.id@),
            ),
            final(self)@ == (Orchestrating {
                registry: crate::ordered::removed(old(self)@.registry, project.id@),
                ..old(self)@
            }),
    {
        let running = self.registry.remove(project.id.as_str());
        stop_order(&running)
    }

    /// Kill every process immediately, in reverse order: the handles to kill,
    /// which are registered no more.
    ///
    /// What a stuck process gets. `stop` asks and waits out the grace period;
    /// this does not ask.
    pub fn kill(&mut self, project: &ProjectRecord) -> (handles: Vec<u64>)
        ensures
            handles@ == reversed_handles(
                registry::registered(old(self)@.registry, project.id@),
            ),
            final(self)@ == (Orchestrating {
                registry: crate::ordered::removed(old(self)@.registry, project.id@),
                ..old(self)@
            }),
    {
        let running = self.registry.remove(project.id.as_str());
        stop_order(&running)
    }

    /// What the project's processes are reporting, or `None` if it is not
    /// running here, or if what was seen is not of its processes.
    pub fn observe(&self, project: &ProjectRecord, seen: &Vec<HostObserved>) -> (observed: Option<
        Observed,
    >)
        ensures
            ({
                let running = registry::registered(self@.registry, project.id@);
                match observed {
                    Some(observed) => running.len() > 0 && seen@.len() == running.len()
                        && observed@ == observed::overall(
                        observed::together(seen@),
                        running,
                        seen@,
                    ),
                    None => running.len() == 0 || seen@.len() != running.len(),
                }
            }),
    {
        let running = self.registry.processes(project.id.as_str());
        if running.len() != seen.len() {
            return None;
        }
        observed::observe(&running, seen)
    }

    /// Stop and restart one named process, leaving its siblings alone.
    pub fn restart_process(&self, context: StartContext, process_name: &str) -> (run: RestartRun)
        ensures
            run@.project == context.project,
            run@.directory == context.directory@,
            run@.name == process_name@,
            run@.phase == restart::Phase::Handle,
            run@.wf(),
    {
        RestartRun::new(context, process_name)
    }

    /// Answer a request that is the registry's to answer.
    pub fn answer(&mut self, request: &Request) -> (reply: Option<Reply>)
        ensures
            answered(old(self)@.registry, *request, final(self)@.registry, reply),
            final(self)@.logs_root == old(self)@.logs_root,
    {
        match request {
            Request::FindHandle { project_id, process } => Some(
                Reply::Handle(self.registry.handle_named(project_id.as_str(), process.as_str())),
            ),
            Request::TakeRegistered { project_id } => Some(
                Reply::Registered(self.registry.remove(project_id.as_str())),
            ),
            Request::Register { project_id, running } => {
                self.registry.set(project_id.as_str(), registry::duplicate(running));
                Some(Reply::Done)
            },
            Request::ReplaceHandle { project_id, process, handle } => Some(
                Reply::Replaced(
                    self.registry.replace_handle(project_id.as_str(), process.as_str(), *handle),
                ),
            ),
            _ => None,
        }
    }
}

} // verus!

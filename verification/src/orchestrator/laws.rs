//! What stopping a project does, and what the registry answers.

use super::exchange::{Reply, Request};
use super::registry::RunningProcess;
use vstd::prelude::*;

verus! {

/// Processes are stopped last one first: every one of them once, the last one
/// first of all.
pub proof fn law_every_process_is_stopped_in_its_turn(running: Seq<RunningProcess>)
    ensures
        super::reversed_handles(running).len() == running.len(),
        forall|k: int|
            0 <= k < running.len() ==> #[trigger] super::reversed_handles(running)[k]
                == running[running.len() - 1 - k].handle,
{
}

/// What a process was started against is stopped after the process itself: of
/// two of them, the handle of the one that was started later stands earlier.
pub proof fn law_the_last_started_is_stopped_first(
    running: Seq<RunningProcess>,
    first: int,
    second: int,
)
    requires
        0 <= first < second < running.len(),
    ensures
        exists|earlier: int, later: int|
            0 <= earlier < later < running.len() && #[trigger] super::reversed_handles(
                running,
            )[earlier] == running[second].handle && #[trigger] super::reversed_handles(
                running,
            )[later] == running[first].handle,
{
    let handles = super::reversed_handles(running);
    assert(handles[running.len() - 1 - second] == running[second].handle);
    assert(handles[running.len() - 1 - first] == running[first].handle);
}

/// One more process started is one more to stop, before all the others.
pub proof fn law_a_stop_undoes_a_start_step_by_step(
    running: Seq<RunningProcess>,
    process: RunningProcess,
)
    ensures
        super::reversed_handles(running.push(process)) == seq![process.handle]
            + super::reversed_handles(running),
{
    assert(super::reversed_handles(running.push(process)) =~= seq![process.handle]
        + super::reversed_handles(running));
}

/// The registry answers about one project and touches no other: what it says
/// of a project is what is registered for it, what is taken is gone, what is
/// registered is there, and a fresh handle takes the place of the one under
/// that name.
pub proof fn law_the_registry_minds_one_project(
    registry: Seq<(Seq<char>, Seq<RunningProcess>)>,
    request: Request,
    after: Seq<(Seq<char>, Seq<RunningProcess>)>,
    reply: Option<Reply>,
    other: Seq<char>,
)
    requires
        crate::ordered::in_order(registry),
        super::answered(registry, request, after, reply),
    ensures
        match request {
            Request::FindHandle { project_id, process } => {
                &&& after == registry
                &&& reply is Some
                &&& reply->0 is Handle
                &&& reply->0->Handle_0 == super::registry::handle_of(
                    super::registry::registered(registry, project_id@),
                    process@,
                )
            },
            Request::TakeRegistered { project_id } => {
                &&& reply is Some
                &&& reply->0 is Registered
                &&& reply->0->Registered_0@ == super::registry::registered(registry, project_id@)
                &&& super::registry::registered(after, project_id@).len() == 0
                &&& other != project_id@ ==> super::registry::registered(after, other)
                    == super::registry::registered(registry, other)
            },
            Request::Register { project_id, running } => {
                &&& reply == Some(Reply::Done)
                &&& super::registry::registered(after, project_id@) == running@
                &&& other != project_id@ ==> super::registry::registered(after, other)
                    == super::registry::registered(registry, other)
            },
            Request::ReplaceHandle { project_id, process, handle } => {
                let held = super::registry::registered(registry, project_id@);
                &&& reply is Some
                &&& reply->0 is Replaced
                &&& reply->0->Replaced_0 <==> exists|i: int|
                    0 <= i < held.len() && (#[trigger] held[i]).name@ == process@
                &&& !reply->0->Replaced_0 ==> after == registry
                &&& reply->0->Replaced_0 ==> super::registry::handle_of(
                    super::registry::registered(after, project_id@),
                    process@,
                ) == Some(handle)
                &&& super::registry::registered(after, project_id@).len() == held.len()
                &&& forall|i: int|
                    0 <= i < held.len() && (#[trigger] held[i]).name@ != process@
                        ==> super::registry::registered(after, project_id@)[i] == held[i]
                &&& other != project_id@ ==> super::registry::registered(after, other)
                    == super::registry::registered(registry, other)
            },
            _ => reply is None && after == registry,
        },
{
    match request {
        Request::TakeRegistered { project_id } => {
            super::registry::law_a_removed_project_is_gone(registry, project_id@, other);
        },
        Request::Register { project_id, running } => {
            super::registry::law_a_registered_project_is_found(
                registry,
                project_id@,
                running@,
                other,
            );
        },
        Request::ReplaceHandle { project_id, process, handle } => {
            let held = super::registry::registered(registry, project_id@);
            super::registry::law_a_name_finds_the_first(held, process@);
            if super::registry::handle_of(held, process@) is Some {
                let now = super::registry::swapped(held, process@, handle);
                super::registry::law_a_registered_project_is_found(
                    registry,
                    project_id@,
                    now,
                    other,
                );
                super::registry::law_a_replaced_handle_leaves_siblings_alone(
                    held,
                    process@,
                    handle,
                );
            }
        },
        _ => {},
    }
}

/// What the registry lists is every project under its id, in its order.
pub proof fn law_every_project_is_listed(projects: Seq<(String, Vec<RunningProcess>)>)
    ensures
        super::registry::listed(projects).len() == projects.len(),
        forall|i: int|
            0 <= i < projects.len() ==> (#[trigger] super::registry::listed(projects)[i]).0
                == projects[i].0@ && super::registry::listed(projects)[i].1 == projects[i].1@,
{
}

} // verus!

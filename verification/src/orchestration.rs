//! Deciding what a project's processes should do, without doing any of it.
//!
//! A project is several processes: an API, a web server, a worker. Something
//! has to decide which starts next, what a crash means for the others, and
//! what the project's status is when its processes disagree. That is this
//! module, and it is the only place those three questions are answered.
//!
//! It starts nothing. It takes the shape of the process list and one event,
//! and returns the actions for somebody else to carry out.

pub mod laws;
pub mod meaning;

use vstd::prelude::*;

verus! {

/// Where one process is.
#[derive(Debug, Clone, Copy, PartialEq, Eq, Structural)]
pub enum ProcessState {
    /// Not started yet, because an earlier process has not finished coming up.
    Pending,
    Starting,
    Running,
    /// Exited, and the supervisor is going to try again.
    Restarting,
    Stopping,
    Stopped,
    /// Exited for good, after having run.
    Crashed,
    /// Never ran at all.
    Failed,
}

impl ProcessState {
    /// The wire value of the state. A process that waits for its turn has not
    /// been started, so it is written the way a stopped one is.
    pub open spec fn word(self) -> Seq<char> {
        match self {
            ProcessState::Pending => "STOPPED"@,
            ProcessState::Stopped => "STOPPED"@,
            ProcessState::Starting => "STARTING"@,
            ProcessState::Running => "RUNNING"@,
            ProcessState::Restarting => "RESTARTING"@,
            ProcessState::Stopping => "STOPPING"@,
            ProcessState::Crashed => "CRASHED"@,
            ProcessState::Failed => "FAILED"@,
        }
    }

    /// Whether there is nothing left of the process to stop.
    pub open spec fn finished(self) -> bool {
        self is Stopped || self is Crashed || self is Failed
    }

    /// The wire value, matching the `CHECK` on `project_processes.status`.
    pub fn as_str(self) -> (word: &'static str)
        ensures
            word@ == self.word(),
    {
        match self {
            ProcessState::Pending => "STOPPED",
            ProcessState::Stopped => "STOPPED",
            ProcessState::Starting => "STARTING",
            ProcessState::Running => "RUNNING",
            ProcessState::Restarting => "RESTARTING",
            ProcessState::Stopping => "STOPPING",
            ProcessState::Crashed => "CRASHED",
            ProcessState::Failed => "FAILED",
        }
    }

    /// Whether the process has already ended.
    pub fn is_finished(self) -> (done: bool)
        ensures
            done == self.finished(),
    {
        matches!(self, ProcessState::Stopped | ProcessState::Crashed | ProcessState::Failed)
    }
}

/// The project's status, in the vocabulary `projects.status` uses.
#[allow(non_camel_case_types)]
#[derive(Debug, Clone, Copy, PartialEq, Eq, Structural)]
pub enum ProjectStatus {
    RUNNING,
    STARTING,
    RESTARTING,
    CRASHED,
    FAILED,
    STOPPED,
}

impl ProjectStatus {
    /// The word the column holds for this status.
    pub open spec fn word(self) -> Seq<char> {
        match self {
            ProjectStatus::RUNNING => "RUNNING"@,
            ProjectStatus::STARTING => "STARTING"@,
            ProjectStatus::RESTARTING => "RESTARTING"@,
            ProjectStatus::CRASHED => "CRASHED"@,
            ProjectStatus::FAILED => "FAILED"@,
            ProjectStatus::STOPPED => "STOPPED"@,
        }
    }

    pub fn as_str(self) -> (word: &'static str)
        ensures
            word@ == self.word(),
    {
        match self {
            ProjectStatus::RUNNING => "RUNNING",
            ProjectStatus::STARTING => "STARTING",
            ProjectStatus::RESTARTING => "RESTARTING",
            ProjectStatus::CRASHED => "CRASHED",
            ProjectStatus::FAILED => "FAILED",
            ProjectStatus::STOPPED => "STOPPED",
        }
    }
}

/// What actually happened, reported by whoever was watching.
#[derive(Debug, Clone, PartialEq, Eq)]
pub enum Event {
    /// The process survived its settle window.
    Settled { index: usize },
    /// The process's health check passed for the first time.
    Healthy { index: usize },
    /// The process exited. `terminal` is the supervisor's answer to "am I
    /// going to try again", which depends on the restart policy and on how
    /// many attempts have already been made: a question this module does not
    /// own.
    Exited { index: usize, code: Option<i32>, terminal: bool },
    /// Somebody asked the project to stop.
    StopRequested,
    /// An install or build step failed, so this process never ran.
    PrepareFailed { index: usize, reason: String },
}

/// What the driver should do about it.
#[derive(Debug, Clone, PartialEq, Eq)]
pub enum Action {
    Spawn { index: usize },
    Stop { index: usize },
    WriteProcessStatus { index: usize, state: ProcessState, reason: Option<String> },
    WriteProjectStatus { status: ProjectStatus },
}

/// One process, as a decision depends on it. Not the database row: nothing
/// here needs the command or the working directory.
#[derive(Debug, Clone, PartialEq, Eq)]
pub struct Process {
    /// Whether coming up means "survived the settle window" or "reported
    /// healthy". A process with a health check has not started until it
    /// passes, which is what lets an API gate the web server that calls it.
    pub has_health_check: bool,
}

/// An action as a mathematical value.
pub enum Act {
    Spawn(int),
    Stop(int),
    Write(int, ProcessState, Option<Seq<char>>),
    Project(ProjectStatus),
}

/// An event as a mathematical value.
pub enum Happening {
    Settled(int),
    Healthy(int),
    Exited(int, bool),
    StopRequested,
    PrepareFailed(int, Seq<char>),
}

impl View for Action {
    type V = Act;

    open spec fn view(&self) -> Act {
        match self {
            Action::Spawn { index } => Act::Spawn(*index as int),
            Action::Stop { index } => Act::Stop(*index as int),
            Action::WriteProcessStatus { index, state, reason } => Act::Write(
                *index as int,
                *state,
                match reason {
                    Some(text) => Some(text@),
                    None => None,
                },
            ),
            Action::WriteProjectStatus { status } => Act::Project(*status),
        }
    }
}

impl View for Event {
    type V = Happening;

    open spec fn view(&self) -> Happening {
        match self {
            Event::Settled { index } => Happening::Settled(*index as int),
            Event::Healthy { index } => Happening::Healthy(*index as int),
            Event::Exited { index, code, terminal } => Happening::Exited(*index as int, *terminal),
            Event::StopRequested => Happening::StopRequested,
            Event::PrepareFailed { index, reason } => Happening::PrepareFailed(
                *index as int,
                reason@,
            ),
        }
    }
}

/// A list of actions as mathematical values.
pub open spec fn acts(actions: Seq<Action>) -> Seq<Act> {
    actions.map_values(|action: Action| action@)
}

/// A machine as a mathematical value: which processes have a health check,
/// where each process is, and whether a stop was asked for.
pub struct Project {
    pub checks: Seq<bool>,
    pub states: Seq<ProcessState>,
    pub stopping: bool,
}

/// Whether some process is in the given state.
pub open spec fn some_in(states: Seq<ProcessState>, state: ProcessState) -> bool {
    exists|i: int| 0 <= i < states.len() && #[trigger] states[i] == state
}

/// The status of a project from where its processes are. Read top to bottom,
/// first match wins: a project with one process restarting and another running
/// is restarting, because calling it running would hide what matters.
pub open spec fn status_of(states: Seq<ProcessState>) -> ProjectStatus {
    if states.len() == 0 {
        ProjectStatus::STOPPED
    } else if some_in(states, ProcessState::Failed) {
        ProjectStatus::FAILED
    } else if some_in(states, ProcessState::Crashed) {
        ProjectStatus::CRASHED
    } else if some_in(states, ProcessState::Restarting) {
        ProjectStatus::RESTARTING
    } else if some_in(states, ProcessState::Pending) || some_in(states, ProcessState::Starting) {
        ProjectStatus::STARTING
    } else if forall|i: int| 0 <= i < states.len() ==> #[trigger] states[i] is Running {
        ProjectStatus::RUNNING
    } else if some_in(states, ProcessState::Stopping) {
        ProjectStatus::STARTING
    } else {
        ProjectStatus::STOPPED
    }
}

/// The first position at or after `from` that holds `state`; the length of the
/// sequence where there is none.
pub open spec fn first_in(states: Seq<ProcessState>, state: ProcessState, from: int) -> int
    decreases states.len() - from,
{
    if from >= states.len() || states[from] == state {
        from
    } else {
        first_in(states, state, from + 1)
    }
}

/// Whether the process at `index` is still there to be stopped.
pub open spec fn still_up(states: Seq<ProcessState>, except: Option<int>, index: int) -> bool {
    Some(index) != except && !states[index].finished()
}

/// Where every process is once everything still up was told to stop.
pub open spec fn told_to_stop(states: Seq<ProcessState>, except: Option<int>) -> Seq<
    ProcessState,
> {
    Seq::new(
        states.len(),
        |i: int|
            if still_up(states, except, i) {
                ProcessState::Stopping
            } else {
                states[i]
            },
    )
}

/// The actions that stop everything still up below `end`, last process first.
pub open spec fn stops_below(states: Seq<ProcessState>, except: Option<int>, end: int) -> Seq<Act>
    decreases end,
{
    if end <= 0 {
        Seq::empty()
    } else if still_up(states, except, end - 1) {
        seq![Act::Write(end - 1, ProcessState::Stopping, None), Act::Stop(end - 1)] + stops_below(
            states,
            except,
            end - 1,
        )
    } else {
        stops_below(states, except, end - 1)
    }
}

impl Project {
    /// One state for each process.
    pub open spec fn wf(self) -> bool {
        self.checks.len() == self.states.len()
    }

    pub open spec fn has(self, index: int) -> bool {
        0 <= index < self.states.len()
    }

    pub open spec fn gated(self, index: int) -> bool {
        0 <= index < self.checks.len() && self.checks[index]
    }

    pub open spec fn status(self) -> ProjectStatus {
        status_of(self.states)
    }

    /// The project with one process moved. A process that does not exist is
    /// not moved.
    pub open spec fn moved(self, index: int, state: ProcessState) -> Project {
        if self.has(index) {
            Project { states: self.states.update(index, state), ..self }
        } else {
            self
        }
    }

    /// What is written about moving one process.
    pub open spec fn note(self, index: int, state: ProcessState, reason: Option<Seq<char>>) -> Seq<
        Act,
    > {
        if self.has(index) {
            seq![Act::Write(index, state, reason)]
        } else {
            Seq::empty()
        }
    }

    /// The project with everything still up told to stop.
    pub open spec fn stopped(self, except: Option<int>) -> Project {
        Project { states: told_to_stop(self.states, except), ..self }
    }

    pub open spec fn stops(self, except: Option<int>) -> Seq<Act> {
        stops_below(self.states, except, self.states.len() as int)
    }

    /// A start: everything waits, and the first process goes.
    pub open spec fn started(self) -> Project {
        let waiting = Project {
            states: Seq::new(self.states.len(), |i: int| ProcessState::Pending),
            stopping: false,
            ..self
        };
        if self.checks.len() == 0 {
            waiting
        } else {
            waiting.moved(0, ProcessState::Starting)
        }
    }

    pub open spec fn start_acts(self) -> Seq<Act> {
        if self.checks.len() == 0 {
            Seq::empty()
        } else {
            self.note(0, ProcessState::Starting, None) + seq![
                Act::Spawn(0),
                Act::Project(self.started().status()),
            ]
        }
    }

    /// Whether the process after the one at `index` goes once that one is up: a
    /// start is strictly sequential, so it goes where it is the first that
    /// still waits, and nothing else does.
    pub open spec fn lets_the_next_go(self, index: int) -> bool {
        let up = self.moved(index, ProcessState::Running);
        up.has(index + 1) && first_in(up.states, ProcessState::Pending, 0) == index + 1
    }

    /// A process finished coming up: it runs, and the next one goes where it is
    /// its turn. A process that does not exist does not come up.
    pub open spec fn came_up(self, index: int) -> Project {
        if self.stopping || !self.has(index) {
            self
        } else {
            let up = self.moved(index, ProcessState::Running);
            if self.lets_the_next_go(index) {
                up.moved(index + 1, ProcessState::Starting)
            } else {
                up
            }
        }
    }

    pub open spec fn came_up_acts(self, index: int) -> Seq<Act> {
        if self.stopping || !self.has(index) {
            Seq::empty()
        } else {
            self.note(index, ProcessState::Running, None) + if self.lets_the_next_go(index) {
                seq![Act::Write(index + 1, ProcessState::Starting, None), Act::Spawn(index + 1)]
            } else {
                Seq::empty()
            }
        }
    }

    /// Where a process that will not be tried again ends: having run and then
    /// died is not the same as never having run.
    pub open spec fn end_of(self, index: int) -> ProcessState {
        if self.has(index) && (self.states[index] is Running || self.states[index] is Restarting) {
            ProcessState::Crashed
        } else {
            ProcessState::Failed
        }
    }

    /// Whether the event is one the machine says nothing about: a process with
    /// a health check settling, or one without reporting healthy.
    pub open spec fn silent(self, event: Happening) -> bool {
        match event {
            Happening::Settled(index) => self.gated(index),
            Happening::Healthy(index) => !self.gated(index),
            _ => false,
        }
    }

    /// The project after the event. One that concerns a process which does not
    /// exist is stale, and changes nothing.
    pub open spec fn after(self, event: Happening) -> Project {
        match event {
            Happening::Settled(index) => if self.gated(index) {
                self
            } else {
                self.came_up(index)
            },
            Happening::Healthy(index) => if self.gated(index) {
                self.came_up(index)
            } else {
                self
            },
            Happening::Exited(index, terminal) => if !self.has(index) {
                self
            } else if self.stopping {
                self.moved(index, ProcessState::Stopped)
            } else if !terminal {
                self.moved(index, ProcessState::Restarting)
            } else {
                self.moved(index, self.end_of(index)).stopped(Some(index))
            },
            Happening::StopRequested => Project { stopping: true, ..self }.stopped(None),
            Happening::PrepareFailed(index, reason) => if !self.has(index) {
                self
            } else {
                self.moved(index, ProcessState::Failed).stopped(Some(index))
            },
        }
    }

    /// What is to be done about the event, before the project's own status is
    /// written.
    pub open spec fn steps(self, event: Happening) -> Seq<Act> {
        match event {
            Happening::Settled(index) => self.came_up_acts(index),
            Happening::Healthy(index) => self.came_up_acts(index),
            Happening::Exited(index, terminal) => if !self.has(index) {
                Seq::empty()
            } else if self.stopping {
                self.note(index, ProcessState::Stopped, None)
            } else if !terminal {
                self.note(index, ProcessState::Restarting, None)
            } else {
                let end = self.end_of(index);
                self.note(index, end, None) + self.moved(index, end).stops(Some(index))
            },
            Happening::StopRequested => self.stops(None),
            Happening::PrepareFailed(index, reason) => if !self.has(index) {
                Seq::empty()
            } else {
                self.note(index, ProcessState::Failed, Some(reason)) + self.moved(
                    index,
                    ProcessState::Failed,
                ).stops(Some(index))
            },
        }
    }

    /// Everything that is to be done about the event, in order.
    pub open spec fn acts(self, event: Happening) -> Seq<Act> {
        if self.silent(event) {
            Seq::empty()
        } else {
            self.steps(event).push(Act::Project(self.after(event).status()))
        }
    }
}

/// The processes of one project, and where each of them is.
#[derive(Debug, Clone)]
pub struct Machine {
    processes: Vec<Process>,
    states: Vec<ProcessState>,
    /// Whether a stop was asked for, so that a process exiting during one is
    /// not mistaken for a crash.
    stopping: bool,
}

impl View for Machine {
    type V = Project;

    closed spec fn view(&self) -> Project {
        Project {
            checks: self.processes@.map_values(|process: Process| process.has_health_check),
            states: self.states@,
            stopping: self.stopping,
        }
    }
}

impl Machine {
    /// Every process stopped, and no stop asked for.
    pub fn new(processes: Vec<Process>) -> (machine: Machine)
        ensures
            machine@.wf(),
            machine@.checks == processes@.map_values(|process: Process| process.has_health_check),
            machine@.states == Seq::new(processes@.len(), |i: int| ProcessState::Stopped),
            !machine@.stopping,
    {
        let mut states: Vec<ProcessState> = Vec::new();
        let mut count: usize = 0;
        while count < processes.len()
            invariant
                count <= processes.len(),
                states@ == Seq::new(count as nat, |i: int| ProcessState::Stopped),
            decreases processes.len() - count,
        {
            states.push(ProcessState::Stopped);
            count += 1;
        }
        Machine { processes, states, stopping: false }
    }

    /// Begin a start: everything waits, and the first process goes.
    pub fn start(&mut self) -> (actions: Vec<Action>)
        ensures
            final(self)@ == old(self)@.started(),
            acts(actions@) == old(self)@.start_acts(),
    {
        self.stopping = false;
        let mut waiting: Vec<ProcessState> = Vec::new();
        let mut count: usize = 0;
        while count < self.states.len()
            invariant
                count <= self.states.len(),
                waiting@ == Seq::new(count as nat, |i: int| ProcessState::Pending),
            decreases self.states.len() - count,
        {
            waiting.push(ProcessState::Pending);
            count += 1;
        }
        self.states = waiting;

        let mut actions: Vec<Action> = Vec::new();
        if self.processes.len() == 0 {
            assert(acts(actions@) =~= Seq::empty());
            return actions;
        }
        self.set(0, ProcessState::Starting, None, &mut actions);
        actions.push(Action::Spawn { index: 0 });
        actions.push(Action::WriteProjectStatus { status: self.project_status() });
        assert(acts(actions@) =~= old(self)@.start_acts());
        actions
    }

    /// What the machine makes of one event.
    pub fn handle(&mut self, event: Event) -> (actions: Vec<Action>)
        ensures
            final(self)@ == old(self)@.after(event@),
            acts(actions@) == old(self)@.acts(event@),
    {
        let mut actions: Vec<Action> = Vec::new();
        assert(acts(actions@) =~= Seq::empty());
        match event {
            Event::Settled { index } => {
                // A process with a health check has not started merely by
                // surviving; `Healthy` is what advances it.
                if self.has_health_check(index) {
                    return actions;
                }
                self.came_up(index, &mut actions);
            },
            Event::Healthy { index } => {
                if !self.has_health_check(index) {
                    return actions;
                }
                self.came_up(index, &mut actions);
            },
            Event::Exited { index, code: _, terminal } => {
                // A stale event, from before the process set changed.
                if index >= self.states.len() {
                } else if self.stopping {
                    self.set(index, ProcessState::Stopped, None, &mut actions);
                } else if !terminal {
                    // The supervisor will try again. One process restarting is
                    // not a reason to tear down the ones that are working.
                    self.set(index, ProcessState::Restarting, None, &mut actions);
                } else {
                    let ran = matches!(
                        self.state(index),
                        Some(ProcessState::Running) | Some(ProcessState::Restarting)
                    );
                    let state = if ran {
                        ProcessState::Crashed
                    } else {
                        ProcessState::Failed
                    };
                    self.set(index, state, None, &mut actions);
                    self.stop_others(Some(index), &mut actions);
                }
            },
            Event::StopRequested => {
                self.stopping = true;
                self.stop_others(None, &mut actions);
            },
            Event::PrepareFailed { index, reason } => {
                // Nothing was spawned, so there is nothing to have crashed.
                if index < self.states.len() {
                    self.set(index, ProcessState::Failed, Some(reason), &mut actions);
                    self.stop_others(Some(index), &mut actions);
                }
            },
        }
        assert(acts(actions@) =~= old(self)@.steps(event@));
        let ghost before = actions@;
        actions.push(Action::WriteProjectStatus { status: self.project_status() });
        assert(acts(actions@) =~= acts(before).push(Act::Project(self@.status())));
        actions
    }

    /// Where the process at `index` is, if there is one.
    pub fn state(&self, index: usize) -> (state: Option<ProcessState>)
        ensures
            state == if self@.has(index as int) {
                Some(self@.states[index as int])
            } else {
                None
            },
    {
        if index < self.states.len() {
            Some(self.states[index])
        } else {
            None
        }
    }

    /// The project's status, from its processes.
    pub fn project_status(&self) -> (status: ProjectStatus)
        ensures
            status == self@.status(),
    {
        if self.states.len() == 0 {
            return ProjectStatus::STOPPED;
        }
        if self.any(ProcessState::Failed) {
            return ProjectStatus::FAILED;
        }
        if self.any(ProcessState::Crashed) {
            return ProjectStatus::CRASHED;
        }
        if self.any(ProcessState::Restarting) {
            return ProjectStatus::RESTARTING;
        }
        if self.any(ProcessState::Pending) || self.any(ProcessState::Starting) {
            return ProjectStatus::STARTING;
        }
        if self.all_running() {
            return ProjectStatus::RUNNING;
        }
        if self.any(ProcessState::Stopping) {
            return ProjectStatus::STARTING;
        }
        ProjectStatus::STOPPED
    }

    /// A process finished coming up: mark it, and let the next one go where it
    /// is its turn. One that comes up again, after a restart, lets nobody go
    /// whose predecessor is still on its way.
    fn came_up(&mut self, index: usize, actions: &mut Vec<Action>)
        ensures
            final(self)@ == old(self)@.came_up(index as int),
            acts(final(actions)@) == acts(old(actions)@) + old(self)@.came_up_acts(index as int),
    {
        let count: usize = self.states.len();
        if self.stopping || index >= count {
            assert(acts(actions@) =~= acts(actions@) + Seq::empty());
            return;
        }
        self.set(index, ProcessState::Running, None, actions);
        let ghost up = self@;
        let mut next: usize = 0;
        while next < count && self.states[next] != ProcessState::Pending
            invariant
                count == self.states.len(),
                next <= count,
                self@ == up,
                first_in(up.states, ProcessState::Pending, 0) == first_in(
                    up.states,
                    ProcessState::Pending,
                    next as int,
                ),
            decreases count - next,
        {
            next += 1;
        }
        if next < count && next == index + 1 {
            self.set(next, ProcessState::Starting, None, actions);
            let ghost set = actions@;
            actions.push(Action::Spawn { index: next });
            assert(acts(actions@) =~= acts(set).push(Act::Spawn(next as int)));
        }
        assert(acts(actions@) =~= acts(old(actions)@) + old(self)@.came_up_acts(index as int));
    }

    /// Stop everything still up, in reverse order.
    ///
    /// Reverse because a process was started against the ones before it: the
    /// API that the web server calls should be the last thing to go. `except`
    /// is the process that has already died and so has nothing left to stop.
    fn stop_others(&mut self, except: Option<usize>, actions: &mut Vec<Action>)
        ensures
            final(self)@ == old(self)@.stopped(
                match except {
                    Some(index) => Some(index as int),
                    None => None,
                },
            ),
            acts(final(actions)@) == acts(old(actions)@) + old(self)@.stops(
                match except {
                    Some(index) => Some(index as int),
                    None => None,
                },
            ),
    {
        let ghost spared: Option<int> = match except {
            Some(index) => Some(index as int),
            None => None,
        };
        let ghost before = self@;
        let ghost first = acts(actions@);
        let mut end: usize = self.states.len();
        while end > 0
            invariant
                end <= before.states.len(),
                self@.checks == before.checks,
                self@.stopping == before.stopping,
                self@.states.len() == before.states.len(),
                spared == match except {
                    Some(index) => Some(index as int),
                    None => None,
                },
                forall|i: int| 0 <= i < end ==> self@.states[i] == before.states[i],
                forall|i: int|
                    end <= i < before.states.len() ==> self@.states[i] == told_to_stop(
                        before.states,
                        spared,
                    )[i],
                acts(actions@) + stops_below(before.states, spared, end as int) == first
                    + before.stops(spared),
            decreases end,
        {
            end -= 1;
            let spare = match except {
                Some(index) => index == end,
                None => false,
            };
            if !spare && !self.states[end].is_finished() {
                let ghost earlier = acts(actions@);
                self.set(end, ProcessState::Stopping, None, actions);
                let ghost set = actions@;
                actions.push(Action::Stop { index: end });
                assert(acts(actions@) =~= acts(set).push(Act::Stop(end as int)));
                assert(acts(actions@) + stops_below(before.states, spared, end as int) =~= earlier
                    + stops_below(before.states, spared, end + 1));
            }
        }
        assert(acts(actions@) + Seq::empty() =~= acts(actions@));
        assert(self@.states =~= told_to_stop(before.states, spared));
    }

    fn set(
        &mut self,
        index: usize,
        state: ProcessState,
        reason: Option<String>,
        actions: &mut Vec<Action>,
    )
        ensures
            final(self)@ == old(self)@.moved(index as int, state),
            acts(final(actions)@) == acts(old(actions)@) + old(self)@.note(
                index as int,
                state,
                match reason {
                    Some(text) => Some(text@),
                    None => None,
                },
            ),
    {
        if index < self.states.len() {
            self.states.set(index, state);
            actions.push(Action::WriteProcessStatus { index, state, reason });
        }
        assert(acts(actions@) =~= acts(old(actions)@) + old(self)@.note(
            index as int,
            state,
            match reason {
                Some(text) => Some(text@),
                None => None,
            },
        ));
    }

    fn any(&self, state: ProcessState) -> (found: bool)
        ensures
            found == some_in(self@.states, state),
    {
        let mut index: usize = 0;
        while index < self.states.len()
            invariant
                index <= self.states.len(),
                forall|i: int| 0 <= i < index ==> self.states@[i] != state,
            decreases self.states.len() - index,
        {
            if self.states[index] == state {
                assert(self@.states[index as int] == state);
                return true;
            }
            index += 1;
        }
        false
    }

    fn all_running(&self) -> (all: bool)
        ensures
            all == (forall|i: int|
                0 <= i < self@.states.len() ==> #[trigger] self@.states[i] is Running),
    {
        let mut index: usize = 0;
        while index < self.states.len()
            invariant
                index <= self.states.len(),
                forall|i: int| 0 <= i < index ==> self.states@[i] is Running,
            decreases self.states.len() - index,
        {
            if self.states[index] != ProcessState::Running {
                assert(!(self@.states[index as int] is Running));
                return false;
            }
            index += 1;
        }
        true
    }

    fn has_health_check(&self, index: usize) -> (gated: bool)
        ensures
            gated == self@.gated(index as int),
    {
        index < self.processes.len() && self.processes[index].has_health_check
    }
}

} // verus!

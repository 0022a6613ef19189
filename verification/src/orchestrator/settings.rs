//! What a project's rows say of how its processes run.

pub mod laws;

use crate::lifecycle::LifecycleError;
use crate::records::{PortRecord, ProcessRecord};
use crate::text::{copied, same};
use vstd::prelude::*;

verus! {

/// Which port is looked for.
#[derive(Debug, Clone, Copy)]
pub enum Wanted<'a> {
    /// The port of the process with that id.
    Of(&'a str),
    /// The project's own primary port.
    Primary,
    /// Any port of the project's own.
    Unassigned,
}

/// What is looked for, as a mathematical value.
pub enum Sought {
    Of(Seq<char>),
    Primary,
    Unassigned,
}

impl<'a> View for Wanted<'a> {
    type V = Sought;

    open spec fn view(&self) -> Sought {
        match self {
            Wanted::Of(id) => Sought::Of(id@),
            Wanted::Primary => Sought::Primary,
            Wanted::Unassigned => Sought::Unassigned,
        }
    }
}

impl Sought {
    /// Whether a row is the one looked for.
    pub open spec fn matches(self, port: PortRecord) -> bool {
        match self {
            Sought::Of(id) => crate::text::optional(port.process_id) == Some(id),
            Sought::Primary => port.process_id is None && port.is_primary,
            Sought::Unassigned => port.process_id is None,
        }
    }
}

impl<'a> Wanted<'a> {
    fn is(self, port: &PortRecord) -> (found: bool)
        ensures
            found == self@.matches(*port),
    {
        match self {
            Wanted::Of(id) => match &port.process_id {
                Some(owner) => same(owner.as_str(), id),
                None => false,
            },
            Wanted::Primary => port.process_id.is_none() && port.is_primary,
            Wanted::Unassigned => port.process_id.is_none(),
        }
    }
}

/// The first row at or after `from` that is the one looked for.
pub open spec fn first_row(ports: Seq<PortRecord>, sought: Sought, from: int) -> Option<PortRecord>
    decreases ports.len() - from,
{
    if from >= ports.len() {
        None
    } else if sought.matches(ports[from]) {
        Some(ports[from])
    } else {
        first_row(ports, sought, from + 1)
    }
}

/// The port a row was allocated, where it is one a process can listen on.
pub open spec fn allocated(row: Option<PortRecord>) -> Option<u16> {
    match row {
        Some(row) => match row.host_port {
            Some(number) => if 0 <= number <= 65535 {
                Some(number as u16)
            } else {
                None
            },
            None => None,
        },
        None => None,
    }
}

/// The port that belongs to no process. It is the project's, from before the
/// process set existed, and the primary one where there is one.
pub open spec fn unassigned(ports: Seq<PortRecord>) -> Option<u16> {
    match first_row(ports, Sought::Primary, 0) {
        Some(row) => allocated(Some(row)),
        None => allocated(first_row(ports, Sought::Unassigned, 0)),
    }
}

/// The port of the process at an index. A port with no process goes to the
/// first process, which is what it meant.
pub open spec fn port_of(ports: Seq<PortRecord>, id: Seq<char>, index: int) -> Option<u16> {
    match allocated(first_row(ports, Sought::Of(id), 0)) {
        Some(port) => Some(port),
        None => if index == 0 {
            unassigned(ports)
        } else {
            None
        },
    }
}

/// The port each process was allocated, indexed the same way the process list
/// is.
pub open spec fn ports_of(ports: Seq<PortRecord>, processes: Seq<ProcessRecord>) -> Seq<
    Option<u16>,
> {
    Seq::new(processes.len(), |index: int| port_of(ports, processes[index].id@, index))
}

fn find_row<'a>(ports: &'a Vec<PortRecord>, wanted: Wanted<'_>) -> (row: Option<&'a PortRecord>)
    ensures
        match row {
            Some(row) => first_row(ports@, wanted@, 0) == Some(*row),
            None => first_row(ports@, wanted@, 0) is None,
        },
{
    let mut index: usize = 0;
    while index < ports.len()
        invariant
            index <= ports@.len(),
            first_row(ports@, wanted@, index as int) == first_row(ports@, wanted@, 0),
        decreases ports@.len() - index,
    {
        if wanted.is(&ports[index]) {
            return Some(&ports[index]);
        }
        index += 1;
    }
    None
}

fn allocated_port(row: Option<&PortRecord>) -> (port: Option<u16>)
    ensures
        port == allocated(
            match row {
                Some(row) => Some(*row),
                None => None,
            },
        ),
{
    match row {
        Some(row) => match row.host_port {
            Some(number) => if 0 <= number && number <= 65535 {
                Some(number as u16)
            } else {
                None
            },
            None => None,
        },
        None => None,
    }
}

/// The port each process was allocated, indexed the same way the process list
/// is.
pub fn port_by_process(ports: &Vec<PortRecord>, processes: &Vec<ProcessRecord>) -> (found: Vec<
    Option<u16>,
>)
    ensures
        found@ == ports_of(ports@, processes@),
{
    let free = match find_row(ports, Wanted::Primary) {
        Some(row) => allocated_port(Some(row)),
        None => allocated_port(find_row(ports, Wanted::Unassigned)),
    };
    let mut found: Vec<Option<u16>> = Vec::new();
    let mut index: usize = 0;
    while index < processes.len()
        invariant
            index <= processes@.len(),
            free == unassigned(ports@),
            found@ == ports_of(ports@, processes@).take(index as int),
        decreases processes@.len() - index,
    {
        let own = allocated_port(find_row(ports, Wanted::Of(processes[index].id.as_str())));
        let port = match own {
            Some(port) => Some(port),
            None => if index == 0 {
                free
            } else {
                None
            },
        };
        found.push(port);
        assert(found@ =~= ports_of(ports@, processes@).take(index + 1));
        index += 1;
    }
    assert(ports_of(ports@, processes@).take(index as int) =~= ports_of(ports@, processes@));
    found
}

/// The port at an index, if there is such a process and it has one.
pub open spec fn port_at(ports: Seq<Option<u16>>, index: int) -> Option<u16> {
    if 0 <= index < ports.len() {
        ports[index]
    } else {
        None
    }
}

pub fn port_at_index(ports: &Vec<Option<u16>>, index: usize) -> (port: Option<u16>)
    ensures
        port == port_at(ports@, index as int),
{
    if index < ports.len() {
        ports[index]
    } else {
        None
    }
}

/// What a health check is resolved from.
#[derive(Debug, PartialEq, Eq)]
pub struct Check {
    pub kind: String,
    pub target: Option<String>,
    pub timeout_s: i64,
    pub port: Option<u16>,
}

/// How a process's health is asked about.
#[derive(Debug, PartialEq, Eq)]
pub struct HealthPolicy {
    pub check: Check,
    pub interval_s: u64,
    pub start_period_s: u64,
}

/// A number of seconds kept within the bounds a health check may have.
pub open spec fn within(value: i64, least: i64, most: i64) -> int {
    if value < least {
        least as int
    } else if value > most {
        most as int
    } else {
        value as int
    }
}

fn clamped(value: i64, least: i64, most: i64) -> (kept: u64)
    requires
        0 <= least <= most,
    ensures
        kept == within(value, least, most),
        least <= kept <= most,
{
    if value < least {
        least as u64
    } else if value > most {
        most as u64
    } else {
        value as u64
    }
}

/// Whether a policy is the one a process row configures.
pub open spec fn policy_of(policy: HealthPolicy, process: ProcessRecord, port: Option<u16>) -> bool {
    &&& policy.check.kind@ == process.health_check_type@
    &&& crate::text::optional(policy.check.target) == crate::text::optional(
        process.health_check_target,
    )
    &&& policy.check.timeout_s == process.health_timeout_s
    &&& policy.check.port == port
    &&& policy.interval_s == within(process.health_interval_s, 1, 3600)
    &&& policy.start_period_s == within(process.health_start_period_s, 0, 3600)
}

/// The health policy from the process row, or `None` when no check is
/// configured.
pub fn health_policy(process: &ProcessRecord, port: Option<u16>) -> (policy: Option<HealthPolicy>)
    ensures
        policy is Some == process.checked(),
        policy matches Some(policy) ==> policy_of(policy, *process, port),
{
    if !process.has_health_check() {
        return None;
    }
    Some(
        HealthPolicy {
            check: Check {
                kind: process.health_check_type.clone(),
                target: copied(&process.health_check_target),
                timeout_s: process.health_timeout_s,
                port,
            },
            interval_s: clamped(process.health_interval_s, 1, 3600),
            start_period_s: clamped(process.health_start_period_s, 0, 3600),
        },
    )
}

/// How long a process has to report healthy, in seconds: its start period plus
/// its retries, because a check that never passes must fail the start rather
/// than hang it.
pub open spec fn patience(process: ProcessRecord) -> int {
    within(process.health_start_period_s, 0, 3600) + within(process.health_interval_s, 1, 3600)
        * within(process.health_retries, 1, 100)
}

/// How long a process has to report healthy, in seconds.
pub fn health_deadline_s(process: &ProcessRecord) -> (seconds: u64)
    ensures
        seconds == patience(*process),
        1 <= seconds <= 363600,
{
    let start_period: u64 = clamped(process.health_start_period_s, 0, 3600);
    let interval: u64 = clamped(process.health_interval_s, 1, 3600);
    let retries: u64 = clamped(process.health_retries, 1, 100);
    assert(1 <= interval * retries <= 360000) by (nonlinear_arith)
        requires
            1 <= interval <= 3600,
            1 <= retries <= 100,
    ;
    start_period + interval * retries
}

/// Today, as the log file names it: the date a timestamp begins with.
pub fn today(now: &str) -> (date: String)
    ensures
        if vstd::utf8::is_char_boundary(vstd::utf8::encode_utf8(now@), 10) {
            vstd::utf8::encode_utf8(date@) == vstd::utf8::encode_utf8(now@).subrange(0, 10)
        } else {
            date@ == "unknown"@
        },
{
    if now.is_char_boundary(10) {
        let (date, _) = now.split_at(10);
        date.to_owned()
    } else {
        "unknown".to_owned()
    }
}

/// What looking for a runtime's toolchain came to.
#[derive(Debug, PartialEq, Eq)]
pub enum Probed {
    Found(String),
    NotRequired,
    Missing { looked_for: Vec<String> },
}

/// What a project runs with, once it is known to be there.
#[derive(Debug, PartialEq, Eq)]
pub enum Toolchain {
    Found(String),
    NotRequired,
}

impl Clone for Toolchain {
    fn clone(&self) -> (copy: Toolchain)
        ensures
            copy == *self,
    {
        match self {
            Toolchain::Found(program) => Toolchain::Found(program.clone()),
            Toolchain::NotRequired => Toolchain::NotRequired,
        }
    }
}

/// The toolchain that was found, or a refusal with what was looked for.
pub open spec fn resolved(runtime: Seq<char>, probed: Probed) -> Result<
    Toolchain,
    crate::lifecycle::Failure,
> {
    match probed {
        Probed::Found(program) => Ok(Toolchain::Found(program)),
        Probed::NotRequired => Ok(Toolchain::NotRequired),
        Probed::Missing { looked_for } => Err(
            crate::lifecycle::Failure::ToolchainMissing(
                runtime,
                crate::text::texts(looked_for@),
            ),
        ),
    }
}

/// Find the runtime's toolchain, or refuse with what was looked for.
///
/// Refused here rather than at spawn time so the message names the runtime and
/// the executables tried, instead of being an operating-system error about a
/// file that does not exist.
pub fn resolve_toolchain(runtime: &str, probed: Probed) -> (toolchain: Result<
    Toolchain,
    LifecycleError,
>)
    ensures
        match toolchain {
            Ok(toolchain) => resolved(runtime@, probed) == Ok::<
                Toolchain,
                crate::lifecycle::Failure,
            >(toolchain),
            Err(error) => resolved(runtime@, probed) == Err::<
                Toolchain,
                crate::lifecycle::Failure,
            >(error@),
        },
{
    match probed {
        Probed::Found(program) => Ok(Toolchain::Found(program)),
        Probed::NotRequired => Ok(Toolchain::NotRequired),
        Probed::Missing { looked_for } => Err(
            LifecycleError::ToolchainMissing { runtime: runtime.to_owned(), looked_for },
        ),
    }
}

} // verus!

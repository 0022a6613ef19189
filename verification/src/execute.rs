//! What came of running a plan's steps.
//!
//! Everything worth deciding about an install is decided before a step runs:
//! which packages, in what order, wrapped in which elevation. What remains is
//! reading what came of it, and the exit codes are the part that matters: a
//! dismissed prompt and a failed install must not arrive as the same outcome.

pub mod laws;

use crate::text::{contains, join, join_strings, split_lines, trim};
use vstd::prelude::*;

verus! {

/// `ERROR_CANCELLED`: the user dismissed the UAC prompt.
pub const WINDOWS_CANCELLED: i32 = 1223;

/// pkexec's own code for "dismissed".
pub const PKEXEC_DISMISSED: i32 = 126;

/// pkexec's own code for "not available".
pub const PKEXEC_UNAVAILABLE: i32 = 127;

/// One step of an install.
#[derive(Debug, PartialEq, Eq)]
pub struct Step {
    pub elevated: bool,
    pub program: String,
    pub args: Vec<String>,
    /// What the user is told about: the thing this step installs, not the
    /// shell that wrapped it.
    pub subject: String,
    pub describes: String,
}

/// Why an install cannot go on.
#[derive(Debug, PartialEq, Eq)]
pub enum Blocker {
    /// The program never started, so it has no exit code.
    ProgramNotFound { display_name: String, program: String },
    StepFailed { display_name: String, program: String, code: i32, output: String },
    /// The user dismissed the prompt, or there was none to show.
    NotAuthorised { display_name: String },
    /// The install worked, and its executable is still not to be found.
    StillMissingAfterInstall { display_name: String, executable: String },
}

/// Why an install cannot go on, as a mathematical value.
pub enum Blocked {
    ProgramNotFound(Seq<char>, Seq<char>),
    StepFailed(Seq<char>, Seq<char>, int, Seq<char>),
    NotAuthorised(Seq<char>),
    StillMissingAfterInstall(Seq<char>, Seq<char>),
}

impl View for Blocker {
    type V = Blocked;

    open spec fn view(&self) -> Blocked {
        match self {
            Blocker::ProgramNotFound { display_name, program } => Blocked::ProgramNotFound(
                display_name@,
                program@,
            ),
            Blocker::StepFailed { display_name, program, code, output } => Blocked::StepFailed(
                display_name@,
                program@,
                *code as int,
                output@,
            ),
            Blocker::NotAuthorised { display_name } => Blocked::NotAuthorised(display_name@),
            Blocker::StillMissingAfterInstall { display_name, executable } => {
                Blocked::StillMissingAfterInstall(display_name@, executable@)
            },
        }
    }
}

/// What running a command came to.
#[derive(Debug)]
pub enum Ran {
    /// There was no such program, so nothing ran.
    NotFound,
    /// It could not be started for another reason.
    NotStarted { error: String },
    /// It ended. There is no code where a signal ended it.
    Exited { code: Option<i32>, stdout: Vec<u8>, stderr: Vec<u8> },
}

/// What `String::from_utf8_lossy` makes of bytes.
pub uninterp spec fn lossy(bytes: Seq<u8>) -> Seq<char>;

/// The text of bytes, whatever they are.
///
/// `String::from_utf8_lossy`: the text that the bytes are the UTF-8 encoding
/// of, where they are one. Of other bytes it is only claimed that the same
/// bytes give the same text.
#[verifier::external_body]
fn lossy_text(bytes: &[u8]) -> (text: String)
    ensures
        text@ == lossy(bytes@),
        vstd::utf8::valid_utf8(bytes@) ==> text@ == vstd::utf8::decode_utf8(bytes@),
{
    String::from_utf8_lossy(bytes).into_owned()
}

/// The text of bytes: what they are the UTF-8 encoding of, where they are one,
/// and otherwise what `String::from_utf8_lossy` makes of them.
pub open spec fn text_of(bytes: Seq<u8>) -> Seq<char> {
    if vstd::utf8::valid_utf8(bytes) {
        vstd::utf8::decode_utf8(bytes)
    } else {
        lossy(bytes)
    }
}

/// The lines among the first that are not blank.
pub open spec fn told_among(lines: Seq<Seq<char>>, first: int) -> Seq<Seq<char>>
    decreases first,
{
    if first <= 0 {
        Seq::empty()
    } else {
        let earlier = told_among(lines, first - 1);
        if crate::text::trimmed(lines[first - 1]).len() > 0 {
            earlier.push(lines[first - 1])
        } else {
            earlier
        }
    }
}

/// The last three lines of a text that are not blank, on one line.
pub open spec fn ending(text: Seq<char>) -> Seq<char> {
    let lines = crate::text::lines(text);
    let told = told_among(lines, lines.len() as int);
    crate::text::joined(
        if told.len() > 3 {
            told.skip(told.len() - 3)
        } else {
            told
        },
        " "@,
    )
}

/// The last three lines of a text that are not blank, on one line: where
/// package managers put the reason. The whole log would be unreadable in a
/// dialog.
pub fn tail_of(text: &str) -> (tail: String)
    ensures
        tail@ == ending(text@),
{
    let lines = split_lines(text);
    let ghost all = crate::text::slices(lines@);
    let mut told: Vec<&str> = Vec::new();
    let mut index: usize = 0;
    assert(all.len() == lines@.len());
    assert(crate::text::slices(told@) =~= Seq::empty());
    while index < lines.len()
        invariant
            index <= lines@.len(),
            all == crate::text::slices(lines@),
            all.len() == lines@.len(),
            crate::text::slices(told@) == told_among(all, index as int),
        decreases lines@.len() - index,
    {
        let ghost earlier = crate::text::slices(told@);
        assert(all[index as int] == lines@[index as int]@);
        if !trim(lines[index]).is_empty() {
            told.push(lines[index]);
            assert(crate::text::slices(told@) =~= earlier.push(all[index as int]));
        }
        index += 1;
    }
    let ghost every = crate::text::slices(told@);
    assert(every.len() == told@.len());
    let count = told.len();
    let mut kept: Vec<&str> = Vec::new();
    let start: usize = if count > 3 {
        count - 3
    } else {
        0
    };
    let mut at: usize = start;
    assert(crate::text::slices(kept@) =~= Seq::empty());
    assert(every.subrange(start as int, start as int) =~= Seq::empty());
    while at < count
        invariant
            start <= at <= count,
            count == told@.len(),
            every == crate::text::slices(told@),
            every.len() == count,
            crate::text::slices(kept@) == every.subrange(start as int, at as int),
        decreases count - at,
    {
        let ghost earlier = crate::text::slices(kept@);
        kept.push(told[at]);
        assert(crate::text::slices(kept@) =~= earlier.push(every[at as int]));
        assert(every.subrange(start as int, at + 1) =~= every.subrange(
            start as int,
            at as int,
        ).push(every[at as int]));
        at += 1;
    }
    assert(every.subrange(start as int, count as int) =~= if every.len() > 3 {
        every.skip(every.len() - 3)
    } else {
        every
    });
    join(&kept, " ")
}

/// The tail of a failed command's output: of what it wrote to its standard
/// error, or to its standard output where it wrote nothing there.
pub fn last_lines(stderr: &[u8], stdout: &[u8]) -> (tail: String)
    ensures
        tail@ == ending(
            text_of(
                if stderr@.len() == 0 {
                    stdout@
                } else {
                    stderr@
                },
            ),
        ),
{
    let text = if stderr.len() == 0 {
        lossy_text(stdout)
    } else {
        lossy_text(stderr)
    };
    tail_of(text.as_str())
}

/// Whether an exit code says that nobody allowed the step.
pub open spec fn unauthorised(code: i32) -> bool {
    code == WINDOWS_CANCELLED || code == PKEXEC_DISMISSED || code == PKEXEC_UNAVAILABLE
}

/// What running a step came to, given the tail of what it wrote.
pub open spec fn judged(step: Step, ran: Ran, tail: Seq<char>) -> Result<(), Blocked> {
    match ran {
        Ran::NotFound => Err(Blocked::ProgramNotFound(step.subject@, step.program@)),
        Ran::NotStarted { error } => Err(
            Blocked::StepFailed(step.subject@, step.program@, -1, error@),
        ),
        Ran::Exited { code, stdout, stderr } => match code {
            None => Ok(()),
            Some(code) => if code == 0 {
                Ok(())
            } else if unauthorised(code) {
                Err(Blocked::NotAuthorised(step.subject@))
            } else {
                Err(Blocked::StepFailed(step.subject@, step.program@, code as int, tail))
            },
        },
    }
}

/// The tail of what a command wrote.
pub open spec fn wrote(ran: Ran) -> Seq<char> {
    match ran {
        Ran::Exited { code, stdout, stderr } => ending(
            text_of(
                if stderr@.len() == 0 {
                    stdout@
                } else {
                    stderr@
                },
            ),
        ),
        _ => Seq::empty(),
    }
}

/// What a fallible step came to, as a mathematical value.
pub open spec fn blocked(result: Result<(), Blocker>) -> Result<(), Blocked> {
    match result {
        Ok(()) => Ok(()),
        Err(blocker) => Err(blocker@),
    }
}

/// What running a step came to, from how its command ended and the tail of
/// what it wrote.
pub fn judge(step: &Step, ran: &Ran, tail: String) -> (result: Result<(), Blocker>)
    ensures
        blocked(result) == judged(*step, *ran, tail@),
{
    match ran {
        // Nothing ran, so there is no exit code and no output to quote.
        Ran::NotFound => Err(
            Blocker::ProgramNotFound {
                display_name: step.subject.clone(),
                program: step.program.clone(),
            },
        ),
        Ran::NotStarted { error } => Err(
            Blocker::StepFailed {
                display_name: step.subject.clone(),
                program: step.program.clone(),
                code: -1,
                output: error.clone(),
            },
        ),
        Ran::Exited { code, .. } => match code {
            None => Ok(()),
            Some(code) => {
                if *code == 0 {
                    Ok(())
                } else if *code == WINDOWS_CANCELLED || *code == PKEXEC_DISMISSED || *code
                    == PKEXEC_UNAVAILABLE {
                    Err(Blocker::NotAuthorised { display_name: step.subject.clone() })
                } else {
                    Err(
                        Blocker::StepFailed {
                            display_name: step.subject.clone(),
                            program: step.program.clone(),
                            code: *code,
                            output: tail,
                        },
                    )
                }
            },
        },
    }
}

/// What running one step came to.
///
/// What the user is told about is [`Step::subject`]: "Installing Node.js
/// failed" is useful where "powershell.exe exited 1" is not. It is carried per
/// step, because a plan's last step installs the *project's* dependencies, and
/// reporting that failure as "Installing Node.js failed" names software that
/// installed perfectly.
pub fn run(step: &Step, ran: &Ran) -> (result: Result<(), Blocker>)
    ensures
        blocked(result) == judged(*step, *ran, wrote(*ran)),
{
    let tail = match ran {
        Ran::Exited { stdout, stderr, .. } => last_lines(stderr.as_slice(), stdout.as_slice()),
        _ => String::new(),
    };
    judge(step, ran, tail)
}

/// Whether a program is named by a path rather than by a bare name.
pub open spec fn names_a_path(program: Seq<char>) -> bool {
    crate::text::found(program, "/"@) is Some || crate::text::found(program, "\\"@) is Some
}

/// Whether a program is to be looked for on the search path: not where it is
/// already a path, for the caller wrote it, and resolving it would be ignoring
/// what they said.
pub fn is_bare_name(program: &str) -> (bare: bool)
    ensures
        bare == !names_a_path(program@),
{
    !contains(program, "/") && !contains(program, "\\")
}

/// Turn a program name into a path this machine can actually spawn: what was
/// found on the search path, for a bare name.
pub fn resolve(program: &str, found: Option<String>) -> (path: Option<String>)
    ensures
        crate::text::optional(path) == if names_a_path(program@) {
            None
        } else {
            crate::text::optional(found)
        },
{
    if is_bare_name(program) {
        found
    } else {
        None
    }
}

/// What is spawned for a program. A name that resolves to nothing is still
/// handed to the operating system rather than refused: a program reachable
/// some other way should not be blocked by a failure to find it.
pub fn spawnable(program: &str, found: Option<String>) -> (path: String)
    ensures
        path@ == if names_a_path(program@) || found is None {
            program@
        } else {
            found->0@
        },
{
    match resolve(program, found) {
        Some(path) => path,
        None => program.to_owned(),
    }
}

/// The first of so many candidates that was found, at or after `from`; the
/// number of candidates where none was.
pub open spec fn first_found(looked_up: Seq<Option<String>>, count: int, from: int) -> int
    decreases count - from,
{
    if from >= count || (from < looked_up.len() && looked_up[from] is Some) {
        from
    } else {
        first_found(looked_up, count, from + 1)
    }
}

/// Confirm an install by finding the executable: the first that was found of
/// the candidates, which were looked up in their order. A candidate that was
/// not looked up was not found.
///
/// Not finding one is not a failure of the install: it did work, and telling
/// the user otherwise sends them to reinstall software they have.
pub fn confirm(
    candidates: &Vec<String>,
    looked_up: &Vec<Option<String>>,
    display_name: &str,
) -> (found: Result<String, Blocker>)
    ensures
        match found {
            Ok(path) => {
                let at = first_found(looked_up@, candidates@.len() as int, 0);
                &&& at < candidates@.len()
                &&& at < looked_up@.len()
                &&& looked_up@[at] is Some
                &&& path@ == (looked_up@[at]->0)@
            },
            Err(blocker) => first_found(looked_up@, candidates@.len() as int, 0)
                >= candidates@.len() && blocker@ == Blocked::StillMissingAfterInstall(
                display_name@,
                crate::text::joined(crate::text::texts(candidates@), ", "@),
            ),
        },
{
    let count = candidates.len();
    let mut at: usize = 0;
    while at < count
        invariant
            at <= count,
            count == candidates@.len(),
            first_found(looked_up@, count as int, at as int) == first_found(
                looked_up@,
                count as int,
                0,
            ),
        decreases count - at,
    {
        if at < looked_up.len() {
            if let Some(path) = &looked_up[at] {
                return Ok(path.clone());
            }
        }
        at += 1;
    }
    Err(
        Blocker::StillMissingAfterInstall {
            display_name: display_name.to_owned(),
            executable: join_strings(candidates, ", "),
        },
    )
}

/// What asks Windows for a scope's `PATH` as the registry holds it.
pub fn environment_query(scope: &str) -> (script: String)
    ensures
        script@ == "[Environment]::GetEnvironmentVariable('Path','"@ + scope@ + "')"@,
{
    "[Environment]::GetEnvironmentVariable('Path','".to_owned().concat(scope).concat("')")
}

/// A `PATH` out of what a query wrote, if the query succeeded and wrote one.
pub fn environment_value(success: bool, stdout: &[u8]) -> (value: Option<String>)
    ensures
        crate::text::optional(value) == if success && crate::text::trimmed(
            text_of(stdout@),
        ).len() > 0 {
            Some(crate::text::trimmed(text_of(stdout@)))
        } else {
            None
        },
{
    if !success {
        return None;
    }
    let text = lossy_text(stdout);
    let value = trim(text.as_str());
    if value.is_empty() {
        None
    } else {
        Some(value.to_owned())
    }
}

/// A dismissed prompt and a failed install never arrive as the same outcome,
/// and a step succeeds only where its command did not end in a failure.
pub proof fn law_outcomes_are_told_apart(step: Step, ran: Ran, tail: Seq<char>)
    ensures
        judged(step, ran, tail) is Ok <==> ran is Exited && (ran->Exited_code is None
            || ran->Exited_code == Some(0i32)),
        judged(step, ran, tail) == Err::<(), Blocked>(Blocked::NotAuthorised(step.subject@))
            <==> ran is Exited && ran->Exited_code is Some && unauthorised(ran->Exited_code->0),
{
}

/// A program that never started is not reported as having exited.
pub proof fn law_what_never_ran_never_exited(step: Step, tail: Seq<char>)
    ensures
        judged(step, Ran::NotFound, tail) == Err::<(), Blocked>(
            Blocked::ProgramNotFound(step.subject@, step.program@),
        ),
{
}

/// Whatever blocks a step names what the step was for.
pub proof fn law_a_blocker_names_its_subject(step: Step, ran: Ran, tail: Seq<char>)
    requires
        judged(step, ran, tail) is Err,
    ensures
        match judged(step, ran, tail)->Err_0 {
            Blocked::ProgramNotFound(name, program) => name == step.subject@ && program
                == step.program@,
            Blocked::StepFailed(name, program, code, output) => name == step.subject@ && program
                == step.program@ && code != 0,
            Blocked::NotAuthorised(name) => name == step.subject@,
            Blocked::StillMissingAfterInstall(name, executable) => false,
        },
{
}

} // verus!

//! Timing of startup stages.
//!
//! A launch that is slow again should say *which* stage was slow, not just
//! that the window took a while. Each stage records its own duration and
//! whether it finished, timed out, or failed.

use vstd::prelude::*;

verus! {

/// One named step of startup.
#[derive(Debug, PartialEq, Eq)]
pub struct StartupStage {
    pub name: String,
    pub duration_ms: u64,
    /// `ok`, `timeout`, or a short error summary.
    pub outcome: String,
}

/// A step as a mathematical value.
pub struct Timed {
    pub name: Seq<char>,
    pub duration_ms: u64,
    pub outcome: Seq<char>,
}

impl View for StartupStage {
    type V = Timed;

    open spec fn view(&self) -> Timed {
        Timed { name: self.name@, duration_ms: self.duration_ms, outcome: self.outcome@ }
    }
}

/// Every stage that ran, in order, plus the total.
#[derive(Debug, PartialEq, Eq)]
pub struct StartupDiagnostics {
    pub stages: Vec<StartupStage>,
    pub total_ms: u64,
}

/// The diagnostics as a mathematical value.
#[verifier::ext_equal]
pub struct Timings {
    pub stages: Seq<Timed>,
    pub total_ms: u64,
}

impl View for StartupDiagnostics {
    type V = Timings;

    open spec fn view(&self) -> Timings {
        Timings {
            stages: self.stages@.map_values(|stage: StartupStage| stage@),
            total_ms: self.total_ms,
        }
    }
}

/// A number of milliseconds as it is recorded: the largest there is where it
/// is larger.
pub open spec fn capped(millis: int) -> u64 {
    if millis > u64::MAX {
        u64::MAX
    } else {
        millis as u64
    }
}

impl Timings {
    /// The diagnostics with one stage more.
    pub open spec fn with(self, name: Seq<char>, millis: int, outcome: Seq<char>) -> Timings {
        Timings {
            stages: self.stages.push(Timed { name, duration_ms: capped(millis), outcome }),
            total_ms: capped(self.total_ms + capped(millis)),
        }
    }
}

impl Default for StartupDiagnostics {
    fn default() -> (diagnostics: StartupDiagnostics)
        ensures
            diagnostics@ == (Timings { stages: Seq::empty(), total_ms: 0 }),
    {
        let diagnostics = StartupDiagnostics { stages: Vec::new(), total_ms: 0 };
        assert(diagnostics@ =~= Timings { stages: Seq::empty(), total_ms: 0 });
        diagnostics
    }
}

impl StartupDiagnostics {
    /// Record how many milliseconds a stage took and what came of it.
    pub fn record(&mut self, name: &str, millis: u128, outcome: &str)
        ensures
            final(self)@ == old(self)@.with(name@, millis as int, outcome@),
    {
        let duration_ms: u64 = if millis > 0xffff_ffff_ffff_ffff {
            0xffff_ffff_ffff_ffff
        } else {
            millis as u64
        };
        self.stages.push(
            StartupStage { name: name.to_owned(), duration_ms, outcome: outcome.to_owned() },
        );
        self.total_ms = self.total_ms.saturating_add(duration_ms);
        assert(self@ =~= old(self)@.with(name@, millis as int, outcome@));
    }

    /// Whether a stage took long enough to be worth a warning.
    pub fn is_slow(duration_ms: u64) -> (slow: bool)
        ensures
            slow == (duration_ms >= 500),
    {
        duration_ms >= 500
    }
}

/// What the stages took together.
pub open spec fn sum(stages: Seq<Timed>) -> int
    decreases stages.len(),
{
    if stages.len() == 0 {
        0
    } else {
        sum(stages.drop_last()) + stages.last().duration_ms
    }
}

proof fn sums_are_not_negative(stages: Seq<Timed>)
    ensures
        0 <= sum(stages),
    decreases stages.len(),
{
    if stages.len() > 0 {
        sums_are_not_negative(stages.drop_last());
    }
}

/// The total is what the stages took together, as far as it can be counted:
/// recording a stage keeps it so.
pub proof fn law_the_total_is_the_sum(
    timings: Timings,
    name: Seq<char>,
    millis: int,
    outcome: Seq<char>,
)
    requires
        millis >= 0,
        timings.total_ms == capped(sum(timings.stages)),
    ensures
        timings.with(name, millis, outcome).total_ms == capped(
            sum(timings.with(name, millis, outcome).stages),
        ),
        timings.with(name, millis, outcome).stages.drop_last() == timings.stages,
{
    let next = timings.with(name, millis, outcome);
    sums_are_not_negative(timings.stages);
    assert(next.stages.drop_last() =~= timings.stages);
}

/// A stage is recorded last, under its own name, with how long it took and what
/// came of it; no other stage changes.
pub proof fn law_a_stage_is_recorded_as_it_was(
    timings: Timings,
    name: Seq<char>,
    millis: int,
    outcome: Seq<char>,
)
    requires
        millis >= 0,
    ensures
        ({
            let next = timings.with(name, millis, outcome);
            &&& next.stages.len() == timings.stages.len() + 1
            &&& forall|i: int|
                0 <= i < timings.stages.len() ==> #[trigger] next.stages[i] == timings.stages[i]
            &&& next.stages.last().name == name
            &&& next.stages.last().outcome == outcome
            &&& millis <= u64::MAX ==> next.stages.last().duration_ms == millis
            &&& millis > u64::MAX ==> next.stages.last().duration_ms == u64::MAX
            &&& timings.total_ms + next.stages.last().duration_ms <= u64::MAX ==> next.total_ms
                == timings.total_ms + next.stages.last().duration_ms
            &&& timings.total_ms + next.stages.last().duration_ms > u64::MAX ==> next.total_ms
                == u64::MAX
        }),
{
}

/// What was recorded is read as it is written.
pub proof fn law_timings_are_read_whole(diagnostics: StartupDiagnostics)
    ensures
        diagnostics@.total_ms == diagnostics.total_ms,
        diagnostics@.stages.len() == diagnostics.stages@.len(),
        forall|i: int|
            0 <= i < diagnostics.stages@.len() ==> (#[trigger] diagnostics@.stages[i]).name
                == diagnostics.stages@[i].name@ && diagnostics@.stages[i].duration_ms
                == diagnostics.stages@[i].duration_ms && diagnostics@.stages[i].outcome
                == diagnostics.stages@[i].outcome@,
{
}

} // verus!

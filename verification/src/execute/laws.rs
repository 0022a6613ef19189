//! What running a step came to, said of how it ended and what it wrote.

use super::{Blocked, Blocker, Ran, Step};
use vstd::prelude::*;

verus! {

/// A step succeeds where its command ended well, or where a signal ended it. A
/// step nobody allowed is told by its exit code: the prompt was dismissed on
/// either system, or there was none. Any other failure is told with its code
/// and the tail of what it wrote, and what never started is told as such. The
/// user is told of the subject of the step.
pub proof fn law_a_step_is_judged_by_how_it_ended(step: Step, ran: Ran, tail: Seq<char>)
    ensures
        ran is NotFound ==> super::judged(step, ran, tail) == Err::<(), Blocked>(
            Blocked::ProgramNotFound(step.subject@, step.program@),
        ),
        ran is NotStarted ==> super::judged(step, ran, tail) == Err::<(), Blocked>(
            Blocked::StepFailed(step.subject@, step.program@, -1, ran->NotStarted_error@),
        ),
        ran is Exited && ran->Exited_code is None ==> super::judged(step, ran, tail) is Ok,
        ran is Exited && ran->Exited_code == Some(0i32) ==> super::judged(step, ran, tail) is Ok,
        ran is Exited && (ran->Exited_code == Some(1223i32) || ran->Exited_code == Some(126i32)
            || ran->Exited_code == Some(127i32)) ==> super::judged(step, ran, tail) == Err::<
            (),
            Blocked,
        >(Blocked::NotAuthorised(step.subject@)),
        ran is Exited && ran->Exited_code is Some && ran->Exited_code->0 != 0
            && ran->Exited_code->0 != 1223 && ran->Exited_code->0 != 126 && ran->Exited_code->0
            != 127 ==> super::judged(step, ran, tail) == Err::<(), Blocked>(
            Blocked::StepFailed(
                step.subject@,
                step.program@,
                ran->Exited_code->0 as int,
                tail,
            ),
        ),
{
}

/// The reason is looked for in what a command wrote to its standard error, and
/// in its standard output only where it wrote nothing there. What never ran
/// wrote nothing.
pub proof fn law_the_reason_is_in_the_standard_error(ran: Ran)
    ensures
        ran is Exited && ran->Exited_stderr@.len() > 0 ==> super::wrote(ran) == super::ending(
            super::text_of(ran->Exited_stderr@),
        ),
        ran is Exited && ran->Exited_stderr@.len() == 0 ==> super::wrote(ran) == super::ending(
            super::text_of(ran->Exited_stdout@),
        ),
        !(ran is Exited) ==> super::wrote(ran).len() == 0,
{
}

/// Bytes are read as the text they encode, where they encode one.
pub proof fn law_text_is_read_as_it_was_written(bytes: Seq<u8>)
    requires
        vstd::utf8::valid_utf8(bytes),
    ensures
        super::text_of(bytes) == vstd::utf8::decode_utf8(bytes),
{
}

/// Blank lines are passed over, every other line is kept, and lines keep their
/// order.
pub proof fn law_blank_lines_are_passed_over(lines: Seq<Seq<char>>, more: Seq<char>)
    ensures
        super::told_among(Seq::empty(), 0).len() == 0,
        super::told_among(lines.push(more), lines.len() as int + 1) == if crate::text::trimmed(
            more,
        ).len() > 0 {
            super::told_among(lines, lines.len() as int).push(more)
        } else {
            super::told_among(lines, lines.len() as int)
        },
{
    the_first_are_told_alike(lines, lines.push(more), lines.len() as int);
}

proof fn the_first_are_told_alike(one: Seq<Seq<char>>, other: Seq<Seq<char>>, first: int)
    requires
        first <= one.len(),
        first <= other.len(),
        forall|i: int| 0 <= i < first ==> #[trigger] one[i] == other[i],
    ensures
        super::told_among(one, first) == super::told_among(other, first),
    decreases first,
{
    if first > 0 {
        assert(one[first - 1] == other[first - 1]);
        the_first_are_told_alike(one, other, first - 1);
    }
}

/// The tail of a text is the last three of its lines that say something, in
/// their order, with a space between every two; fewer where there are fewer.
pub proof fn law_the_tail_is_the_last_three_lines(text: Seq<char>)
    ensures
        ({
            let lines = crate::text::lines(text);
            let told = super::told_among(lines, lines.len() as int);
            let count = told.len() as int;
            &&& count == 0 ==> super::ending(text).len() == 0
            &&& count == 1 ==> super::ending(text) == told[0]
            &&& count == 2 ==> super::ending(text) == told[0] + " "@ + told[1]
            &&& count >= 3 ==> super::ending(text) == told[count - 3] + " "@ + told[count - 2]
                + " "@ + told[count - 1]
        }),
{
    let lines = crate::text::lines(text);
    let told = super::told_among(lines, lines.len() as int);
    let count = told.len() as int;
    let kept = if count > 3 {
        told.skip(count - 3)
    } else {
        told
    };
    if count == 1 {
        assert(kept =~= seq![told[0]]);
    } else if count == 2 {
        assert(kept.drop_last() =~= seq![told[0]]);
        assert(crate::text::joined(seq![told[0]], " "@) == told[0]);
    } else if count >= 3 {
        assert(kept.len() == 3);
        let two = kept.drop_last();
        assert(two.drop_last() =~= seq![told[count - 3]]);
        assert(crate::text::joined(seq![told[count - 3]], " "@) == told[count - 3]);
        assert(crate::text::joined(two, " "@) == told[count - 3] + " "@ + told[count - 2]);
    }
}

/// A program is a path where either slash stands in it.
pub proof fn law_a_slash_makes_a_path(program: Seq<char>)
    ensures
        super::names_a_path(program) <==> exists|i: int|
            0 <= i < program.len() && (#[trigger] program[i] == '/' || program[i] == '\\'),
{
    reveal_strlit("/");
    reveal_strlit("\\");
    assert("/"@.len() == 1 && "/"@[0] == '/');
    assert("\\"@.len() == 1 && "\\"@[0] == '\\');
    crate::text::laws::law_a_text_is_found_where_it_first_stands(program, "/"@);
    crate::text::laws::law_a_text_is_found_where_it_first_stands(program, "\\"@);
    if crate::text::found(program, "/"@) is Some {
        let at = crate::text::found(program, "/"@)->0;
        assert("/"@[0] == program[at + 0]);
        assert(program[at] == '/');
    }
    if crate::text::found(program, "\\"@) is Some {
        let at = crate::text::found(program, "\\"@)->0;
        assert("\\"@[0] == program[at + 0]);
        assert(program[at] == '\\');
    }
    if exists|i: int|
        0 <= i < program.len() && (#[trigger] program[i] == '/' || program[i] == '\\') {
        let i = choose|i: int|
            0 <= i < program.len() && (#[trigger] program[i] == '/' || program[i] == '\\');
        if program[i] == '/' {
            assert(crate::text::laws::occurs(program, "/"@, i));
        } else {
            assert(crate::text::laws::occurs(program, "\\"@, i));
        }
    }
}

proof fn the_first_is_found(looked_up: Seq<Option<String>>, count: int, from: int, at: int)
    requires
        0 <= from <= at <= count,
        forall|j: int| from <= j < at && j < looked_up.len() ==> #[trigger] looked_up[j] is None,
        at < count ==> at < looked_up.len() && looked_up[at] is Some,
    ensures
        super::first_found(looked_up, count, from) == at,
    decreases at - from,
{
    if from < at {
        if from < looked_up.len() {
            assert(looked_up[from] is None);
        }
        the_first_is_found(looked_up, count, from + 1, at);
    }
}

/// The executable of an install is the first candidate that was found, and an
/// install of which none was found is missing still.
pub proof fn law_the_first_candidate_found_is_taken(
    looked_up: Seq<Option<String>>,
    count: int,
    at: int,
)
    requires
        0 <= at <= count,
        forall|j: int| 0 <= j < at && j < looked_up.len() ==> #[trigger] looked_up[j] is None,
        at < count ==> at < looked_up.len() && looked_up[at] is Some,
    ensures
        super::first_found(looked_up, count, 0) == at,
{
    the_first_is_found(looked_up, count, 0, at);
}

/// A blocker is read as it is written.
pub proof fn law_a_blocker_is_read_whole(blocker: Blocker)
    ensures
        match blocker {
            Blocker::ProgramNotFound { display_name, program } => blocker@
                == Blocked::ProgramNotFound(display_name@, program@),
            Blocker::StepFailed { display_name, program, code, output } => blocker@
                == Blocked::StepFailed(display_name@, program@, code as int, output@),
            Blocker::NotAuthorised { display_name } => blocker@ == Blocked::NotAuthorised(
                display_name@,
            ),
            Blocker::StillMissingAfterInstall { display_name, executable } => blocker@
                == Blocked::StillMissingAfterInstall(display_name@, executable@),
        },
{
}

/// What a step came to is passed on.
pub proof fn law_what_a_step_came_to_is_passed_on(result: Result<(), Blocker>)
    ensures
        result is Ok ==> super::blocked(result) is Ok,
        result is Err ==> super::blocked(result) == Err::<(), Blocked>(result->Err_0@),
{
}

} // verus!

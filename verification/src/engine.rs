//! The decisions of the write loop: write the batch again after each write
//! that went through, stop at the first one that did not.

use vstd::prelude::*;

verus! {

/// What the loop does next.
#[derive(Debug, PartialEq)]
pub enum Step<E> {
    /// Write the batch once more.
    WriteAgain,
    /// Leave the loop and hand this failure to the caller.
    Stop(E),
}

/// The step that follows a write with the given outcome.
pub open spec fn step_after<E>(outcome: Result<(), E>) -> Step<E> {
    match outcome {
        Ok(_) => Step::WriteAgain,
        Err(failure) => Step::Stop(failure),
    }
}

/// Decides what follows a write of the batch. A write that went through is
/// followed by the next; any failure ends the loop, whatever its cause, and
/// is handed on as it came.
pub fn next_step<E>(outcome: Result<(), E>) -> (step: Step<E>)
    ensures
        step == step_after(outcome),
{
    match outcome {
        Ok(_) => Step::WriteAgain,
        Err(failure) => Step::Stop(failure),
    }
}

/// The number of writes that the loop attempts when the sink answers them
/// with `answers` in turn: all up to and including the first that fails.
pub open spec fn writes_attempted<E>(answers: Seq<Result<(), E>>) -> nat
    decreases answers.len(),
{
    if answers.len() == 0 {
        0
    } else {
        match step_after(answers[0]) {
            Step::Stop(_) => 1,
            Step::WriteAgain => 1 + writes_attempted(answers.drop_first()),
        }
    }
}

/// The failure with which the loop ends on these answers, if it ends.
pub open spec fn failure_reported<E>(answers: Seq<Result<(), E>>) -> Option<E>
    decreases answers.len(),
{
    if answers.len() == 0 {
        None
    } else {
        match step_after(answers[0]) {
            Step::Stop(failure) => Some(failure),
            Step::WriteAgain => failure_reported(answers.drop_first()),
        }
    }
}

/// The loop ends at the first write that fails: where the writes before
/// the one at `at` went through and that one failed, the loop has attempted
/// `at + 1` writes and reports the failure of the last.
pub proof fn lemma_loop_ends_at_first_failure<E>(answers: Seq<Result<(), E>>, at: int)
    requires
        0 <= at < answers.len(),
        answers[at] is Err,
        forall|i: int| 0 <= i < at ==> answers[i] is Ok,
    ensures
        writes_attempted(answers) == at + 1,
        failure_reported(answers) == Some(answers[at]->Err_0),
    decreases at,
{
    if at > 0 {
        let rest = answers.drop_first();
        assert(answers[0] is Ok);
        assert(forall|i: int| 0 <= i < at - 1 ==> rest[i] == answers[i + 1]);
        lemma_loop_ends_at_first_failure(rest, at - 1);
    }
}

/// A sink that fails on the first write ends the loop after that one write,
/// and the loop reports the sink's own failure.
pub proof fn lemma_first_failure_ends_loop<E>(answers: Seq<Result<(), E>>, failure: E)
    requires
        answers.len() > 0,
        answers[0] == Err::<(), E>(failure),
    ensures
        writes_attempted(answers) == 1,
        failure_reported(answers) == Some(failure),
{
}

/// While the sink takes every write the loop goes on: it attempts every
/// write that is answered and reports no failure.
pub proof fn lemma_loop_goes_on_while_writes_succeed<E>(answers: Seq<Result<(), E>>)
    requires
        forall|i: int| 0 <= i < answers.len() ==> answers[i] is Ok,
    ensures
        writes_attempted(answers) == answers.len(),
        failure_reported(answers) is None,
    decreases answers.len(),
{
    if answers.len() > 0 {
        lemma_loop_goes_on_while_writes_succeed(answers.drop_first());
    }
}

} // verus!

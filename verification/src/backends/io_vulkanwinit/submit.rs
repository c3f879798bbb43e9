//! The order in which a command buffer is reset, recorded and submitted to a queue.
use vstd::prelude::*;

verus! {

/// A step of the device work that failed.
#[derive(Clone, Copy, Debug, PartialEq, Eq)]
pub enum SubmitFailure {
    Reset,
    Begin,
    End,
    Submit,
}

impl SubmitFailure {
    /// The message with which the submission stops.
    pub open spec fn spec_message(self) -> Seq<char> {
        match self {
            SubmitFailure::Reset => "Reset command buffer failed."@,
            SubmitFailure::Begin => "Begin commandbuffer"@,
            SubmitFailure::End => "End commandbuffer"@,
            SubmitFailure::Submit => "queue submit failed."@,
        }
    }

    /// The message with which the submission stops.
    pub fn message(&self) -> (r: &'static str)
        ensures
            r@ == self.spec_message(),
    {
        match self {
            SubmitFailure::Reset => "Reset command buffer failed.",
            SubmitFailure::Begin => "Begin commandbuffer",
            SubmitFailure::End => "End commandbuffer",
            SubmitFailure::Submit => "queue submit failed.",
        }
    }
}

/// The next piece of device work to carry out.
#[derive(Clone, Copy, Debug, PartialEq, Eq)]
pub enum SubmitAction {
    /// Reset the command buffer, releasing its resources.
    ResetBuffer,
    /// Begin recording for a single submission.
    BeginBuffer,
    /// Record the caller's commands.
    RecordCommands,
    /// End recording.
    EndBuffer,
    /// Submit the buffer to the queue with the given semaphores and fence.
    SubmitToQueue,
    /// The buffer is on the queue; nothing is left to do.
    Complete,
    /// Stop: the named step failed.
    Abort(SubmitFailure),
}

/// Where a submission stands.
#[derive(Clone, Copy, Debug, PartialEq, Eq)]
pub enum SubmitPhase {
    Resetting,
    Beginning,
    Recording,
    Ending,
    Submitting,
    Finished,
    Failed,
}

/// The phase after the work of `phase` came back (`ok` when it succeeded), and what
/// to do next.
pub open spec fn submit_step(phase: SubmitPhase, ok: bool) -> (SubmitPhase, SubmitAction) {
    match phase {
        SubmitPhase::Resetting => if ok {
            (SubmitPhase::Beginning, SubmitAction::BeginBuffer)
        } else {
            (SubmitPhase::Failed, SubmitAction::Abort(SubmitFailure::Reset))
        },
        SubmitPhase::Beginning => if ok {
            (SubmitPhase::Recording, SubmitAction::RecordCommands)
        } else {
            (SubmitPhase::Failed, SubmitAction::Abort(SubmitFailure::Begin))
        },
        // Recording the caller's commands cannot fail.
        SubmitPhase::Recording => (SubmitPhase::Ending, SubmitAction::EndBuffer),
        SubmitPhase::Ending => if ok {
            (SubmitPhase::Submitting, SubmitAction::SubmitToQueue)
        } else {
            (SubmitPhase::Failed, SubmitAction::Abort(SubmitFailure::End))
        },
        SubmitPhase::Submitting => if ok {
            (SubmitPhase::Finished, SubmitAction::Complete)
        } else {
            (SubmitPhase::Failed, SubmitAction::Abort(SubmitFailure::Submit))
        },
        SubmitPhase::Finished => (SubmitPhase::Finished, SubmitAction::Complete),
        SubmitPhase::Failed => (SubmitPhase::Failed, SubmitAction::Complete),
    }
}

/// One submission of a command buffer, driven step by step: the caller carries out
/// each action and reports whether it succeeded.
pub struct CommandSubmission {
    phase: SubmitPhase,
}

impl CommandSubmission {
    pub closed spec fn phase(&self) -> SubmitPhase {
        self.phase
    }

    /// Starts a submission; the first piece of work is the reset of the buffer.
    pub fn start() -> (r: (CommandSubmission, SubmitAction))
        ensures
            r.0.phase() == SubmitPhase::Resetting,
            r.1 == SubmitAction::ResetBuffer,
    {
        (CommandSubmission { phase: SubmitPhase::Resetting }, SubmitAction::ResetBuffer)
    }

    /// Takes the outcome of the last action and returns the next one.
    pub fn advance(&mut self, ok: bool) -> (r: SubmitAction)
        ensures
            (final(self).phase(), r) == submit_step(old(self).phase(), ok),
    {
        let (phase, action) = match self.phase {
            SubmitPhase::Resetting => if ok {
                (SubmitPhase::Beginning, SubmitAction::BeginBuffer)
            } else {
                (SubmitPhase::Failed, SubmitAction::Abort(SubmitFailure::Reset))
            },
            SubmitPhase::Beginning => if ok {
                (SubmitPhase::Recording, SubmitAction::RecordCommands)
            } else {
                (SubmitPhase::Failed, SubmitAction::Abort(SubmitFailure::Begin))
            },
            SubmitPhase::Recording => (SubmitPhase::Ending, SubmitAction::EndBuffer),
            SubmitPhase::Ending => if ok {
                (SubmitPhase::Submitting, SubmitAction::SubmitToQueue)
            } else {
                (SubmitPhase::Failed, SubmitAction::Abort(SubmitFailure::End))
            },
            SubmitPhase::Submitting => if ok {
                (SubmitPhase::Finished, SubmitAction::Complete)
            } else {
                (SubmitPhase::Failed, SubmitAction::Abort(SubmitFailure::Submit))
            },
            SubmitPhase::Finished => (SubmitPhase::Finished, SubmitAction::Complete),
            SubmitPhase::Failed => (SubmitPhase::Failed, SubmitAction::Complete),
        };
        self.phase = phase;
        action
    }
}

/// When every step succeeds, a submission resets, begins, records, ends and submits
/// the buffer, in that order, and then is complete.
pub proof fn lemma_submission_order()
    ensures
        ({
            let s1 = submit_step(SubmitPhase::Resetting, true);
            let s2 = submit_step(s1.0, true);
            let s3 = submit_step(s2.0, true);
            let s4 = submit_step(s3.0, true);
            let s5 = submit_step(s4.0, true);
            &&& s1.1 == SubmitAction::BeginBuffer
            &&& s2.1 == SubmitAction::RecordCommands
            &&& s3.1 == SubmitAction::EndBuffer
            &&& s4.1 == SubmitAction::SubmitToQueue
            &&& s5 == (SubmitPhase::Finished, SubmitAction::Complete)
        }),
{
}

/// A failed reset, begin, end or submit stops the submission with that step's
/// failure, and nothing more is asked of the device afterwards, whatever is reported.
pub proof fn lemma_failure_is_final(phase: SubmitPhase, later: bool)
    requires
        phase is Resetting || phase is Beginning || phase is Ending || phase is Submitting,
    ensures
        submit_step(phase, false).0 == SubmitPhase::Failed,
        submit_step(phase, false).1 is Abort,
        submit_step(SubmitPhase::Failed, later) == (SubmitPhase::Failed, SubmitAction::Complete),
{
}

/// The buffer goes to the queue only right after its recording was ended successfully,
/// and the submission is complete only after the queue took it.
pub proof fn lemma_submit_only_after_end(phase: SubmitPhase, ok: bool)
    ensures
        submit_step(phase, ok).1 == SubmitAction::SubmitToQueue <==> phase == SubmitPhase::Ending && ok,
        submit_step(phase, ok).0 == SubmitPhase::Finished <==> (phase == SubmitPhase::Submitting && ok)
            || phase == SubmitPhase::Finished,
{
}

} // verus!

//! The startup sequencer: a strict fail-fast combinator over the registry
//! pre-flight check and the host's main loop.
//!
//! The host performs the two fallible actions themselves (the pre-flight
//! check may suspend on I/O, and the main loop blocks for the life of the
//! process); the sequencer here is the decision machine the host drives.
//! It counts every directive to invoke the main loop, so the short-circuit
//! guarantee — the loop never begins after a failed precondition — is an
//! observable fact about its state.

use vstd::prelude::*;

use crate::errors::ExtensionError;

verus! {

/// What the startup precondition check (the registry pre-flight) reported.
/// Produced once per process start and consumed exactly once.
#[derive(Debug, PartialEq, Eq)]
pub enum StartupOutcome {
    /// The check passed; the host's main loop may begin.
    Proceed,
    /// The check failed for the given reason; the main loop must never begin.
    Abort(String),
}

impl StartupOutcome {
    /// The failure a pre-flight report surfaces, if any: an `Abort` is a
    /// `PreconditionFailed` carrying its reason, which unconditionally
    /// prevents the host's main loop from running; a `Proceed` surfaces
    /// nothing.
    pub fn as_error(&self) -> (e: Option<ExtensionError>)
        ensures
            match e {
                Some(err) => self matches StartupOutcome::Abort(reason)
                    && err == ExtensionError::PreconditionFailed(*reason),
                None => self is Proceed,
            },
    {
        match self {
            StartupOutcome::Proceed => None,
            StartupOutcome::Abort(reason) => Some(ExtensionError::PreconditionFailed(reason.clone())),
        }
    }
}

/// What the process reports on its exit path.
#[derive(Debug, PartialEq, Eq)]
pub enum ProcessOutcome {
    /// Clean shutdown: exit status zero.
    Success,
    /// Startup was aborted or the main loop failed: a non-zero exit status,
    /// with the reason for the standard error stream.
    Failure(String),
}

/// Where the sequencer stands in the startup sequence.
#[derive(Clone, Copy, Debug, PartialEq, Eq, Structural)]
pub enum SequencerPhase {
    /// Waiting for the precondition check to report.
    AwaitingPrecondition,
    /// The precondition passed and the main loop has been invoked.
    RunningMainLoop,
    /// The sequence is over; `outcome` holds the process outcome. Terminal:
    /// no method accepts a finished sequencer.
    Finished,
}

/// Runs the startup sequence: evaluate the precondition, and only on success
/// hand control to the host's main loop, whose result then becomes the
/// process outcome unchanged. On failure, short-circuit: the main loop is
/// never invoked and the reason goes to the exit path.
pub struct StartupSequencer {
    /// Current phase of the sequence.
    pub phase: SequencerPhase,
    /// How many times the main loop has been invoked. Stays zero whenever
    /// the precondition fails; never exceeds one.
    pub main_loop_invocations: u64,
    /// The process outcome, once the sequence is finished.
    pub outcome: Option<ProcessOutcome>,
}

/// The sequencing rule as a single function over the two fallible actions:
/// a failed precondition short-circuits with its reason, and otherwise the
/// main loop's result is propagated unchanged.
pub open spec fn sequenced_outcome(check: StartupOutcome, loop_result: ProcessOutcome) -> ProcessOutcome {
    match check {
        StartupOutcome::Proceed => loop_result,
        StartupOutcome::Abort(reason) => ProcessOutcome::Failure(reason),
    }
}

impl StartupSequencer {
    /// A sequencer is well formed when its call counter and outcome agree
    /// with its phase.
    pub open spec fn wf(self) -> bool {
        match self.phase {
            SequencerPhase::AwaitingPrecondition => self.main_loop_invocations == 0 && self.outcome is None,
            SequencerPhase::RunningMainLoop => self.main_loop_invocations == 1 && self.outcome is None,
            SequencerPhase::Finished => self.main_loop_invocations <= 1 && self.outcome is Some,
        }
    }

    /// The state a fresh sequencer starts in.
    pub open spec fn spec_new() -> StartupSequencer {
        StartupSequencer {
            phase: SequencerPhase::AwaitingPrecondition,
            main_loop_invocations: 0,
            outcome: None,
        }
    }

    /// How the sequencer steps when the precondition reports: `Proceed`
    /// directs the main loop to run (counted); `Abort` finishes at once with
    /// the reason as the process outcome.
    pub open spec fn spec_apply_precondition(s: StartupSequencer, check: StartupOutcome) -> StartupSequencer {
        match check {
            StartupOutcome::Proceed => StartupSequencer {
                phase: SequencerPhase::RunningMainLoop,
                main_loop_invocations: (s.main_loop_invocations + 1) as u64,
                outcome: s.outcome,
            },
            StartupOutcome::Abort(reason) => StartupSequencer {
                phase: SequencerPhase::Finished,
                main_loop_invocations: s.main_loop_invocations,
                outcome: Some(ProcessOutcome::Failure(reason)),
            },
        }
    }

    /// How the sequencer steps when the main loop returns: its result
    /// becomes the process outcome unchanged.
    pub open spec fn spec_apply_main_loop_result(s: StartupSequencer, result: ProcessOutcome) -> StartupSequencer {
        StartupSequencer {
            phase: SequencerPhase::Finished,
            main_loop_invocations: s.main_loop_invocations,
            outcome: Some(result),
        }
    }

    /// A fresh sequencer: awaiting the precondition, with the main loop
    /// never yet invoked.
    pub fn new() -> (s: StartupSequencer)
        ensures
            s == StartupSequencer::spec_new(),
            s.wf(),
    {
        StartupSequencer {
            phase: SequencerPhase::AwaitingPrecondition,
            main_loop_invocations: 0,
            outcome: None,
        }
    }

    /// Consume the precondition's report. Returns whether the host must now
    /// invoke its main loop: true exactly when the check passed. On `Abort`
    /// the sequence finishes at once — the main loop counter is untouched —
    /// and the reason becomes the process outcome.
    pub fn apply_precondition(&mut self, check: StartupOutcome) -> (invoke_main_loop: bool)
        requires
            old(self).wf(),
            old(self).phase is AwaitingPrecondition,
        ensures
            final(self).wf(),
            *final(self) == StartupSequencer::spec_apply_precondition(*old(self), check),
            invoke_main_loop == (check is Proceed),
            check is Proceed ==> final(self).phase is RunningMainLoop
                && final(self).main_loop_invocations == 1,
            check matches StartupOutcome::Abort(reason) ==> final(self).phase is Finished
                && final(self).main_loop_invocations == 0
                && final(self).outcome == Some(ProcessOutcome::Failure(reason)),
    {
        match check {
            StartupOutcome::Proceed => {
                self.phase = SequencerPhase::RunningMainLoop;
                self.main_loop_invocations = self.main_loop_invocations + 1;
                true
            },
            StartupOutcome::Abort(reason) => {
                self.phase = SequencerPhase::Finished;
                self.outcome = Some(ProcessOutcome::Failure(reason));
                false
            },
        }
    }

    /// Consume the main loop's result: it is propagated unchanged to the
    /// process outcome, and the sequence finishes.
    pub fn apply_main_loop_result(&mut self, result: ProcessOutcome)
        requires
            old(self).wf(),
            old(self).phase is RunningMainLoop,
        ensures
            final(self).wf(),
            *final(self) == StartupSequencer::spec_apply_main_loop_result(*old(self), result),
            final(self).phase is Finished,
            final(self).main_loop_invocations == old(self).main_loop_invocations,
            final(self).outcome == Some(result),
    {
        self.phase = SequencerPhase::Finished;
        self.outcome = Some(result);
    }
}

impl ProcessOutcome {
    /// The exit status the process reports: zero exactly on clean success,
    /// and one on any failure.
    pub fn exit_status(&self) -> (code: i32)
        ensures
            (code == 0) <==> (self is Success),
            self is Failure ==> code == 1,
    {
        match self {
            ProcessOutcome::Success => 0,
            ProcessOutcome::Failure(_) => 1,
        }
    }

    /// The diagnostic reason carried by a failure, if any.
    pub fn failure_reason(&self) -> (reason: Option<&String>)
        ensures
            match reason {
                Some(r) => self matches ProcessOutcome::Failure(f) && r == f,
                None => self is Success,
            },
    {
        match self {
            ProcessOutcome::Success => None,
            ProcessOutcome::Failure(reason) => Some(reason),
        }
    }
}

/// Law: if the precondition reports failure, the main loop is never invoked —
/// a sequencer that sees `Abort` finishes with the invocation counter still
/// zero and the abort reason as the process outcome.
pub proof fn lemma_abort_short_circuits(reason: String)
    ensures
        ({
            let finished = StartupSequencer::spec_apply_precondition(
                StartupSequencer::spec_new(),
                StartupOutcome::Abort(reason),
            );
            &&& finished.main_loop_invocations == 0
            &&& finished.phase is Finished
            &&& finished.outcome == Some(ProcessOutcome::Failure(reason))
        }),
{
}

/// Law: if the precondition reports success, the main loop is invoked exactly
/// once and its result — success or failure — becomes the process outcome
/// unchanged, which is the sequencing rule `sequenced_outcome` in two steps.
pub proof fn lemma_proceed_runs_main_loop_once(result: ProcessOutcome)
    ensures
        ({
            let running = StartupSequencer::spec_apply_precondition(
                StartupSequencer::spec_new(),
                StartupOutcome::Proceed,
            );
            let finished = StartupSequencer::spec_apply_main_loop_result(running, result);
            &&& running.main_loop_invocations == 1
            &&& finished.main_loop_invocations == 1
            &&& finished.phase is Finished
            &&& finished.outcome == Some(result)
            &&& finished.outcome == Some(sequenced_outcome(StartupOutcome::Proceed, result))
        }),
{
}

} // verus!

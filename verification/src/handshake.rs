//! The cooperative handshake adapter.
//!
//! A synchronous TLS library performs its handshake by reading and writing a
//! stream, reporting "would block" whenever the transport is not ready. To run
//! such a handshake over an asynchronous transport, the adapter exposes a
//! re-entrant *advance* operation: each attempt of the synchronous handshake
//! step is classified into a [`StepOutcome`], and [`HandshakeDriver::advance`]
//! turns it into the [`Directive`] the driving scheduler must follow — hand
//! the encrypted stream out, fail the connection attempt, or suspend until
//! the transport is ready in the indicated [`Direction`] and then retry.
//!
//! The driver records the whole run as a ghost trace, and the lemmas at the
//! bottom pin the protocol down: a run reaches [`Phase::Done`] exactly when a
//! final successful step follows a (possibly empty) run of suspensions, a
//! terminal phase is never left, and no traffic may cross the stream before
//! the handshake has fully completed.

use vstd::prelude::*;

verus! {

/// The readiness a suspended handshake waits for on the underlying transport.
#[derive(Clone, Copy, PartialEq, Eq, Structural, Debug)]
pub enum Direction {
    Readable,
    Writable,
}

/// What one attempt of the synchronous handshake step reported.
#[derive(Clone, Copy, PartialEq, Eq, Structural, Debug)]
pub enum StepOutcome {
    /// The handshake finished and negotiated a session.
    Complete,
    /// The step could not proceed before the transport is ready in the given
    /// direction; it must be retried after that readiness is signaled.
    Blocked(Direction),
    /// Certificate validation, protocol mismatch, or unexpected closure: the
    /// connection attempt is over.
    Failed,
}

/// Phase of the adapter's state machine.
#[derive(Clone, Copy, PartialEq, Eq, Structural, Debug)]
pub enum Phase {
    InProgress,
    Done,
    Failed,
}

/// What the driving scheduler must do after one advance.
#[derive(Clone, Copy, PartialEq, Eq, Structural, Debug)]
pub enum Directive {
    /// Yield the wrapped, encrypting stream to the consumer.
    Deliver,
    /// Fail the connection attempt outright; the raw stream is not reused.
    Fail,
    /// Suspend; retry the handshake step once this readiness is observed.
    Await(Direction),
}

/// The phase a single step moves an in-progress handshake to.
pub open spec fn step_phase(step: StepOutcome) -> Phase {
    match step {
        StepOutcome::Complete => Phase::Done,
        StepOutcome::Blocked(_) => Phase::InProgress,
        StepOutcome::Failed => Phase::Failed,
    }
}

/// The phase after a whole run of steps, starting in progress. A terminal
/// phase absorbs any further step; the driver never generates such a run.
pub open spec fn run_phase(steps: Seq<StepOutcome>) -> Phase
    decreases steps.len(),
{
    if steps.len() == 0 {
        Phase::InProgress
    } else if run_phase(steps.drop_last()) != Phase::InProgress {
        run_phase(steps.drop_last())
    } else {
        step_phase(steps.last())
    }
}

/// A run as the driver produces it: every step was taken from the
/// in-progress phase, never from a terminal one.
pub open spec fn live_run(steps: Seq<StepOutcome>) -> bool {
    forall|i: int| 0 <= i < steps.len() ==> run_phase(#[trigger] steps.take(i)) == Phase::InProgress
}

/// One handshake attempt's state machine, as driven by the scheduler.
pub struct HandshakeDriver {
    phase: Phase,
    trace: Ghost<Seq<StepOutcome>>,
}

impl HandshakeDriver {
    /// The current phase.
    pub closed spec fn phase(self) -> Phase {
        self.phase
    }

    /// The steps taken so far, oldest first.
    pub closed spec fn trace(self) -> Seq<StepOutcome> {
        self.trace@
    }

    /// The driver's invariant: the phase is the run of the trace, and no step
    /// was ever taken from a terminal phase.
    pub open spec fn wf(self) -> bool {
        &&& self.phase() == run_phase(self.trace())
        &&& live_run(self.trace())
    }

    /// Start a fresh handshake attempt.
    pub fn begin() -> (driver: HandshakeDriver)
        ensures
            driver.wf(),
            driver.phase() == Phase::InProgress,
            driver.trace() == Seq::<StepOutcome>::empty(),
    {
        let driver = HandshakeDriver { phase: Phase::InProgress, trace: Ghost(Seq::empty()) };
        proof {
            assert(driver.trace@ =~= Seq::<StepOutcome>::empty());
        }
        driver
    }

    /// Record what the synchronous handshake step reported and tell the
    /// scheduler what to do next. Only an in-progress handshake may advance:
    /// a finished or failed attempt is never resumed.
    pub fn advance(&mut self, step: StepOutcome) -> (directive: Directive)
        requires
            old(self).wf(),
            old(self).phase() == Phase::InProgress,
        ensures
            final(self).wf(),
            final(self).trace() == old(self).trace().push(step),
            final(self).phase() == step_phase(step),
            directive == (match step {
                StepOutcome::Complete => Directive::Deliver,
                StepOutcome::Blocked(d) => Directive::Await(d),
                StepOutcome::Failed => Directive::Fail,
            }),
    {
        proof {
            let t = self.trace@.push(step);
            assert(t.drop_last() =~= self.trace@);
            assert forall|i: int| 0 <= i < t.len() implies run_phase(#[trigger] t.take(i))
                == Phase::InProgress by {
                if i < self.trace@.len() {
                    assert(t.take(i) =~= self.trace@.take(i));
                } else {
                    assert(t.take(i) =~= self.trace@);
                }
            }
        }
        self.trace = Ghost(self.trace@.push(step));
        match step {
            StepOutcome::Complete => {
                self.phase = Phase::Done;
                Directive::Deliver
            }
            StepOutcome::Blocked(d) => {
                self.phase = Phase::InProgress;
                Directive::Await(d)
            }
            StepOutcome::Failed => {
                self.phase = Phase::Failed;
                Directive::Fail
            }
        }
    }

    /// Whether protocol bytes may cross the adapted stream: only once the
    /// handshake has fully completed.
    pub fn may_carry_traffic(&self) -> (allowed: bool)
        ensures
            allowed == (self.phase() == Phase::Done),
    {
        match self.phase {
            Phase::Done => true,
            _ => false,
        }
    }
}

/// A terminal phase is never left: whatever steps a run is extended by, its
/// phase stays what it was.
pub proof fn lemma_terminal_is_stable(steps: Seq<StepOutcome>, ext: Seq<StepOutcome>)
    requires
        run_phase(steps) != Phase::InProgress,
    ensures
        run_phase(steps + ext) == run_phase(steps),
    decreases ext.len(),
{
    if ext.len() == 0 {
        assert(steps + ext =~= steps);
    } else {
        lemma_terminal_is_stable(steps, ext.drop_last());
        assert((steps + ext).drop_last() =~= steps + ext.drop_last());
        assert(run_phase((steps + ext).drop_last()) == run_phase(steps));
    }
}

/// In a run the driver can produce, every step but the last reported a
/// suspension, and the phase is decided by the last step alone.
pub proof fn lemma_live_run_characterized(steps: Seq<StepOutcome>)
    requires
        live_run(steps),
        steps.len() > 0,
    ensures
        run_phase(steps) == step_phase(steps.last()),
        forall|i: int| 0 <= i < steps.len() - 1 ==> #[trigger] steps[i] matches StepOutcome::Blocked(_),
{
    assert(steps.take(steps.len() - 1) =~= steps.drop_last());
    assert(run_phase(steps.drop_last()) == Phase::InProgress);
    assert forall|i: int| 0 <= i < steps.len() - 1 implies #[trigger] steps[i] matches
        StepOutcome::Blocked(_) by {
        assert(run_phase(steps.take(i)) == Phase::InProgress);
        assert(run_phase(steps.take(i + 1)) == Phase::InProgress);
        assert(steps.take(i + 1).drop_last() =~= steps.take(i));
        assert(steps.take(i + 1).last() == steps[i]);
        assert(step_phase(steps[i]) == Phase::InProgress);
    }
}

/// The handshake completes only through a successful final step: a run whose
/// phase is done ends with [`StepOutcome::Complete`], after nothing but
/// suspensions — so no run without a successful step ever lets traffic flow.
pub proof fn lemma_done_needs_completion(steps: Seq<StepOutcome>)
    requires
        live_run(steps),
        run_phase(steps) == Phase::Done,
    ensures
        steps.len() > 0,
        steps.last() == StepOutcome::Complete,
        forall|i: int| 0 <= i < steps.len() - 1 ==> #[trigger] steps[i] matches StepOutcome::Blocked(_),
{
    lemma_live_run_characterized(steps);
}

/// A failed run likewise ends with its failing step and was never complete:
/// failure and completion are mutually exclusive outcomes of one attempt.
pub proof fn lemma_failed_never_completed(steps: Seq<StepOutcome>)
    requires
        live_run(steps),
        run_phase(steps) == Phase::Failed,
    ensures
        steps.len() > 0,
        steps.last() == StepOutcome::Failed,
        forall|i: int| 0 <= i < steps.len() ==> steps[i] != StepOutcome::Complete,
{
    lemma_live_run_characterized(steps);
    assert forall|i: int| 0 <= i < steps.len() implies steps[i] != StepOutcome::Complete by {
        if i < steps.len() - 1 {
            assert(steps[i] matches StepOutcome::Blocked(_));
        }
    }
}

} // verus!

//! The adaptive timeout controller: the decision core of the scan session.
//!
//! The surrounding event loop races the remaining timeout against the next
//! completed dispatch task and feeds whichever happened first into
//! [`ScanSession::step`]; the step function owns every decision about when
//! the session ends and how the timeout is re-armed. Times are nanoseconds
//! of a monotonic session clock.

use vstd::prelude::*;

use crate::dispatch::DispatchResult;
use crate::state::RunError;

verus! {

/// The timeout a session starts with: 10 seconds, in nanoseconds.
pub const INITIAL_TIMEOUT_NANOS: u64 = 10_000_000_000;

/// How much longer than the last observed inter-dispatch gap the session
/// keeps scanning.
pub const TIMEOUT_SCALE: u64 = 10;

/// The controller's whole state: how long the current race's timeout arm
/// runs, and when the previous successful dispatch completed.
#[derive(Clone, Copy, PartialEq, Eq, Structural, Debug)]
pub struct ScanSession {
    pub timeout_nanos: u64,
    pub prev_nanos: u64,
}

/// What the event loop observed: the timeout arm won the race, or the next
/// queued dispatch task completed with some result.
#[derive(Clone, Copy, PartialEq, Eq, Structural, Debug)]
pub enum ControllerEvent {
    TimeoutElapsed,
    TaskCompleted(DispatchResult),
}

/// What the event loop must do next: end the session cleanly, abort it
/// with the first failure, or race again with the (possibly re-armed)
/// timeout.
#[derive(Clone, Copy, PartialEq, Eq, Structural, Debug)]
pub enum ControllerAction {
    Finish,
    Abort(RunError),
    Continue,
}

/// The gap between the previous successful dispatch and the one completed
/// at `t`; a clock that reads no later than the previous mark counts as a
/// zero gap.
pub open spec fn elapsed_nanos(prev: u64, t: u64) -> int {
    if t >= prev {
        t - prev
    } else {
        0
    }
}

/// The re-armed timeout after a success at `t`: the observed gap scaled by
/// [`TIMEOUT_SCALE`], saturating at the clock type's maximum.
pub open spec fn rearmed_timeout(prev: u64, t: u64) -> u64 {
    if elapsed_nanos(prev, t) * TIMEOUT_SCALE <= u64::MAX {
        (elapsed_nanos(prev, t) * TIMEOUT_SCALE) as u64
    } else {
        u64::MAX
    }
}

/// The session state after one event: only a successful dispatch moves it.
pub open spec fn spec_step_session(s: ScanSession, event: ControllerEvent) -> ScanSession {
    match event {
        ControllerEvent::TaskCompleted(DispatchResult::Success(t)) => ScanSession {
            timeout_nanos: rearmed_timeout(s.prev_nanos, t),
            prev_nanos: t,
        },
        _ => s,
    }
}

/// The action one event demands: an elapsed timeout finishes the session,
/// a failed dispatch aborts it with that failure, anything else continues.
pub open spec fn spec_step_action(event: ControllerEvent) -> ControllerAction {
    match event {
        ControllerEvent::TimeoutElapsed => ControllerAction::Finish,
        ControllerEvent::TaskCompleted(DispatchResult::Failure(e)) => ControllerAction::Abort(e),
        ControllerEvent::TaskCompleted(_) => ControllerAction::Continue,
    }
}

impl ScanSession {
    /// A fresh session: a 10-second timeout, with the previous-dispatch
    /// mark at the current clock reading.
    pub fn new(now_nanos: u64) -> (s: Self)
        ensures
            s.timeout_nanos == INITIAL_TIMEOUT_NANOS,
            s.prev_nanos == now_nanos,
    {
        ScanSession { timeout_nanos: INITIAL_TIMEOUT_NANOS, prev_nanos: now_nanos }
    }

    /// Consume one raced event: decide the session's next action and
    /// re-arm the timeout to ten times the inter-dispatch gap on success;
    /// a not-applicable dispatch and an abort leave the state untouched.
    pub fn step(&mut self, event: ControllerEvent) -> (a: ControllerAction)
        ensures
            *final(self) == spec_step_session(*old(self), event),
            a == spec_step_action(event),
    {
        match event {
            ControllerEvent::TimeoutElapsed => ControllerAction::Finish,
            ControllerEvent::TaskCompleted(DispatchResult::Failure(e)) => ControllerAction::Abort(
                e,
            ),
            ControllerEvent::TaskCompleted(DispatchResult::NotApplicable) => {
                ControllerAction::Continue
            },
            ControllerEvent::TaskCompleted(DispatchResult::Success(t)) => {
                let elapsed: u64 = if t >= self.prev_nanos {
                    t - self.prev_nanos
                } else {
                    0
                };
                let rearmed: u64 = if elapsed <= u64::MAX / TIMEOUT_SCALE {
                    elapsed * TIMEOUT_SCALE
                } else {
                    u64::MAX
                };
                self.timeout_nanos = rearmed;
                self.prev_nanos = t;
                ControllerAction::Continue
            },
        }
    }
}

/// How a whole session ends: cleanly on an elapsed timeout, or aborted by
/// the first failed dispatch.
#[derive(Clone, Copy, PartialEq, Eq, Structural, Debug)]
pub enum SessionOutcome {
    Finished,
    Aborted(RunError),
}

/// The outcome of running the controller over a sequence of raced events,
/// or `None` when the sequence runs out before any event ends the session.
pub open spec fn session_outcome(s: ScanSession, events: Seq<ControllerEvent>) -> Option<
    SessionOutcome,
>
    decreases events.len(),
{
    if events.len() == 0 {
        None
    } else {
        match spec_step_action(events[0]) {
            ControllerAction::Finish => Some(SessionOutcome::Finished),
            ControllerAction::Abort(e) => Some(SessionOutcome::Aborted(e)),
            ControllerAction::Continue => session_outcome(
                spec_step_session(s, events[0]),
                events.drop_first(),
            ),
        }
    }
}

/// One failing dispatch ends the whole run with that failure: however many
/// dispatches succeed or prove not applicable before it, and whatever
/// comes after it, the first failure in the event sequence decides the
/// session's outcome.
pub proof fn lemma_first_failure_aborts(s: ScanSession, events: Seq<ControllerEvent>, i: int)
    requires
        0 <= i < events.len(),
        events[i] matches ControllerEvent::TaskCompleted(DispatchResult::Failure(_)),
        forall|j: int|
            0 <= j < i ==> !(#[trigger] events[j] is TimeoutElapsed) && !(events[j]
                matches ControllerEvent::TaskCompleted(DispatchResult::Failure(_))),
    ensures
        session_outcome(s, events) == Some(
            SessionOutcome::Aborted(events[i]->TaskCompleted_0->Failure_0),
        ),
    decreases i,
{
    if i == 0 {
    } else {
        assert(spec_step_action(events[0]) is Continue);
        lemma_first_failure_aborts(spec_step_session(s, events[0]), events.drop_first(), i - 1);
    }
}

/// A session whose next raced event is an elapsed timeout finishes
/// cleanly, whatever its state and whatever events could have followed.
pub proof fn lemma_timeout_finishes(s: ScanSession, events: Seq<ControllerEvent>)
    requires
        events.len() > 0,
        events[0] is TimeoutElapsed,
    ensures
        session_outcome(s, events) == Some(SessionOutcome::Finished),
{
}

} // verus!

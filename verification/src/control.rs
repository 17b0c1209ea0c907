//! Single-flight job control. At most one job runs at a time; a new request
//! preempts a running one by raising its cancellation signal, waits a grace
//! interval, then starts with a clear signal. These transitions are the
//! decisions; the caller holds the state under mutual exclusion, performs
//! the grace wait, and mirrors `cancel_requested` into the shared flag the
//! workers poll.
use vstd::prelude::*;

verus! {

/// The process-wide job state: whether a job is running, and whether its
/// cancellation signal is raised.
#[derive(Clone, Copy, PartialEq, Eq, Structural, Debug)]
pub struct ControllerState {
    pub running: bool,
    pub cancel_requested: bool,
}

/// First admission phase: the signal goes up exactly when a job still runs.
pub open spec fn spec_admit_raise(s: ControllerState) -> ControllerState {
    ControllerState { running: s.running, cancel_requested: s.cancel_requested || s.running }
}

/// Second admission phase: the new job starts with the signal cleared.
pub open spec fn spec_admit_start(s: ControllerState) -> ControllerState {
    ControllerState { running: true, cancel_requested: false }
}

/// Completion: the running flag falls, whatever the signal says.
pub open spec fn spec_complete(s: ControllerState) -> ControllerState {
    ControllerState { running: false, cancel_requested: s.cancel_requested }
}

/// The state the service starts in: no job, no cancellation pending.
pub fn initial_state() -> (s: ControllerState)
    ensures
        !s.running,
        !s.cancel_requested,
{
    ControllerState { running: false, cancel_requested: false }
}

/// First admission phase. The boolean says whether a job was preempted, and
/// so whether the grace wait is owed before the second phase.
pub fn admit_raise(s: ControllerState) -> (r: (ControllerState, bool))
    ensures
        r.0 == spec_admit_raise(s),
        r.1 == s.running,
        s.running ==> r.0.cancel_requested,
{
    if s.running {
        (ControllerState { running: s.running, cancel_requested: true }, true)
    } else {
        (s, false)
    }
}

/// Second admission phase: clears the signal and takes the running flag.
pub fn admit_start(s: ControllerState) -> (r: ControllerState)
    ensures
        r == spec_admit_start(s),
        r.running,
        !r.cancel_requested,
{
    ControllerState { running: true, cancel_requested: false }
}

/// Marks the job finished, on success and exhaustion alike.
pub fn complete(s: ControllerState) -> (r: ControllerState)
    ensures
        r == spec_complete(s),
        !r.running,
{
    ControllerState { running: false, cancel_requested: s.cancel_requested }
}

/// Preemption: admitting a request while a job runs first raises that job's
/// cancellation signal, and the new job then starts with the signal cleared
/// and the running flag set — its fate is independent of the old job's.
pub proof fn lemma_preemption(s: ControllerState)
    requires
        s.running,
    ensures
        spec_admit_raise(s).cancel_requested,
        spec_admit_start(spec_admit_raise(s)).running,
        !spec_admit_start(spec_admit_raise(s)).cancel_requested,
{
}

/// Serialized admissions ever leave the controller in a clean running
/// state: however the previous state looked, after both phases a job runs
/// with no cancellation pending.
pub proof fn lemma_admission_clean(s: ControllerState)
    ensures
        spec_admit_start(spec_admit_raise(s)) == (ControllerState {
            running: true,
            cancel_requested: false,
        }),
        !spec_complete(spec_admit_start(spec_admit_raise(s))).running,
{
}

} // verus!

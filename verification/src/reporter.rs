use vstd::prelude::*;

verus! {

/// The usage reporter's wait interval, in seconds.
pub const REPORT_INTERVAL_SECS: u64 = 5;

/// Outcome of one bounded wait on the exit signal.
#[derive(Debug, PartialEq, Eq, Structural, Clone, Copy)]
pub enum SignalWait {
    /// The interval elapsed without a shutdown request.
    TimedOut,
    /// The exit signal fired before the interval elapsed.
    Signalled,
}

/// Outcome of resolving the reporter's non-owning reference to the storage
/// manager.
#[derive(Debug, PartialEq, Eq, Structural, Clone, Copy)]
pub enum TargetState {
    /// An owner remains: the reference resolved.
    Alive,
    /// The last owner released the target: the reference no longer resolves.
    Gone,
}

/// What the usage reporter does after one wait.
#[derive(Debug, PartialEq, Eq, Structural, Clone, Copy)]
pub enum ReporterDecision {
    /// Emit one usage snapshot and wait again.
    EmitSnapshot,
    /// Terminate without emitting.
    Terminate,
}

/// What the reporter observed over one interval.
#[derive(Debug, PartialEq, Eq, Structural, Clone, Copy)]
pub struct ReporterObservation {
    pub wait: SignalWait,
    pub target: TargetState,
}

/// Whether this observation lets the reporter run on for another interval.
pub open spec fn reporter_continues(o: ReporterObservation) -> bool {
    o.wait is TimedOut && o.target is Alive
}

/// One step of the usage reporter: after a timed-out wait with the target
/// still alive it emits one snapshot; on a shutdown signal, or once the
/// target is destroyed, it terminates without emitting.
pub fn reporter_step(wait: SignalWait, target: TargetState) -> (r: ReporterDecision)
    ensures
        r is EmitSnapshot <==> reporter_continues(ReporterObservation { wait, target }),
{
    match wait {
        SignalWait::Signalled => ReporterDecision::Terminate,
        SignalWait::TimedOut => match target {
            TargetState::Gone => ReporterDecision::Terminate,
            TargetState::Alive => ReporterDecision::EmitSnapshot,
        },
    }
}

/// What a whole run of the reporter did.
#[derive(Debug, PartialEq, Eq, Structural, Clone, Copy)]
pub struct ReporterReport {
    /// Usage snapshots emitted: at most one per interval.
    pub snapshots: u64,
    /// Intervals lived through, the terminating one included.
    pub intervals: u64,
}

/// The reporter's whole life against a sequence of per-interval
/// observations: it emits one snapshot per interval until the first
/// observation that stops it, and terminates within that very interval.
/// In particular it terminates within one interval of the target's
/// destruction, whether or not the exit signal ever fires.
pub fn reporter_run(observations: &Vec<ReporterObservation>) -> (r: ReporterReport)
    requires
        observations@.len() < u64::MAX,
    ensures
        r.snapshots <= r.intervals,
        r.intervals <= observations@.len(),
        forall|k: int|
            0 <= k < observations@.len() && !reporter_continues(#[trigger] observations@[k])
                ==> r.intervals <= k + 1,
        forall|k: int|
            0 <= k < observations@.len() && !reporter_continues(#[trigger] observations@[k]) && (
            forall|j: int| 0 <= j < k ==> reporter_continues(#[trigger] observations@[j]))
                ==> r.intervals == k + 1 && r.snapshots == k,
        (forall|k: int| 0 <= k < observations@.len() ==> reporter_continues(
            #[trigger] observations@[k],
        )) ==> r.intervals == observations@.len() && r.snapshots == observations@.len(),
{
    let mut i: usize = 0;
    let n = observations.len();
    while i < n
        invariant
            i <= n,
            n == observations@.len(),
            n < u64::MAX,
            forall|j: int| 0 <= j < i ==> reporter_continues(#[trigger] observations@[j]),
        decreases n - i,
    {
        let o = observations[i];
        let decision = reporter_step(o.wait, o.target);
        match decision {
            ReporterDecision::Terminate => {
                return ReporterReport { snapshots: i as u64, intervals: (i + 1) as u64 };
            },
            ReporterDecision::EmitSnapshot => {},
        }
        i = i + 1;
    }
    ReporterReport { snapshots: i as u64, intervals: i as u64 }
}

} // verus!

use vstd::prelude::*;

use crate::trace::Action;

verus! {

/// Seconds between polls of the storage reference during shutdown.
pub const SHUTDOWN_POLL_SECS: u64 = 1;

/// Seconds of shutdown polling after which one warning is emitted.
pub const SHUTDOWN_WARN_SECS: u64 = 10;

/// Seconds of shutdown polling after which shutdown gives up, unclean.
pub const SHUTDOWN_MAX_SECS: u64 = 60;

/// Models when the last owner of the storage handle releases it: the
/// non-owning reference stops resolving at second `released_at`
/// (`None`: some owner never releases it).
#[derive(Debug, PartialEq, Eq, Structural, Clone, Copy)]
pub struct StorageObserver {
    pub released_at: Option<u64>,
}

impl StorageObserver {
    /// Whether the non-owning reference still resolves at second `t`.
    pub open spec fn resolves_spec(&self, t: u64) -> bool {
        match self.released_at {
            Option::None => true,
            Option::Some(d) => t < d,
        }
    }

    /// Resolve the non-owning reference at second `t`.
    pub fn resolves(&self, t: u64) -> (r: bool)
        ensures
            r == self.resolves_spec(t),
    {
        match self.released_at {
            Option::None => true,
            Option::Some(d) => t < d,
        }
    }
}

/// Whether the shutdown wait ends cleanly: every owner releases the storage
/// handle before the bound.
pub open spec fn wait_clean(s: StorageObserver) -> bool {
    s.released_at matches Some(d) && d < SHUTDOWN_MAX_SECS
}

/// How many seconds the shutdown wait takes: until the handle is released,
/// but never more than the bound.
pub open spec fn wait_seconds(s: StorageObserver) -> u64 {
    match s.released_at {
        Option::Some(d) => if d < SHUTDOWN_MAX_SECS {
            d
        } else {
            SHUTDOWN_MAX_SECS
        },
        Option::None => SHUTDOWN_MAX_SECS,
    }
}

/// Whether the slow-shutdown warning is emitted: the handle is still held
/// when the wait first passes the warning threshold.
pub open spec fn wait_warned(s: StorageObserver) -> bool {
    match s.released_at {
        Option::Some(d) => d > SHUTDOWN_WARN_SECS + 1,
        Option::None => true,
    }
}

/// The polls at seconds `a` (inclusive) to `b` (exclusive), in order.
pub open spec fn poll_actions(a: int, b: int) -> Seq<Action> {
    Seq::new((b - a) as nat, |i: int| Action::PollStorage((a + i) as u64))
}

/// The actions of a shutdown wait that runs out the whole bound.
pub open spec fn unclean_wait_actions() -> Seq<Action> {
    poll_actions(0, 12) + seq![Action::WarnSlowShutdown] + poll_actions(12, 60) + seq![
        Action::WarnUncleanShutdown,
    ]
}

/// The actions of the shutdown wait: one poll a second, the slow-shutdown
/// warning once past the threshold, and the final warning if it gives up.
pub open spec fn wait_actions(s: StorageObserver) -> Seq<Action> {
    match s.released_at {
        Option::Some(d) => if d < 60 {
            if d <= 11 {
                poll_actions(0, d + 1)
            } else {
                poll_actions(0, 12) + seq![Action::WarnSlowShutdown] + poll_actions(12, d + 1)
            }
        } else {
            unclean_wait_actions()
        },
        Option::None => unclean_wait_actions(),
    }
}

/// The actions of a wait that is still going at second `t`, `warned`
/// exactly when `t` is past the warning point.
spec fn partial_wait_actions(t: int) -> Seq<Action> {
    if t <= 11 {
        poll_actions(0, t)
    } else {
        poll_actions(0, 12) + seq![Action::WarnSlowShutdown] + poll_actions(12, t)
    }
}

/// What the shutdown wait did.
#[derive(Debug, PartialEq, Eq, Structural, Clone, Copy)]
pub struct WaitReport {
    /// The storage handle was released within the bound.
    pub clean: bool,
    /// Seconds waited before returning: at most the bound.
    pub seconds_waited: u64,
    /// The slow-shutdown warning was emitted.
    pub warned: bool,
}

/// One decision of the shutdown wait, for a driver that owns the clock.
#[derive(Debug, PartialEq, Eq, Structural, Clone, Copy)]
pub enum WaitStep {
    /// The handle is unreferenced: shutdown is clean, stop polling.
    CleanExit,
    /// The bound is reached: warn and return, unclean.
    UncleanExit,
    /// Warn once that shutdown is slow, then sleep one interval and poll again.
    Warn,
    /// Sleep one interval and poll again.
    Sleep,
}

/// One decision of the shutdown wait at second `t`: return clean as soon as
/// the reference no longer resolves, give up at the bound, and warn exactly
/// once when the wait first passes the warning threshold.
pub fn wait_step(t: u64, warned: bool, still_resolving: bool) -> (r: WaitStep)
    ensures
        r is CleanExit <==> (t < SHUTDOWN_MAX_SECS && !still_resolving),
        r is UncleanExit <==> t >= SHUTDOWN_MAX_SECS,
        r is Warn <==> (t < SHUTDOWN_MAX_SECS && still_resolving && !warned && t
            > SHUTDOWN_WARN_SECS),
        r is Sleep <==> (t < SHUTDOWN_MAX_SECS && still_resolving && (warned || t
            <= SHUTDOWN_WARN_SECS)),
{
    if t >= SHUTDOWN_MAX_SECS {
        WaitStep::UncleanExit
    } else if !still_resolving {
        WaitStep::CleanExit
    } else if !warned && t > SHUTDOWN_WARN_SECS {
        WaitStep::Warn
    } else {
        WaitStep::Sleep
    }
}

/// Poll the non-owning storage reference once a second until it stops
/// resolving: clean if that happens within the bound; otherwise warn and
/// return unclean rather than hang. Always returns within the bound.
pub fn wait_for_drop(storage: &StorageObserver, trace: &mut Vec<Action>) -> (r: WaitReport)
    ensures
        r.clean == wait_clean(*storage),
        r.seconds_waited == wait_seconds(*storage),
        r.seconds_waited <= SHUTDOWN_MAX_SECS,
        r.warned == wait_warned(*storage),
        final (trace)@ == old(trace)@ + wait_actions(*storage),
{
    let mut t: u64 = 0;
    let mut warned = false;
    while t < SHUTDOWN_MAX_SECS
        invariant
            t <= 60,
            warned <==> t >= 12,
            storage.released_at matches Some(d) ==> d >= t,
            trace@ == old(trace)@ + partial_wait_actions(t as int),
        decreases 60 - t,
    {
        trace.push(Action::PollStorage(t));
        if !storage.resolves(t) {
            proof {
                assert(storage.released_at == Some(t));
                if t <= 11 {
                    assert(partial_wait_actions(t as int).push(Action::PollStorage(t))
                        =~= poll_actions(0, t + 1));
                } else {
                    assert(partial_wait_actions(t as int).push(Action::PollStorage(t))
                        =~= poll_actions(0, 12) + seq![Action::WarnSlowShutdown] + poll_actions(
                        12,
                        t + 1,
                    ));
                }
            }
            return WaitReport { clean: true, seconds_waited: t, warned };
        }
        if !warned && t > SHUTDOWN_WARN_SECS {
            trace.push(Action::WarnSlowShutdown);
            warned = true;
            proof {
                assert(partial_wait_actions(11).push(Action::PollStorage(11)).push(
                    Action::WarnSlowShutdown,
                ) =~= partial_wait_actions(12));
            }
        } else {
            proof {
                assert(partial_wait_actions(t as int).push(Action::PollStorage(t))
                    =~= partial_wait_actions(t as int + 1));
            }
        }
        t = t + 1;
    }
    trace.push(Action::WarnUncleanShutdown);
    proof {
        assert(partial_wait_actions(60).push(Action::WarnUncleanShutdown)
            =~= unclean_wait_actions());
    }
    WaitReport { clean: false, seconds_waited: SHUTDOWN_MAX_SECS, warned }
}

} // verus!

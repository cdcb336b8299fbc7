use vstd::prelude::*;

verus! {

/// One-shot, broadcastable shutdown flag: the model of the process-wide
/// exit signal. The flag moves from `false` to `true` at most once and
/// never back; repeated interrupts after the first change nothing.
#[derive(Clone, Copy, PartialEq, Eq, Structural, Debug)]
pub struct ExitFlag {
    pub set: bool,
}

/// The state of the exit signal after one external interrupt is delivered.
pub open spec fn triggered(s: ExitFlag) -> ExitFlag {
    ExitFlag { set: true }
}

impl ExitFlag {
    /// A fresh exit signal: not yet set.
    pub fn new() -> (r: ExitFlag)
        ensures
            !r.set,
    {
        ExitFlag { set: false }
    }

    /// Deliver one external interrupt: the flag is set, and an interrupt
    /// delivered to an already-set signal leaves it exactly as it was.
    pub fn trigger(&mut self)
        ensures
            *final (self) == triggered(*old(self)),
            final (self).set,
            old(self).set ==> *final (self) == *old(self),
    {
        self.set = true;
    }

    /// Whether the shutdown request has been broadcast.
    pub fn is_set(&self) -> (r: bool)
        ensures
            r == self.set,
    {
        self.set
    }
}

/// Law: the flag transitions false to true at most once; a second external
/// interrupt after the first is a no-op.
pub proof fn lemma_second_interrupt_noop(s: ExitFlag)
    ensures
        triggered(triggered(s)) == triggered(s),
        triggered(s).set,
{
}

/// Law: once set, the flag never returns to false under further interrupts:
/// triggering a set signal leaves it unchanged.
pub proof fn lemma_exit_flag_monotonic(s: ExitFlag)
    requires
        s.set,
    ensures
        triggered(s) == s,
{
}

} // verus!

//! The wait-and-notify protocol by which a blocked thread sleeps until a waker fires.
use vstd::prelude::*;

verus! {

/// State of a signal.
#[derive(Debug, Copy, Clone, PartialEq, Eq, Structural)]
pub enum SignalState {
    /// Nobody waits and no notification is pending.
    Empty,
    /// A thread is waiting.
    Waiting,
    /// A notification arrived while nobody waited.
    Notified,
}

/// How long a wait may last.
#[derive(Debug, Copy, Clone, PartialEq, Eq, Structural)]
pub enum TimeoutKind {
    /// Wait until notified.
    Never,
    /// Wait until notified or a duration elapses.
    After,
    /// Do not wait at all.
    Immediate,
}

/// What the waiting thread does next.
#[derive(Debug, Copy, Clone, PartialEq, Eq, Structural)]
pub enum WaitStep {
    /// Stop waiting, returning whether the wait timed out.
    Exit(bool),
    /// Block on the condition variable until notified.
    Block,
    /// Block on the condition variable until notified or the duration elapses.
    BlockTimeout,
}

/// A signal's state, guarded by the caller's lock.
pub struct Signal {
    pub state: SignalState,
}

impl Signal {
    /// Construct empty.
    pub fn new() -> (r: Self)
        ensures
            r.state == SignalState::Empty,
    {
        Signal { state: SignalState::Empty }
    }

    /// Start waiting: a pending notification is consumed and the wait ends at once, not timed
    /// out; else the signal enters the waiting state and the loop of `wait_step` begins.
    pub fn begin_wait(&mut self) -> (r: Option<bool>)
        requires
            old(self).state != SignalState::Waiting,
        ensures
            old(self).state == SignalState::Notified ==> r == Some(false) && final(self).state
                == SignalState::Empty,
            old(self).state == SignalState::Empty ==> r is None && final(self).state
                == SignalState::Waiting,
    {
        match self.state {
            SignalState::Notified => {
                self.state = SignalState::Empty;
                Some(false)
            },
            _ => {
                self.state = SignalState::Waiting;
                None
            },
        }
    }

    /// One turn of the waiting loop: once notified (no longer waiting) the wait ends, not timed
    /// out; an immediate timeout ends it at once, timed out; else the thread blocks.
    pub fn wait_step(&mut self, timeout: TimeoutKind) -> (r: WaitStep)
        ensures
            old(self).state != SignalState::Waiting ==> r == WaitStep::Exit(false) && final(self).state
                == old(self).state,
            old(self).state == SignalState::Waiting ==> match timeout {
                TimeoutKind::Never => r == WaitStep::Block && final(self).state == SignalState::Waiting,
                TimeoutKind::After => r == WaitStep::BlockTimeout && final(self).state
                    == SignalState::Waiting,
                TimeoutKind::Immediate => r == WaitStep::Exit(true) && final(self).state
                    == SignalState::Empty,
            },
    {
        if self.state != SignalState::Waiting {
            return WaitStep::Exit(false);
        }
        match timeout {
            TimeoutKind::Never => WaitStep::Block,
            TimeoutKind::After => WaitStep::BlockTimeout,
            TimeoutKind::Immediate => {
                self.state = SignalState::Empty;
                WaitStep::Exit(true)
            },
        }
    }

    /// A timed wait elapsed: the signal empties and the wait ends, timed out.
    pub fn timed_out(&mut self) -> (r: bool)
        ensures
            r,
            final(self).state == SignalState::Empty,
    {
        self.state = SignalState::Empty;
        true
    }

    /// Notify: a waiting thread is released (return `true`: wake the condition variable); with
    /// nobody waiting the notification is kept for the next wait.
    pub fn notify(&mut self) -> (r: bool)
        ensures
            old(self).state == SignalState::Waiting ==> r && final(self).state == SignalState::Empty,
            old(self).state == SignalState::Empty ==> !r && final(self).state == SignalState::Notified,
            old(self).state == SignalState::Notified ==> !r && final(self).state
                == SignalState::Notified,
    {
        match self.state {
            SignalState::Notified => false,
            SignalState::Empty => {
                self.state = SignalState::Notified;
                false
            },
            SignalState::Waiting => {
                self.state = SignalState::Empty;
                true
            },
        }
    }
}

} // verus!

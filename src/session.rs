//! A tracking session: started, paused and resumed any number of times,
//! then stopped. Only a stopped session yields the work time to commit.
//!
//! Times are readings of a monotonic clock in milliseconds, supplied by the
//! caller. A reading earlier than the one a segment began at counts that
//! segment as empty.

use vstd::prelude::*;

verus! {

/// Length of the segment from `since` to `now`, empty if the clock reads
/// earlier than `since`.
pub open spec fn segment(since: u64, now: u64) -> u64 {
    if now >= since {
        (now - since) as u64
    } else {
        0
    }
}

/// `a + b`, capped at the largest `u64`.
pub open spec fn capped_sum(a: u64, b: u64) -> u64 {
    if a + b > u64::MAX {
        u64::MAX
    } else {
        (a + b) as u64
    }
}

#[derive(Clone, Copy, PartialEq, Eq, Structural, Debug)]
pub enum Session {
    /// Not started.
    Idle,
    /// Timing since `since`, after `worked` milliseconds of earlier work.
    Running { since: u64, worked: u64 },
    /// On hold after `worked` milliseconds of work.
    Paused { worked: u64 },
    /// Finished after `worked` milliseconds of work.
    Stopped { worked: u64 },
}

impl Session {
    pub fn new() -> (s: Session)
        ensures
            s == Session::Idle,
    {
        Session::Idle
    }

    /// Work time up to `now`: pauses do not count.
    pub open spec fn worked_spec(self, now: u64) -> u64 {
        match self {
            Session::Idle => 0,
            Session::Running { since, worked } => capped_sum(worked, segment(since, now)),
            Session::Paused { worked } => worked,
            Session::Stopped { worked } => worked,
        }
    }

    pub fn worked(&self, now: u64) -> (w: u64)
        ensures
            w == self.worked_spec(now),
    {
        match *self {
            Session::Idle => 0,
            Session::Running { since, worked } => worked.saturating_add(now.saturating_sub(since)),
            Session::Paused { worked } => worked,
            Session::Stopped { worked } => worked,
        }
    }

    /// Starts an idle session. Returns whether the session was idle; in any
    /// other state nothing changes.
    pub fn start(&mut self, now: u64) -> (ok: bool)
        ensures
            ok == (*old(self) == Session::Idle),
            ok ==> *final(self) == (Session::Running { since: now, worked: 0 }),
            !ok ==> *final(self) == *old(self),
    {
        match *self {
            Session::Idle => {
                *self = Session::Running { since: now, worked: 0 };
                true
            },
            _ => false,
        }
    }

    /// Pauses a running session. Returns whether it was running; in any
    /// other state nothing changes.
    pub fn pause(&mut self, now: u64) -> (ok: bool)
        ensures
            ok == (*old(self) is Running),
            ok ==> *final(self) == (Session::Paused { worked: old(self).worked_spec(now) }),
            !ok ==> *final(self) == *old(self),
    {
        match *self {
            Session::Running { .. } => {
                let worked = self.worked(now);
                *self = Session::Paused { worked };
                true
            },
            _ => false,
        }
    }

    /// Resumes a paused session. Returns whether it was paused; in any other
    /// state nothing changes.
    pub fn resume(&mut self, now: u64) -> (ok: bool)
        ensures
            ok == (*old(self) is Paused),
            ok ==> *final(self) == (Session::Running { since: now, worked: old(self).worked_spec(now) }),
            !ok ==> *final(self) == *old(self),
    {
        match *self {
            Session::Paused { worked } => {
                *self = Session::Running { since: now, worked };
                true
            },
            _ => false,
        }
    }

    /// Stops a running or paused session and returns its work time, which
    /// is what gets committed to the ledger. An idle or stopped session
    /// stays as it is and yields nothing.
    pub fn stop(&mut self, now: u64) -> (r: Option<u64>)
        ensures
            (*old(self) is Running || *old(self) is Paused) ==> r == Some(old(self).worked_spec(now))
                && *final(self) == (Session::Stopped { worked: old(self).worked_spec(now) }),
            !(*old(self) is Running || *old(self) is Paused) ==> r is None && *final(self) == *old(self),
    {
        match *self {
            Session::Running { .. } | Session::Paused { .. } => {
                let worked = self.worked(now);
                *self = Session::Stopped { worked };
                Some(worked)
            },
            _ => None,
        }
    }
}

} // verus!

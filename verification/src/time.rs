//! The timer capability: a factory for one-shot, cancellable, resettable
//! sleeps, modelled over an explicit tick clock.

use crate::io::Poll;
use vstd::prelude::*;

verus! {

/// Addition on ticks that pins the result at the largest representable
/// tick instead of wrapping.
pub open spec fn sat_add(a: u64, b: u64) -> u64 {
    if a + b <= u64::MAX {
        (a + b) as u64
    } else {
        u64::MAX
    }
}

/// A one-shot timed wakeup with a retargetable deadline.
///
/// The sleep is polled against an explicit clock reading and resolves
/// exactly when that reading has reached its deadline — never earlier; a
/// caller that polls late sees it resolve late. Dropping a pending sleep
/// is the only cancellation mechanism: the value simply goes away, and no
/// wakeup fires for it.
pub trait Sleep: Send + Sync {
    /// The tick at which the wakeup is due.
    spec fn deadline(&self) -> u64;

    /// Poll against the clock reading `now`.
    fn poll_elapsed(&mut self, now: u64) -> (r: Poll<()>)
        ensures
            final(self).deadline() == old(self).deadline(),
            (r matches Poll::Ready(_)) <==> now >= old(self).deadline(),
    ;
}

/// The timer capability: a factory for sleeps, keyed by a relative
/// duration or an absolute deadline, able to retarget an existing sleep
/// in place on the hot keepalive-refresh path.
pub trait Timer {
    /// The sleep values this timer hands out.
    type S: Sleep;

    /// The timer's current reading of its clock.
    spec fn spec_now(&self) -> u64;

    /// A sleep due `duration` ticks from now; the deadline saturates at
    /// the largest representable tick.
    fn sleep(&self, duration: u64) -> (s: Self::S)
        ensures
            s.deadline() == sat_add(self.spec_now(), duration),
    ;

    /// A sleep due at the absolute tick `deadline`.
    fn sleep_until(&self, deadline: u64) -> (s: Self::S)
        ensures
            s.deadline() == deadline,
    ;

    /// Retarget an existing sleep to `new_deadline`. If the sleep had
    /// already resolved it is re-armed as a fresh pending wakeup; if it
    /// was still pending, the earlier wakeup is implicitly cancelled. The
    /// default simply replaces the sleep with a freshly constructed one;
    /// implementations may override it to avoid reallocation.
    fn reset(&self, sleep: &mut Self::S, new_deadline: u64)
        ensures
            final(sleep).deadline() == new_deadline,
    {
        *sleep = self.sleep_until(new_deadline);
    }
}

/// A deterministic sleep: due at `deadline`, resolved by whatever clock
/// reading its poller supplies.
pub struct TickSleep {
    deadline: u64,
}

impl Sleep for TickSleep {
    closed spec fn deadline(&self) -> u64 {
        self.deadline
    }

    fn poll_elapsed(&mut self, now: u64) -> (r: Poll<()>) {
        if now >= self.deadline {
            Poll::Ready(())
        } else {
            Poll::Pending
        }
    }
}

/// A deterministic timer over an explicit tick counter. It performs no
/// timing itself: whoever owns it advances the counter, and sleeps it
/// hands out resolve against the readings they are polled with.
pub struct TickTimer {
    now: u64,
}

impl TickTimer {
    pub fn new(now: u64) -> (t: TickTimer)
        ensures
            t.spec_now() == now,
    {
        TickTimer { now }
    }

    /// Advance (or rewind) the tick counter.
    pub fn set_now(&mut self, now: u64)
        ensures
            final(self).spec_now() == now,
    {
        self.now = now;
    }
}

impl Timer for TickTimer {
    type S = TickSleep;

    closed spec fn spec_now(&self) -> u64 {
        self.now
    }

    fn sleep(&self, duration: u64) -> (s: TickSleep) {
        let deadline = if duration <= u64::MAX - self.now {
            self.now + duration
        } else {
            u64::MAX
        };
        TickSleep { deadline }
    }

    fn sleep_until(&self, deadline: u64) -> (s: TickSleep) {
        let s = TickSleep { deadline };
        proof {
            assert(s.deadline() == deadline);
        }
        s
    }
}

} // verus!

//! A fixed-capacity window counter.

use crate::clock;
use std::time::Instant;
use vstd::prelude::*;

verus! {

/// What a limiter is, mathematically. Times are nanoseconds on the limiter's
/// own clock, which starts at zero when the limiter is made.
pub struct Window {
    pub capacity: nat,
    pub remaining: nat,
    pub started: nat,
    pub duration: nat,
}

impl Window {
    /// A window that has just been opened at `now` with all of its capacity.
    pub open spec fn fresh(capacity: nat, duration: nat, now: nat) -> Window {
        Window { capacity, remaining: capacity, started: now, duration }
    }

    pub open spec fn valid(self) -> bool {
        self.remaining <= self.capacity
    }

    /// The window is over at `now`: more than `duration` has passed since it
    /// started.
    pub open spec fn expired(self, now: nat) -> bool {
        now - self.started > self.duration
    }

    /// The window as an attempt at `now` finds it: reopened when expired.
    pub open spec fn rolled(self, now: nat) -> Window {
        if self.expired(now) {
            Window { remaining: self.capacity, started: now, ..self }
        } else {
            self
        }
    }

    /// Whether an attempt at `now` is permitted.
    pub open spec fn permits(self, now: nat) -> bool {
        self.rolled(now).remaining >= 1
    }

    /// The window after an attempt at `now`.
    pub open spec fn after_attempt(self, now: nat) -> Window {
        let opened = self.rolled(now);
        if opened.remaining >= 1 {
            Window { remaining: (opened.remaining - 1) as nat, ..opened }
        } else {
            opened
        }
    }

    /// The window after one attempt at each of `times`, in order.
    pub open spec fn after_attempts(self, times: Seq<nat>) -> Window
        decreases times.len(),
    {
        if times.len() == 0 {
            self
        } else {
            self.after_attempts(times.drop_last()).after_attempt(times.last())
        }
    }
}

/// Attempts inside one window only count down: after `times.len()` attempts,
/// none of which finds the window expired, that many fewer remain (or none),
/// and the window is the one it was.
pub proof fn lemma_attempts_within_window(w: Window, times: Seq<nat>)
    requires
        forall|i: int| 0 <= i < times.len() ==> !w.expired(#[trigger] times[i]),
    ensures
        w.after_attempts(times) == (Window {
            remaining: if times.len() <= w.remaining {
                (w.remaining - times.len()) as nat
            } else {
                0
            },
            ..w
        }),
    decreases times.len(),
{
    if times.len() > 0 {
        let earlier = times.drop_last();
        assert forall|i: int| 0 <= i < earlier.len() implies !w.expired(#[trigger] earlier[i]) by {
            assert(earlier[i] == times[i]);
        }
        lemma_attempts_within_window(w, earlier);
        assert(!w.expired(times[times.len() - 1]));
    }
}

/// A fresh limiter permits exactly as many consecutive attempts as its
/// capacity and denies the one after them, as long as all of them fall in
/// the window that it opened with.
pub proof fn lemma_fresh_permits_exactly_capacity(
    capacity: nat,
    duration: nat,
    opened: nat,
    times: Seq<nat>,
)
    requires
        times.len() == capacity + 1,
        forall|i: int|
            0 <= i < times.len() ==> !Window::fresh(capacity, duration, opened).expired(
                #[trigger] times[i],
            ),
    ensures
        forall|i: int|
            0 <= i < capacity ==> Window::fresh(capacity, duration, opened).after_attempts(
                #[trigger] times.take(i),
            ).permits(times[i]),
        !Window::fresh(capacity, duration, opened).after_attempts(
            times.take(capacity as int),
        ).permits(times[capacity as int]),
{
    let w = Window::fresh(capacity, duration, opened);
    assert forall|i: int| 0 <= i <= capacity implies w.after_attempts(#[trigger] times.take(i))
        == (Window { remaining: (capacity - i) as nat, ..w }) by {
        let before = times.take(i);
        assert forall|j: int| 0 <= j < before.len() implies !w.expired(#[trigger] before[j]) by {
            assert(before[j] == times[j]);
        }
        lemma_attempts_within_window(w, before);
    }
    assert forall|i: int| 0 <= i < capacity implies w.after_attempts(
        #[trigger] times.take(i),
    ).permits(times[i]) by {
        assert(!w.expired(times[i]));
    }
    assert(!w.expired(times[capacity as int]));
}

/// Once a limiter with room for at least one attempt has denied one, the
/// first attempt that finds its window expired is permitted, and leaves one
/// less than the capacity.
pub proof fn lemma_reopens_after_denial(w: Window, denied_at: nat, later: nat)
    requires
        w.valid(),
        w.capacity >= 1,
        !w.permits(denied_at),
        w.after_attempt(denied_at).expired(later),
    ensures
        w.after_attempt(denied_at).permits(later),
        w.after_attempt(denied_at).after_attempt(later).remaining == w.capacity - 1,
        w.after_attempt(denied_at).after_attempt(later).started == later,
{
}

/// An attempt reopens the window exactly when it finds it expired. The window
/// that it opens starts at that attempt, so the attempts of a burst that
/// follow within the duration find it open and leave its start alone.
pub proof fn lemma_rollover_resets_once(w: Window, now: nat, next: nat)
    requires
        now <= next <= now + w.duration,
    ensures
        w.expired(now) ==> w.after_attempt(now).started == now,
        !w.expired(now) ==> w.after_attempt(now).started == w.started,
        w.expired(now) ==> !w.after_attempt(now).expired(next),
        w.expired(now) ==> w.after_attempt(now).after_attempt(next).started == now,
{
}

#[derive(Debug)]
pub struct RateLimiter {
    max_executions_per_window: u64,
    executions_left_in_window: u64,
    origin: Instant,
    window_start_time: u128,
    window_duration: u128,
}

impl View for RateLimiter {
    type V = Window;

    closed spec fn view(&self) -> Window {
        Window {
            capacity: self.max_executions_per_window as nat,
            remaining: self.executions_left_in_window as nat,
            started: self.window_start_time as nat,
            duration: self.window_duration as nat,
        }
    }
}

impl Clone for RateLimiter {
    fn clone(&self) -> (copy: Self)
        ensures
            copy@ == self@,
    {
        proof {
            use_type_invariant(self);
        }
        RateLimiter {
            max_executions_per_window: self.max_executions_per_window,
            executions_left_in_window: self.executions_left_in_window,
            origin: self.origin,
            window_start_time: self.window_start_time,
            window_duration: self.window_duration,
        }
    }
}

impl RateLimiter {
    #[verifier::type_invariant]
    spec fn well_formed(&self) -> bool {
        self.executions_left_in_window <= self.max_executions_per_window
    }

    /// A limiter whose first window opens now, for `interval` nanoseconds,
    /// with `max_executions_per_interval` attempts in it.
    pub fn new(max_executions_per_interval: u64, interval: u128) -> (limiter: Self)
        ensures
            limiter@ == Window::fresh(max_executions_per_interval as nat, interval as nat, 0),
    {
        Self::anchored(max_executions_per_interval, interval, clock::now())
    }

    /// A limiter whose clock counts from `origin`, where its first window
    /// opens.
    pub(crate) fn anchored(capacity: u64, interval: u128, origin: Instant) -> (limiter: Self)
        ensures
            limiter@ == Window::fresh(capacity as nat, interval as nat, 0),
    {
        RateLimiter {
            max_executions_per_window: capacity,
            executions_left_in_window: capacity,
            origin,
            window_start_time: 0,
            window_duration: interval,
        }
    }

    /// The limiter's clock: nanoseconds since it was made.
    pub(crate) fn now(&self) -> u128 {
        clock::nanos_since(&self.origin)
    }

    /// One attempt at the moment the clock shows. Whatever that moment is, the
    /// limiter moves as `attempt_at` says for it.
    pub fn attempt(&mut self) -> (allowed: bool)
        ensures
            exists|now: nat|
                final(self)@ == (#[trigger] old(self)@.after_attempt(now)) && allowed == old(
                    self,
                )@.permits(now),
            final(self)@.valid(),
    {
        let now: u128 = self.now();
        let allowed = self.attempt_at(now);
        assert(self@ == old(self)@.after_attempt(now as nat));
        allowed
    }

    /// One attempt at `now`, in nanoseconds on the limiter's clock. An expired
    /// window is reopened at `now` with its full capacity first; then the
    /// attempt is denied when nothing remains, and counted otherwise.
    pub fn attempt_at(&mut self, now: u128) -> (allowed: bool)
        ensures
            final(self)@ == old(self)@.after_attempt(now as nat),
            allowed == old(self)@.permits(now as nat),
            final(self)@.valid(),
    {
        proof {
            use_type_invariant(&*self);
        }
        if now > self.window_start_time && now - self.window_start_time > self.window_duration {
            self.window_start_time = now;
            self.executions_left_in_window = self.max_executions_per_window;
        }
        if self.executions_left_in_window < 1 {
            return false;
        }
        self.executions_left_in_window -= 1;
        true
    }

    /// Attempts left in the current window.
    pub fn remaining(&self) -> (left: u64)
        ensures
            left == self@.remaining,
            self@.valid(),
    {
        proof {
            use_type_invariant(self);
        }
        self.executions_left_in_window
    }
}

} // verus!

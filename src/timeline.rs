//! A timeline: a start instant and a fixed duration, measured in milliseconds
//! of a monotonic clock.
use crate::easing::{bouncy_easing, ease, SCALE};
use vstd::prelude::*;

verus! {

/// `part / whole` as a fixed-point fraction, for `0 <= part <= whole`; an empty
/// whole counts as done.
pub open spec fn fraction(part: int, whole: int) -> int {
    if whole == 0 {
        SCALE as int
    } else {
        part * SCALE / whole
    }
}

pub proof fn lemma_fraction_bounds(part: int, whole: int)
    requires
        0 <= part <= whole,
    ensures
        0 <= fraction(part, whole) <= SCALE,
        fraction(part, whole) == SCALE <==> part == whole,
{
    let s = SCALE as int;
    if whole > 0 {
        assert(0 <= part * s / whole <= s) by (nonlinear_arith)
            requires
                0 <= part <= whole,
                whole > 0,
                s > 0,
        ;
        if part < whole {
            assert(part * s / whole < s) by (nonlinear_arith)
                requires
                    0 <= part < whole,
                    s > 0,
            ;
        } else {
            assert(whole * s / whole == s) by (nonlinear_arith)
                requires
                    whole > 0,
            ;
        }
    }
}

/// Computes `fraction(part, whole)`.
pub fn fraction_of(part: u64, whole: u64) -> (r: i64)
    requires
        part <= whole,
    ensures
        r == fraction(part as int, whole as int),
        0 <= r <= SCALE,
{
    proof {
        lemma_fraction_bounds(part as int, whole as int);
    }
    if whole == 0 {
        SCALE
    } else {
        let num: u128 = part as u128 * SCALE as u128;
        (num / whole as u128) as i64
    }
}

/// A running transition: it started at `start_time` and lasts `duration`.
#[derive(Clone, Copy, Debug, PartialEq, Eq)]
pub struct Animation {
    pub start_time: u64,
    pub duration: u64,
}

impl Animation {
    /// Time travelled along the timeline at `now`, clamped to `[0, duration]`;
    /// an instant before the start counts as the start.
    pub open spec fn elapsed_at(&self, now: u64) -> int {
        if now <= self.start_time {
            0
        } else if now - self.start_time >= self.duration {
            self.duration as int
        } else {
            now - self.start_time
        }
    }

    /// Progress at `now`, a fixed-point fraction in `[0, SCALE]`. Before the
    /// start it is 0, even for an empty timeline.
    pub open spec fn progress_at(&self, now: u64) -> int {
        if now < self.start_time {
            0
        } else {
            fraction(self.elapsed_at(now), self.duration as int)
        }
    }

    /// The timeline has reached the end: progress is exactly 1.
    pub open spec fn complete_at(&self, now: u64) -> bool {
        self.progress_at(now) == SCALE
    }

    /// A timeline that starts at `start_time` and lasts `duration`.
    pub fn new(duration: u64, start_time: u64) -> (r: Animation)
        ensures
            r == (Animation { start_time, duration }),
    {
        Animation { start_time, duration }
    }

    /// Restarts the timeline at `now`, keeping its duration.
    pub fn start(&mut self, now: u64)
        ensures
            *final(self) == (Animation { start_time: now, duration: old(self).duration }),
    {
        self.start_time = now;
    }

    /// Time travelled along the timeline at `now`.
    pub fn elapsed(&self, now: u64) -> (r: u64)
        ensures
            r == self.elapsed_at(now),
            r <= self.duration,
    {
        if now <= self.start_time {
            0
        } else if now - self.start_time >= self.duration {
            self.duration
        } else {
            now - self.start_time
        }
    }

    /// Progress at `now`, clamped to `[0, SCALE]`.
    pub fn progress(&self, now: u64) -> (r: i64)
        ensures
            r == self.progress_at(now),
            0 <= r <= SCALE,
    {
        if now < self.start_time {
            return 0;
        }
        let e = self.elapsed(now);
        fraction_of(e, self.duration)
    }

    /// Whether progress has reached 1 at `now`; reaching it exactly counts.
    /// Nothing is complete before its start.
    pub fn is_complete(&self, now: u64) -> (r: bool)
        ensures
            r == self.complete_at(now),
            now < self.start_time ==> !r,
    {
        if now < self.start_time {
            return false;
        }
        let e = self.elapsed(now);
        proof {
            lemma_fraction_bounds(e as int, self.duration as int);
        }
        e == self.duration
    }

    /// The eased progress at `now`.
    pub fn sample(&self, now: u64) -> (r: i64)
        ensures
            r == ease(self.progress_at(now)),
            -13 * SCALE <= r <= 13 * SCALE,
    {
        let p = self.progress(now);
        bouncy_easing(p)
    }
}

} // verus!

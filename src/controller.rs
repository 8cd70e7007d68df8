//! The transition controller: where the preview card is, which way it moves, and
//! what it shows next.
//!
//! Time is in milliseconds of a monotonic clock. Offsets are in the unit of the
//! travel distance: 0 is fully visible, `travel_distance` is fully off screen.
use crate::easing::{
    bouncy_easing, div_trunc, ease, lemma_div_trunc_bound, lemma_mul_signed_bound, SCALE,
};
use crate::timeline::{fraction, fraction_of, lemma_fraction_bounds, Animation};
use vstd::prelude::*;

verus! {

/// The phase of the card. Moving phases carry their timeline.
#[derive(Clone, Copy, Debug, PartialEq, Eq)]
pub enum AnimationState {
    /// Hidden, at rest.
    Offscreen,
    /// Sliding in.
    EnteringForward(Animation),
    /// Sliding out.
    ExitingForward(Animation),
    /// Fully visible, at rest.
    Settled,
    /// An entry that was interrupted and now runs backward to off screen. Its
    /// timeline starts at the interruption and lasts as long as the entry had
    /// run by then.
    EnteringReversed(Animation),
}

/// What a completed transition led to. `advance` hands it back once, in the
/// tick where the transition's timeline reaches its end, so that the caller can
/// act on it (repaint, bind the new visual) without registering a callback.
#[derive(Clone, Copy, Debug, PartialEq, Eq)]
pub enum Completion {
    /// An entry finished: the card is fully visible.
    Settled,
    /// An exit finished with nothing pending: the card is hidden.
    Hidden,
    /// An exit finished with content pending: that content is now bound and a
    /// new entry has begun.
    Entering,
}

/// Offset of an entering card whose eased progress is `eased`.
pub open spec fn entering_offset(eased: int, distance: int) -> int {
    div_trunc(distance * (SCALE - eased), SCALE as int)
}

/// Offset of an exiting card whose eased progress is `eased`.
pub open spec fn exiting_offset(eased: int, distance: int) -> int {
    div_trunc(distance * eased, SCALE as int)
}

/// The card's state machine.
#[derive(Debug)]
pub struct AnimationController {
    pub state: AnimationState,
    /// Offset of a card that is fully off screen.
    pub travel_distance: u32,
    /// Duration of a full entry or exit.
    pub duration: u64,
    /// Content waiting for the current exit to finish; the latest request wins.
    pub pending: Option<String>,
    /// Content whose visual is bound for display.
    pub active: Option<String>,
}

impl AnimationController {
    /// Well-formedness: forward timelines last a full duration, a reversal no
    /// longer than that, and content waits only where an exit can lead to it.
    pub open spec fn wf(&self) -> bool {
        &&& self.duration > 0
        &&& match self.state {
            AnimationState::EnteringForward(a) => a.duration == self.duration,
            AnimationState::ExitingForward(a) => a.duration == self.duration,
            AnimationState::EnteringReversed(a) => a.duration <= self.duration,
            _ => true,
        }
        &&& self.pending is Some ==> (self.state is ExitingForward || self.state is EnteringReversed)
    }

    /// A fresh full-length timeline starting at `now`.
    pub open spec fn fresh(&self, now: u64) -> Animation {
        Animation { start_time: now, duration: self.duration }
    }

    /// The controller after `request(content, now)`.
    pub open spec fn requested(self, content: Option<String>, now: u64) -> AnimationController {
        match self.state {
            AnimationState::Offscreen => match content {
                Some(c) => AnimationController {
                    state: AnimationState::EnteringForward(self.fresh(now)),
                    active: Some(c),
                    ..self
                },
                None => self,
            },
            AnimationState::Settled => AnimationController {
                state: AnimationState::ExitingForward(self.fresh(now)),
                pending: content,
                ..self
            },
            AnimationState::EnteringForward(a) => AnimationController {
                state: AnimationState::EnteringReversed(
                    Animation { start_time: now, duration: a.elapsed_at(now) as u64 },
                ),
                pending: content,
                ..self
            },
            _ => AnimationController { pending: content, ..self },
        }
    }

    /// `now` is earlier than the start of the current timeline, if any: no
    /// transition can complete then.
    pub open spec fn before_timeline(&self, now: u64) -> bool {
        match self.state {
            AnimationState::EnteringForward(a) => now < a.start_time,
            AnimationState::ExitingForward(a) => now < a.start_time,
            AnimationState::EnteringReversed(a) => now < a.start_time,
            _ => false,
        }
    }

    /// The controller after `advance(now)`, and what completed.
    pub open spec fn advanced(self, now: u64) -> (AnimationController, Option<Completion>) {
        match self.state {
            AnimationState::EnteringForward(a) => if a.complete_at(now) {
                (
                    AnimationController { state: AnimationState::Settled, ..self },
                    Some(Completion::Settled),
                )
            } else {
                (self, None)
            },
            AnimationState::ExitingForward(a) => self.exit_done(a, now),
            AnimationState::EnteringReversed(a) => self.exit_done(a, now),
            _ => (self, None),
        }
    }

    /// The end of a movement toward hidden along `a`, if `a` is complete.
    pub open spec fn exit_done(self, a: Animation, now: u64) -> (
        AnimationController,
        Option<Completion>,
    ) {
        if !a.complete_at(now) {
            (self, None)
        } else {
            match self.pending {
                Some(c) => (
                    AnimationController {
                        state: AnimationState::EnteringForward(self.fresh(now)),
                        active: Some(c),
                        pending: None,
                        ..self
                    },
                    Some(Completion::Entering),
                ),
                None => (
                    AnimationController { state: AnimationState::Offscreen, ..self },
                    Some(Completion::Hidden),
                ),
            }
        }
    }

    /// Entry progress during a reversal along `a`: the time left to rewind, as
    /// a fraction of a full duration.
    pub open spec fn rewound_progress(&self, a: Animation, now: u64) -> int {
        fraction(a.duration - a.elapsed_at(now), self.duration as int)
    }

    /// The offset at `now`, and whether the card is still moving.
    pub open spec fn sampled(&self, now: u64) -> (int, bool) {
        let d = self.travel_distance as int;
        match self.state {
            AnimationState::Offscreen => (d, false),
            AnimationState::Settled => (0, false),
            AnimationState::EnteringForward(a) => (
                entering_offset(ease(a.progress_at(now)), d),
                !a.complete_at(now),
            ),
            AnimationState::ExitingForward(a) => (
                exiting_offset(ease(a.progress_at(now)), d),
                !a.complete_at(now),
            ),
            AnimationState::EnteringReversed(a) => (
                entering_offset(ease(self.rewound_progress(a, now)), d),
                !a.complete_at(now),
            ),
        }
    }

    /// The controller after `advance` at each instant of `times` in turn.
    pub open spec fn advanced_all(self, times: Seq<u64>) -> AnimationController
        decreases times.len(),
    {
        if times.len() == 0 {
            self
        } else {
            self.advanced(times[0]).0.advanced_all(times.drop_first())
        }
    }

    /// A hidden controller whose entries and exits last `duration` and travel
    /// `travel_distance`.
    pub fn new(travel_distance: u32, duration: u64) -> (r: AnimationController)
        requires
            duration > 0,
        ensures
            r.wf(),
            r == (AnimationController {
                state: AnimationState::Offscreen,
                travel_distance,
                duration,
                pending: None,
                active: None,
            }),
    {
        AnimationController {
            state: AnimationState::Offscreen,
            travel_distance,
            duration,
            pending: None,
            active: None,
        }
    }

    /// Asks to show `content`, or with `None` to hide the card. Returns whether
    /// the visual of `content` was bound at once.
    pub fn request(&mut self, content: Option<String>, now: u64) -> (bound: bool)
        requires
            old(self).wf(),
        ensures
            final(self).wf(),
            *final(self) == old(self).requested(content, now),
            bound == (old(self).state is Offscreen && content is Some),
    {
        match self.state {
            AnimationState::Offscreen => match content {
                Some(c) => {
                    self.state = AnimationState::EnteringForward(Animation::new(self.duration, now));
                    self.active = Some(c);
                    true
                },
                None => false,
            },
            AnimationState::Settled => {
                self.state = AnimationState::ExitingForward(Animation::new(self.duration, now));
                self.pending = content;
                false
            },
            AnimationState::EnteringForward(a) => {
                let travelled = a.elapsed(now);
                self.state = AnimationState::EnteringReversed(Animation::new(travelled, now));
                self.pending = content;
                false
            },
            _ => {
                self.pending = content;
                false
            },
        }
    }

    /// Completes the current transition if its timeline has reached the end at
    /// `now`, and says what it led to.
    pub fn advance(&mut self, now: u64) -> (r: Option<Completion>)
        requires
            old(self).wf(),
        ensures
            final(self).wf(),
            (*final(self), r) == old(self).advanced(now),
            old(self).before_timeline(now) ==> r is None && *final(self) == *old(self),
    {
        match self.state {
            AnimationState::EnteringForward(a) => {
                if a.is_complete(now) {
                    self.state = AnimationState::Settled;
                    Some(Completion::Settled)
                } else {
                    None
                }
            },
            AnimationState::ExitingForward(a) => self.finish_exit(a, now),
            AnimationState::EnteringReversed(a) => self.finish_exit(a, now),
            _ => None,
        }
    }

    fn finish_exit(&mut self, a: Animation, now: u64) -> (r: Option<Completion>)
        requires
            old(self).wf(),
            old(self).state == AnimationState::ExitingForward(a) || old(self).state
                == AnimationState::EnteringReversed(a),
        ensures
            final(self).wf(),
            (*final(self), r) == old(self).exit_done(a, now),
    {
        if !a.is_complete(now) {
            return None;
        }
        match self.pending.take() {
            Some(c) => {
                self.state = AnimationState::EnteringForward(Animation::new(self.duration, now));
                self.active = Some(c);
                Some(Completion::Entering)
            },
            None => {
                self.state = AnimationState::Offscreen;
                Some(Completion::Hidden)
            },
        }
    }

    /// The offset at `now` and whether the card is still moving; nothing changes.
    pub fn sample(&self, now: u64) -> (r: (i64, bool))
        requires
            self.wf(),
        ensures
            r.0 == self.sampled(now).0,
            r.1 == self.sampled(now).1,
    {
        let d = self.travel_distance;
        match self.state {
            AnimationState::Offscreen => (d as i64, false),
            AnimationState::Settled => (0, false),
            AnimationState::EnteringForward(a) => {
                let eased = a.sample(now);
                (entering_offset_of(eased, d), !a.is_complete(now))
            },
            AnimationState::ExitingForward(a) => {
                let eased = a.sample(now);
                (exiting_offset_of(eased, d), !a.is_complete(now))
            },
            AnimationState::EnteringReversed(a) => {
                let left = a.duration - a.elapsed(now);
                let p = fraction_of(left, self.duration);
                let eased = bouncy_easing(p);
                (entering_offset_of(eased, d), !a.is_complete(now))
            },
        }
    }

    /// Samples the offset at `now`, then advances; returns the offset.
    pub fn update(&mut self, now: u64) -> (r: i64)
        requires
            old(self).wf(),
        ensures
            final(self).wf(),
            r == old(self).sampled(now).0,
            *final(self) == old(self).advanced(now).0,
    {
        let (offset, _) = self.sample(now);
        self.advance(now);
        offset
    }

    /// Whether the card is fully visible and at rest.
    pub fn is_idle(&self) -> (r: bool)
        ensures
            r == (self.state is Settled),
    {
        match self.state {
            AnimationState::Settled => true,
            _ => false,
        }
    }
}

fn entering_offset_of(eased: i64, distance: u32) -> (r: i64)
    requires
        -13 * SCALE <= eased <= 13 * SCALE,
    ensures
        r == entering_offset(eased as int, distance as int),
{
    proof {
        lemma_mul_signed_bound(distance as int, SCALE - eased, 0x1_0000_0000, 14 * SCALE);
        lemma_div_trunc_bound(distance * (SCALE - eased), SCALE as int, 14 * 0x1_0000_0000int);
    }
    let num: i128 = distance as i128 * (SCALE as i128 - eased as i128);
    (num / SCALE as i128) as i64
}

fn exiting_offset_of(eased: i64, distance: u32) -> (r: i64)
    requires
        -13 * SCALE <= eased <= 13 * SCALE,
    ensures
        r == exiting_offset(eased as int, distance as int),
{
    proof {
        lemma_mul_signed_bound(distance as int, eased as int, 0x1_0000_0000, 13 * SCALE);
        lemma_div_trunc_bound(distance * eased, SCALE as int, 13 * 0x1_0000_0000int);
    }
    let num: i128 = distance as i128 * eased as i128;
    (num / SCALE as i128) as i64
}

proof fn lemma_settled_is_fixed(c: AnimationController, times: Seq<u64>)
    requires
        c.state is Settled,
    ensures
        c.advanced_all(times) == c,
    decreases times.len(),
{
    if times.len() > 0 {
        lemma_settled_is_fixed(c.advanced(times[0]).0, times.drop_first());
    }
}

/// Once `advance` has settled an entry, the card stays settled at offset 0
/// through any further advances, until another request arrives.
pub proof fn lemma_settled_stays_put(
    c: AnimationController,
    settle_at: u64,
    later: Seq<u64>,
    now: u64,
)
    requires
        c.wf(),
        c.state is EnteringForward,
        c.advanced(settle_at).0.state is Settled,
    ensures
        c.advanced(settle_at).0.advanced_all(later).state is Settled,
        c.advanced(settle_at).0.advanced_all(later).sampled(now).0 == 0,
{
    lemma_settled_is_fixed(c.advanced(settle_at).0, later);
}

/// A request that interrupts an entry does not move the card: right after it,
/// the offset is the one the entry had at that instant.
pub proof fn lemma_interrupt_continuity(c: AnimationController, content: Option<String>, now: u64)
    requires
        c.wf(),
        c.state is EnteringForward,
    ensures
        c.requested(content, now).sampled(now).0 == c.sampled(now).0,
{
    let a = c.state->EnteringForward_0;
    let back = Animation { start_time: now, duration: a.elapsed_at(now) as u64 };
    assert(back.elapsed_at(now) == 0);
    assert(c.requested(content, now).rewound_progress(back, now) == a.progress_at(now));
}

/// While a transition is under way, of two requests for content the later one
/// wins: the earlier content is never bound, and the later one is bound when
/// the card next enters and stays bound through the settling that follows.
pub proof fn lemma_latest_request_wins(
    c: AnimationController,
    first: String,
    second: String,
    t1: u64,
    t2: u64,
)
    requires
        c.wf(),
        !(c.state is Offscreen),
    ensures
        ({
            let c2 = c.requested(Some(first), t1).requested(Some(second), t2);
            &&& c2.wf()
            &&& c2.active == c.active
            &&& c2.pending == Some(second)
            &&& c2.state is ExitingForward || c2.state is EnteringReversed
            &&& forall|now: u64|
                #![trigger c2.advanced(now)]
                c2.advanced(now).1 is None ==> c2.advanced(now).0 == c2
            &&& forall|now: u64|
                #![trigger c2.advanced(now)]
                c2.advanced(now).1 is Some ==> {
                    &&& c2.advanced(now).0.state is EnteringForward
                    &&& c2.advanced(now).0.active == Some(second)
                    &&& c2.advanced(now).0.pending is None
                    &&& forall|later: u64|
                        #![trigger c2.advanced(now).0.advanced(later)]
                        c2.advanced(now).0.advanced(later).0.active == Some(second)
                }
        }),
{
}

/// A completed transition is reported once: advancing again at the same
/// instant reports nothing more.
pub proof fn lemma_completion_reported_once(c: AnimationController, now: u64)
    requires
        c.wf(),
        c.advanced(now).1 is Some,
    ensures
        c.advanced(now).0.advanced(now).1 is None,
{
    let next = c.advanced(now).0;
    if next.state is EnteringForward {
        let a = next.state->EnteringForward_0;
        assert(a.elapsed_at(now) == 0);
        lemma_fraction_bounds(0, c.duration as int);
    }
}

/// A reversal takes exactly as long as the interrupted entry had run: started
/// at `turn` after `e` of entry, it completes at `now` if and only if `now` is
/// at least `turn` and `now - turn >= e`.
pub proof fn lemma_reversal_length(c: AnimationController, content: Option<String>, turn: u64)
    requires
        c.wf(),
        c.state is EnteringForward,
    ensures
        forall|now: u64|
            #![trigger c.requested(content, turn).advanced(now)]
            c.requested(content, turn).advanced(now).1 is Some <==> (turn <= now && now - turn
                >= c.state->EnteringForward_0.elapsed_at(turn)),
{
    let e = c.state->EnteringForward_0.elapsed_at(turn);
    let back = Animation { start_time: turn, duration: e as u64 };
    assert forall|now: u64|
        #![trigger c.requested(content, turn).advanced(now)]
        c.requested(content, turn).advanced(now).1 is Some <==> (turn <= now && now - turn >= e) by {
        lemma_fraction_bounds(back.elapsed_at(now), e);
    }
}

} // verus!

//! An offset that travels back and forth between two bounds, one step a frame.
//!
//! The offset is counted in whole steps from the middle, so that the bounds
//! are hit exactly and nothing drifts: the number shown on screen is the step
//! count times the step width.

use vstd::prelude::*;

verus! {

/// Bit pattern of 0.0005, the width of one step of the sliding offset.
pub const STEP_BITS: u32 = 0x3A03_126F;

/// Steps from the middle of the slide to either end, which keeps the offset
/// between -0.5 and 0.5.
pub const STEPS_TO_BOUND: u32 = 1000;

/// Which way the offset is travelling.
#[derive(Clone, Copy, Debug, PartialEq, Eq, Structural)]
pub enum Direction {
    Rising,
    Falling,
}

/// An offset bouncing between `-limit` and `+limit` steps.
#[derive(Clone, Copy, Debug, PartialEq, Eq, Structural)]
pub struct Oscillator {
    /// Steps from the middle; negative below it.
    pub position: i64,
    pub direction: Direction,
    /// Steps from the middle to either bound; at least 1.
    pub limit: u32,
}

impl Direction {
    /// The change of position that one step in this direction makes.
    pub open spec fn delta(self) -> int {
        match self {
            Direction::Rising => 1,
            Direction::Falling => -1,
        }
    }
}

impl Oscillator {
    /// The offset is within its bounds, and at a bound it faces inwards.
    pub open spec fn wf(self) -> bool {
        &&& self.limit >= 1
        &&& -self.limit <= self.position <= self.limit
        &&& self.position == self.limit ==> self.direction == Direction::Falling
        &&& self.position == -self.limit ==> self.direction == Direction::Rising
    }

    /// The oscillator at its lower bound, about to rise.
    pub open spec fn at_lower_bound(limit: u32) -> Oscillator {
        Oscillator { position: -(limit as int) as i64, direction: Direction::Rising, limit }
    }

    /// The oscillator one frame later: one step on, and turned round if that
    /// step reached a bound.
    pub open spec fn advanced(self) -> Oscillator {
        let position = self.position + self.direction.delta();
        Oscillator {
            position: position as i64,
            direction: if position >= self.limit {
                Direction::Falling
            } else if position <= -self.limit {
                Direction::Rising
            } else {
                self.direction
            },
            limit: self.limit,
        }
    }

    /// The oscillator `frames` frames later.
    pub open spec fn after(self, frames: nat) -> Oscillator
        decreases frames,
    {
        if frames == 0 {
            self
        } else {
            self.after((frames - 1) as nat).advanced()
        }
    }

    /// How often the direction changed during the next `frames` frames.
    pub open spec fn turns(self, frames: nat) -> nat
        decreases frames,
    {
        if frames == 0 {
            0
        } else {
            let earlier = (frames - 1) as nat;
            if self.after(frames).direction != self.after(earlier).direction {
                self.turns(earlier) + 1
            } else {
                self.turns(earlier)
            }
        }
    }

    /// An oscillator at its lower bound, about to rise, or `None` where the
    /// bounds would leave it no room to move.
    pub fn new(limit: u32) -> (o: Option<Oscillator>)
        ensures
            o == (if limit >= 1 {
                Some(Oscillator::at_lower_bound(limit))
            } else {
                None
            }),
            o matches Some(osc) ==> osc.wf(),
    {
        if limit == 0 {
            None
        } else {
            Some(Oscillator { position: -(limit as i64), direction: Direction::Rising, limit })
        }
    }

    /// Moves the offset one step and turns it round at a bound.
    pub fn advance(&mut self)
        requires
            old(self).wf(),
        ensures
            *final(self) == old(self).advanced(),
            final(self).wf(),
    {
        let step: i64 = match self.direction {
            Direction::Rising => 1,
            Direction::Falling => -1,
        };
        self.position = self.position + step;
        if self.position >= self.limit as i64 {
            self.direction = Direction::Falling;
        } else if self.position <= -(self.limit as i64) {
            self.direction = Direction::Rising;
        }
    }

    /// The offset never leaves its bounds: a frame later it is still within
    /// them, and still faces inwards where it touches one.
    pub proof fn law_advanced_within(self)
        requires
            self.wf(),
        ensures
            self.advanced().wf(),
            self.advanced().limit == self.limit,
    {
    }

    /// The offset is within its bounds after any number of frames.
    pub proof fn law_always_within(self, frames: nat)
        requires
            self.wf(),
        ensures
            self.after(frames).wf(),
            self.after(frames).limit == self.limit,
            -self.limit <= self.after(frames).position <= self.limit,
        decreases frames,
    {
        if frames > 0 {
            self.law_always_within((frames - 1) as nat);
            self.after((frames - 1) as nat).law_advanced_within();
        }
    }

    /// From the lower bound the offset rises one step a frame until it
    /// reaches the upper bound, `2 * limit` frames later, and there it turns.
    pub proof fn law_first_ascent(limit: u32, frames: nat)
        requires
            limit >= 1,
            frames <= 2 * limit,
        ensures
            Oscillator::at_lower_bound(limit).after(frames).limit == limit,
            Oscillator::at_lower_bound(limit).after(frames).position == frames - limit,
            Oscillator::at_lower_bound(limit).after(frames).direction == (if frames == 2 * limit {
                Direction::Falling
            } else {
                Direction::Rising
            }),
        decreases frames,
    {
        if frames > 0 {
            Oscillator::law_first_ascent(limit, (frames - 1) as nat);
        }
    }

    /// The count of turns never goes down as frames go by.
    pub proof fn lemma_turns_monotonic(self, earlier: nat, later: nat)
        requires
            earlier <= later,
        ensures
            self.turns(earlier) <= self.turns(later),
        decreases later,
    {
        if earlier < later {
            self.lemma_turns_monotonic(earlier, (later - 1) as nat);
        }
    }

    /// Started at the lower bound, the offset has turned round at least once
    /// by the time `2 * limit` frames have passed, and at any time after.
    pub proof fn law_turns_by_first_ascent(limit: u32, frames: nat)
        requires
            limit >= 1,
            frames >= 2 * limit,
        ensures
            Oscillator::at_lower_bound(limit).turns(frames) >= 1,
    {
        let start = Oscillator::at_lower_bound(limit);
        let top = (2 * limit) as nat;
        Oscillator::law_first_ascent(limit, top);
        Oscillator::law_first_ascent(limit, (top - 1) as nat);
        assert(start.turns(top) == start.turns((top - 1) as nat) + 1);
        start.lemma_turns_monotonic(top, frames);
    }
}

} // verus!

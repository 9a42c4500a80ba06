//! An unbounded walk on the integer line that pays 1 at position 3.
use vstd::prelude::*;

verus! {

/// Reward on arriving at `pos`: 1 at position 3, 0 elsewhere.
pub open spec fn line_reward(pos: int) -> i32 {
    if pos == 3 { 1i32 } else { 0i32 }
}

pub struct Env {
    pub pos: isize,
}

impl Env {
    pub fn new() -> (r: Self)
        ensures r.pos == 0,
    {
        Self { pos: 0 }
    }

    /// Returns observation
    pub fn reset(&mut self) -> (r: isize)
        ensures final(self).pos == 0, r == 0,
    {
        self.pos = 0;
        0
    }

    /// Moves by `action` and returns the new position and the reward.
    pub fn step(&mut self, action: isize) -> (r: (isize, i32))
        requires
            isize::MIN <= old(self).pos + action <= isize::MAX,
        ensures
            final(self).pos == old(self).pos + action,
            r.0 == final(self).pos,
            r.1 == line_reward(final(self).pos as int),
    {
        self.pos = self.pos + action;
        let reward: i32 = if self.pos == 3 { 1 } else { 0 };
        (self.pos, reward)
    }
}


/// The reward is 1 on position 3 and 0 everywhere else.
pub proof fn lemma_line_reward(pos: int)
    ensures
        line_reward(pos) == 1i32 || line_reward(pos) == 0i32,
        (line_reward(pos) == 1i32) == (pos == 3),
{
}

} // verus!

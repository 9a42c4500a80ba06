//! A walk on the integer line that ends one step left or right of the origin.
use vstd::prelude::*;

verus! {

/// Position after taking `action` (0 moves left, 1 moves right) at `pos`.
pub open spec fn toy_next_pos(pos: int, action: usize) -> int {
    if action == 0 { pos - 1 } else { pos + 1 }
}

/// Reward on arriving at `pos`: +1 at 1, -1 at -1, 0 elsewhere.
pub open spec fn toy_reward(pos: int) -> i32 {
    if pos == 1 { 1i32 } else if pos == -1 { -1i32 } else { 0i32 }
}

/// The episode ends on arriving at 1 or -1.
pub open spec fn toy_done(pos: int) -> bool {
    pos == 1 || pos == -1
}

pub struct ToyEnv {
    pub pos: isize,
}

impl ToyEnv {
    pub fn new() -> (r: Self)
        ensures r.pos == 0,
    {
        Self { pos: 0 }
    }

    pub fn state(&self) -> (r: isize)
        ensures r == self.pos,
    {
        self.pos
    }

    /// Returns observation
    pub fn reset(&mut self) -> (r: isize)
        ensures final(self).pos == 0, r == 0,
    {
        self.pos = 0;
        0
    }

    /// Returns next obs, reward, done
    pub fn step(&mut self, action: usize) -> (r: (isize, i32, bool))
        requires
            action < 2,
            action == 0 ==> old(self).pos > isize::MIN,
            action == 1 ==> old(self).pos < isize::MAX,
        ensures
            final(self).pos == toy_next_pos(old(self).pos as int, action),
            r.0 == final(self).pos,
            r.1 == toy_reward(final(self).pos as int),
            r.2 == toy_done(final(self).pos as int),
    {
        if action == 0 {
            self.pos = self.pos - 1;
        } else {
            self.pos = self.pos + 1;
        }
        let mut reward: i32 = 0;
        let mut done = false;
        if self.pos == 1 {
            reward = 1;
            done = true;
        } else if self.pos == -1 {
            reward = -1;
            done = true;
        }
        (self.pos, reward, done)
    }
}


/// From the start position every action ends the episode at once: a step
/// right pays +1, a step left pays -1.
pub proof fn lemma_toy_first_step_ends(action: usize)
    requires action < 2,
    ensures
        toy_done(toy_next_pos(0, action)),
        toy_reward(toy_next_pos(0, action)) == (if action == 1 { 1i32 } else { -1i32 }),
{
}

/// A step pays a nonzero reward exactly when it ends the episode.
pub proof fn lemma_toy_reward_iff_done(pos: int)
    ensures (toy_reward(pos) != 0) == toy_done(pos),
{
}

} // verus!

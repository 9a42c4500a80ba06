//! A one-dimensional grid world: move right three times within five steps.
use vstd::prelude::*;

verus! {

/// Step limit of an episode.
pub const GRID_MAX_STEPS: usize = 5;

/// Position that ends the episode with the large reward.
pub const GRID_GOAL: u64 = 3;

/// What a step returns, and the state after it, from state `(x, i_step)`.
pub open spec fn grid_step_spec(x: nat, i_step: nat, action: i32) -> (nat, nat, i32, bool) {
    let nx = if action == 1 { x + 1 } else { x };
    let reached = action == 1 && nx == GRID_GOAL;
    let reward: i32 = if reached { 10i32 } else { -1i32 };
    let ni = i_step + 1;
    (nx, ni, reward, reached || ni >= GRID_MAX_STEPS)
}

/// 1-dimensional grid world environment.
///
/// The position only ever takes whole values, so it is kept as a count.
pub struct OneDimGridEnv {
    x: u64,
    i_step: usize,
}

impl OneDimGridEnv {
    /// Current position.
    pub closed spec fn pos(&self) -> nat {
        self.x as nat
    }

    /// Steps taken since the last reset.
    pub closed spec fn steps(&self) -> nat {
        self.i_step as nat
    }

    pub fn new() -> (r: Self)
        ensures r.pos() == 0, r.steps() == 0,
    {
        Self { x: 0, i_step: 0 }
    }

    /// 1-dim observation
    pub fn obs_dim(&self) -> (r: usize)
        ensures r == 1,
    {
        1
    }

    /// 2 discrete actions
    pub fn n_acts(&self) -> (r: usize)
        ensures r == 2,
    {
        2
    }

    pub fn reset(&mut self) -> (r: u64)
        ensures final(self).pos() == 0, final(self).steps() == 0, r == 0,
    {
        self.x = 0;
        self.i_step = 0;
        self.x
    }

    /// Action 0 stays, action 1 moves right. Returns (obs, reward, done).
    pub fn step(&mut self, action: i32) -> (r: (u64, i32, bool))
        requires
            action == 0 || action == 1,
            action == 1 ==> old(self).pos() < u64::MAX,
            old(self).steps() < usize::MAX,
        ensures
            ({
                let s = grid_step_spec(old(self).pos(), old(self).steps(), action);
                &&& final(self).pos() == s.0
                &&& final(self).steps() == s.1
                &&& r.0 == s.0
                &&& r.1 == s.2
                &&& r.2 == s.3
            }),
            action == 0 ==> final(self).pos() == old(self).pos(),
            action == 1 ==> final(self).pos() == old(self).pos() + 1,
            final(self).steps() == old(self).steps() + 1,
            r.0 == final(self).pos(),
    {
        let mut reward: i32 = -1;
        let mut done = false;
        if action == 1 {
            self.x = self.x + 1;
            if self.x == GRID_GOAL {
                reward = 10;
                done = true;
            }
        }
        let obs = self.x;
        self.i_step = self.i_step + 1;
        if self.i_step >= GRID_MAX_STEPS {
            done = true;
        }
        (obs, reward, done)
    }
}


/// Every episode ends within five steps: the step taken after four steps
/// reports done, whatever the action and position.
pub proof fn lemma_grid_step_limit(x: nat, i_step: nat, action: i32)
    requires i_step + 1 >= GRID_MAX_STEPS,
    ensures grid_step_spec(x, i_step, action).3,
{
}

/// The reward is 10 exactly when a step right lands on the goal, such a step
/// ends the episode, and every other step costs 1.
pub proof fn lemma_grid_goal_reward(x: nat, i_step: nat, action: i32)
    ensures
        ({
            let s = grid_step_spec(x, i_step, action);
            &&& (s.2 == 10i32) == (action == 1 && x + 1 == GRID_GOAL)
            &&& s.2 == 10i32 ==> s.3
            &&& s.2 != 10i32 ==> s.2 == -1i32
        }),
{
}


/// Action 0 stays where it is, action 1 moves one cell right, and every
/// step counts one step; the observation is the new position.
pub proof fn lemma_grid_moves(x: nat, i_step: nat)
    ensures
        grid_step_spec(x, i_step, 0).0 == x,
        grid_step_spec(x, i_step, 1).0 == x + 1,
        grid_step_spec(x, i_step, 0).1 == i_step + 1,
        grid_step_spec(x, i_step, 1).1 == i_step + 1,
{
}

} // verus!

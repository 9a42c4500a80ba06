//! The episode loop of PPO training on `ToyEnv`: the state the loop keeps
//! between the policy's decisions, and what each decision does to it.
use vstd::prelude::*;
use crate::env::toy::{ToyEnv, toy_next_pos, toy_reward, toy_done};
use crate::memory::{Memory, ring_push_spec};

verus! {

/// An episode is cut off after this many steps.
pub const MAX_EPISODE_STEPS: usize = 100;

/// Environment, experience memory and the counters of the current episode.
pub struct EpisodeRunner<const CAP: usize> {
    env: ToyEnv,
    memory: Memory<CAP>,
    reward: i64,
    duration: usize,
    done: bool,
}

impl<const CAP: usize> EpisodeRunner<CAP> {
    /// Position of the environment.
    pub closed spec fn pos(&self) -> int {
        self.env.pos as int
    }

    /// The experience memory.
    pub closed spec fn mem(&self) -> Memory<CAP> {
        self.memory
    }

    /// Sum of the rewards of the current episode.
    pub closed spec fn total_reward(&self) -> int {
        self.reward as int
    }

    /// Steps taken in the current episode.
    pub closed spec fn steps(&self) -> nat {
        self.duration as nat
    }

    /// The current episode is over (or none has begun).
    pub closed spec fn finished(&self) -> bool {
        self.done
    }

    /// Position and reward total stay within the steps taken, which stay
    /// within the step limit; an episode that is not over has steps left.
    pub open spec fn wf(&self) -> bool {
        &&& self.steps() <= MAX_EPISODE_STEPS
        &&& -(self.steps() as int) <= self.pos() <= self.steps()
        &&& -(self.steps() as int) <= self.total_reward() <= self.steps()
        &&& !self.finished() ==> self.steps() < MAX_EPISODE_STEPS
    }

    pub fn new() -> (r: Self)
        ensures
            r.wf(),
            r.pos() == 0,
            r.mem().is_empty_spec(),
            r.total_reward() == 0,
            r.steps() == 0,
            r.finished(),
    {
        EpisodeRunner { env: ToyEnv::new(), memory: Memory::default(), reward: 0, duration: 0, done: true }
    }

    /// Resets the environment and the episode counters; the memory is kept.
    pub fn begin_episode(&mut self)
        requires old(self).wf(),
        ensures
            final(self).wf(),
            final(self).pos() == 0,
            final(self).mem() == old(self).mem(),
            final(self).total_reward() == 0,
            final(self).steps() == 0,
            !final(self).finished(),
    {
        self.env.reset();
        self.reward = 0;
        self.duration = 0;
        self.done = false;
    }

    /// The state the policy chooses its action from.
    pub fn state(&self) -> (r: isize)
        ensures r == self.pos(),
    {
        self.env.state()
    }

    /// Takes `action` in the environment and records the transition. Returns
    /// whether the episode is over: the environment ended it, or the step
    /// limit was reached.
    pub fn step(&mut self, action: usize) -> (r: bool)
        requires
            old(self).wf(),
            !old(self).finished(),
            action < 2,
        ensures
            final(self).wf(),
            ({
                let p = old(self).pos();
                let q = toy_next_pos(p, action);
                let m = old(self).mem();
                let n = final(self).mem();
                &&& final(self).pos() == q
                &&& n.state@ == ring_push_spec(m.state@, CAP as nat, p as isize)
                &&& n.next_state@ == ring_push_spec(m.next_state@, CAP as nat, q as isize)
                &&& n.action@ == ring_push_spec(m.action@, CAP as nat, action)
                &&& n.reward@ == ring_push_spec(m.reward@, CAP as nat, toy_reward(q))
                &&& n.done@ == ring_push_spec(m.done@, CAP as nat, toy_done(q))
                &&& final(self).total_reward() == old(self).total_reward() + toy_reward(q)
                &&& final(self).steps() == old(self).steps() + 1
                &&& r == (toy_done(q) || final(self).steps() >= MAX_EPISODE_STEPS)
                &&& final(self).finished() == r
            }),
    {
        let state = self.env.state();
        let (next_state, reward, done) = self.env.step(action);
        self.reward = self.reward + reward as i64;
        self.memory.push(state, next_state, action, reward, done);
        self.duration = self.duration + 1;
        self.done = done || self.duration >= MAX_EPISODE_STEPS;
        self.done
    }

    /// Empties the memory once the episode's experience has been used.
    pub fn end_episode(&mut self)
        requires old(self).wf(),
        ensures
            final(self).wf(),
            final(self).mem().is_empty_spec(),
            final(self).pos() == old(self).pos(),
            final(self).total_reward() == old(self).total_reward(),
            final(self).steps() == old(self).steps(),
            final(self).finished() == old(self).finished(),
    {
        self.memory.clear();
    }

    pub fn memory(&self) -> (r: &Memory<CAP>)
        ensures *r == self.mem(),
    {
        &self.memory
    }

    pub fn episode_reward(&self) -> (r: i64)
        ensures r == self.total_reward(),
    {
        self.reward
    }

    pub fn episode_duration(&self) -> (r: usize)
        ensures r == self.steps(),
    {
        self.duration
    }

    pub fn is_finished(&self) -> (r: bool)
        ensures r == self.finished(),
    {
        self.done
    }
}

} // verus!

//! When a rollout closes a path, and how often a controller recomputes its
//! action.
use vstd::prelude::*;

verus! {

/// What a training loop does after one environment step.
pub struct StepOutcome {
    /// The episode reached its step limit.
    pub timeout: bool,
    /// This was the last step of the epoch.
    pub epoch_ended: bool,
    /// The episode is over: the environment said so, or the step limit was
    /// reached. Its return is recorded.
    pub terminal: bool,
    /// The current path is closed in the experience buffer and the
    /// environment is reset.
    pub finish_path: bool,
    /// The value after the path's last step comes from the critic; otherwise
    /// it is zero.
    pub bootstrap: bool,
    /// The epoch ended before the episode did.
    pub cut_off: bool,
}

/// The outcome of the step that brought the episode to `ep_len` steps, at
/// step `t` of an epoch of `steps_per_epoch` steps, where the environment
/// reported `done`.
pub open spec fn step_outcome_spec(
    ep_len: nat,
    max_ep_len: nat,
    t: nat,
    steps_per_epoch: nat,
    done: bool,
) -> StepOutcome {
    let timeout = ep_len == max_ep_len;
    let terminal = done || timeout;
    let epoch_ended = t + 1 == steps_per_epoch;
    StepOutcome {
        timeout,
        epoch_ended,
        terminal,
        finish_path: terminal || epoch_ended,
        bootstrap: timeout || epoch_ended,
        cut_off: epoch_ended && !terminal,
    }
}

pub fn step_outcome(
    ep_len: usize,
    max_ep_len: usize,
    t: usize,
    steps_per_epoch: usize,
    done: bool,
) -> (r: StepOutcome)
    requires steps_per_epoch > 0,
    ensures
        r == step_outcome_spec(ep_len as nat, max_ep_len as nat, t as nat, steps_per_epoch as nat, done),
        r.timeout == (ep_len == max_ep_len),
        r.epoch_ended == (t + 1 == steps_per_epoch),
        r.terminal == (done || ep_len == max_ep_len),
        r.finish_path == (done || ep_len == max_ep_len || t + 1 == steps_per_epoch),
        r.bootstrap == (ep_len == max_ep_len || t + 1 == steps_per_epoch),
        r.cut_off == (t + 1 == steps_per_epoch && !done && ep_len != max_ep_len),
{
    let timeout = ep_len == max_ep_len;
    let terminal = done || timeout;
    let epoch_ended = t == steps_per_epoch - 1;
    StepOutcome {
        timeout,
        epoch_ended,
        terminal,
        finish_path: terminal || epoch_ended,
        bootstrap: timeout || epoch_ended,
        cut_off: epoch_ended && !terminal,
    }
}

/// Counts the steps of the current episode and of the current epoch.
pub struct Rollout {
    ep_len: usize,
    t: usize,
    max_ep_len: usize,
    steps_per_epoch: usize,
}

impl Rollout {
    /// Steps taken in the current episode.
    pub closed spec fn ep_len_spec(&self) -> nat {
        self.ep_len as nat
    }

    /// Steps taken in the current epoch.
    pub closed spec fn t_spec(&self) -> nat {
        self.t as nat
    }

    pub closed spec fn max_ep_len_spec(&self) -> nat {
        self.max_ep_len as nat
    }

    pub closed spec fn steps_per_epoch_spec(&self) -> nat {
        self.steps_per_epoch as nat
    }

    /// The counters stay below their limits between steps.
    pub open spec fn wf(&self) -> bool {
        &&& self.max_ep_len_spec() > 0
        &&& self.steps_per_epoch_spec() > 0
        &&& self.ep_len_spec() < self.max_ep_len_spec()
        &&& self.t_spec() < self.steps_per_epoch_spec()
    }

    pub fn new(max_ep_len: usize, steps_per_epoch: usize) -> (r: Self)
        requires max_ep_len > 0, steps_per_epoch > 0,
        ensures
            r.wf(),
            r.ep_len_spec() == 0,
            r.t_spec() == 0,
            r.max_ep_len_spec() == max_ep_len,
            r.steps_per_epoch_spec() == steps_per_epoch,
    {
        Rollout { ep_len: 0, t: 0, max_ep_len, steps_per_epoch }
    }

    pub fn ep_len(&self) -> (r: usize)
        ensures r == self.ep_len_spec(),
    {
        self.ep_len
    }

    pub fn t(&self) -> (r: usize)
        ensures r == self.t_spec(),
    {
        self.t
    }

    /// Accounts for one environment step that reported `done`. A closed path
    /// starts a new episode; the last step of an epoch starts a new epoch.
    pub fn advance(&mut self, done: bool) -> (r: StepOutcome)
        requires old(self).wf(),
        ensures
            final(self).wf(),
            final(self).max_ep_len_spec() == old(self).max_ep_len_spec(),
            final(self).steps_per_epoch_spec() == old(self).steps_per_epoch_spec(),
            r == step_outcome_spec(
                old(self).ep_len_spec() + 1,
                old(self).max_ep_len_spec(),
                old(self).t_spec(),
                old(self).steps_per_epoch_spec(),
                done,
            ),
            final(self).ep_len_spec() == (if r.finish_path { 0 } else { old(self).ep_len_spec() + 1 }),
            final(self).t_spec() == (if r.epoch_ended { 0 } else { old(self).t_spec() + 1 }),
    {
        let ep_len = self.ep_len + 1;
        let r = step_outcome(ep_len, self.max_ep_len, self.t, self.steps_per_epoch, done);
        self.ep_len = if r.finish_path { 0 } else { ep_len };
        self.t = if r.epoch_ended { 0 } else { self.t + 1 };
        r
    }
}

/// Recomputes a controller's action on one call out of every `divider`.
pub struct ControlDivider {
    k: usize,
    divider: usize,
}

impl ControlDivider {
    /// Calls since the action was last recomputed, modulo the divider.
    pub closed spec fn phase(&self) -> nat {
        self.k as nat
    }

    pub closed spec fn divider_spec(&self) -> nat {
        self.divider as nat
    }

    pub open spec fn wf(&self) -> bool {
        self.phase() < self.divider_spec()
    }

    pub fn new(divider: usize) -> (r: Self)
        requires divider > 0,
        ensures r.wf(), r.phase() == 0, r.divider_spec() == divider,
    {
        ControlDivider { k: 0, divider }
    }

    /// Whether this call recomputes the action; advances the phase.
    pub fn tick(&mut self) -> (act: bool)
        requires old(self).wf(),
        ensures
            final(self).wf(),
            final(self).divider_spec() == old(self).divider_spec(),
            act == (old(self).phase() == 0),
            final(self).phase() == (old(self).phase() + 1) % old(self).divider_spec(),
    {
        let act = self.k == 0;
        self.k = (self.k + 1) % self.divider;
        act
    }
}


/// The last step of an epoch always closes the path; a path is closed
/// no later than at the episode's step limit; a bootstrapped or cut-off path
/// is always closed, and a cut-off one belongs to an unfinished episode.
pub proof fn lemma_outcome_closes_paths(ep_len: nat, max_ep_len: nat, t: nat, steps_per_epoch: nat, done: bool)
    ensures
        ({
            let o = step_outcome_spec(ep_len, max_ep_len, t, steps_per_epoch, done);
            &&& o.epoch_ended ==> o.finish_path
            &&& ep_len == max_ep_len ==> o.finish_path && o.terminal
            &&& o.bootstrap ==> o.finish_path
            &&& o.cut_off ==> o.finish_path && !done && !o.timeout
            &&& done ==> o.finish_path
        }),
{
}

/// Phase of a divider of `divider` after `n` calls from phase `p`.
pub open spec fn phase_after(p: nat, divider: nat, n: nat) -> nat
    decreases n,
{
    if n == 0 {
        p
    } else {
        (phase_after(p, divider, (n - 1) as nat) + 1) % divider
    }
}

/// A fresh divider recomputes the action on calls 0, d, 2d, ... and on no
/// other call: after `n` calls its phase is `n % d`.
pub proof fn lemma_divider_schedule(divider: nat, n: nat)
    requires divider > 0,
    ensures
        phase_after(0, divider, n) == n % divider,
        (phase_after(0, divider, n) == 0) == (n % divider == 0),
    decreases n,
{
    if n > 0 {
        lemma_divider_schedule(divider, (n - 1) as nat);
        vstd::arithmetic::div_mod::lemma_add_mod_noop((n - 1) as int, 1, divider as int);
        if divider > 1 {
            vstd::arithmetic::div_mod::lemma_small_mod(1, divider);
        } else {
            assert(n % 1 == 0);
            assert((phase_after(0, divider, (n - 1) as nat) + 1) % 1 == 0);
        }
    }
}


/// A closed path is bootstrapped from the critic exactly when it was cut
/// short, by the step limit or by the end of the epoch; a path that ends
/// only because the environment said so ends with value zero.
pub proof fn lemma_bootstrap_exactly_when_truncated(
    ep_len: nat,
    max_ep_len: nat,
    t: nat,
    steps_per_epoch: nat,
    done: bool,
)
    ensures
        ({
            let o = step_outcome_spec(ep_len, max_ep_len, t, steps_per_epoch, done);
            &&& o.bootstrap == (ep_len == max_ep_len || t + 1 == steps_per_epoch)
            &&& (ep_len == max_ep_len || t + 1 == steps_per_epoch) ==> o.bootstrap && o.finish_path
            &&& (done && ep_len != max_ep_len && t + 1 != steps_per_epoch) ==> o.finish_path && !o.bootstrap
            &&& o.finish_path == (done || ep_len == max_ep_len || t + 1 == steps_per_epoch)
            &&& o.terminal == (done || ep_len == max_ep_len)
            &&& o.cut_off == (t + 1 == steps_per_epoch && !done && ep_len != max_ep_len)
        }),
{
}

} // verus!

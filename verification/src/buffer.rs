//! Bookkeeping of the experience buffer of vanilla policy gradient.
//!
//! The buffer is generic over the number type `F` of observations, rewards,
//! values and log-probabilities, and over the action type `A`. It stores trajectories step by step, marks
//! where each path ends, and takes back the advantages and returns that the
//! caller computes for a finished path.
use vstd::prelude::*;

verus! {

/// The contents of a `VPGBuffer`.
pub struct BufferView<F, A> {
    pub ptr: nat,
    pub max_size: nat,
    pub path_start: nat,
    pub obs: Seq<Seq<F>>,
    pub act: Seq<A>,
    pub rew: Seq<F>,
    pub val: Seq<F>,
    pub logp: Seq<F>,
    pub adv: Seq<F>,
    pub ret: Seq<F>,
    pub gamma: F,
    pub lam: F,
}

impl<F, A> BufferView<F, A> {
    /// Every array has `max_size` slots and the current path lies within the
    /// filled part.
    pub open spec fn wf(self) -> bool {
        &&& self.path_start <= self.ptr <= self.max_size
        &&& self.obs.len() == self.max_size
        &&& self.act.len() == self.max_size
        &&& self.rew.len() == self.max_size
        &&& self.val.len() == self.max_size
        &&& self.logp.len() == self.max_size
        &&& self.adv.len() == self.max_size
        &&& self.ret.len() == self.max_size
    }

    /// Rewards of the path that is being collected.
    pub open spec fn path_rewards(self) -> Seq<F> {
        self.rew.subrange(self.path_start as int, self.ptr as int)
    }

    /// Value estimates of the path that is being collected.
    pub open spec fn path_values(self) -> Seq<F> {
        self.val.subrange(self.path_start as int, self.ptr as int)
    }

    /// Number of steps of the path that is being collected.
    pub open spec fn path_len(self) -> nat {
        (self.ptr - self.path_start) as nat
    }
}

/// `s` with the items from `start` on replaced by those of `xs`.
pub open spec fn splice<T>(s: Seq<T>, start: int, xs: Seq<T>) -> Seq<T> {
    s.take(start) + xs + s.skip(start + xs.len())
}

/// A fresh buffer of `size` slots, every number slot holding `zero` and
/// every action slot `no_action`.
pub open spec fn new_spec<F, A>(size: nat, gamma: F, lam: F, zero: F, no_action: A) -> BufferView<F, A> {
    BufferView {
        ptr: 0,
        max_size: size,
        path_start: 0,
        obs: Seq::new(size, |i: int| Seq::<F>::empty()),
        act: Seq::new(size, |i: int| no_action),
        rew: Seq::new(size, |i: int| zero),
        val: Seq::new(size, |i: int| zero),
        logp: Seq::new(size, |i: int| zero),
        adv: Seq::new(size, |i: int| zero),
        ret: Seq::new(size, |i: int| zero),
        gamma,
        lam,
    }
}

/// The buffer after recording one step in the slot at `ptr`.
pub open spec fn store_spec<F, A>(
    v: BufferView<F, A>,
    obs: Seq<F>,
    act: A,
    rew: F,
    val: F,
    logp: F,
) -> BufferView<F, A> {
    BufferView {
        ptr: v.ptr + 1,
        obs: v.obs.update(v.ptr as int, obs),
        act: v.act.update(v.ptr as int, act),
        rew: v.rew.update(v.ptr as int, rew),
        val: v.val.update(v.ptr as int, val),
        logp: v.logp.update(v.ptr as int, logp),
        ..v
    }
}

/// The buffer after the current path is closed with its advantages and
/// returns; the next path starts at `ptr`.
pub open spec fn finish_path_spec<F, A>(v: BufferView<F, A>, adv: Seq<F>, ret: Seq<F>) -> BufferView<F, A> {
    BufferView {
        path_start: v.ptr,
        adv: splice(v.adv, v.path_start as int, adv),
        ret: splice(v.ret, v.path_start as int, ret),
        ..v
    }
}

/// The buffer after a full epoch is handed over: pointers go back to the
/// start and the advantages are replaced by their normalised values.
pub open spec fn get_spec<F, A>(v: BufferView<F, A>, normalized_adv: Seq<F>) -> BufferView<F, A> {
    BufferView { ptr: 0, path_start: 0, adv: normalized_adv, ..v }
}

pub struct VPGBuffer<F, A> {
    ptr: usize,
    max_size: usize,
    path_start_idx: usize,
    obs_buf: Vec<Vec<F>>,
    act_buf: Vec<A>,
    rew_buf: Vec<F>,
    val_buf: Vec<F>,
    logp_buf: Vec<F>,
    adv_buf: Vec<F>,
    ret_buf: Vec<F>,
    gamma: F,
    lam: F,
}

impl<F, A> View for VPGBuffer<F, A> {
    type V = BufferView<F, A>;

    closed spec fn view(&self) -> BufferView<F, A> {
        BufferView {
            ptr: self.ptr as nat,
            max_size: self.max_size as nat,
            path_start: self.path_start_idx as nat,
            obs: self.obs_buf@.map_values(|o: Vec<F>| o@),
            act: self.act_buf@,
            rew: self.rew_buf@,
            val: self.val_buf@,
            logp: self.logp_buf@,
            adv: self.adv_buf@,
            ret: self.ret_buf@,
            gamma: self.gamma,
            lam: self.lam,
        }
    }
}

/// A vector of `n` copies of `x`.
fn filled<T: Copy>(n: usize, x: T) -> (r: Vec<T>)
    ensures r@ == Seq::new(n as nat, |i: int| x),
{
    let mut v: Vec<T> = Vec::new();
    for i in 0..n
        invariant
            v@ =~= Seq::new(i as nat, |j: int| x),
    {
        v.push(x);
    }
    v
}

/// The items of `v` from `start` up to `end`.
fn copy_range<T: Copy>(v: &Vec<T>, start: usize, end: usize) -> (r: Vec<T>)
    requires start <= end <= v@.len(),
    ensures r@ == v@.subrange(start as int, end as int),
{
    let mut out: Vec<T> = Vec::new();
    for i in start..end
        invariant
            start <= end <= v@.len(),
            out@ =~= v@.subrange(start as int, i as int),
    {
        out.push(v[i]);
    }
    out
}

/// Overwrites the items of `v` from `start` on with those of `xs`.
fn write_range<T: Copy>(v: &mut Vec<T>, start: usize, xs: &Vec<T>)
    requires start + xs@.len() <= old(v)@.len(),
    ensures final(v)@ == splice(old(v)@, start as int, xs@),
{
    let n = xs.len();
    let total = v.len();
    for k in 0..n
        invariant
            n == xs@.len(),
            start + n <= v@.len(),
            v@.len() == total,
            v@.len() == old(v)@.len(),
            forall|j: int| 0 <= j < start ==> v@[j] == old(v)@[j],
            forall|j: int| 0 <= j < k ==> v@[start + j] == xs@[j],
            forall|j: int| start + k <= j < v@.len() ==> v@[j] == old(v)@[j],
    {
        assert(start + k < v@.len());
        v.set(start + k, xs[k]);
    }
    assert(v@ =~= splice(old(v)@, start as int, xs@));
}

impl<F: Copy, A: Copy> VPGBuffer<F, A> {
    /// A buffer of `size` steps; every number slot starts as `zero` and
    /// every action slot as `no_action`. `obs_dim` and `n_act` describe the
    /// environment and are not stored.
    pub fn new(obs_dim: usize, n_act: usize, size: usize, gamma: F, lam: F, zero: F, no_action: A) -> (r: Self)
        ensures
            r@ == new_spec(size as nat, gamma, lam, zero, no_action),
            r@.wf(),
    {
        let mut obs_buf: Vec<Vec<F>> = Vec::new();
        for i in 0..size
            invariant
                obs_buf@.len() == i,
                forall|j: int| 0 <= j < i ==> (#[trigger] obs_buf@[j])@ == Seq::<F>::empty(),
        {
            obs_buf.push(Vec::new());
        }
        let r = Self {
            ptr: 0,
            max_size: size,
            path_start_idx: 0,
            obs_buf,
            act_buf: filled(size, no_action),
            rew_buf: filled(size, zero),
            val_buf: filled(size, zero),
            logp_buf: filled(size, zero),
            adv_buf: filled(size, zero),
            ret_buf: filled(size, zero),
            gamma,
            lam,
        };
        assert(r@.obs =~= Seq::new(size as nat, |i: int| Seq::<F>::empty()));
        r
    }

    /// Records one step in the next free slot.
    pub fn store(&mut self, obs: Vec<F>, act: A, rew: F, val: F, logp: F)
        requires
            old(self)@.wf(),
            old(self)@.ptr < old(self)@.max_size,
        ensures
            final(self)@ == store_spec(old(self)@, obs@, act, rew, val, logp),
            final(self)@.wf(),
            final(self)@.ptr == old(self)@.ptr + 1,
            final(self)@.act == old(self)@.act.update(old(self)@.ptr as int, act),
            final(self)@.rew == old(self)@.rew.update(old(self)@.ptr as int, rew),
            final(self)@.val == old(self)@.val.update(old(self)@.ptr as int, val),
            final(self)@.logp == old(self)@.logp.update(old(self)@.ptr as int, logp),
            final(self)@.obs == old(self)@.obs.update(old(self)@.ptr as int, obs@),
            final(self)@.path_start == old(self)@.path_start,
            final(self)@.adv == old(self)@.adv,
            final(self)@.ret == old(self)@.ret,
    {
        let p = self.ptr;
        let ghost o = obs@;
        self.obs_buf.set(p, obs);
        self.act_buf.set(p, act);
        self.rew_buf.set(p, rew);
        self.val_buf.set(p, val);
        self.logp_buf.set(p, logp);
        self.ptr = p + 1;
        assert(self@.obs =~= old(self)@.obs.update(p as int, o));
        assert(self@ == store_spec(old(self)@, o, act, rew, val, logp));
    }

    /// Rewards of the path that is being collected.
    pub fn path_rewards(&self) -> (r: Vec<F>)
        requires self@.wf(),
        ensures r@ == self@.path_rewards(),
    {
        copy_range(&self.rew_buf, self.path_start_idx, self.ptr)
    }

    /// Value estimates of the path that is being collected.
    pub fn path_values(&self) -> (r: Vec<F>)
        requires self@.wf(),
        ensures r@ == self@.path_values(),
    {
        copy_range(&self.val_buf, self.path_start_idx, self.ptr)
    }

    /// Closes the current path: `adv` and `ret` hold its advantage estimates
    /// and rewards-to-go, one per step; the next path starts at `ptr`.
    pub fn finish_path(&mut self, adv: Vec<F>, ret: Vec<F>)
        requires
            old(self)@.wf(),
            adv@.len() == old(self)@.path_len(),
            ret@.len() == old(self)@.path_len(),
        ensures
            final(self)@ == finish_path_spec(old(self)@, adv@, ret@),
            final(self)@.wf(),
    {
        let start = self.path_start_idx;
        write_range(&mut self.adv_buf, start, &adv);
        write_range(&mut self.ret_buf, start, &ret);
        self.path_start_idx = self.ptr;
        assert(self@ == finish_path_spec(old(self)@, adv@, ret@));
    }

    /// Starts the next epoch once every slot is filled: the pointers go back
    /// to the start and the advantages become `normalized_adv`.
    pub fn get(&mut self, normalized_adv: Vec<F>)
        requires
            old(self)@.wf(),
            old(self)@.ptr == old(self)@.max_size,
            normalized_adv@.len() == old(self)@.max_size,
        ensures
            final(self)@ == get_spec(old(self)@, normalized_adv@),
            final(self)@.wf(),
    {
        self.ptr = 0;
        self.path_start_idx = 0;
        self.adv_buf = normalized_adv;
        assert(self@ == get_spec(old(self)@, normalized_adv@));
    }

    pub fn ptr(&self) -> (r: usize)
        ensures r == self@.ptr,
    {
        self.ptr
    }

    pub fn max_size(&self) -> (r: usize)
        ensures r == self@.max_size,
    {
        self.max_size
    }

    pub fn path_start(&self) -> (r: usize)
        ensures r == self@.path_start,
    {
        self.path_start_idx
    }

    pub fn gamma(&self) -> (r: F)
        ensures r == self@.gamma,
    {
        self.gamma
    }

    pub fn lam(&self) -> (r: F)
        ensures r == self@.lam,
    {
        self.lam
    }

    pub fn observations(&self) -> (r: &Vec<Vec<F>>)
        ensures r@.map_values(|o: Vec<F>| o@) == self@.obs,
    {
        &self.obs_buf
    }

    pub fn actions(&self) -> (r: &Vec<A>)
        ensures r@ == self@.act,
    {
        &self.act_buf
    }

    pub fn log_probs(&self) -> (r: &Vec<F>)
        ensures r@ == self@.logp,
    {
        &self.logp_buf
    }

    pub fn advantages(&self) -> (r: &Vec<F>)
        ensures r@ == self@.adv,
    {
        &self.adv_buf
    }

    pub fn returns_to_go(&self) -> (r: &Vec<F>)
        ensures r@ == self@.ret,
    {
        &self.ret_buf
    }
}


/// Storing a step extends the current path by exactly that step's reward
/// and value, and touches no advantage or return.
pub proof fn lemma_store_extends_path<F, A>(v: BufferView<F, A>, obs: Seq<F>, act: A, rew: F, val: F, logp: F)
    requires
        v.wf(),
        v.ptr < v.max_size,
    ensures
        ({
            let w = store_spec(v, obs, act, rew, val, logp);
            &&& w.wf()
            &&& w.path_rewards() == v.path_rewards().push(rew)
            &&& w.path_values() == v.path_values().push(val)
            &&& w.path_start == v.path_start
            &&& w.adv == v.adv
            &&& w.ret == v.ret
        }),
{
    let w = store_spec(v, obs, act, rew, val, logp);
    assert(w.path_rewards() =~= v.path_rewards().push(rew));
    assert(w.path_values() =~= v.path_values().push(val));
}

/// Closing a path: the advantages and returns given for it are what the
/// buffer then holds on the path's slots, every other slot keeps its value,
/// and the next path starts empty.
pub proof fn lemma_finish_path_reads_back<F, A>(v: BufferView<F, A>, adv: Seq<F>, ret: Seq<F>)
    requires
        v.wf(),
        adv.len() == v.path_len(),
        ret.len() == v.path_len(),
    ensures
        ({
            let w = finish_path_spec(v, adv, ret);
            &&& w.wf()
            &&& w.path_len() == 0
            &&& w.path_rewards() == Seq::<F>::empty()
            &&& w.adv.subrange(v.path_start as int, v.ptr as int) == adv
            &&& w.ret.subrange(v.path_start as int, v.ptr as int) == ret
            &&& forall|i: int| 0 <= i < v.path_start || v.ptr <= i < v.max_size
                ==> w.adv[i] == v.adv[i] && w.ret[i] == v.ret[i]
            &&& w.rew == v.rew && w.val == v.val && w.obs == v.obs && w.act == v.act
        }),
{
    let w = finish_path_spec(v, adv, ret);
    assert(w.adv.subrange(v.path_start as int, v.ptr as int) =~= adv);
    assert(w.ret.subrange(v.path_start as int, v.ptr as int) =~= ret);
    assert(w.path_rewards() =~= Seq::<F>::empty());
}

/// After an epoch is handed over the buffer is empty again: the next store
/// goes to the first slot, and everything but the advantages is kept.
pub proof fn lemma_get_restarts<F, A>(v: BufferView<F, A>, normalized_adv: Seq<F>, obs: Seq<F>, act: A, rew: F, val: F, logp: F)
    requires
        v.wf(),
        v.ptr == v.max_size,
        v.max_size > 0,
        normalized_adv.len() == v.max_size,
    ensures
        ({
            let w = get_spec(v, normalized_adv);
            let x = store_spec(w, obs, act, rew, val, logp);
            &&& w.wf()
            &&& w.path_len() == 0
            &&& w.obs == v.obs && w.rew == v.rew && w.ret == v.ret
            &&& x.rew[0] == rew
            &&& x.path_rewards() == seq![rew]
        }),
{
    let w = get_spec(v, normalized_adv);
    let x = store_spec(w, obs, act, rew, val, logp);
    assert(x.path_rewards() =~= seq![rew]);
}


/// A stored step lands in the slot at the pointer, for every array, and
/// no other slot changes: the slot of step `k` of an epoch is `k`, whatever
/// path the step belongs to.
pub proof fn lemma_store_writes_slot_ptr<F, A>(v: BufferView<F, A>, obs: Seq<F>, act: A, rew: F, val: F, logp: F)
    requires
        v.wf(),
        v.ptr < v.max_size,
    ensures
        ({
            let w = store_spec(v, obs, act, rew, val, logp);
            &&& w.ptr == v.ptr + 1
            &&& w.act[v.ptr as int] == act
            &&& w.rew[v.ptr as int] == rew
            &&& w.val[v.ptr as int] == val
            &&& w.logp[v.ptr as int] == logp
            &&& w.obs[v.ptr as int] == obs
            &&& w.act.len() == v.act.len()
            &&& forall|i: int| 0 <= i < v.max_size && i != v.ptr ==> {
                &&& w.act[i] == v.act[i]
                &&& w.rew[i] == v.rew[i]
                &&& w.val[i] == v.val[i]
                &&& w.logp[i] == v.logp[i]
                &&& w.obs[i] == v.obs[i]
            }
        }),
{
}

} // verus!

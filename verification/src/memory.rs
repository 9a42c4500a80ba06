//! A bounded experience store and uniform sampling of stored indices.
use std::collections::VecDeque;
use vstd::prelude::*;
use rand::RngExt;

verus! {

/// Contents after pushing `v` onto a ring of capacity `cap` holding `s`:
/// when the ring is full the oldest item leaves first; a ring of
/// capacity zero holds nothing.
pub open spec fn ring_push_spec<T>(s: Seq<T>, cap: nat, v: T) -> Seq<T> {
    if cap == 0 {
        s
    } else if s.len() < cap {
        s.push(v)
    } else {
        s.drop_first().push(v)
    }
}

/// What `get(index)` returns for contents `s`: indices wrap around the
/// stored items, oldest first; nothing is returned from an empty ring.
pub open spec fn ring_get_spec<T>(s: Seq<T>, index: int) -> Option<T> {
    if s.len() == 0 {
        None
    } else {
        Some(s[index % (s.len() as int)])
    }
}

/// The items `ring_get_spec` picks for each of `indices`, skipping those
/// for which it returns nothing.
pub open spec fn ring_gather_spec<T>(s: Seq<T>, indices: Seq<usize>) -> Seq<T> {
    if s.len() == 0 {
        Seq::empty()
    } else {
        indices.map_values(|i: usize| s[(i as int) % (s.len() as int)])
    }
}

/// A ring buffer of at most `CAP` items, oldest first.
pub struct Ring<T, const CAP: usize> {
    items: VecDeque<T>,
}

impl<T, const CAP: usize> View for Ring<T, CAP> {
    type V = Seq<T>;

    closed spec fn view(&self) -> Seq<T> {
        self.items@
    }
}

impl<T, const CAP: usize> Ring<T, CAP> {
    #[verifier::type_invariant]
    closed spec fn within_capacity(&self) -> bool {
        self.items@.len() <= CAP
    }

    pub fn new() -> (r: Self)
        ensures r@ == Seq::<T>::empty(),
    {
        Ring { items: VecDeque::new() }
    }

    pub fn capacity(&self) -> (r: usize)
        ensures r == CAP,
    {
        CAP
    }

    pub fn len(&self) -> (r: usize)
        ensures r == self@.len(), r <= CAP,
    {
        proof { use_type_invariant(self); }
        self.items.len()
    }

    pub fn is_empty(&self) -> (r: bool)
        ensures r == (self@.len() == 0),
    {
        self.items.len() == 0
    }

    pub fn is_full(&self) -> (r: bool)
        ensures r == (self@.len() == CAP),
    {
        self.items.len() == CAP
    }

    /// Adds `value` as the newest item, dropping the oldest one when full.
    pub fn push(&mut self, value: T)
        ensures final(self)@ == ring_push_spec(old(self)@, CAP as nat, value),
    {
        proof { use_type_invariant(&*self); }
        if CAP == 0 {
            return;
        }
        let mut items = VecDeque::new();
        std::mem::swap(&mut items, &mut self.items);
        if items.len() == CAP {
            let _ = items.pop_front();
        }
        items.push_back(value);
        proof {
            assert(old(self)@.len() == CAP ==> old(self)@.subrange(1, old(self)@.len() as int)
                =~= old(self)@.drop_first());
        }
        self.items = items;
    }

    pub fn clear(&mut self)
        ensures final(self)@ == Seq::<T>::empty(),
    {
        self.items = VecDeque::new();
    }

    /// The item at `index` counted from the oldest, wrapping around the
    /// number of stored items.
    pub fn get(&self, index: usize) -> (r: Option<&T>)
        ensures
            r matches Some(x) ==> ring_get_spec(self@, index as int) == Some(*x),
            r is None <==> ring_get_spec(self@, index as int) is None,
            r is None <==> self@.len() == 0,
            index < self@.len() ==> r == Some(&self@[index as int]),
    {
        let len = self.items.len();
        if len == 0 {
            None
        } else {
            proof {
                if index < len {
                    vstd::arithmetic::div_mod::lemma_small_mod(index as nat, len as nat);
                }
            }
            Some(&self.items[index % len])
        }
    }
}

impl<T: Copy, const CAP: usize> Ring<T, CAP> {
    /// The items at each of `indices`, as `get` gives them, in the order of
    /// `indices`; empty when the ring is empty.
    pub fn gather(&self, indices: &Vec<usize>) -> (r: Vec<T>)
        ensures r@ == ring_gather_spec(self@, indices@),
    {
        let mut out: Vec<T> = Vec::new();
        let len = self.items.len();
        if len == 0 {
            return out;
        }
        let n = indices.len();
        for k in 0..n
            invariant
                n == indices@.len(),
                len == self@.len(),
                len > 0,
                out@ =~= indices@.take(k as int).map_values(
                    |i: usize| self@[(i as int) % (self@.len() as int)],
                ),
        {
            let x = self.items[indices[k] % len];
            out.push(x);
            proof {
                assert(indices@.take(k as int + 1) =~= indices@.take(k as int).push(indices@[k as int]));
            }
        }
        proof {
            assert(indices@.take(n as int) =~= indices@);
        }
        out
    }
}

/// Transitions of an environment whose states are integers, one ring per
/// field; the reward is the environment's integer reward.
pub struct Memory<const CAP: usize> {
    pub state: Ring<isize, CAP>,
    pub next_state: Ring<isize, CAP>,
    pub action: Ring<usize, CAP>,
    pub reward: Ring<i32, CAP>,
    pub done: Ring<bool, CAP>,
}

impl<const CAP: usize> Memory<CAP> {
    /// All five rings are empty.
    pub open spec fn is_empty_spec(&self) -> bool {
        &&& self.state@ == Seq::<isize>::empty()
        &&& self.next_state@ == Seq::<isize>::empty()
        &&& self.action@ == Seq::<usize>::empty()
        &&& self.reward@ == Seq::<i32>::empty()
        &&& self.done@ == Seq::<bool>::empty()
    }
}

impl<const CAP: usize> Default for Memory<CAP> {
    fn default() -> (r: Self)
        ensures r.is_empty_spec(),
    {
        Self {
            state: Ring::new(),
            next_state: Ring::new(),
            action: Ring::new(),
            reward: Ring::new(),
            done: Ring::new(),
        }
    }
}

impl<const CAP: usize> Memory<CAP> {
    /// Records one transition, each field in its own ring.
    pub fn push(&mut self, state: isize, next_state: isize, action: usize, reward: i32, done: bool)
        ensures
            final(self).state@ == ring_push_spec(old(self).state@, CAP as nat, state),
            final(self).next_state@ == ring_push_spec(old(self).next_state@, CAP as nat, next_state),
            final(self).action@ == ring_push_spec(old(self).action@, CAP as nat, action),
            final(self).reward@ == ring_push_spec(old(self).reward@, CAP as nat, reward),
            final(self).done@ == ring_push_spec(old(self).done@, CAP as nat, done),
    {
        self.state.push(state);
        self.next_state.push(next_state);
        self.action.push(action);
        self.reward.push(reward);
        self.done.push(done);
    }

    pub fn clear(&mut self)
        ensures final(self).is_empty_spec(),
    {
        self.state.clear();
        self.next_state.clear();
        self.action.clear();
        self.reward.clear();
        self.done.clear();
    }

    /// Number of stored states.
    pub fn len(&self) -> (r: usize)
        ensures r == self.state@.len(),
    {
        self.state.len()
    }
}

#[verifier::external_type_specification]
#[verifier::external_body]
pub struct ExThreadRng(rand::rngs::ThreadRng);

/// Calls `rand::rng`, the handle to the thread-local generator. Nothing is
/// claimed of the generator; `rand::rng` panics only when the operating
/// system's entropy source fails on first use.
#[verifier::external_body]
fn thread_rng() -> rand::rngs::ThreadRng {
    rand::rng()
}

/// Calls `RngExt::random_range` on `0..n`, which returns a value of the
/// half-open range and panics on an empty one. Claimed: the result is below
/// `n`; which value comes out depends on the generator.
#[verifier::external_body]
fn random_below(rng: &mut rand::rngs::ThreadRng, n: usize) -> (r: usize)
    requires n > 0,
    ensures r < n,
{
    rng.random_range(0..n)
}

/// The entries of `indices` at each of `positions`, in order.
pub fn pick_indices(indices: &Vec<usize>, positions: &Vec<usize>) -> (r: Vec<usize>)
    requires forall|k: int| 0 <= k < positions@.len() ==> positions@[k] < indices@.len(),
    ensures
        r@.len() == positions@.len(),
        forall|k: int| 0 <= k < positions@.len() ==> r@[k] == indices@[positions@[k] as int],
{
    let mut out: Vec<usize> = Vec::new();
    let n = positions.len();
    for k in 0..n
        invariant
            n == positions@.len(),
            forall|j: int| 0 <= j < positions@.len() ==> positions@[j] < indices@.len(),
            out@.len() == k,
            forall|j: int| 0 <= j < k ==> out@[j] == indices@[positions@[j] as int],
    {
        out.push(indices[positions[k]]);
    }
    out
}

/// Draws `size` entries of `indices` uniformly at random, with replacement.
pub fn sample_indices(indices: Vec<usize>, size: usize) -> (r: Vec<usize>)
    requires size > 0 ==> indices@.len() > 0,
    ensures
        r@.len() == size,
        forall|k: int| 0 <= k < size ==> indices@.contains(#[trigger] r@[k]),
{
    let mut rng = thread_rng();
    let mut positions: Vec<usize> = Vec::new();
    let len = indices.len();
    for k in 0..size
        invariant
            len == indices@.len(),
            size > 0 ==> len > 0,
            positions@.len() == k,
            forall|j: int| 0 <= j < k ==> positions@[j] < len,
    {
        let p = random_below(&mut rng, len);
        positions.push(p);
    }
    let r = pick_indices(&indices, &positions);
    assert forall|k: int| 0 <= k < size implies indices@.contains(#[trigger] r@[k]) by {
        assert(r@[k] == indices@[positions@[k] as int]);
    }
    r
}


/// Contents after pushing every item of `xs`, first to last.
pub open spec fn ring_push_all<T>(s: Seq<T>, cap: nat, xs: Seq<T>) -> Seq<T>
    decreases xs.len(),
{
    if xs.len() == 0 {
        s
    } else {
        ring_push_spec(ring_push_all(s, cap, xs.drop_last()), cap, xs.last())
    }
}

/// The last `cap` items of `t`, or all of them when there are fewer.
pub open spec fn keep_last<T>(t: Seq<T>, cap: nat) -> Seq<T> {
    if t.len() <= cap {
        t
    } else {
        t.skip(t.len() - cap)
    }
}

/// A ring keeps the newest items: after any pushes it holds the last
/// `cap` items of everything it held and received, oldest first.
pub proof fn lemma_ring_keeps_newest<T>(s: Seq<T>, cap: nat, xs: Seq<T>)
    requires
        cap > 0,
        s.len() <= cap,
    ensures
        ring_push_all(s, cap, xs) == keep_last(s + xs, cap),
    decreases xs.len(),
{
    if xs.len() == 0 {
        assert(s + xs =~= s);
    } else {
        let init = xs.drop_last();
        lemma_ring_keeps_newest(s, cap, init);
        let t = s + init;
        let x = xs.last();
        assert(s + xs =~= t.push(x));
        let r = keep_last(t, cap);
        if r.len() < cap {
            assert(r == t);
        } else {
            if t.len() <= cap {
                assert(r == t);
                assert(t.push(x).skip(1) =~= t.drop_first().push(x));
            } else {
                assert(r.drop_first().push(x) =~= t.push(x).skip(t.push(x).len() - cap));
            }
        }
    }
}

/// Reading a ring wraps around: index `i` and index `i + len` give the same
/// item.
pub proof fn lemma_ring_get_wraps<T>(s: Seq<T>, i: nat)
    ensures ring_get_spec(s, i as int) == ring_get_spec(s, (i + s.len()) as int),
{
    if s.len() > 0 {
        vstd::arithmetic::div_mod::lemma_mod_add_multiples_vanish(i as int, s.len() as int);
    }
}


/// Reading index `i` of a ring with more than `i` items counts from the
/// oldest item: index 0 is the oldest, index `len - 1` the newest.
pub proof fn lemma_ring_get_counts_from_oldest<T>(s: Seq<T>, i: int)
    requires 0 <= i < s.len(),
    ensures ring_get_spec(s, i) == Some(s[i]),
{
    vstd::arithmetic::div_mod::lemma_small_mod(i as nat, s.len());
}

/// Pushing onto a ring that is not full appends the item as the newest;
/// pushing onto a full ring drops the oldest item and appends.
pub proof fn lemma_ring_push_appends<T>(s: Seq<T>, cap: nat, v: T)
    requires cap > 0, s.len() <= cap,
    ensures
        s.len() < cap ==> ring_push_spec(s, cap, v) == s.push(v),
        s.len() == cap ==> ring_push_spec(s, cap, v) == s.subrange(1, s.len() as int).push(v),
        ring_push_spec(s, cap, v).len() == (if s.len() < cap { s.len() + 1 } else { cap }),
        ring_push_spec(s, cap, v).last() == v,
{
    if s.len() == cap {
        assert(s.drop_first() =~= s.subrange(1, s.len() as int));
    }
}

/// Pushing `xs` (no more than the capacity) onto an empty ring and reading
/// index `i` gives the `i`-th item pushed.
pub proof fn lemma_ring_reads_back_pushes<T>(cap: nat, xs: Seq<T>, i: int)
    requires
        cap > 0,
        xs.len() <= cap,
        0 <= i < xs.len(),
    ensures
        ring_push_all(Seq::<T>::empty(), cap, xs) == xs,
        ring_get_spec(ring_push_all(Seq::<T>::empty(), cap, xs), i) == Some(xs[i]),
{
    lemma_ring_keeps_newest(Seq::<T>::empty(), cap, xs);
    assert(Seq::<T>::empty() + xs =~= xs);
    lemma_ring_get_counts_from_oldest(xs, i);
}

} // verus!

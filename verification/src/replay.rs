use vstd::prelude::*;

use crate::rng::rand_below;
use std::collections::VecDeque;

verus! {

/// One step of experience: the flattened board before and after the move,
/// the index of the action taken, the reward observed, and whether the
/// episode ended on this step.
#[derive(Debug, Clone)]
pub struct Transition {
    pub state: Vec<i64>,
    pub action: u8,
    pub reward: i64,
    pub next_state: Vec<i64>,
    pub done: bool,
}

/// Sampling failure: the buffer does not yet hold more records than the
/// requested batch.
#[derive(Debug, Clone, Copy, PartialEq, Eq, Structural)]
pub enum ReplayError {
    InsufficientData,
}

/// What one insertion leaves in a buffer of the given capacity: the record
/// is appended, and when the buffer is already full the oldest record is
/// dropped to make room.
pub open spec fn push_effect<T>(s: Seq<T>, capacity: nat, t: T) -> Seq<T> {
    if s.len() < capacity {
        s.push(t)
    } else {
        s.subrange(s.len() - capacity + 1, s.len() as int).push(t)
    }
}

/// The buffer contents after pushing every record of `items`, oldest first.
pub open spec fn pushed_all<T>(s: Seq<T>, capacity: nat, items: Seq<T>) -> Seq<T>
    decreases items.len(),
{
    if items.len() == 0 {
        s
    } else {
        pushed_all(push_effect(s, capacity, items[0]), capacity, items.drop_first())
    }
}

/// A fixed-capacity store of experience records: insertion evicts the
/// oldest record once the buffer is full, and mini-batches are drawn
/// uniformly without replacement.
#[derive(Debug)]
pub struct ReplayBuffer<T> {
    items: VecDeque<T>,
    capacity: usize,
}

impl<T> View for ReplayBuffer<T> {
    type V = Seq<T>;

    closed spec fn view(&self) -> Seq<T> {
        self.items@
    }
}

impl<T> ReplayBuffer<T> {
    /// The capacity the buffer was created with.
    pub closed spec fn cap(self) -> nat {
        self.capacity as nat
    }

    /// The buffer never outgrows its positive capacity.
    pub open spec fn wf(self) -> bool {
        self@.len() <= self.cap() && self.cap() >= 1
    }

    /// An empty buffer of the given capacity.
    pub fn new(capacity: usize) -> (b: ReplayBuffer<T>)
        requires
            capacity >= 1,
        ensures
            b.wf(),
            b@.len() == 0,
            b.cap() == capacity,
    {
        ReplayBuffer { items: VecDeque::new(), capacity }
    }

    /// How many records the buffer holds.
    pub fn len(&self) -> (n: usize)
        ensures
            n == self@.len(),
    {
        self.items.len()
    }

    /// The capacity the buffer was created with.
    pub fn capacity(&self) -> (c: usize)
        ensures
            c == self.cap(),
    {
        self.capacity
    }

    /// The record at position `i`, oldest first.
    pub fn get(&self, i: usize) -> (t: &T)
        requires
            i < self@.len(),
        ensures
            *t == self@[i as int],
    {
        &self.items[i]
    }

    /// Appends a record; once the buffer is full, the oldest record leaves.
    pub fn push(&mut self, t: T)
        requires
            old(self).wf(),
        ensures
            final(self).wf(),
            final(self).cap() == old(self).cap(),
            final(self)@ == push_effect(old(self)@, old(self).cap(), t),
    {
        if self.items.len() == self.capacity {
            let evicted = self.items.pop_front();
            proof {
                assert(evicted is Some);
                assert(self.items@ =~= old(self)@.subrange(
                    old(self)@.len() - old(self).cap() + 1,
                    old(self)@.len() as int,
                ));
            }
        }
        self.items.push_back(t);
    }

    /// Draws `batch_size` pairwise distinct positions uniformly without
    /// replacement; the records they point at are read with `get`. Fails
    /// with `InsufficientData` exactly when the buffer does not hold more
    /// records than the batch asks for.
    #[verifier::loop_isolation(false)]
    pub fn sample(&self, batch_size: usize) -> (r: Result<Vec<usize>, ReplayError>)
        ensures
            r is Ok <==> batch_size < self@.len(),
            r matches Ok(ix) ==> {
                &&& ix@.len() == batch_size
                &&& forall|a: int| 0 <= a < ix@.len() ==> #[trigger] ix@[a] < self@.len()
                &&& forall|a: int, b: int| 0 <= a < b < ix@.len() ==> ix@[a] != ix@[b]
            },
            r matches Err(e) ==> e == ReplayError::InsufficientData,
    {
        let n = self.items.len();
        if n <= batch_size {
            return Err(ReplayError::InsufficientData);
        }
        let mut pool: Vec<usize> = Vec::new();
        let mut i: usize = 0;
        while i < n
            invariant
                0 <= i <= n,
                pool@.len() == i,
                forall|m: int| 0 <= m < i ==> #[trigger] pool@[m] == m,
            decreases n - i,
        {
            pool.push(i);
            i = i + 1;
        }
        let mut out: Vec<usize> = Vec::new();
        let mut k: usize = 0;
        while k < batch_size
            invariant
                0 <= k <= batch_size,
                pool@.len() == n,
                out@.len() == k,
                forall|m: int| 0 <= m < n ==> #[trigger] pool@[m] < n,
                forall|a: int, b: int| 0 <= a < b < n ==> pool@[a] != pool@[b],
                out@ == pool@.subrange(0, k as int),
            decreases batch_size - k,
        {
            let off = rand_below((n - k) as u64);
            let j = k + (off as usize);
            let a = pool[k];
            let b = pool[j];
            pool[k] = b;
            pool[j] = a;
            out.push(pool[k]);
            proof {
                assert(out@ =~= pool@.subrange(0, k as int + 1));
            }
            k = k + 1;
        }
        Ok(out)
    }
}

/// Pushing a run of records keeps exactly the newest ones: what remains is
/// the tail of `s + items`, cut down to the capacity.
pub proof fn lemma_pushed_all_keeps_latest<T>(s: Seq<T>, capacity: nat, items: Seq<T>)
    requires
        capacity >= 1,
        s.len() <= capacity,
    ensures
        pushed_all(s, capacity, items) == (s + items).subrange(
            if s.len() + items.len() <= capacity {
                0
            } else {
                s.len() + items.len() - capacity
            },
            (s.len() + items.len()) as int,
        ),
    decreases items.len(),
{
    let total = s.len() + items.len();
    let lo: int = if total <= capacity {
        0
    } else {
        total - capacity
    };
    if items.len() == 0 {
        assert(pushed_all(s, capacity, items) == s);
        assert((s + items).subrange(lo, total as int) =~= s);
    } else {
        let s2 = push_effect(s, capacity, items[0]);
        let rest = items.drop_first();
        if s.len() < capacity {
            assert(s2 =~= (s + items).subrange(0, s.len() as int + 1));
        } else {
            assert(s2 =~= (s + items).subrange(1, s.len() as int + 1));
        }
        lemma_pushed_all_keeps_latest(s2, capacity, rest);
        assert(pushed_all(s, capacity, items) == pushed_all(s2, capacity, rest));
        let total2 = s2.len() + rest.len();
        let lo2: int = if total2 <= capacity {
            0
        } else {
            total2 - capacity
        };
        assert((s2 + rest).subrange(lo2, total2 as int) =~= (s + items).subrange(lo, total as int));
    }
}

/// FIFO eviction: after pushing `capacity + k` records into an empty
/// buffer, exactly `capacity` remain — the most recent ones, in insertion
/// order — and the `k` oldest records are gone.
pub proof fn lemma_fifo_eviction<T>(capacity: nat, items: Seq<T>)
    requires
        capacity >= 1,
        items.len() >= capacity,
    ensures
        pushed_all(Seq::<T>::empty(), capacity, items).len() == capacity,
        pushed_all(Seq::<T>::empty(), capacity, items) == items.subrange(
            items.len() - capacity,
            items.len() as int,
        ),
{
    lemma_pushed_all_keeps_latest(Seq::<T>::empty(), capacity, items);
    assert((Seq::<T>::empty() + items).subrange(items.len() - capacity, items.len() as int)
        =~= items.subrange(items.len() - capacity, items.len() as int));
}

} // verus!

//! A fixed-capacity FIFO that evicts its oldest element on overflow.
//!
//! The slots form an arena in which only the live range holds a value:
//! a slot outside of it is `None` and is never read. The logical index
//! `read + j` of the `j`-th live element lives in physical slot
//! `(read + j) % N`; the read cursor is kept reduced modulo the capacity,
//! so that it never overflows however long the buffer is used.
use vstd::prelude::*;

verus! {

/// A ring buffer holding at most `N` elements of type `T`.
#[derive(Debug)]
pub struct CircularBuffer<T, const N: usize> {
    slots: Vec<Option<T>>,
    read: usize,
    len: usize,
}

impl<T, const N: usize> CircularBuffer<T, N> {
    /// The physical slot of the `j`-th live element (for `0 <= j < N`).
    pub closed spec fn slot_of(&self, j: int) -> int {
        if self.read + j < N {
            self.read + j
        } else {
            self.read + j - N
        }
    }

    /// The buffer's well-formedness: exactly the live range of slots is filled.
    pub closed spec fn wf(&self) -> bool {
        &&& self.slots@.len() == N
        &&& self.len <= N
        &&& (N == 0 ==> self.read == 0)
        &&& (N > 0 ==> self.read < N)
        &&& forall|j: int| 0 <= j < self.len ==> (#[trigger] self.slots@[self.slot_of(j)]) is Some
        &&& forall|j: int|
            self.len <= j < N ==> (#[trigger] self.slots@[self.slot_of(j)]) is None
    }

    /// A well-formed buffer never holds more than its capacity.
    pub proof fn lemma_len_at_most_capacity(&self)
        requires
            self.wf(),
        ensures
            self@.len() <= N,
    {
    }

    /// Creates an empty buffer.
    pub fn new() -> (r: Self)
        ensures
            r.wf(),
            r@ == Seq::<T>::empty(),
    {
        let mut slots: Vec<Option<T>> = Vec::new();
        let mut i: usize = 0;
        while i < N
            invariant
                i <= N,
                slots@.len() == i,
                forall|k: int| 0 <= k < i ==> (#[trigger] slots@[k]) is None,
            decreases N - i,
        {
            slots.push(None);
            i = i + 1;
        }
        let r = CircularBuffer { slots, read: 0, len: 0 };
        assert forall|j: int| 0 <= j < N implies (#[trigger] r.slots@[r.slot_of(j)]) is None by {
            assert(r.slot_of(j) == j);
        }
        assert(r@ =~= Seq::<T>::empty());
        r
    }

    /// Builds a buffer by pushing every value in order: only the last `N` survive.
    pub fn from_values(values: Vec<T>) -> (r: Self)
        requires
            N > 0 || values@.len() == 0,
        ensures
            r.wf(),
            r@ == values@.subrange(
                if values@.len() > N { values@.len() - N } else { 0 },
                values@.len() as int,
            ),
    {
        let mut buffer = Self::new();
        let mut values = values;
        let ghost all = values@;
        let mut rest: Vec<T> = Vec::new();
        // Reverse, so that popping from the back yields the values in order.
        while values.len() > 0
            invariant
                rest@ + values@.reverse() == all.reverse(),
            decreases values.len(),
        {
            let v = values.pop().unwrap();
            proof {
                let prev = values@.push(v);
                assert(prev.reverse() =~= seq![v] + values@.reverse());
            }
            rest.push(v);
            proof {
                assert(rest@ + values@.reverse() =~= all.reverse());
            }
        }
        assert(rest@ =~= all.reverse());
        let mut k: usize = 0;
        let n = rest.len();
        while rest.len() > 0
            invariant
                N > 0 || rest@.len() == 0,
                buffer.wf(),
                n == all.len(),
                k + rest@.len() == n,
                rest@ == all.subrange(k as int, n as int).reverse(),
                buffer@ == all.subrange(if k > N { k - N } else { 0 }, k as int),
            decreases rest.len(),
        {
            let ghost before = rest@;
            let v = rest.pop().unwrap();
            proof {
                assert(v == before[before.len() - 1]);
                assert(all.subrange(k as int, n as int).reverse()[before.len() - 1] == all[k as int]);
                assert(rest@ =~= all.subrange(k + 1, n as int).reverse());
            }
            let _ = buffer.push_back(v);
            k = k + 1;
            proof {
                let lo: int = if k > N { k - N } else { 0 };
                assert(buffer@ =~= all.subrange(lo, k as int));
            }
        }
        buffer
    }

    /// Appends `value`; when the buffer is full, first removes and returns the oldest element.
    pub fn push_back(&mut self, value: T) -> (r: Option<T>)
        requires
            N > 0,
            old(self).wf(),
        ensures
            final(self).wf(),
            old(self)@.len() == N ==> r == Some(old(self)@[0]) && final(self)@
                == old(self)@.drop_first().push(value),
            old(self)@.len() < N ==> r is None && final(self)@ == old(self)@.push(value),
    {
        let result = if self.is_full() {
            self.pop_front()
        } else {
            None
        };
        assert(self@.len() == self.len);
        let ghost mid = *self;
        let index = self.write_slot();
        let mut slot = Some(value);
        self.slots.set_and_swap(index, &mut slot);
        self.len = self.len + 1;
        proof {
            assert forall|j: int| 0 <= j < self.len implies (#[trigger] self.slots@[self.slot_of(j)]) is Some by {
                if j < mid.len {
                    assert(mid.slots@[mid.slot_of(j)] is Some);
                }
            }
            assert forall|j: int| self.len <= j < N implies (#[trigger] self.slots@[self.slot_of(j)]) is None by {
                assert(mid.slots@[mid.slot_of(j)] is None);
            }
            assert(self@ =~= mid@.push(value));
        }
        result
    }

    /// The physical slot right after the newest element (for a buffer that is not full).
    fn write_slot(&self) -> (r: usize)
        requires
            self.wf(),
            self.len < N,
        ensures
            r == self.slot_of(self.len as int),
            r < N,
    {
        if self.len < N - self.read {
            self.read + self.len
        } else {
            self.len - (N - self.read)
        }
    }

    /// Removes and returns the oldest element, or `None` when the buffer is empty.
    pub fn pop_front(&mut self) -> (r: Option<T>)
        requires
            old(self).wf(),
        ensures
            final(self).wf(),
            old(self)@.len() == 0 ==> r is None && final(self)@ == old(self)@,
            old(self)@.len() > 0 ==> r == Some(old(self)@[0]) && final(self)@ == old(self)@.drop_first(),
    {
        if self.is_empty() {
            return None;
        }
        let ghost prev = *self;
        let index = self.read;
        let mut slot: Option<T> = None;
        self.slots.set_and_swap(index, &mut slot);
        assert(prev.slot_of(0) == index);
        assert(prev.slots@[prev.slot_of(0)] is Some);
        self.read = if self.read + 1 == N {
            0
        } else {
            self.read + 1
        };
        self.len = self.len - 1;
        proof {
            assert forall|j: int| 0 <= j < N implies self.slot_of(j) == (if j + 1 < N { prev.slot_of(j + 1) } else { prev.slot_of(0) }) by {}
            assert forall|j: int| 0 <= j < self.len implies (#[trigger] self.slots@[self.slot_of(j)]) is Some by {
                assert(prev.slots@[prev.slot_of(j + 1)] is Some);
            }
            assert forall|j: int| self.len <= j < N implies (#[trigger] self.slots@[self.slot_of(j)]) is None by {
                if j + 1 < N {
                    assert(prev.slots@[prev.slot_of(j + 1)] is None);
                }
            }
            assert(self@ =~= prev@.drop_first());
        }
        slot
    }

    /// Whether the buffer holds no element.
    pub fn is_empty(&self) -> (r: bool)
        requires
            self.wf(),
        ensures
            r == (self@.len() == 0),
    {
        self.len == 0
    }

    /// Whether the buffer holds `N` elements.
    pub fn is_full(&self) -> (r: bool)
        requires
            self.wf(),
        ensures
            r == (self@.len() == N),
    {
        self.len == N
    }

    /// The number of live elements.
    pub fn len(&self) -> (r: usize)
        requires
            self.wf(),
        ensures
            r == self@.len(),
            r <= N,
    {
        self.len
    }

    /// The fixed capacity `N`.
    pub fn capacity() -> (r: usize)
        ensures
            r == N,
    {
        N
    }

    /// The live element at offset `index` from the oldest one.
    pub fn get(&self, index: usize) -> (r: &T)
        requires
            self.wf(),
            index < self@.len(),
        ensures
            *r == self@[index as int],
    {
        let slot = if index < N - self.read {
            self.read + index
        } else {
            index - (N - self.read)
        };
        assert(self.slots@[self.slot_of(index as int)] is Some);
        self.slots[slot].as_ref().unwrap()
    }

    /// A restartable walk over the live elements, oldest first.
    pub fn iter(&self) -> (r: Iter<'_, T, N>)
        requires
            self.wf(),
        ensures
            r.wf(),
            r@ == self@,
    {
        Iter { start: 0, end: self.len, buffer: self }
    }
}

impl<T, const N: usize> View for CircularBuffer<T, N> {
    type V = Seq<T>;

    /// The live elements, oldest first.
    closed spec fn view(&self) -> Seq<T> {
        Seq::new(self.len as nat, |j: int| self.slots@[self.slot_of(j)]->Some_0)
    }
}

impl<T: Clone, const N: usize> Clone for CircularBuffer<T, N> {
    /// A deep copy: each live element is cloned; the empty slots stay empty.
    fn clone(&self) -> (r: Self)
        ensures
            self.wf() ==> r.wf(),
            self.wf() ==> r@.len() == self@.len(),
            self.wf() ==> forall|j: int| 0 <= j < self@.len() ==> cloned(self@[j], #[trigger] r@[j]),
    {
        let mut slots: Vec<Option<T>> = Vec::new();
        let mut i: usize = 0;
        while i < self.slots.len()
            invariant
                i <= self.slots@.len(),
                slots@.len() == i,
                forall|k: int| 0 <= k < i ==> (#[trigger] slots@[k] is Some) == (self.slots@[k] is Some),
                forall|k: int|
                    0 <= k < i && self.slots@[k] is Some ==> cloned(
                        self.slots@[k]->Some_0,
                        #[trigger] slots@[k]->Some_0,
                    ),
            decreases self.slots@.len() - i,
        {
            let slot = match &self.slots[i] {
                Some(value) => Some(value.clone()),
                None => None,
            };
            slots.push(slot);
            i = i + 1;
        }
        let r = CircularBuffer { slots, read: self.read, len: self.len };
        proof {
            if self.wf() {
                assert forall|j: int| 0 <= j < r.len implies (#[trigger] r.slots@[r.slot_of(j)]) is Some by {
                    assert(self.slots@[self.slot_of(j)] is Some);
                }
                assert forall|j: int| r.len <= j < N implies (#[trigger] r.slots@[r.slot_of(j)]) is None by {
                    assert(self.slots@[self.slot_of(j)] is None);
                }
                assert forall|j: int| 0 <= j < self@.len() implies cloned(self@[j], #[trigger] r@[j]) by {
                    assert(self.slots@[self.slot_of(j)] is Some);
                }
            }
        }
        r
    }
}

impl<T, const N: usize> Default for CircularBuffer<T, N> {
    fn default() -> (r: Self)
        ensures
            r.wf(),
            r@ == Seq::<T>::empty(),
    {
        Self::new()
    }
}

impl<'a, T, const N: usize> View for Iter<'a, T, N> {
    type V = Seq<T>;

    /// The elements that are still to come.
    closed spec fn view(&self) -> Seq<T> {
        self.buffer@.subrange(self.start as int, self.end as int)
    }
}

/// A walk over a buffer's live elements that does not consume the buffer.
pub struct Iter<'a, T, const N: usize> {
    start: usize,
    end: usize,
    buffer: &'a CircularBuffer<T, N>,
}

impl<'a, T, const N: usize> Iter<'a, T, N> {
    pub closed spec fn wf(&self) -> bool {
        &&& self.buffer.wf()
        &&& self.start <= self.end
        &&& self.end == self.buffer@.len()
    }

    /// How the walk `next` and the result `r` of one step follow from this walk.
    pub open spec fn next_post(&self, next: Self, r: Option<&'a T>) -> bool {
        &&& next.wf()
        &&& self@.len() == 0 ==> r is None && next@ == self@
        &&& self@.len() > 0 ==> r is Some && *r->Some_0 == self@[0] && next@ == self@.drop_first()
    }

    /// Yields the next element, or `None` once the walk is over.
    pub fn next(&mut self) -> (r: Option<&'a T>)
        requires
            old(self).wf(),
        ensures
            old(self).next_post(*final(self), r),
    {
        if self.start == self.end {
            return None;
        }
        let value = self.buffer.get(self.start);
        self.start = self.start + 1;
        proof {
            assert(self@ =~= old(self)@.drop_first());
        }
        Some(value)
    }
}

/// A walk over a buffer `b` yields exactly its live elements, oldest first,
/// and then nothing: after `k` steps from `b.iter()` the `k`-th result is
/// `b@[k]` while `k < b@.len()`, and `None` after that.
pub proof fn walk_yields_live_elements<'a, T, const N: usize>(
    walks: Seq<Iter<'a, T, N>>,
    results: Seq<Option<&'a T>>,
    live: Seq<T>,
)
    requires
        walks.len() == results.len() + 1,
        walks[0].wf(),
        walks[0]@ == live,
        forall|k: int| 0 <= k < results.len() ==> #[trigger] walks[k].next_post(walks[k + 1], results[k]),
    ensures
        forall|k: int|
            0 <= k < results.len() ==> if k < live.len() {
                (#[trigger] results[k]) is Some && *results[k]->Some_0 == live[k]
            } else {
                results[k] is None
            },
{
    assert forall|k: int| 0 <= k < results.len() implies if k < live.len() {
        (#[trigger] results[k]) is Some && *results[k]->Some_0 == live[k]
    } else {
        results[k] is None
    } by {
        lemma_walk_prefix(walks, results, live, k);
        assert(walks[k].next_post(walks[k + 1], results[k]));
    }
}

proof fn lemma_walk_prefix<'a, T, const N: usize>(
    walks: Seq<Iter<'a, T, N>>,
    results: Seq<Option<&'a T>>,
    live: Seq<T>,
    k: int,
)
    requires
        walks.len() == results.len() + 1,
        walks[0].wf(),
        walks[0]@ == live,
        forall|k: int| 0 <= k < results.len() ==> #[trigger] walks[k].next_post(walks[k + 1], results[k]),
        0 <= k < walks.len(),
    ensures
        walks[k].wf(),
        walks[k]@ == if k < live.len() { live.subrange(k, live.len() as int) } else { Seq::<T>::empty() },
    decreases k,
{
    if k == 0 {
        assert(live.subrange(0, live.len() as int) =~= live);
        if live.len() == 0 {
            assert(live =~= Seq::<T>::empty());
        }
    } else {
        let j = k - 1;
        lemma_walk_prefix(walks, results, live, j);
        assert(walks[j].next_post(walks[j + 1], results[j]));
        if j < live.len() {
            assert(live.subrange(j, live.len() as int).drop_first() =~= if k < live.len() {
                live.subrange(k, live.len() as int)
            } else {
                Seq::<T>::empty()
            });
        }
    }
}

} // verus!

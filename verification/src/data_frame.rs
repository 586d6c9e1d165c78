use vstd::prelude::*;
use std::collections::VecDeque;
use crate::consumer::DroppedValueConsumer;

verus! {

broadcast use vstd::std_specs::vecdeque::group_vec_dequeue_axioms;

/// Agreement between an executable read result (an optional reference) and
/// the mathematical window entry it must show.
pub open spec fn option_ref_agrees<T>(actual: Option<&T>, entry: Option<T>) -> bool {
    match actual {
        Some(v) => entry == Some(*v),
        None => entry is None,
    }
}

/// A fixed-capacity sliding window over the most recently appended items.
///
/// The window retains at most `capacity` items. Appending beyond capacity
/// evicts the oldest retained item and hands it, synchronously, to the
/// [`DroppedValueConsumer`] chosen at construction. Items are read by
/// relative position: 0 is the oldest retained slot, `capacity - 1` the
/// newest.
pub struct DataFrame<T, C> where C: DroppedValueConsumer<T> {
    size: usize,
    index: usize,
    items: VecDeque<T>,
    consumer: C,
    history: Ghost<Seq<T>>,
    dropped: Ghost<Seq<T>>,
}

impl<T, C> DataFrame<T, C> where C: DroppedValueConsumer<T> {
    /// The fixed capacity chosen at construction.
    pub closed spec fn capacity(self) -> int {
        self.size as int
    }

    /// Every item ever appended, in append order.
    pub closed spec fn appended(self) -> Seq<T> {
        self.history@
    }

    /// The items handed to the consumer so far, in eviction order.
    pub closed spec fn evicted(self) -> Seq<T> {
        self.dropped@
    }

    /// The items the window still retains, oldest first.
    pub open spec fn retained(self) -> Seq<T> {
        self.appended().skip(self.evicted().len() as int)
    }

    /// How many items a window must have evicted after the appends so far:
    /// one for each append past capacity.
    pub open spec fn evict_count(self) -> int {
        if self.appended().len() > self.capacity() {
            self.appended().len() - self.capacity()
        } else {
            0
        }
    }

    /// What relative slot `i` of the window shows: the item appended at
    /// absolute position `appended - capacity + i`, or `None` while that
    /// slot is not yet filled or `i` is out of range.
    pub open spec fn window_at(self, i: int) -> Option<T> {
        let pos = self.appended().len() - self.capacity() + i;
        if 0 <= i < self.capacity() && 0 <= pos {
            Some(self.appended()[pos])
        } else {
            None
        }
    }

    /// The internal invariant: the retained items are exactly the appended
    /// history with its evicted prefix removed, and eviction has kept
    /// exact pace with the appends past capacity.
    pub closed spec fn well_formed(self) -> bool {
        &&& 1 <= self.size
        &&& self.index == self.history@.len()
        &&& self.dropped@ == self.history@.take(self.evict_count())
        &&& self.items@ == self.history@.skip(self.evict_count())
    }

    /// Creates an empty window with the given capacity and eviction
    /// consumer. The capacity must be positive: a zero-capacity window is
    /// rejected at this boundary rather than given degenerate behaviour.
    pub fn new(size: usize, consumer: C) -> (r: Self)
        requires
            1 <= size,
        ensures
            r.well_formed(),
            r.capacity() == size as int,
            r.appended() == Seq::<T>::empty(),
            r.evicted() == Seq::<T>::empty(),
    {
        let r = Self {
            size,
            index: 0,
            items: VecDeque::with_capacity(size),
            consumer,
            history: Ghost(Seq::empty()),
            dropped: Ghost(Seq::empty()),
        };
        proof {
            assert(r.dropped@ =~= r.history@.take(0));
            assert(r.items@ =~= r.history@.skip(0));
        }
        r
    }

    /// Creates a window whose capacity is the length of `items`, which must
    /// be positive. The given items only choose the capacity: they are
    /// discarded rather than pre-loaded, so the window starts empty,
    /// exactly as `new` leaves it.
    pub fn from_frame(items: Vec<T>, consumer: C) -> (r: Self)
        requires
            1 <= items@.len(),
        ensures
            r.well_formed(),
            r.capacity() == items@.len(),
            r.appended() == Seq::<T>::empty(),
            r.evicted() == Seq::<T>::empty(),
    {
        let size = items.len();
        Self::new(size, consumer)
    }

    /// Returns the fixed capacity, not the number of occupied slots.
    pub fn len(&self) -> (r: usize)
        ensures
            r as int == self.capacity(),
    {
        self.size
    }

    /// Appends an item. The newest slot then shows it; if the window was
    /// already full, the oldest retained item is evicted and handed,
    /// synchronously, to the consumer before `add` returns.
    pub fn add(&mut self, item: T)
        requires
            old(self).well_formed(),
            old(self).appended().len() < usize::MAX,
        ensures
            final(self).well_formed(),
            final(self).capacity() == old(self).capacity(),
            final(self).appended() == old(self).appended().push(item),
            final(self).evicted() == (
                if old(self).capacity() <= old(self).appended().len() {
                    old(self).evicted().push(
                        old(self).appended()[old(self).appended().len() - old(self).capacity()],
                    )
                } else {
                    old(self).evicted()
                }),
    {
        self.index = self.index + 1;
        self.history = Ghost(self.history@.push(item));
        self.items.push_back(item);
        proof {
            let n = self.dropped@.len() as int;
            assert(self.items@ =~= self.history@.skip(n));
            assert(self.dropped@ =~= self.history@.take(n));
        }
        self.remove_overflow();
    }

    /// Restores the capacity bound after an append: when the cursor has
    /// passed the capacity, evicts the oldest retained item and hands it to
    /// the consumer.
    fn remove_overflow(&mut self)
        requires
            1 <= old(self).size,
            1 <= old(self).history@.len(),
            old(self).index == old(self).history@.len(),
            old(self).items@ == old(self).history@.skip(old(self).dropped@.len() as int),
            old(self).dropped@ == old(self).history@.take(old(self).dropped@.len() as int),
            old(self).dropped@.len() == (
                if (old(self).size as int) < old(self).history@.len() - 1 {
                    old(self).history@.len() - 1 - old(self).size as int
                } else {
                    0
                }),
        ensures
            final(self).well_formed(),
            final(self).size == old(self).size,
            final(self).history@ == old(self).history@,
            final(self).dropped@ == (
                if (old(self).size as int) < old(self).history@.len() {
                    old(self).dropped@.push(
                        old(self).history@[old(self).dropped@.len() as int],
                    )
                } else {
                    old(self).dropped@
                }),
    {
        if self.index > self.size {
            let ghost n = self.dropped@.len() as int;
            proof {
                assert(self.items@.len() > 0);
                assert(self.items@[0] == self.history@[n]);
            }
            let val = self.items.pop_front().unwrap();
            self.dropped = Ghost(self.dropped@.push(val));
            self.consumer.consume(val);
            proof {
                assert(self.items@ =~= self.history@.skip(n + 1));
                assert(self.dropped@ =~= self.history@.take(n + 1));
            }
        }
    }

    /// Returns the item at relative position `index` of the window (0 =
    /// oldest retained, `capacity - 1` = newest), or `None` for a slot not
    /// yet filled or a position out of range.
    pub fn get(&self, index: usize) -> (r: Option<&T>)
        requires
            self.well_formed(),
        ensures
            option_ref_agrees(r, self.window_at(index as int)),
    {
        let pad = self.size - self.items.len();
        if index < self.size && pad <= index {
            Some(&self.items[index - pad])
        } else {
            None
        }
    }

    /// Returns the whole window as a vector of `capacity` entries, oldest
    /// to newest: `Some` for each occupied slot, `None` for each slot not
    /// yet filled. Read-only, computed fresh on every call.
    pub fn get_slice(&self) -> (r: Vec<Option<&T>>)
        requires
            self.well_formed(),
        ensures
            r@.len() == self.capacity(),
            forall|i: int| 0 <= i < r@.len() ==> option_ref_agrees(#[trigger] r@[i], self.window_at(i)),
    {
        let mut res: Vec<Option<&T>> = Vec::new();
        let mut i: usize = 0;
        while i < self.size
            invariant
                i <= self.size,
                res@.len() == i as int,
                self.well_formed(),
                forall|j: int| 0 <= j < i as int
                    ==> option_ref_agrees(#[trigger] res@[j], self.window_at(j)),
            decreases self.size - i,
        {
            res.push(self.get(i));
            i = i + 1;
        }
        res
    }

    /// While the window is filling (at most `capacity` appends so far),
    /// nothing has been evicted and the window shows the appended items in
    /// order, left-padded with `None` for the slots not yet filled.
    pub proof fn lemma_window_while_filling(self)
        requires
            self.well_formed(),
            self.appended().len() <= self.capacity(),
        ensures
            self.evicted() == Seq::<T>::empty(),
            forall|i: int| 0 <= i < self.capacity() ==> #[trigger] self.window_at(i) == (
                if self.capacity() - self.appended().len() <= i {
                    Some(self.appended()[i - (self.capacity() - self.appended().len())])
                } else {
                    None::<T>
                }),
    {
        assert(self.evicted() =~= Seq::<T>::empty());
    }

    /// Once at least `capacity` items have been appended, every window slot
    /// is occupied: slot `i` shows the `i`-th oldest of the last `capacity`
    /// appended items, and the evicted items are exactly the oldest
    /// `appended - capacity` items, in the order they were appended (which
    /// is the order they were evicted, oldest first).
    pub proof fn lemma_window_when_full(self)
        requires
            self.well_formed(),
            self.capacity() <= self.appended().len(),
        ensures
            forall|i: int| 0 <= i < self.capacity() ==> #[trigger] self.window_at(i)
                == Some(self.appended()[self.appended().len() - self.capacity() + i]),
            self.evicted() == self.appended().take(
                self.appended().len() - self.capacity(),
            ),
            self.evicted().len() == self.appended().len() - self.capacity(),
    {
    }

    /// Evicted items never reappear: the appended history splits into the
    /// evicted prefix followed by the retained suffix, and every occupied
    /// window slot shows an item of the retained suffix, never one of the
    /// evicted prefix.
    pub proof fn lemma_evicted_stay_out(self)
        requires
            self.well_formed(),
        ensures
            self.appended() == self.evicted() + self.retained(),
            forall|i: int| 0 <= i < self.capacity() && #[trigger] self.window_at(i) is Some
                ==> self.window_at(i) == Some(
                    self.retained()[i - (self.capacity() - self.retained().len())],
                ),
    {
        assert(self.appended() =~= self.evicted() + self.retained());
        assert forall|i: int| 0 <= i < self.capacity() && #[trigger] self.window_at(i) is Some
            implies self.window_at(i) == Some(
                self.retained()[i - (self.capacity() - self.retained().len())],
            ) by {
            let pos = self.appended().len() - self.capacity() + i;
            assert(self.retained()[pos - self.evicted().len()] == self.appended()[pos]);
        }
    }
}

/// Reads are determined by the window: any two read results that agree with
/// the same window entry are equal. In particular, `get(i)` agrees with
/// `get_slice()[i]`, and repeated reads without an intervening `add` agree
/// with each other.
pub proof fn lemma_reads_agree<T>(first: Option<&T>, second: Option<&T>, entry: Option<T>)
    requires
        option_ref_agrees(first, entry),
        option_ref_agrees(second, entry),
    ensures
        first == second,
{
}

} // verus!

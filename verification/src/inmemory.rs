//! The bounded-history ring buffer that backs the history store.
//!
//! An [`InMemory`] store holds at most `history_size` timestamped
//! samples. While it is filling, samples are appended in arrival order;
//! once full, each new sample overwrites the least recently written
//! slot. A cursor always addresses the slot that holds the most
//! recently stored sample.
//!
//! The abstract state (the view) of a store is the sequence of its
//! entries in arrival order, oldest first. Storing a sample appends it
//! to the view and, when the store is full, drops the oldest entry:
//! see [`ring_push`].

use vstd::prelude::*;

use crate::measure::Measurement;

verus! {

/// A timestamped sample: the timestamp is the local acquisition time in
/// milliseconds since the Unix epoch, assigned by the history store at
/// the moment of storage.
pub type Entry = (i64, Measurement);

/// How the number of stored samples defaults when the configuration
/// does not give one.
pub const DEFAULT_HISTORY_SIZE: usize = 170;

/// The abstract effect of one store operation on a history of capacity
/// `cap`: the new entry is appended, and the oldest entry is dropped
/// when the history is already full.
pub open spec fn ring_push(history: Seq<Entry>, entry: Entry, cap: nat) -> Seq<Entry> {
    if history.len() < cap {
        history.push(entry)
    } else {
        history.drop_first().push(entry)
    }
}

/// The history left after storing `entries`, in order, into an empty
/// store of capacity `cap`.
pub open spec fn stored_view(entries: Seq<Entry>, cap: nat) -> Seq<Entry>
    decreases entries.len(),
{
    if entries.len() == 0 {
        Seq::empty()
    } else {
        ring_push(stored_view(entries.drop_last(), cap), entries.last(), cap)
    }
}

/// True when the entries appear in ascending timestamp order.
pub open spec fn sorted_by_timestamp(s: Seq<Entry>) -> bool {
    forall|i: int, j: int| 0 <= i < j < s.len() ==> s[i].0 <= s[j].0
}

/// True when the timestamps are strictly increasing.
pub open spec fn strictly_increasing_timestamps(s: Seq<Entry>) -> bool {
    forall|i: int, j: int| 0 <= i < j < s.len() ==> s[i].0 < s[j].0
}

/// A fixed-capacity in-memory store of timestamped samples, organised
/// as a circular buffer over a `Vec`.
pub struct InMemory {
    /// The slots, in storage order. Grows up to `history_size` entries
    /// and is then overwritten in place.
    buffer: Vec<Entry>,
    /// Index of the most recently written slot; `usize::MAX` while
    /// nothing has been stored.
    curr: usize,
    /// The fixed capacity, at least 1.
    history_size: usize,
}

impl View for InMemory {
    type V = Seq<Entry>;

    /// The stored entries in arrival order, oldest first.
    closed spec fn view(&self) -> Seq<Entry> {
        if self.buffer@.len() < self.history_size {
            self.buffer@
        } else {
            self.buffer@.subrange(self.curr + 1, self.buffer@.len() as int) + self.buffer@.subrange(
                0,
                self.curr + 1,
            )
        }
    }
}

impl InMemory {
    /// The store's fixed capacity.
    pub closed spec fn cap(&self) -> nat {
        self.history_size as nat
    }

    /// Internal well-formedness: the buffer never exceeds the capacity,
    /// and the cursor addresses the most recently written slot (or is
    /// `usize::MAX` while the store is empty).
    pub closed spec fn wf(&self) -> bool {
        &&& self.history_size >= 1
        &&& self.buffer@.len() <= self.history_size
        &&& (self.buffer@.len() == 0 ==> self.curr == usize::MAX)
        &&& (0 < self.buffer@.len() < self.history_size ==> self.curr + 1 == self.buffer@.len())
        &&& (self.buffer@.len() == self.history_size ==> self.curr < self.history_size)
    }

    /// Creates an empty store that will keep the `history_size` most
    /// recent samples. A zero capacity is a programming error and is
    /// ruled out; see [`InMemory::try_new`] for the checked form.
    pub fn new(history_size: usize) -> (store: InMemory)
        requires
            history_size >= 1,
        ensures
            store.wf(),
            store.cap() == history_size,
            store@ == Seq::<Entry>::empty(),
    {
        let store = InMemory { buffer: Vec::new(), curr: usize::MAX, history_size };
        proof {
            assert(store@ =~= Seq::<Entry>::empty());
        }
        store
    }

    /// Checked construction: fails exactly on the zero capacity that
    /// [`InMemory::new`] rules out, instead of failing at run time.
    pub fn try_new(history_size: usize) -> (r: Option<InMemory>)
        ensures
            history_size == 0 ==> r is None,
            history_size >= 1 ==> (r matches Some(store) && store.wf() && store.cap()
                == history_size && store@ == Seq::<Entry>::empty()),
    {
        if history_size == 0 {
            None
        } else {
            Some(InMemory::new(history_size))
        }
    }

    /// Stores one timestamped sample: appended in arrival order while
    /// the store is filling, and overwriting the oldest entry once the
    /// store is full. The most recent entry is always the last of the
    /// view.
    pub fn store(&mut self, timestamp: i64, measurement: Measurement)
        requires
            old(self).wf(),
        ensures
            final(self).wf(),
            final(self).cap() == old(self).cap(),
            final(self)@ == ring_push(old(self)@, (timestamp, measurement), old(self).cap()),
    {
        let entry = (timestamp, measurement);
        if self.buffer.len() < self.history_size {
            self.buffer.push(entry);
            self.curr = self.buffer.len() - 1;
            proof {
                if self.buffer@.len() < self.history_size {
                    assert(self@ =~= old(self)@.push(entry));
                } else {
                    assert(self@ =~= self.buffer@.subrange(
                        self.buffer@.len() as int,
                        self.buffer@.len() as int,
                    ) + self.buffer@.subrange(0, self.buffer@.len() as int));
                    assert(self@ =~= old(self)@.push(entry));
                }
            }
        } else {
            let pos = (self.curr + 1) % self.history_size;
            self.curr = pos;
            self.buffer.set(pos, entry);
            proof {
                let ob = old(self).buffer@;
                let nb = self.buffer@;
                let n = ob.len() as int;
                let c = old(self).curr as int;
                let p = self.curr as int;
                assert(nb =~= ob.update(p, entry));
                let oldview = ob.subrange(c + 1, n) + ob.subrange(0, c + 1);
                let newview = nb.subrange(p + 1, n) + nb.subrange(0, p + 1);
                if c == n - 1 {
                    assert(p == 0) by {
                        vstd::arithmetic::div_mod::lemma_mod_self_0(n);
                    }
                    assert(oldview =~= ob);
                    assert(oldview.drop_first() =~= ob.subrange(1, n));
                    assert(nb.subrange(p + 1, n) =~= ob.subrange(1, n));
                    assert(nb.subrange(0, p + 1) =~= seq![entry]);
                    assert(newview =~= oldview.drop_first().push(entry));
                } else {
                    assert(p == c + 1) by {
                        vstd::arithmetic::div_mod::lemma_small_mod((c + 1) as nat, n as nat);
                    }
                    assert(oldview.drop_first() =~= ob.subrange(c + 2, n) + ob.subrange(0, c + 1));
                    assert(nb.subrange(p + 1, n) =~= ob.subrange(c + 2, n));
                    assert(nb.subrange(0, p + 1) =~= ob.subrange(0, c + 1).push(entry));
                    assert(newview =~= oldview.drop_first().push(entry));
                }
            }
        }
    }

    /// Returns a snapshot of the stored entries ordered by timestamp
    /// ascending. The internal storage order is arrival order, which is
    /// not guaranteed to be timestamp order, so the snapshot is sorted
    /// on the way out.
    pub fn retrieve_history(&self) -> (r: Vec<Entry>)
        requires
            self.wf(),
        ensures
            sorted_by_timestamp(r@),
            r@.to_multiset() == self@.to_multiset(),
            r@.len() == self@.len(),
    {
        let mut ret: Vec<Entry> = Vec::new();
        let mut i: usize = 0;
        while i < self.buffer.len()
            invariant
                i <= self.buffer@.len(),
                ret@ == self.buffer@.subrange(0, i as int),
            decreases self.buffer@.len() - i,
        {
            ret.push(self.buffer[i]);
            proof {
                assert(ret@ =~= self.buffer@.subrange(0, i + 1));
            }
            i += 1;
        }
        proof {
            assert(ret@ =~= self.buffer@);
            if self.buffer@.len() >= self.history_size {
                let b = self.buffer@;
                let n = b.len() as int;
                let c = self.curr as int;
                let newer = b.subrange(0, c + 1);
                let older = b.subrange(c + 1, n);
                assert(b =~= newer + older);
                vstd::seq_lib::lemma_multiset_commutative(newer, older);
                vstd::seq_lib::lemma_multiset_commutative(older, newer);
                assert(b.to_multiset() =~= (older + newer).to_multiset());
            }
        }
        sort_entries_by_timestamp(&mut ret);
        ret
    }

    /// Returns the most recently stored entry, or `None` while nothing
    /// has been stored.
    pub fn retrieve_most_recent(&self) -> (r: Option<Entry>)
        requires
            self.wf(),
        ensures
            r == if self@.len() == 0 {
                Option::<Entry>::None
            } else {
                Option::<Entry>::Some(self@.last())
            },
    {
        if self.buffer.len() == 0 {
            None
        } else {
            Some(self.buffer[self.curr])
        }
    }
}

impl Default for InMemory {
    /// An empty store with the default capacity.
    fn default() -> (store: InMemory)
        ensures
            store.wf(),
            store.cap() == DEFAULT_HISTORY_SIZE,
            store@ == Seq::<Entry>::empty(),
    {
        InMemory::new(DEFAULT_HISTORY_SIZE)
    }
}

/// Sorts the entries in place by timestamp ascending (insertion sort by
/// adjacent swaps), keeping exactly the same entries.
fn sort_entries_by_timestamp(v: &mut Vec<Entry>)
    ensures
        sorted_by_timestamp(final(v)@),
        final(v)@.to_multiset() == old(v)@.to_multiset(),
        final(v)@.len() == old(v)@.len(),
{
    broadcast use vstd::seq_lib::group_to_multiset_ensures;

    let n = v.len();
    let mut i: usize = 1;
    while i < n
        invariant
            1 <= i,
            n == v@.len(),
            v@.to_multiset() == old(v)@.to_multiset(),
            forall|a: int, b: int| 0 <= a < b < i ==> v@[a].0 <= v@[b].0,
        decreases n - i,
    {
        let mut j: usize = i;
        while j > 0 && v[j - 1].0 > v[j].0
            invariant
                j <= i < n,
                n == v@.len(),
                v@.to_multiset() == old(v)@.to_multiset(),
                forall|a: int, b: int| 0 <= a < b <= i && b != j ==> v@[a].0 <= v@[b].0,
            decreases j,
        {
            let ghost before = v@;
            let lower = v[j - 1];
            let upper = v[j];
            v.set(j - 1, upper);
            v.set(j, lower);
            proof {
                broadcast use vstd::seq_lib::to_multiset_update;
                broadcast use vstd::seq_lib::to_multiset_contains;
                broadcast use vstd::multiset::group_multiset_axioms;

                let s0 = before;
                let s1 = before.update(j - 1, upper);
                let s2 = s1.update(j as int, lower);
                assert(v@ =~= s2);
                assert(s1.to_multiset() == s0.to_multiset().insert(upper).remove(s0[j - 1]));
                assert(s2.to_multiset() == s1.to_multiset().insert(lower).remove(s1[j as int]));
                assert(s0[j - 1] == lower && s1[j as int] == upper);
                assert(s0.contains(lower));
                assert(s0.to_multiset().count(lower) > 0);
                assert(s2.to_multiset() =~= s0.to_multiset());
            }
            j -= 1;
        }
        proof {
            assert forall|a: int, b: int| 0 <= a < b <= i implies v@[a].0 <= v@[b].0 by {
                if b == j {
                    if a < j - 1 {
                        assert(v@[a].0 <= v@[j - 1].0);
                    }
                }
            }
        }
        i += 1;
    }
}

/// Law: filling a store of capacity `cap` with at most `cap` samples
/// keeps every sample, in arrival order.
pub proof fn lemma_ring_buffer_fill(entries: Seq<Entry>, cap: nat)
    requires
        entries.len() <= cap,
    ensures
        stored_view(entries, cap) == entries,
    decreases entries.len(),
{
    if entries.len() == 0 {
        assert(stored_view(entries, cap) =~= entries);
    } else {
        lemma_ring_buffer_fill(entries.drop_last(), cap);
        assert(stored_view(entries, cap) =~= entries);
    }
}

/// Law: once more samples have been stored than the capacity holds, the
/// store keeps exactly the `cap` most recent samples, in arrival order;
/// each store beyond the capacity evicts exactly the oldest entry.
pub proof fn lemma_ring_buffer_overwrite(entries: Seq<Entry>, cap: nat)
    requires
        cap >= 1,
        entries.len() >= cap,
    ensures
        stored_view(entries, cap) == entries.skip(entries.len() - cap),
    decreases entries.len(),
{
    if entries.len() == cap {
        lemma_ring_buffer_fill(entries, cap);
        assert(entries.skip(0) =~= entries);
    } else {
        lemma_ring_buffer_overwrite(entries.drop_last(), cap);
        let prev = stored_view(entries.drop_last(), cap);
        assert(prev.len() == cap);
        assert(stored_view(entries, cap) =~= entries.skip(entries.len() - cap));
    }
}

/// Law: after any positive number of stores, the most recent entry of
/// the store is the last sample stored.
pub proof fn lemma_most_recent_is_last(entries: Seq<Entry>, cap: nat)
    requires
        cap >= 1,
        entries.len() > 0,
    ensures
        stored_view(entries, cap).len() > 0,
        stored_view(entries, cap).last() == entries.last(),
{
}

/// Law: while a store of capacity `cap` is filling (at most `cap`
/// samples stored) and the assigned timestamps are strictly increasing,
/// any sorted snapshot of its history — which is what
/// [`InMemory::retrieve_history`] returns — is exactly the stored
/// samples, in arrival order.
pub proof fn lemma_snapshot_of_filling_store(entries: Seq<Entry>, cap: nat, snapshot: Seq<Entry>)
    requires
        entries.len() <= cap,
        strictly_increasing_timestamps(entries),
        sorted_by_timestamp(snapshot),
        snapshot.to_multiset() == stored_view(entries, cap).to_multiset(),
    ensures
        snapshot == entries,
{
    lemma_ring_buffer_fill(entries, cap);
    lemma_sorted_history_is_arrival_order(entries, snapshot);
}

/// Law: a timestamp-sorted permutation of entries whose timestamps are
/// strictly increasing is those entries themselves. Hence, as long as
/// the assigned timestamps keep increasing, the sorted history snapshot
/// is the history in arrival order.
pub proof fn lemma_sorted_history_is_arrival_order(arrival: Seq<Entry>, sorted: Seq<Entry>)
    requires
        strictly_increasing_timestamps(arrival),
        sorted_by_timestamp(sorted),
        arrival.to_multiset() == sorted.to_multiset(),
    ensures
        arrival == sorted,
    decreases arrival.len(),
{
    broadcast use vstd::seq_lib::group_to_multiset_ensures;

    if arrival.len() == 0 {
        assert(arrival.to_multiset().len() == arrival.len());
        assert(sorted.to_multiset().len() == sorted.len());
        assert(arrival =~= sorted);
    } else {
        assert(arrival.to_multiset().len() == arrival.len());
        assert(sorted.to_multiset().len() == sorted.len());
        assert(sorted.len() == arrival.len());
        assert(arrival.to_multiset().contains(sorted[0]));
        assert(arrival.contains(sorted[0]));
        let k = choose|k: int| 0 <= k < arrival.len() && arrival[k] == sorted[0];
        assert(sorted.to_multiset().contains(arrival[0]));
        assert(sorted.contains(arrival[0]));
        let l = choose|l: int| 0 <= l < sorted.len() && sorted[l] == arrival[0];
        assert(sorted[0].0 <= sorted[l].0);
        assert(arrival[0].0 <= arrival[k].0);
        assert(arrival[k] == sorted[0] && arrival[k].0 == arrival[0].0);
        assert(k == 0);
        assert(sorted[0] == arrival[0]);
        assert(arrival.drop_first().to_multiset() =~= arrival.to_multiset().remove(arrival[0]))
            by {
            assert(arrival.drop_first() =~= arrival.remove(0));
        }
        assert(sorted.drop_first().to_multiset() =~= sorted.to_multiset().remove(sorted[0])) by {
            assert(sorted.drop_first() =~= sorted.remove(0));
        }
        assert(strictly_increasing_timestamps(arrival.drop_first())) by {
            assert forall|a: int, b: int|
                0 <= a < b < arrival.drop_first().len() implies arrival.drop_first()[a].0
                < arrival.drop_first()[b].0 by {
                assert(arrival.drop_first()[a] == arrival[a + 1]);
                assert(arrival.drop_first()[b] == arrival[b + 1]);
            }
        }
        assert(sorted_by_timestamp(sorted.drop_first())) by {
            assert forall|a: int, b: int|
                0 <= a < b < sorted.drop_first().len() implies sorted.drop_first()[a].0
                <= sorted.drop_first()[b].0 by {
                assert(sorted.drop_first()[a] == sorted[a + 1]);
                assert(sorted.drop_first()[b] == sorted[b + 1]);
            }
        }
        lemma_sorted_history_is_arrival_order(arrival.drop_first(), sorted.drop_first());
        assert forall|i: int| 0 <= i < arrival.len() implies arrival[i] == sorted[i] by {
            if i > 0 {
                assert(arrival.drop_first()[i - 1] == sorted.drop_first()[i - 1]);
            }
        }
        assert(arrival =~= sorted);
    }
}

} // verus!

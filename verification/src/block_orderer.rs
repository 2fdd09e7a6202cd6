use vstd::prelude::*;
use std::collections::BTreeMap;

verus! {

/// Reorders items finished out of order by concurrent upstream workers.
///
/// Items are buffered by block number and handed out strictly in ascending block-number order,
/// starting from the start block: the item for block `n` is only released once the items for
/// every block from the start block up to `n - 1` have been released.
#[derive(Debug)]
pub struct BlockOrderer<T> {
    pending: BTreeMap<u64, T>,
    start_block: u64,
    next_expected: u64,
}

/// The block numbers `start, start + 1, ..., next - 1`.
pub open spec fn released_range(start: u64, next: u64) -> Seq<u64> {
    Seq::new((next - start) as nat, |i: int| (start + i) as u64)
}

impl<T> BlockOrderer<T> {
    /// The buffered items, by block number.
    pub closed spec fn pending(&self) -> Map<u64, T> {
        self.pending@
    }

    /// The block the orderer started from.
    pub closed spec fn start_block(&self) -> u64 {
        self.start_block
    }

    /// The block whose item is released next.
    pub closed spec fn next_expected(&self) -> u64 {
        self.next_expected
    }

    /// The block numbers released so far, in the order they were released.
    pub open spec fn released(&self) -> Seq<u64> {
        released_range(self.start_block(), self.next_expected())
    }

    /// The orderer never runs behind its start block.
    pub closed spec fn wf(&self) -> bool {
        self.start_block <= self.next_expected
    }

    /// An orderer that expects `start_block` first and buffers nothing.
    pub fn new(start_block: u64) -> (r: Self)
        ensures
            r.wf(),
            r.start_block() <= r.next_expected(),
            r.pending() == Map::<u64, T>::empty(),
            r.start_block() == start_block,
            r.next_expected() == start_block,
            r.released() == Seq::<u64>::empty(),
    {
        let r = BlockOrderer { pending: BTreeMap::new(), start_block, next_expected: start_block };
        assert(r.released() =~= Seq::<u64>::empty());
        r
    }

    /// The block number whose item is released next.
    pub fn next_expected_block(&self) -> (r: u64)
        ensures
            r == self.next_expected(),
    {
        self.next_expected
    }

    /// Whether the item of block `block_number` is buffered.
    pub fn is_pending(&self, block_number: u64) -> (r: bool)
        ensures
            r == self.pending().contains_key(block_number),
    {
        self.pending.contains_key(&block_number)
    }

    /// Buffers an item received from upstream, replacing any item buffered for the same block.
    pub fn insert(&mut self, block_number: u64, item: T)
        requires
            old(self).wf(),
        ensures
            final(self).wf(),
            final(self).start_block() <= final(self).next_expected(),
            final(self).pending() == old(self).pending().insert(block_number, item),
            final(self).start_block() == old(self).start_block(),
            final(self).next_expected() == old(self).next_expected(),
    {
        self.pending.insert(block_number, item);
    }

    /// Releases the item of the next expected block, if it has arrived.
    pub fn pop_next(&mut self) -> (r: Option<T>)
        requires
            old(self).wf(),
            old(self).pending().contains_key(old(self).next_expected()) ==> old(
                self,
            ).next_expected() < u64::MAX,
        ensures
            final(self).wf(),
            final(self).start_block() <= final(self).next_expected(),
            final(self).start_block() == old(self).start_block(),
            match r {
                Some(item) => {
                    &&& old(self).pending().contains_key(old(self).next_expected())
                    &&& item == old(self).pending()[old(self).next_expected()]
                    &&& final(self).pending() == old(self).pending().remove(
                        old(self).next_expected(),
                    )
                    &&& final(self).next_expected() == old(self).next_expected() + 1
                    &&& final(self).released() == old(self).released().push(
                        old(self).next_expected(),
                    )
                },
                None => {
                    &&& !old(self).pending().contains_key(old(self).next_expected())
                    &&& final(self).pending() == old(self).pending()
                    &&& final(self).next_expected() == old(self).next_expected()
                },
            },
    {
        let ghost before = self.released();
        let r = self.pending.remove(&self.next_expected);
        if r.is_some() {
            self.next_expected = self.next_expected + 1;
            assert(self.released() =~= before.push((self.next_expected - 1) as u64));
        }
        r
    }

    /// Releases, in order, every item that is ready: the items of the next expected block and
    /// of the blocks directly following it, up to the first block that has not arrived. Some
    /// block from the next expected one on must be missing, so that the counter of the next
    /// expected block never has to move past `u64::MAX`.
    pub fn drain_ready(&mut self) -> (r: Vec<T>)
        requires
            old(self).wf(),
            exists|k: u64| old(self).next_expected() <= k && !#[trigger] old(self).pending().contains_key(k),
        ensures
            final(self).wf(),
            final(self).start_block() <= final(self).next_expected(),
            final(self).start_block() == old(self).start_block(),
            final(self).next_expected() == old(self).next_expected() + r.len(),
            !final(self).pending().contains_key(final(self).next_expected()),
            forall|i: int|
                0 <= i < r.len() ==> #[trigger] old(self).pending().contains_key(
                    (old(self).next_expected() + i) as u64,
                ),
            r@ == Seq::new(
                r.len() as nat,
                |i: int| old(self).pending()[(old(self).next_expected() + i) as u64],
            ),
            final(self).pending() == old(self).pending().remove_keys(
                Set::new(
                    |k: u64| old(self).next_expected() <= k < final(self).next_expected(),
                ),
            ),
            final(self).released() == old(self).released() + released_range(
                old(self).next_expected(),
                final(self).next_expected(),
            ),
            final(self).next_expected() == release_round(old(self).next_expected(), old(self).pending()).0,
            final(self).pending() == release_round(old(self).next_expected(), old(self).pending()).1,
            r@ == release_round(old(self).next_expected(), old(self).pending()).2.map_values(
                |e: (u64, T)| e.1,
            ),
    {
        let ghost old_pending = self.pending();
        let ghost old_next = self.next_expected;
        let ghost old_released = self.released();
        let mut out: Vec<T> = Vec::new();
        loop
            invariant
                self.wf(),
                self.start_block == old(self).start_block(),
                old_next == old(self).next_expected(),
                old_pending == old(self).pending(),
                old_released == old(self).released(),
                self.next_expected == old_next + out.len(),
                exists|k: u64| self.next_expected <= k && !#[trigger] old_pending.contains_key(k),
                forall|i: int|
                    0 <= i < out.len() ==> #[trigger] old_pending.contains_key(
                        (old_next + i) as u64,
                    ),
                out@ == Seq::new(out.len() as nat, |i: int| old_pending[(old_next + i) as u64]),
                self.pending() == old_pending.remove_keys(
                    Set::new(|k: u64| old_next <= k < self.next_expected),
                ),
                self.released() == old_released + released_range(old_next, self.next_expected),
            ensures
                self.wf(),
                self.start_block == old(self).start_block(),
                self.next_expected == old_next + out.len(),
                !self.pending().contains_key(self.next_expected),
                forall|i: int|
                    0 <= i < out.len() ==> #[trigger] old_pending.contains_key(
                        (old_next + i) as u64,
                    ),
                out@ == Seq::new(out.len() as nat, |i: int| old_pending[(old_next + i) as u64]),
                self.pending() == old_pending.remove_keys(
                    Set::new(|k: u64| old_next <= k < self.next_expected),
                ),
                self.released() == old_released + released_range(old_next, self.next_expected),
            decreases u64::MAX - self.next_expected,
        {
            let ghost cur = self.next_expected;
            let ghost pend = self.pending();
            let ghost out_before = out@;
            assert(pend.contains_key(cur) ==> old_pending.contains_key(cur) && pend[cur]
                == old_pending[cur]);
            let ghost gap = choose|k: u64| cur <= k && !#[trigger] old_pending.contains_key(k);
            assert(pend.contains_key(cur) ==> cur < u64::MAX) by {
                if pend.contains_key(cur) {
                    assert(gap != cur);
                }
            }
            match self.pop_next() {
                Some(item) => {
                    assert(gap != cur);
                    assert(self.next_expected <= gap && !old_pending.contains_key(gap));
                    out.push(item);
                    assert(out@ =~= Seq::new(
                        out.len() as nat,
                        |i: int| old_pending[(old_next + i) as u64],
                    ));
                    assert forall|i: int| 0 <= i < out.len() implies #[trigger] old_pending.contains_key(
                        (old_next + i) as u64,
                    ) by {
                        if i == out.len() - 1 {
                            assert((old_next + i) as u64 == cur);
                        }
                    }
                    assert(self.pending() =~= old_pending.remove_keys(
                        Set::new(|k: u64| old_next <= k < self.next_expected),
                    ));
                    assert(self.released() =~= old_released + released_range(
                        old_next,
                        self.next_expected,
                    ));
                },
                None => {
                    break ;
                },
            }
        }
        proof {
            let stop = self.next_expected;
            assert(!old_pending.contains_key(stop)) by {
                if old_pending.contains_key(stop) {
                    assert(self.pending().contains_key(stop));
                }
            }
            assert forall|k: u64| old_next <= k < stop implies #[trigger] old_pending.contains_key(k) by {
                assert(old_pending.contains_key((old_next + (k - old_next)) as u64));
            }
            lemma_release_round_stops_at(old_next, old_pending, stop);
            assert(out@ =~= release_round(old_next, old_pending).2.map_values(|e: (u64, T)| e.1));
        }
        out
    }
}

/// Released block numbers are consecutive: each is one more than the one released before it,
/// the first is the start block, and so no block is released twice or skipped.
pub proof fn lemma_released_consecutive(start: u64, next: u64)
    requires
        start <= next,
    ensures
        forall|i: int|
            0 <= i < released_range(start, next).len() ==> #[trigger] released_range(
                start,
                next,
            )[i] == start + i,
        forall|i: int, j: int|
            0 <= i < j < released_range(start, next).len() ==> released_range(start, next)[i]
                < released_range(start, next)[j],
{
}

/// Whatever an orderer has released so far is the run of consecutive block numbers from its
/// start block: the first is the start block and each is one more than the one before.
pub proof fn lemma_orderer_released_in_order<T>(o: BlockOrderer<T>)
    requires
        o.start_block() <= o.next_expected(),
    ensures
        forall|i: int| 0 <= i < o.released().len() ==> #[trigger] o.released()[i] == o.start_block() + i,
        o.released().len() == o.next_expected() - o.start_block(),
{
    lemma_released_consecutive(o.start_block(), o.next_expected());
}


/// One release round of an orderer that expects block `next` and buffers `pending`: the items
/// of `next` and the blocks directly following it are released in order, as `pop_next` does
/// one at a time, up to the first block that has not arrived. Gives the next expected block,
/// what stays buffered, and the released block numbers with their items.
pub open spec fn release_round<T>(next: u64, pending: Map<u64, T>) -> (u64, Map<u64, T>, Seq<(u64, T)>)
    decreases u64::MAX - next,
{
    if pending.contains_key(next) && next < u64::MAX {
        let rest = release_round((next + 1) as u64, pending.remove(next));
        (rest.0, rest.1, seq![(next, pending[next])] + rest.2)
    } else {
        (next, pending, Seq::empty())
    }
}

/// A whole run of an orderer started at `start`: after each item received from upstream (a
/// block number with its item) is buffered with `insert`, every ready item is released, as
/// `drain_ready` does (see its contract). Gives
/// the next expected block, what stays buffered, and everything released, in order.
pub open spec fn orderer_run<T>(start: u64, received: Seq<(u64, T)>) -> (u64, Map<u64, T>, Seq<(u64, T)>)
    decreases received.len(),
{
    if received.len() == 0 {
        (start, Map::empty(), Seq::empty())
    } else {
        let before = orderer_run(start, received.drop_last());
        let round = release_round(before.0, before.1.insert(received.last().0, received.last().1));
        (round.0, round.1, before.2 + round.2)
    }
}

/// What a release round gives: the consecutive blocks from `next` with their buffered items,
/// and the buffer without them.
pub proof fn lemma_release_round<T>(next: u64, pending: Map<u64, T>)
    ensures
        release_round(next, pending).0 >= next,
        release_round(next, pending).2.len() == release_round(next, pending).0 - next,
        forall|i: int|
            0 <= i < release_round(next, pending).2.len() ==> {
                &&& #[trigger] release_round(next, pending).2[i].0 == next + i
                &&& pending.contains_key((next + i) as u64)
                &&& release_round(next, pending).2[i].1 == pending[(next + i) as u64]
            },
        forall|k: u64|
            #[trigger] release_round(next, pending).1.contains_key(k) ==> pending.contains_key(k)
                && release_round(next, pending).1[k] == pending[k],
    decreases u64::MAX - next,
{
    if pending.contains_key(next) && next < u64::MAX {
        let n1 = (next + 1) as u64;
        let p1 = pending.remove(next);
        lemma_release_round(n1, p1);
        let rest = release_round(n1, p1);
        let r = release_round(next, pending);
        assert forall|i: int| 0 <= i < r.2.len() implies {
            &&& #[trigger] r.2[i].0 == next + i
            &&& pending.contains_key((next + i) as u64)
            &&& r.2[i].1 == pending[(next + i) as u64]
        } by {
            if i > 0 {
                assert(r.2[i] == rest.2[i - 1]);
            }
        }
    }
}

/// A release round from `next` stops at the first block `stop` that has not arrived, releasing
/// exactly the blocks before it.
pub proof fn lemma_release_round_stops_at<T>(next: u64, pending: Map<u64, T>, stop: u64)
    requires
        next <= stop,
        !pending.contains_key(stop),
        forall|k: u64| next <= k < stop ==> #[trigger] pending.contains_key(k),
    ensures
        release_round(next, pending).0 == stop,
        release_round(next, pending).1 == pending.remove_keys(Set::new(|k: u64| next <= k < stop)),
        release_round(next, pending).2 == Seq::new(
            (stop - next) as nat,
            |i: int| ((next + i) as u64, pending[(next + i) as u64]),
        ),
    decreases stop - next,
{
    if next < stop {
        let p1 = pending.remove(next);
        assert forall|k: u64| (next + 1) as u64 <= k < stop implies #[trigger] p1.contains_key(k) by {
            assert(pending.contains_key(k));
        }
        lemma_release_round_stops_at((next + 1) as u64, p1, stop);
        assert(p1.remove_keys(Set::new(|k: u64| (next + 1) as u64 <= k < stop)) =~= pending.remove_keys(
            Set::new(|k: u64| next <= k < stop),
        ));
        let r = release_round(next, pending);
        let rest = release_round((next + 1) as u64, p1);
        assert(r.2 =~= Seq::new(
            (stop - next) as nat,
            |i: int| ((next + i) as u64, pending[(next + i) as u64]),
        )) by {
            assert forall|i: int| 0 < i < r.2.len() implies r.2[i] == rest.2[i - 1] by {}
        }
    } else {
        assert(pending.remove_keys(Set::new(|k: u64| next <= k < stop)) =~= pending);
        assert(release_round(next, pending).2 =~= Seq::new(
            (stop - next) as nat,
            |i: int| ((next + i) as u64, pending[(next + i) as u64]),
        ));
    }
}

/// The law of a whole run of an orderer started at `start`, for items received with block
/// numbers below `u64::MAX`: what it releases are the blocks `start, start + 1, ...` in that
/// order, with no gap or repeat, each with an item received from upstream for that block; and
/// after any prefix of the input, what was released so far is a prefix of what the whole run
/// releases, made of items received within that prefix, so block `n` is released only after
/// the items of `start` to `n - 1` were all received. Nothing below `start` is released.
pub proof fn lemma_orderer_run<T>(start: u64, received: Seq<(u64, T)>)
    requires
        forall|j: int| 0 <= j < received.len() ==> #[trigger] received[j].0 < u64::MAX,
    ensures
        orderer_run(start, received).0 >= start,
        orderer_run(start, received).2.len() == orderer_run(start, received).0 - start,
        forall|i: int|
            0 <= i < orderer_run(start, received).2.len() ==> #[trigger] orderer_run(start, received).2[i].0
                == start + i,
        forall|i: int|
            0 <= i < orderer_run(start, received).2.len() ==> exists|j: int|
                0 <= j < received.len() && received[j] == #[trigger] orderer_run(start, received).2[i],
        forall|k: u64|
            #[trigger] orderer_run(start, received).1.contains_key(k) ==> exists|j: int|
                0 <= j < received.len() && received[j] == (k, orderer_run(start, received).1[k]),
        forall|m: int|
            0 <= m <= received.len() ==> #[trigger] orderer_run(start, received.take(m)).0
                <= orderer_run(start, received).0,
        forall|m: int|
            0 <= m <= received.len() ==> orderer_run(start, received.take(m)).2 == #[trigger] orderer_run(
                start,
                received,
            ).2.take(orderer_run(start, received.take(m)).2.len() as int),
    decreases received.len(),
{
    let r = orderer_run(start, received);
    if received.len() > 0 {
        let prev = received.drop_last();
        assert forall|j: int| 0 <= j < prev.len() implies #[trigger] prev[j].0 < u64::MAX by {
            assert(prev[j] == received[j]);
        }
        lemma_orderer_run(start, prev);
        let before = orderer_run(start, prev);
        let last = received.last();
        let buffered = before.1.insert(last.0, last.1);
        lemma_release_round(before.0, buffered);
        let round = release_round(before.0, buffered);
        assert(r.2 == before.2 + round.2);
        assert forall|i: int| 0 <= i < r.2.len() implies #[trigger] r.2[i].0 == start + i by {
            if i >= before.2.len() {
                assert(r.2[i] == round.2[i - before.2.len()]);
            } else {
                assert(r.2[i] == before.2[i]);
            }
        }
        assert forall|i: int| 0 <= i < r.2.len() implies exists|j: int|
            0 <= j < received.len() && received[j] == #[trigger] r.2[i] by {
            if i >= before.2.len() {
                let ii = i - before.2.len();
                assert(r.2[i] == round.2[ii]);
                let k = (before.0 + ii) as u64;
                assert(round.2[ii].0 == before.0 + ii);
                assert(buffered.contains_key(k) && round.2[ii].1 == buffered[k]);
                if k == last.0 {
                    assert(r.2[i].0 == last.0 && r.2[i].1 == buffered[k]);
                    assert(received[received.len() - 1] == r.2[i]);
                } else {
                    assert(before.1.contains_key(k));
                    let j = choose|j: int| 0 <= j < prev.len() && prev[j] == (k, before.1[k]);
                    assert(received[j] == prev[j]);
                }
            } else {
                assert(r.2[i] == before.2[i]);
                let j = choose|j: int| 0 <= j < prev.len() && prev[j] == before.2[i];
                assert(received[j] == prev[j]);
            }
        }
        assert forall|k: u64| #[trigger] r.1.contains_key(k) implies exists|j: int|
            0 <= j < received.len() && received[j] == (k, r.1[k]) by {
            assert(buffered.contains_key(k) && r.1[k] == buffered[k]);
            if k == last.0 {
                assert(received[received.len() - 1] == (k, r.1[k]));
            } else {
                let j = choose|j: int| 0 <= j < prev.len() && prev[j] == (k, before.1[k]);
                assert(received[j] == prev[j]);
            }
        }
        assert forall|m: int| 0 <= m <= received.len() implies #[trigger] orderer_run(
            start,
            received.take(m),
        ).0 <= r.0 by {
            if m == received.len() {
                assert(received.take(m) =~= received);
            } else {
                assert(received.take(m) =~= prev.take(m));
                assert(orderer_run(start, prev.take(m)).0 <= before.0);
            }
        }
        assert forall|m: int| 0 <= m <= received.len() implies orderer_run(start, received.take(m)).2
            == #[trigger] orderer_run(start, received).2.take(
            orderer_run(start, received.take(m)).2.len() as int,
        ) by {
            if m == received.len() {
                assert(received.take(m) =~= received);
                assert(r.2.take(r.2.len() as int) =~= r.2);
            } else {
                assert(received.take(m) =~= prev.take(m));
                assert(orderer_run(start, prev.take(m)).0 <= before.0);
                assert forall|j: int| 0 <= j < prev.take(m).len() implies #[trigger] prev.take(m)[j].0
                    < u64::MAX by {
                    assert(prev.take(m)[j] == received[j]);
                }
                lemma_orderer_run(start, prev.take(m));
                let pm = orderer_run(start, prev.take(m)).2;
                assert(pm == before.2.take(pm.len() as int));
                assert(pm.len() <= before.2.len());
                assert(r.2.take(pm.len() as int) =~= before.2.take(pm.len() as int));
            }
        }
    } else {
        assert forall|m: int| 0 <= m <= received.len() implies #[trigger] orderer_run(
            start,
            received.take(m),
        ).0 <= r.0 by {
            assert(received.take(m) =~= received);
        }
        assert forall|m: int| 0 <= m <= received.len() implies orderer_run(start, received.take(m)).2
            == #[trigger] orderer_run(start, received).2.take(
            orderer_run(start, received.take(m)).2.len() as int,
        ) by {
            assert(received.take(m) =~= received);
        }
    }
}

} // verus!

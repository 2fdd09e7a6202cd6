use vstd::prelude::*;

use crate::felt::{lemma_felt_halves_injective, Felt};
use std::collections::BTreeMap;
use vstd::std_specs::iter::IteratorSpec;
use crate::tee::{L1ToL2Message, L2ToL1Message};

verus! {

/// The key a felt is stored under in a [`FeltMap`]: its two halves.
pub open spec fn felt_key(k: Felt) -> (u128, u128) {
    (k.spec_high(), k.spec_low())
}

/// A map from felts to felts, held in a `BTreeMap` keyed by the halves of each key felt; every
/// entry also keeps its key felt beside its value.
#[derive(Debug)]
pub struct FeltMap {
    map: BTreeMap<(u128, u128), (Felt, Felt)>,
}

impl View for FeltMap {
    type V = Map<Felt, Felt>;

    closed spec fn view(&self) -> Map<Felt, Felt> {
        Map::new(
            |k: Felt| self.map@.contains_key(felt_key(k)),
            |k: Felt| self.map@[felt_key(k)].1,
        )
    }
}

impl FeltMap {
    #[verifier::type_invariant]
    spec fn keys_match(self) -> bool {
        forall|kk: (u128, u128)| #[trigger] self.map@.contains_key(kk) ==> felt_key(self.map@[kk].0) == kk
    }

    /// The empty map.
    pub fn new() -> (r: FeltMap)
        ensures
            r@ == Map::<Felt, Felt>::empty(),
    {
        let r = FeltMap { map: BTreeMap::new() };
        assert(r@ =~= Map::<Felt, Felt>::empty());
        r
    }

    /// The keys of the map correspond one to one to the entries of the `BTreeMap`.
    proof fn lemma_dom_len(&self)
        requires
            forall|kk: (u128, u128)| #[trigger] self.map@.contains_key(kk) ==> felt_key(self.map@[kk].0) == kk,
        ensures
            self@.dom().finite(),
            self@.dom().len() == self.map@.dom().len(),
    {
        let x = self.map@.dom();
        let f = |kk: (u128, u128)| self.map@[kk].0;
        assert(x.map(f) =~= self@.dom()) by {
            assert forall|k: Felt| self@.dom().contains(k) implies x.map(f).contains(k) by {
                let kk = felt_key(k);
                lemma_felt_halves_injective(self.map@[kk].0, k);
                assert(x.contains(kk) && f(kk) == k);
            }
            assert forall|k: Felt| x.map(f).contains(k) implies self@.dom().contains(k) by {
                let kk = choose|kk: (u128, u128)| x.contains(kk) && f(kk) == k;
                assert(felt_key(self.map@[kk].0) == kk);
            }
        }
        assert(vstd::relations::injective_on(f, x)) by {
            assert forall|a: (u128, u128), b: (u128, u128)|
                x.contains(a) && x.contains(b) && #[trigger] f(a) == #[trigger] f(b) implies a == b by {
                assert(felt_key(self.map@[a].0) == a);
                assert(felt_key(self.map@[b].0) == b);
            }
        }
        vstd::set_lib::lemma_map_size(x, self@.dom(), f);
    }

    /// Number of keys.
    pub fn len(&self) -> (r: usize)
        ensures
            self@.dom().finite(),
            r == self@.dom().len(),
    {
        proof {
            use_type_invariant(self);
            self.lemma_dom_len();
        }
        self.map.len()
    }

    /// The value stored under `key`.
    pub fn get(&self, key: &Felt) -> (r: Option<Felt>)
        ensures
            r == (if self@.contains_key(*key) {
                Some(self@[*key])
            } else {
                None::<Felt>
            }),
    {
        match self.map.get(&(key.high(), key.low())) {
            Some(entry) => Some(entry.1),
            None => None,
        }
    }

    /// Stores `value` under `key`, replacing any previous value.
    pub fn insert(&mut self, key: Felt, value: Felt)
        ensures
            final(self)@ == old(self)@.insert(key, value),
    {
        proof {
            use_type_invariant(&*self);
        }
        let ghost before = self@;
        let k = (key.high(), key.low());
        let mut map = BTreeMap::new();
        std::mem::swap(&mut map, &mut self.map);
        map.insert(k, (key, value));
        assert forall|k2: Felt| #[trigger] map@.contains_key(felt_key(k2)) == before.insert(
            key,
            value,
        ).dom().contains(k2) by {
            lemma_felt_halves_injective(k2, key);
        }
        self.map = map;
        assert(self@ =~= before.insert(key, value)) by {
            assert forall|k2: Felt| self@.contains_key(k2) implies self@[k2] == before.insert(
                key,
                value,
            )[k2] by {
                lemma_felt_halves_injective(k2, key);
            }
        }
    }

    /// Every entry of the map, as key/value pairs.
    pub fn entries(&self) -> (r: Vec<(Felt, Felt)>)
        ensures
            forall|i: int|
                0 <= i < r.len() ==> self@.contains_key(#[trigger] r@[i].0) && self@[r@[i].0]
                    == r@[i].1,
            forall|k: Felt| #[trigger] self@.contains_key(k) ==> r@.contains((k, self@[k])),
            self@.dom().finite(),
            r@.len() == self@.dom().len(),
    {
        proof {
            use_type_invariant(self);
            self.lemma_dom_len();
        }
        let mut r: Vec<(Felt, Felt)> = Vec::new();
        let ghost v = vstd::std_specs::btree::spec_btree_map_iter(&self.map).remaining();
        for entry in it: self.map.iter()
            invariant
                it.seq() == v,
                forall|kk: (u128, u128)| #[trigger] self.map@.contains_key(kk) ==> felt_key(
                    self.map@[kk].0,
                ) == kk,
                r@ == it.seq().take(it.index() as int).map_values(
                    |e: (&(u128, u128), &(Felt, Felt))| *e.1,
                ),
                forall|i: int|
                    0 <= i < it.index() ==> self.map@.contains_key(*#[trigger] it.seq()[i].0)
                        && self.map@[*it.seq()[i].0] == *it.seq()[i].1,
        {
            r.push(*entry.1);
        }
        assert forall|i: int| 0 <= i < r.len() implies self@.contains_key(#[trigger] r@[i].0)
            && self@[r@[i].0] == r@[i].1 by {
            let kk = *v[i].0;
            assert(r@[i] == self.map@[kk]);
        }
        assert forall|k: Felt| #[trigger] self@.contains_key(k) implies r@.contains((k, self@[k])) by {
            let kk = felt_key(k);
            assert(v.contains((&kk, &self.map@[kk])));
            let i = choose|i: int| 0 <= i < v.len() && v[i] == (&kk, &self.map@[kk]);
            lemma_felt_halves_injective(self.map@[kk].0, k);
            assert(r@[i] == (k, self@[k]));
        }
        r
    }

    /// A copy of the map with the same entries.
    pub fn copy(&self) -> (r: FeltMap)
        ensures
            r@ == self@,
    {
        let mut r = FeltMap::new();
        r.extend(self);
        assert(r@ =~= self@);
        r
    }

    /// Adds every entry of `other` to this map, later values winning.
    pub fn extend(&mut self, other: &FeltMap)
        ensures
            final(self)@ == old(self)@.union_prefer_right(other@),
    {
        let entries = other.entries();
        let ghost before = self@;
        let mut i: usize = 0;
        while i < entries.len()
            invariant
                i <= entries@.len(),
                forall|j: int|
                    0 <= j < entries@.len() ==> other@.contains_key(#[trigger] entries@[j].0)
                        && other@[entries@[j].0] == entries@[j].1,
                forall|k: Felt|
                    #[trigger] self@.contains_key(k) <==> (before.contains_key(k) || exists|j: int|
                        0 <= j < i && entries@[j].0 == k),
                forall|k: Felt|
                    #[trigger] self@.contains_key(k) ==> self@[k] == (if exists|j: int|
                        0 <= j < i && entries@[j].0 == k {
                        other@[k]
                    } else {
                        before[k]
                    }),
            decreases entries@.len() - i,
        {
            let (k, v) = entries[i];
            self.insert(k, v);
            i = i + 1;
            assert forall|k2: Felt| #[trigger] self@.contains_key(k2) implies self@[k2] == (if exists|j: int|
                0 <= j < i && entries@[j].0 == k2 {
                other@[k2]
            } else {
                before[k2]
            }) by {
                if k2 == k {
                    assert(entries@[i - 1].0 == k2);
                } else if exists|j: int| 0 <= j < i && entries@[j].0 == k2 {
                    let j = choose|j: int| 0 <= j < i && entries@[j].0 == k2;
                    assert(j < i - 1);
                }
            }
            assert forall|k2: Felt| #[trigger] self@.contains_key(k2) <==> (before.contains_key(k2)
                || exists|j: int| 0 <= j < i && entries@[j].0 == k2) by {
                if k2 == k {
                    assert(entries@[i - 1].0 == k2);
                } else if exists|j: int| 0 <= j < i && entries@[j].0 == k2 {
                    let j = choose|j: int| 0 <= j < i && entries@[j].0 == k2;
                    assert(j < i - 1);
                }
            }
        }
        assert forall|k: Felt| other@.contains_key(k) implies exists|j: int|
            0 <= j < entries@.len() && entries@[j].0 == k by {
            assert(entries@.contains((k, other@[k])));
            let j = choose|j: int| 0 <= j < entries@.len() && entries@[j] == (k, other@[k]);
            assert(entries@[j].0 == k);
        }
        assert(self@ =~= before.union_prefer_right(other@));
    }
}

/// The changes a state diff makes to one contract, as values.
pub struct ContractChangesSpec {
    pub addr: Felt,
    pub nonce: Felt,
    pub class_hash: Option<Felt>,
    pub storage_changes: Map<Felt, Felt>,
}

/// The changes a state diff makes to one contract.
#[derive(Debug)]
pub struct ContractChanges {
    /// The address of the contract.
    pub addr: Felt,
    /// The new nonce of the contract (for account contracts).
    pub nonce: Felt,
    /// The new class hash (if changed).
    pub class_hash: Option<Felt>,
    /// A map from storage key to its new value.
    pub storage_changes: FeltMap,
}

impl View for ContractChanges {
    type V = ContractChangesSpec;

    open spec fn view(&self) -> ContractChangesSpec {
        ContractChangesSpec {
            addr: self.addr,
            nonce: self.nonce,
            class_hash: self.class_hash,
            storage_changes: self.storage_changes@,
        }
    }
}

impl ContractChanges {
    /// A copy of the changes.
    pub fn copy(&self) -> (r: ContractChanges)
        ensures
            r@ == self@,
    {
        ContractChanges {
            addr: self.addr,
            nonce: self.nonce,
            class_hash: self.class_hash,
            storage_changes: self.storage_changes.copy(),
        }
    }
}

/// The state diff produced by one or more blocks.
#[derive(Debug)]
pub struct OsStateDiff {
    /// Changes per contract, in order of first appearance.
    pub contract_changes: Vec<ContractChanges>,
    /// Declared classes: class hash to compiled class hash.
    pub classes: FeltMap,
}

/// The contract changes as values.
pub open spec fn changes_view(v: Seq<ContractChanges>) -> Seq<ContractChangesSpec> {
    v.map_values(|c: ContractChanges| c@)
}

/// Position of the first change of the contract at `addr`, if any.
pub open spec fn find_addr(s: Seq<ContractChangesSpec>, addr: Felt) -> Option<int>
    decreases s.len(),
{
    if s.len() == 0 {
        None
    } else {
        match find_addr(s.drop_last(), addr) {
            Some(j) => Some(j),
            None => if s.last().addr == addr {
                Some(s.len() - 1)
            } else {
                None
            },
        }
    }
}

/// Folds one contract's changes into an accumulated list: the first entry of the same contract
/// takes the new nonce and class hash and has its storage overridden by the new storage changes;
/// the changes of a contract that the list does not hold are left out.
pub open spec fn squash_change(acc: Seq<ContractChangesSpec>, c: ContractChangesSpec) -> Seq<
    ContractChangesSpec,
> {
    match find_addr(acc, c.addr) {
        Some(j) => acc.update(
            j,
            ContractChangesSpec {
                addr: acc[j].addr,
                nonce: c.nonce,
                class_hash: c.class_hash,
                storage_changes: acc[j].storage_changes.union_prefer_right(c.storage_changes),
            },
        ),
        None => acc,
    }
}

/// Folds every change of `cs`, in order, into `acc`.
pub open spec fn squash_all(acc: Seq<ContractChangesSpec>, cs: Seq<ContractChangesSpec>) -> Seq<
    ContractChangesSpec,
>
    decreases cs.len(),
{
    if cs.len() == 0 {
        acc
    } else {
        squash_change(squash_all(acc, cs.drop_last()), cs.last())
    }
}

proof fn lemma_find_addr_first(s: Seq<ContractChangesSpec>, addr: Felt, j: int)
    requires
        0 <= j <= s.len(),
        forall|k: int| 0 <= k < j ==> s[k].addr != addr,
    ensures
        j < s.len() && s[j].addr == addr ==> find_addr(s, addr) == Some(j),
        j == s.len() ==> find_addr(s, addr) is None,
    decreases s.len(),
{
    if s.len() > 0 {
        if j < s.len() {
            if j < s.len() - 1 {
                lemma_find_addr_first(s.drop_last(), addr, j);
            } else {
                lemma_find_addr_first(s.drop_last(), addr, j);
            }
        } else {
            lemma_find_addr_first(s.drop_last(), addr, j - 1);
        }
    }
}

/// Squashes the per-contract changes of a newer state diff into an older one: each contract of
/// the older list takes the latest nonce and class hash given for it and accumulates its storage
/// changes; the list keeps its contracts and their order.
pub fn squash_contract_changes(old: Vec<ContractChanges>, new: Vec<ContractChanges>) -> (r: Vec<
    ContractChanges,
>)
    ensures
        changes_view(r@) == squash_all(changes_view(old@), changes_view(new@)),
{
    let mut old = old;
    let ghost old0 = changes_view(old@);
    let mut i: usize = 0;
    while i < new.len()
        invariant
            i <= new@.len(),
            changes_view(old@) == squash_all(old0, changes_view(new@).take(i as int)),
        decreases new@.len() - i,
    {
        let c = &new[i];
        let ghost acc = changes_view(old@);
        let mut j: usize = 0;
        while j < old.len()
            invariant
                j <= old@.len(),
                acc == changes_view(old@),
                forall|k: int| 0 <= k < j ==> acc[k].addr != c.addr,
            ensures
                j <= old@.len(),
                acc == changes_view(old@),
                forall|k: int| 0 <= k < j ==> acc[k].addr != c.addr,
                j < old@.len() ==> acc[j as int].addr == c.addr,
            decreases old@.len() - j,
        {
            if old[j].addr == c.addr {
                break ;
            }
            j = j + 1;
        }
        let ghost t = changes_view(new@).take(i as int + 1);
        proof {
            lemma_find_addr_first(acc, c.addr, j as int);
            assert(t.drop_last() =~= changes_view(new@).take(i as int));
            assert(t.last() == c@);
            assert(squash_all(old0, t) == squash_change(acc, c@));
        }
        if j < old.len() {
            assert(acc[j as int] == old@[j as int]@);
            let mut storage = old[j].storage_changes.copy();
            storage.extend(&c.storage_changes);
            let merged = ContractChanges {
                addr: old[j].addr,
                nonce: c.nonce,
                class_hash: c.class_hash,
                storage_changes: storage,
            };
            old.set(j, merged);
            assert(merged@ == ContractChangesSpec {
                addr: acc[j as int].addr,
                nonce: c@.nonce,
                class_hash: c@.class_hash,
                storage_changes: acc[j as int].storage_changes.union_prefer_right(
                    c@.storage_changes,
                ),
            });
            assert(changes_view(old@) =~= acc.update(j as int, merged@));
            assert(changes_view(old@) == squash_change(acc, c@));
        }
        i = i + 1;
    }
    assert(changes_view(new@).take(new@.len() as int) =~= changes_view(new@));
    old
}

/// Squashes the declared classes of a newer state diff into an older one.
pub fn squash_classes(old: FeltMap, new: FeltMap) -> (r: FeltMap)
    ensures
        r@ == old@.union_prefer_right(new@),
{
    let mut old = old;
    old.extend(&new);
    old
}

/// Squashes a newer state diff into an older one, as if both blocks' changes were one diff.
pub fn squash_state_diff(old: OsStateDiff, new: OsStateDiff) -> (r: OsStateDiff)
    ensures
        r.classes@ == old.classes@.union_prefer_right(new.classes@),
        changes_view(r.contract_changes@) == squash_all(
            changes_view(old.contract_changes@),
            changes_view(new.contract_changes@),
        ),
{
    OsStateDiff {
        classes: squash_classes(old.classes, new.classes),
        contract_changes: squash_contract_changes(old.contract_changes, new.contract_changes),
    }
}

/// Squashing changes one diff at a time is squashing them all at once: folding `xs` then `ys`
/// into `acc` is folding `xs` followed by `ys`.
pub proof fn lemma_squash_all_concat(acc: Seq<ContractChangesSpec>, xs: Seq<ContractChangesSpec>, ys: Seq<
    ContractChangesSpec,
>)
    ensures
        squash_all(squash_all(acc, xs), ys) == squash_all(acc, xs + ys),
    decreases ys.len(),
{
    if ys.len() == 0 {
        assert(xs + ys =~= xs);
    } else {
        lemma_squash_all_concat(acc, xs, ys.drop_last());
        assert((xs + ys).drop_last() =~= xs + ys.drop_last());
        assert((xs + ys).last() == ys.last());
    }
}

/// Squashing keeps the contracts of the older list, in their order: it changes their nonces,
/// class hashes and storage but adds or removes none.
pub proof fn lemma_squash_keeps_contracts(acc: Seq<ContractChangesSpec>, cs: Seq<ContractChangesSpec>)
    ensures
        squash_all(acc, cs).len() == acc.len(),
        forall|i: int| 0 <= i < acc.len() ==> #[trigger] squash_all(acc, cs)[i].addr == acc[i].addr,
    decreases cs.len(),
{
    if cs.len() > 0 {
        lemma_squash_keeps_contracts(acc, cs.drop_last());
        let prev = squash_all(acc, cs.drop_last());
        match find_addr(prev, cs.last().addr) {
            Some(j) => {
                lemma_find_addr_in_range(prev, cs.last().addr);
            },
            None => {},
        }
    }
}

proof fn lemma_find_addr_in_range(s: Seq<ContractChangesSpec>, addr: Felt)
    ensures
        find_addr(s, addr) matches Some(j) ==> 0 <= j < s.len() && s[j].addr == addr,
    decreases s.len(),
{
    if s.len() > 0 {
        lemma_find_addr_in_range(s.drop_last(), addr);
    }
}

/// What the output of the Starknet OS says of the blocks it ran, as far as aggregation reads
/// it.
#[derive(Debug)]
pub struct OsOutput {
    pub initial_root: Felt,
    pub final_root: Felt,
    pub prev_block_number: Felt,
    pub new_block_number: Felt,
    pub prev_block_hash: Felt,
    pub new_block_hash: Felt,
    pub messages_to_l1: Vec<L2ToL1Message>,
    pub messages_to_l2: Vec<L1ToL2Message>,
    pub state_diff: Option<OsStateDiff>,
}

/// Aggregates the output of the next run of the OS into the output of the runs before it: the
/// result starts where the earlier runs started and ends where the next one ends, carries the
/// messages of both in order, and its state diff is the squash of both diffs.
pub fn aggregate_os_output(acc: OsOutput, next: OsOutput) -> (r: OsOutput)
    requires
        acc.state_diff is Some,
        next.state_diff is Some,
    ensures
        r.initial_root == acc.initial_root,
        r.prev_block_number == acc.prev_block_number,
        r.prev_block_hash == acc.prev_block_hash,
        r.final_root == next.final_root,
        r.new_block_number == next.new_block_number,
        r.new_block_hash == next.new_block_hash,
        r.messages_to_l1@ == acc.messages_to_l1@ + next.messages_to_l1@,
        r.messages_to_l2@ == acc.messages_to_l2@ + next.messages_to_l2@,
        r.state_diff matches Some(d) && d.classes@ == acc.state_diff->0.classes@.union_prefer_right(
            next.state_diff->0.classes@,
        ) && changes_view(d.contract_changes@) == squash_all(
            changes_view(acc.state_diff->0.contract_changes@),
            changes_view(next.state_diff->0.contract_changes@),
        ),
{
    let OsOutput {
        initial_root,
        prev_block_number,
        prev_block_hash,
        mut messages_to_l1,
        mut messages_to_l2,
        state_diff,
        ..
    } = acc;
    let OsOutput {
        final_root,
        new_block_number,
        new_block_hash,
        messages_to_l1: mut next_l1,
        messages_to_l2: mut next_l2,
        state_diff: next_diff,
        ..
    } = next;
    messages_to_l1.append(&mut next_l1);
    messages_to_l2.append(&mut next_l2);
    let diff = match (state_diff, next_diff) {
        (Some(old), Some(new)) => squash_state_diff(old, new),
        _ => {
            proof {
                assert(false);
            }
            OsStateDiff { contract_changes: Vec::new(), classes: FeltMap::new() }
        },
    };
    OsOutput {
        initial_root,
        final_root,
        prev_block_number,
        new_block_number,
        prev_block_hash,
        new_block_hash,
        messages_to_l1,
        messages_to_l2,
        state_diff: Some(diff),
    }
}

/// How a shard's change to a storage slot combines with the changes of other shards.
#[derive(Debug, Clone, Copy, PartialEq, Eq, Structural)]
pub enum CRDType {
    Add,
    Lock,
    SetValue,
}

/// The output of a shard run: its per-contract changes.
#[derive(Debug)]
pub struct ShardOutput {
    pub state_diff: Vec<ContractChanges>,
}

} // verus!

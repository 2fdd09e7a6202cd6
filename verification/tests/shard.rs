use saya_core::shard::{
    aggregate_os_output, squash_classes, squash_contract_changes, squash_state_diff,
    ContractChanges, FeltMap, OsOutput, OsStateDiff,
};
use saya_core::tee::{L1ToL2Message, L2ToL1Message};
use saya_core::Felt;

fn felt(v: u64) -> Felt {
    Felt::from_u64(v)
}

fn map_of(entries: &[(u64, u64)]) -> FeltMap {
    let mut map = FeltMap::new();
    for (k, v) in entries {
        map.insert(felt(*k), felt(*v));
    }
    map
}

/// The entries of a map as plain pairs, in key order, so that two maps holding the same entries
/// compare equal whatever order the entries were inserted in.
fn sorted_entries(map: &FeltMap) -> Vec<((u128, u128), (u128, u128))> {
    let mut out = Vec::new();
    for (k, v) in map.entries() {
        out.push(((k.high(), k.low()), (v.high(), v.low())));
    }
    out.sort();
    out
}

type ChangeSummary = ((u128, u128), (u128, u128), Option<(u128, u128)>, Vec<((u128, u128), (u128, u128))>);

fn summary(diff: &OsStateDiff) -> (Vec<ChangeSummary>, Vec<((u128, u128), (u128, u128))>) {
    let changes = diff
        .contract_changes
        .iter()
        .map(|c| {
            (
                (c.addr.high(), c.addr.low()),
                (c.nonce.high(), c.nonce.low()),
                c.class_hash.map(|h| (h.high(), h.low())),
                sorted_entries(&c.storage_changes),
            )
        })
        .collect();
    (changes, sorted_entries(&diff.classes))
}

#[test]
fn test_squashing() {
    let old_state_diff = OsStateDiff {
        contract_changes: vec![
            ContractChanges {
                addr: felt(1),
                nonce: felt(1),
                storage_changes: map_of(&[(10, 100), (20, 200)]),
                class_hash: None,
            },
            ContractChanges {
                addr: felt(2),
                nonce: felt(1),
                storage_changes: map_of(&[(30, 300)]),
                class_hash: None,
            },
        ],
        classes: FeltMap::new(),
    };

    let new_state_diff = OsStateDiff {
        contract_changes: vec![
            ContractChanges {
                addr: felt(1),
                nonce: felt(2),
                storage_changes: map_of(&[(10, 150), (25, 250)]),
                class_hash: None,
            },
            ContractChanges {
                addr: felt(3),
                nonce: felt(1),
                storage_changes: map_of(&[(40, 400)]),
                class_hash: None,
            },
        ],
        classes: FeltMap::new(),
    };

    let squashed = squash_state_diff(old_state_diff, new_state_diff);

    let expected = OsStateDiff {
        contract_changes: vec![
            ContractChanges {
                addr: felt(1),
                nonce: felt(2),
                storage_changes: map_of(&[(10, 150), (20, 200), (25, 250)]),
                class_hash: None,
            },
            ContractChanges {
                addr: felt(2),
                nonce: felt(1),
                storage_changes: map_of(&[(30, 300)]),
                class_hash: None,
            },
        ],
        classes: FeltMap::new(),
    };

    assert_eq!(summary(&squashed), summary(&expected));
}

#[test]
fn squash_takes_latest_class_hash_and_keeps_order() {
    let old = vec![
        ContractChanges { addr: felt(7), nonce: felt(0), class_hash: None, storage_changes: FeltMap::new() },
        ContractChanges { addr: felt(5), nonce: felt(0), class_hash: Some(felt(1)), storage_changes: FeltMap::new() },
    ];
    let new = vec![
        ContractChanges { addr: felt(5), nonce: felt(3), class_hash: Some(felt(9)), storage_changes: map_of(&[(1, 2)]) },
        ContractChanges { addr: felt(5), nonce: felt(4), class_hash: None, storage_changes: map_of(&[(1, 3)]) },
    ];
    let r = squash_contract_changes(old, new);
    assert_eq!(r.len(), 2);
    assert_eq!(r[0].addr, felt(7));
    assert_eq!(r[1].addr, felt(5));
    assert_eq!(r[1].nonce, felt(4));
    assert_eq!(r[1].class_hash, None);
    assert_eq!(r[1].storage_changes.get(&felt(1)), Some(felt(3)));
}

#[test]
fn squash_classes_prefers_newer_entries() {
    let old = map_of(&[(1, 10), (2, 20)]);
    let new = map_of(&[(2, 21), (3, 30)]);
    let r = squash_classes(old, new);
    assert_eq!(r.len(), 3);
    assert_eq!(r.get(&felt(1)), Some(felt(10)));
    assert_eq!(r.get(&felt(2)), Some(felt(21)));
    assert_eq!(r.get(&felt(3)), Some(felt(30)));
    assert_eq!(r.get(&felt(4)), None);
}

#[test]
fn squashing_one_at_a_time_equals_squashing_together() {
    let base = || vec![ContractChanges { addr: felt(1), nonce: felt(0), class_hash: None, storage_changes: map_of(&[(1, 1)]) }];
    let first = || vec![ContractChanges { addr: felt(1), nonce: felt(1), class_hash: None, storage_changes: map_of(&[(2, 2)]) }];
    let second = || vec![ContractChanges { addr: felt(1), nonce: felt(2), class_hash: None, storage_changes: map_of(&[(1, 5)]) }];
    let stepwise = squash_contract_changes(squash_contract_changes(base(), first()), second());
    let mut both = first();
    both.extend(second());
    let together = squash_contract_changes(base(), both);
    let d1 = OsStateDiff { contract_changes: stepwise, classes: FeltMap::new() };
    let d2 = OsStateDiff { contract_changes: together, classes: FeltMap::new() };
    assert_eq!(summary(&d1), summary(&d2));
}

#[test]
fn aggregation_spans_both_runs() {
    let diff = |addr: u64, key: u64, value: u64| OsStateDiff {
        contract_changes: vec![ContractChanges { addr: felt(addr), nonce: felt(0), class_hash: None, storage_changes: map_of(&[(key, value)]) }],
        classes: FeltMap::new(),
    };
    let first = OsOutput {
        initial_root: felt(100),
        final_root: felt(101),
        prev_block_number: felt(9),
        new_block_number: felt(10),
        prev_block_hash: felt(1000),
        new_block_hash: felt(1001),
        messages_to_l1: vec![L2ToL1Message { from_address: felt(1), to_address: felt(2), payload: vec![felt(3)] }],
        messages_to_l2: vec![],
        state_diff: Some(diff(1, 1, 1)),
    };
    let second = OsOutput {
        initial_root: felt(101),
        final_root: felt(102),
        prev_block_number: felt(10),
        new_block_number: felt(11),
        prev_block_hash: felt(1001),
        new_block_hash: felt(1002),
        messages_to_l1: vec![L2ToL1Message { from_address: felt(4), to_address: felt(5), payload: vec![] }],
        messages_to_l2: vec![L1ToL2Message { from_address: felt(6), to_address: felt(7), selector: felt(8), payload: vec![], nonce: felt(0) }],
        state_diff: Some(diff(1, 1, 7)),
    };
    let r = aggregate_os_output(first, second);
    assert_eq!(r.initial_root, felt(100));
    assert_eq!(r.final_root, felt(102));
    assert_eq!(r.prev_block_number, felt(9));
    assert_eq!(r.new_block_number, felt(11));
    assert_eq!(r.prev_block_hash, felt(1000));
    assert_eq!(r.new_block_hash, felt(1002));
    assert_eq!(r.messages_to_l1.len(), 2);
    assert_eq!(r.messages_to_l1[1].from_address, felt(4));
    assert_eq!(r.messages_to_l2.len(), 1);
    let d = r.state_diff.unwrap();
    assert_eq!(d.contract_changes[0].storage_changes.get(&felt(1)), Some(felt(7)));
}

#[test]
fn felt_map_reads_back_what_was_stored() {
    let mut map = map_of(&[(1, 10), (2, 20)]);
    map.insert(felt(1), felt(11));
    assert_eq!(map.get(&felt(1)), Some(felt(11)));
    assert_eq!(map.get(&felt(2)), Some(felt(20)));
    assert_eq!(map.get(&felt(3)), None);
    let mut other = map_of(&[(2, 22), (3, 33)]);
    other.extend(&map);
    assert_eq!(sorted_entries(&other), sorted_entries(&map_of(&[(1, 11), (2, 20), (3, 33)])));
    assert_eq!(sorted_entries(&map.copy()), sorted_entries(&map));
}

use saya_core::orchestrator::{start_block_after_settled, StartBlockError};
use saya_core::Felt;
use saya_core::data_availability::DataAvailabilityPointer;
use saya_core::settlement::{update_state_input, PiltoverInput};
use saya_core::account::chain_id_from_short_string;
use saya_core::felt::ShortStringError;

#[test]
fn felt_addition_wraps_at_the_prime() {
    let max = Felt::max();
    assert_eq!(max.add(&Felt::one()), Felt::zero());
    assert_eq!(max.wrapping_successor(), Felt::zero());
    assert_eq!(Felt::from_u64(2).add(&Felt::from_u64(3)), Felt::from_u64(5));
    let big = Felt::from_u128(u128::MAX);
    let sum = big.add(&Felt::one());
    assert_eq!(sum, Felt::from_parts(1, 0).unwrap());
    assert_eq!(max.add(&max), Felt::max().add(&Felt::max()));
    // (P - 1) + (P - 1) = P - 2 (mod P)
    assert_eq!(max.add(&max).add(&Felt::from_u64(2)), Felt::zero());
}

#[test]
fn felt_from_parts_rejects_values_above_the_prime() {
    let high = 0x800000000000011_0000000000000000u128;
    assert!(Felt::from_parts(high, 0).is_some());
    assert_eq!(Felt::from_parts(high, 0).unwrap(), Felt::max());
    assert!(Felt::from_parts(high, 1).is_none());
    assert!(Felt::from_parts(u128::MAX, 0).is_none());
}

#[test]
fn felt_differences_and_narrowing() {
    let a = Felt::from_u64(10);
    let b = Felt::from_u64(3);
    assert_eq!(a.checked_sub_u64(&b), Some(7));
    assert_eq!(b.checked_sub_u64(&a), None);
    let wide = Felt::from_parts(1, 5).unwrap();
    assert_eq!(wide.checked_sub_u64(&Felt::from_u128(u128::MAX)), Some(6));
    assert_eq!(wide.checked_sub_u64(&Felt::zero()), None);
    assert_eq!(Felt::from_u64(u64::MAX).to_u64(), Some(u64::MAX));
    assert_eq!(Felt::from_u128(1u128 << 64).to_u64(), None);
}

#[test]
fn da_commitments_are_read_big_endian() {
    let mut commitment = [0u8; 32];
    commitment[30] = 1;
    commitment[31] = 2;
    let pointer = DataAvailabilityPointer { height: 1, commitment, namespace: Felt::zero() };
    match update_state_input(vec![], Some(pointer)) {
        PiltoverInput::LayoutBridgeOutputWithDa(_, info) => assert_eq!(info.commitment, Felt::from_u64(258)),
        other => panic!("unexpected input {:?}", other),
    }
    let mut high = [0u8; 32];
    high[15] = 1;
    let pointer = DataAvailabilityPointer { height: 1, commitment: high, namespace: Felt::zero() };
    match update_state_input(vec![], Some(pointer)) {
        PiltoverInput::LayoutBridgeOutputWithDa(_, info) => {
            assert_eq!(info.commitment, Felt::from_parts(1, 0).unwrap())
        }
        other => panic!("unexpected input {:?}", other),
    }
}

#[test]
fn start_block_follows_the_settled_block() {
    assert_eq!(start_block_after_settled(Felt::max()), Ok(0));
    assert_eq!(start_block_after_settled(Felt::from_u64(41)), Ok(42));
    assert_eq!(
        start_block_after_settled(Felt::from_u64(u64::MAX)),
        Err(StartBlockError::BlockNumberOutOfRange)
    );
}

#[test]
fn chain_ids_are_read_as_short_strings() {
    assert_eq!(
        chain_id_from_short_string("SN_SEPOLIA"),
        Ok(Felt::from_u128(0x534e5f5345504f4c4941))
    );
    assert_eq!(chain_id_from_short_string(""), Ok(Felt::zero()));
    let longest = "a".repeat(31);
    assert_eq!(
        chain_id_from_short_string(&longest),
        Ok(Felt::from_parts(505627904278967998712428568028209505, 129440743495415807670381713415221633377).unwrap())
    );
    assert_eq!(chain_id_from_short_string(&"a".repeat(32)), Err(ShortStringError::StringTooLong));
    assert_eq!(chain_id_from_short_string("caf\u{e9}"), Err(ShortStringError::NonAsciiCharacter));
    let long_non_ascii = format!("{}\u{e9}", "a".repeat(40));
    assert_eq!(chain_id_from_short_string(&long_non_ascii), Err(ShortStringError::NonAsciiCharacter));
}

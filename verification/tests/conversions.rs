use stake_token::amounts::{BatchId, EpochHeight, StorageUsage, YoctoNear, YoctoStake, YOCTO};
use stake_token::config::Config;
use stake_token::mixed_fraction::MixedFaction;

#[test]
fn value_types_convert_to_and_from_their_integers() {
    assert_eq!(YoctoNear::from(YOCTO), YoctoNear(YOCTO));
    assert_eq!(u128::from(YoctoNear(7)), 7);
    assert_eq!(YoctoStake::from(5u128), YoctoStake(5));
    assert_eq!(u128::from(YoctoStake(5)), 5);
    assert_eq!(BatchId::from(3u128), BatchId(3));
    assert_eq!(u128::from(BatchId(3)), 3);
    assert_eq!(EpochHeight::from(10u64), EpochHeight(10));
    assert_eq!(u64::from(EpochHeight(10)), 10);
    assert_eq!(StorageUsage::from(119u64), StorageUsage(119));
    assert_eq!(u64::from(StorageUsage(119)), 119);
}

#[test]
fn epoch_heights_add() {
    assert_eq!(EpochHeight(10) + 4, EpochHeight(14));
    assert_eq!(EpochHeight(10) + EpochHeight(5), EpochHeight(15));
}

#[test]
fn mixed_fractions_order_by_integer_part_then_fraction() {
    assert!(MixedFaction(1, 2, 3) < MixedFaction(2, 0, 1));
    assert!(MixedFaction(1, 1, 3) < MixedFaction(1, 2, 3));
    assert!(MixedFaction(1, 2, 3) > MixedFaction(1, 2, 2));
    assert_eq!(MixedFaction(1, 2, 3).partial_cmp(&MixedFaction(1, 2, 3)), Some(std::cmp::Ordering::Equal));
}

#[test]
fn default_owner_earnings_percentage_is_50() {
    assert_eq!(Config::default().contract_owner_earnings_percentage(), 50);
}

#[test]
fn mixed_fraction_from_parts() {
    assert_eq!(MixedFaction::from_parts(1, 2, 3), MixedFaction(1, 2, 3));
    assert_eq!(MixedFaction::from_parts(4, 0, 7), MixedFaction(4, 0, 1));
}

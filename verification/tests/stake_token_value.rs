use primitive_types::U256;
use stake_token::amounts::{BlockTimeHeight, YoctoNear, YoctoStake, YOCTO};
use stake_token::stake_token_value::StakeTokenValue;

fn value(staked: u128, supply: u128) -> StakeTokenValue {
    StakeTokenValue::new(BlockTimeHeight::new(1, 2, 3), YoctoNear(staked), YoctoStake(supply))
}

#[test]
fn when_total_stake_supply_is_zero() {
    let stake_token_value = StakeTokenValue::default();
    assert_eq!(stake_token_value.stake_to_near(YoctoStake(YOCTO)), YoctoNear(YOCTO));
    assert_eq!(stake_token_value.near_to_stake(YoctoNear(YOCTO)), YoctoStake(YOCTO));
    assert_eq!(stake_token_value.stake_to_near(YoctoStake(10 * YOCTO)), YoctoNear(10 * YOCTO));
    assert_eq!(stake_token_value.near_to_stake(YoctoNear(10 * YOCTO)), YoctoStake(10 * YOCTO));
}

#[test]
fn ctake_near_conversion() {
    let total_staked_near_balance: u128 = 17206799984076953573143542;
    let total_stake_supply: u128 = 16742879620291694593306687;

    let value_w = (U256::from(YOCTO) * U256::from(total_staked_near_balance)) / U256::from(total_stake_supply);
    let amount: u128 = (value_w * U256::from(total_stake_supply) / U256::from(total_staked_near_balance)).as_u128();
    let remainder = YOCTO - amount;
    let expected = value_w.as_u128() + remainder;

    let stake_token_value = value(total_staked_near_balance, total_stake_supply);
    assert_eq!(stake_token_value.stake_to_near(YoctoStake(YOCTO)), YoctoNear(expected));
}

#[test]
fn conversions_round_down_and_add_back_the_remainder() {
    // 1100 NEAR staked for 1000 STAKE
    let v = value(1100, 1000);
    // 100 * 1000 / 1100 = 90, 90 * 1100 / 1000 = 99: 90 + (100 - 99)
    assert_eq!(v.near_to_stake(YoctoNear(100)), YoctoStake(91));
    // 100 * 1100 / 1000 = 110, 110 * 1000 / 1100 = 100: 110 + 0
    assert_eq!(v.stake_to_near(YoctoStake(100)), YoctoNear(110));
}

#[test]
fn staked_balance_below_supply_is_raised_to_the_supply() {
    let v = value(900, 1000);
    assert_eq!(v.total_staked_near_balance(), YoctoNear(1000));
    assert_eq!(v.total_stake_supply(), YoctoStake(1000));
    assert_eq!(v.near_to_stake(YoctoNear(123)), YoctoStake(123));
    assert_eq!(v.stake_to_near(YoctoStake(123)), YoctoNear(123));
}

#[test]
fn a_stake_token_is_worth_at_least_one_near() {
    let v = value(3 * YOCTO + 7, 2 * YOCTO);
    for amount in [0u128, 1, 7, 1000, YOCTO, 5 * YOCTO + 3] {
        assert!(v.near_to_stake(YoctoNear(amount)).0 <= amount);
        assert!(v.stake_to_near(YoctoStake(amount)).0 >= amount);
    }
}

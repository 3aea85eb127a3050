//! STAKE token value at a point in time: the ratio of the total staked NEAR balance to the
//! total STAKE supply, and the conversions between NEAR and STAKE that it defines.

use crate::amounts::{BlockTimeHeight, YoctoNear, YoctoStake};
use crate::wide::{wide, wide_as_u128, wide_div, wide_fits_u128, wide_mul};
use vstd::prelude::*;
use vstd::arithmetic::div_mod::{
    lemma_div_is_ordered, lemma_div_multiples_vanish, lemma_fundamental_div_mod, lemma_fundamental_div_mod_converse,
};
use vstd::arithmetic::mul::{lemma_mul_inequality, lemma_mul_is_commutative};

verus! {

/// `x` converted at the rate `num / den`, rounded down, with the precision lost by the rounding
/// added back at 1:1: `q + (x - (q * den / num))` where `q = x * num / den`
pub open spec fn convert(x: nat, num: nat, den: nat) -> int {
    let q = x * num / den;
    q + (x - q * den / num)
}

/// STAKE token value = [total_staked_near_balance] / [total_stake_supply]
#[derive(Debug, Clone, Copy)]
pub struct StakeTokenValue {
    pub block_time_height: BlockTimeHeight,
    pub total_staked_near_balance: YoctoNear,
    pub total_stake_supply: YoctoStake,
}

/// `q = x * num / den` does not exceed `x * num / den`'s inputs: `q * den <= x * num` and
/// `q * den / num <= x`; when `den >= num`, `q <= x`
proof fn lemma_round_trip(x: nat, num: nat, den: nat)
    requires
        num > 0,
        den > 0,
    ensures
        (x * num / den) * den <= x * num,
        (x * num / den) * den / num <= x,
        0 <= convert(x, num, den),
        den >= num ==> x * num / den <= x,
        den >= num ==> (x * num / den) * den / num >= x * num / den,
        den >= num ==> convert(x, num, den) <= x,
{
    let xi = x as int;
    let ni = num as int;
    let di = den as int;
    let p = xi * ni;
    let q = p / di;
    assert(xi * ni >= 0) by (nonlinear_arith)
        requires
            xi >= 0,
            ni >= 0,
    ;
    lemma_fundamental_div_mod(p, di);
    assert(p % di >= 0);
    assert(q >= 0);
    lemma_mul_is_commutative(di, q);
    assert(q * di <= p);
    lemma_div_is_ordered(q * di, p, ni);
    lemma_mul_is_commutative(xi, ni);
    lemma_div_multiples_vanish(xi, ni);
    assert(q * di / ni <= xi);
    if den >= num {
        lemma_mul_inequality(ni, di, xi);
        lemma_mul_is_commutative(di, xi);
        lemma_div_is_ordered(p, xi * di, di);
        lemma_div_multiples_vanish(xi, di);
        assert(q <= xi);
        lemma_mul_inequality(ni, di, q);
        lemma_mul_is_commutative(q, ni);
        lemma_mul_is_commutative(ni, q);
        lemma_div_is_ordered(ni * q, di * q, ni);
        lemma_div_multiples_vanish(q, ni);
        lemma_mul_is_commutative(di, q);
        assert(q * di / ni >= q);
    }
}

proof fn lemma_product_bound(a: nat, b: nat)
    requires
        a <= u128::MAX,
        b <= u128::MAX,
    ensures
        a * b < 0x1_0000_0000_0000_0000_0000_0000_0000_0000_0000_0000_0000_0000_0000_0000_0000_0000,
{
    assert(a * b <= u128::MAX * u128::MAX) by (nonlinear_arith)
        requires
            a <= u128::MAX,
            b <= u128::MAX,
    ;
}

impl StakeTokenValue {
    /// a STAKE token is worth at least 1 NEAR: the staked NEAR balance is never below the supply
    pub open spec fn wf(self) -> bool {
        self.total_staked_near_balance.0 >= self.total_stake_supply.0
    }

    /// NEAR converted to STAKE: 1:1 while either total is zero
    pub open spec fn spec_near_to_stake(self, near: nat) -> int {
        if self.total_staked_near_balance.0 == 0 || self.total_stake_supply.0 == 0 {
            near as int
        } else {
            convert(near, self.total_stake_supply.0 as nat, self.total_staked_near_balance.0 as nat)
        }
    }

    /// STAKE converted to NEAR: 1:1 while either total is zero or the staked NEAR balance is
    /// below the STAKE supply
    pub open spec fn spec_stake_to_near(self, stake: nat) -> int {
        if self.total_staked_near_balance.0 == 0 || self.total_stake_supply.0 == 0
            || self.total_staked_near_balance.0 < self.total_stake_supply.0 {
            stake as int
        } else {
            convert(stake, self.total_staked_near_balance.0 as nat, self.total_stake_supply.0 as nat)
        }
    }

    /// When the deposits are first staked, the staking pool converts NEAR into shares and any
    /// fractional amount remains unstaked, so the staked balance can fall a few yoctoNEAR below
    /// the STAKE supply. The STAKE token value can never be < 1 NEAR, so in that case the
    /// staked balance is raised to the supply.
    pub fn new(
        block_time_height: BlockTimeHeight,
        total_staked_near_balance: YoctoNear,
        total_stake_supply: YoctoStake,
    ) -> (r: Self)
        ensures
            r.block_time_height == block_time_height,
            r.total_stake_supply == total_stake_supply,
            r.total_staked_near_balance.0 == if total_staked_near_balance.0 < total_stake_supply.0 {
                total_stake_supply.0
            } else {
                total_staked_near_balance.0
            },
            r.wf(),
    {
        if total_staked_near_balance.0 < total_stake_supply.0 {
            StakeTokenValue {
                block_time_height,
                total_staked_near_balance: YoctoNear(total_stake_supply.0),
                total_stake_supply,
            }
        } else {
            StakeTokenValue { block_time_height, total_staked_near_balance, total_stake_supply }
        }
    }

    pub fn block_time_height(&self) -> (r: BlockTimeHeight)
        ensures
            r == self.block_time_height,
    {
        self.block_time_height
    }

    pub fn total_staked_near_balance(&self) -> (r: YoctoNear)
        ensures
            r == self.total_staked_near_balance,
    {
        self.total_staked_near_balance
    }

    pub fn total_stake_supply(&self) -> (r: YoctoStake)
        ensures
            r == self.total_stake_supply,
    {
        self.total_stake_supply
    }

    /// converts NEAR to STAKE rounded down and then adds back the remainder
    /// - the remainder is added back at a 1:1 ratio because 1 yoctoSTAKE is the smallest unit and
    ///   is not further divisible
    pub fn near_to_stake(&self, near: YoctoNear) -> (r: YoctoStake)
        requires
            self.spec_near_to_stake(near.0 as nat) <= u128::MAX,
        ensures
            r.0 == self.spec_near_to_stake(near.0 as nat),
    {
        if self.total_staked_near_balance.0 == 0 || self.total_stake_supply.0 == 0 {
            return YoctoStake(near.0);
        }
        let ghost x = near.0 as nat;
        let ghost num = self.total_stake_supply.0 as nat;
        let ghost den = self.total_staked_near_balance.0 as nat;
        proof {
            lemma_round_trip(x, num, den);
            lemma_product_bound(x, num);
        }
        let near_w = wide(near.0);
        let total_stake_supply = wide(self.total_stake_supply.0);
        let total_staked_near_balance = wide(self.total_staked_near_balance.0);

        let product = wide_mul(&near_w, &total_stake_supply);
        let stake_value = wide_div(&product, &total_staked_near_balance);
        // convert back to check if we lost any precision
        proof {
            assert(stake_value@ * den <= x * num);
        }
        let back = wide_mul(&stake_value, &total_staked_near_balance);
        let near_value = wide_div(&back, &total_stake_supply);
        let stake_value = wide_as_u128(&stake_value);
        let near_value = wide_as_u128(&near_value);
        YoctoStake(stake_value + (near.0 - near_value))
    }

    /// converts STAKE to NEAR rounded down and then adds back the remainder
    /// - the remainder is added back at a 1:1 ratio because 1 yoctoNEAR is the smallest unit and
    ///   is not further divisible
    pub fn stake_to_near(&self, stake: YoctoStake) -> (r: YoctoNear)
        requires
            self.spec_stake_to_near(stake.0 as nat) <= u128::MAX,
        ensures
            r.0 == self.spec_stake_to_near(stake.0 as nat),
    {
        if self.total_staked_near_balance.0 == 0 || self.total_stake_supply.0 == 0
            || self.total_staked_near_balance.0 < self.total_stake_supply.0 {
            return YoctoNear(stake.0);
        }
        let ghost x = stake.0 as nat;
        let ghost num = self.total_staked_near_balance.0 as nat;
        let ghost den = self.total_stake_supply.0 as nat;
        proof {
            lemma_round_trip(x, num, den);
            lemma_product_bound(x, num);
        }
        let stake_w = wide(stake.0);
        let total_stake_supply = wide(self.total_stake_supply.0);
        let total_staked_near_balance = wide(self.total_staked_near_balance.0);

        let product = wide_mul(&stake_w, &total_staked_near_balance);
        let near_value = wide_div(&product, &total_stake_supply);
        // convert back to check if we lost any precision
        let back = wide_mul(&near_value, &total_stake_supply);
        let stake_value = wide_div(&back, &total_staked_near_balance);
        let near_value = wide_as_u128(&near_value);
        let stake_value = wide_as_u128(&stake_value);
        YoctoNear(near_value + (stake.0 - stake_value))
    }
}

impl StakeTokenValue {
    /// [stake_to_near](StakeTokenValue::stake_to_near), or `None` where the NEAR value does not
    /// fit in a u128
    pub fn stake_to_near_checked(&self, stake: YoctoStake) -> (r: Option<YoctoNear>)
        ensures
            match r {
                Some(near) => near.0 == self.spec_stake_to_near(stake.0 as nat),
                None => self.spec_stake_to_near(stake.0 as nat) > u128::MAX,
            },
    {
        if self.total_staked_near_balance.0 == 0 || self.total_stake_supply.0 == 0
            || self.total_staked_near_balance.0 < self.total_stake_supply.0 {
            return Some(YoctoNear(stake.0));
        }
        let ghost x = stake.0 as nat;
        let ghost num = self.total_staked_near_balance.0 as nat;
        let ghost den = self.total_stake_supply.0 as nat;
        proof {
            lemma_round_trip(x, num, den);
            lemma_product_bound(x, num);
        }
        let stake_w = wide(stake.0);
        let total_stake_supply = wide(self.total_stake_supply.0);
        let total_staked_near_balance = wide(self.total_staked_near_balance.0);
        let product = wide_mul(&stake_w, &total_staked_near_balance);
        let near_value = wide_div(&product, &total_stake_supply);
        if !wide_fits_u128(&near_value) {
            return None;
        }
        let back = wide_mul(&near_value, &total_stake_supply);
        let stake_value = wide_div(&back, &total_staked_near_balance);
        let near_value = wide_as_u128(&near_value);
        let stake_value = wide_as_u128(&stake_value);
        match near_value.checked_add(stake.0 - stake_value) {
            Some(near) => Some(YoctoNear(near)),
            None => None,
        }
    }
}

impl Default for StakeTokenValue {
    fn default() -> (r: Self)
        ensures
            r.total_staked_near_balance.0 == 0,
            r.total_stake_supply.0 == 0,
            r.block_time_height.block_height.0 == 0,
            r.block_time_height.block_timestamp.0 == 0,
            r.block_time_height.epoch_height.0 == 0,
    {
        StakeTokenValue {
            block_time_height: BlockTimeHeight::default(),
            total_staked_near_balance: YoctoNear(0),
            total_stake_supply: YoctoStake(0),
        }
    }
}

/// Converting NEAR to STAKE never yields more STAKE than the NEAR converted, because a STAKE
/// token is worth at least 1 NEAR.
pub proof fn lemma_near_to_stake_bounded(value: StakeTokenValue, near: nat)
    requires
        value.wf(),
    ensures
        0 <= value.spec_near_to_stake(near) <= near,
{
    if value.total_staked_near_balance.0 != 0 && value.total_stake_supply.0 != 0 {
        lemma_round_trip(near, value.total_stake_supply.0 as nat, value.total_staked_near_balance.0 as nat);
    }
}

/// Converting STAKE to NEAR never yields less NEAR than the STAKE converted, because a STAKE
/// token is worth at least 1 NEAR.
pub proof fn lemma_stake_to_near_at_least(value: StakeTokenValue, stake: nat)
    ensures
        value.spec_stake_to_near(stake) >= stake,
{
    if value.total_staked_near_balance.0 != 0 && value.total_stake_supply.0 != 0
        && value.total_staked_near_balance.0 >= value.total_stake_supply.0 {
        let num = value.total_staked_near_balance.0 as nat;
        let den = value.total_stake_supply.0 as nat;
        lemma_round_trip(stake, num, den);
        let si = stake as int;
        let ni = num as int;
        let di = den as int;
        lemma_mul_inequality(di, ni, si);
        lemma_mul_is_commutative(di, si);
        lemma_mul_is_commutative(ni, si);
        lemma_div_is_ordered(si * di, si * ni, di);
        lemma_div_multiples_vanish(si, di);
        // q * den / num <= stake
    }
}

/// While the value is 1:1 (the staked NEAR balance equals the STAKE supply), conversion in either
/// direction preserves the amount.
pub proof fn lemma_one_to_one(value: StakeTokenValue, amount: nat)
    requires
        value.total_staked_near_balance.0 == value.total_stake_supply.0,
    ensures
        value.spec_near_to_stake(amount) == amount,
        value.spec_stake_to_near(amount) == amount,
{
    let n = value.total_stake_supply.0 as nat;
    if n != 0 {
        lemma_div_multiples_vanish(amount as int, n as int);
        lemma_mul_is_commutative(amount as int, n as int);
        lemma_div_multiples_vanish(amount as int, n as int);
    }
}

/// Converting at a rate of at least 1 rounds up: adding the precision lost by rounding down back
/// at 1:1 gives exactly the ceiling of `x * num / den`.
proof fn lemma_convert_is_ceiling(x: nat, num: nat, den: nat)
    requires
        den > 0,
        num >= den,
    ensures
        convert(x, num, den) == (x * num + den - 1) / (den as int),
{
    let xi = x as int;
    let ni = num as int;
    let di = den as int;
    let p = xi * ni;
    let q = p / di;
    let r = p % di;
    lemma_fundamental_div_mod(p, di);
    assert(p == di * q + r);
    lemma_mul_is_commutative(di, q);
    if r == 0 {
        assert(q * di == p);
        lemma_mul_is_commutative(xi, ni);
        lemma_div_multiples_vanish(xi, ni);
        assert(q * di / ni == xi);
        lemma_fundamental_div_mod_converse(p + di - 1, di, q, di - 1);
    } else {
        assert(xi >= 1) by (nonlinear_arith)
            requires
                p == xi * ni,
                p > 0,
                ni > 0,
                xi >= 0,
        ;
        assert(q * di == (xi - 1) * ni + (ni - r)) by (nonlinear_arith)
            requires
                q * di == p - r,
                p == xi * ni,
        ;
        lemma_fundamental_div_mod_converse(q * di, ni, xi - 1, ni - r);
        assert((q + 1) * di == q * di + di) by (nonlinear_arith);
        lemma_fundamental_div_mod_converse(p + di - 1, di, q + 1, r - 1);
    }
}

/// The NEAR value of STAKE is the exact ratio of staked NEAR to STAKE supply applied to the
/// amount, rounded up; while either total is zero, or the staked balance is below the supply,
/// it is 1:1.
pub proof fn lemma_stake_to_near_rounds_up(value: StakeTokenValue, stake: nat)
    requires
        value.total_stake_supply.0 > 0,
        value.total_staked_near_balance.0 >= value.total_stake_supply.0,
    ensures
        value.spec_stake_to_near(stake) == (stake * value.total_staked_near_balance.0 + value.total_stake_supply.0
            - 1) / value.total_stake_supply.0 as int,
{
    lemma_convert_is_ceiling(stake, value.total_staked_near_balance.0 as nat, value.total_stake_supply.0 as nat);
}

/// While a STAKE token is worth more than 1 NEAR, converting NEAR to STAKE yields strictly less
/// STAKE than the NEAR converted, once the amount is large enough that the rounded-down STAKE `q`
/// satisfies `q * (staked - supply) >= supply`.
pub proof fn lemma_near_to_stake_below_near(value: StakeTokenValue, near: nat)
    requires
        value.total_stake_supply.0 > 0,
        value.total_staked_near_balance.0 > value.total_stake_supply.0,
        (near * value.total_stake_supply.0 / value.total_staked_near_balance.0 as int) * (
        value.total_staked_near_balance.0 - value.total_stake_supply.0) >= value.total_stake_supply.0,
    ensures
        value.spec_near_to_stake(near) < near,
{
    let n = value.total_staked_near_balance.0 as int;
    let s = value.total_stake_supply.0 as int;
    let x = near as int;
    lemma_round_trip(near, s as nat, n as nat);
    let q = x * s / n;
    assert(q * n >= (q + 1) * s) by (nonlinear_arith)
        requires
            q * (n - s) >= s,
    ;
    lemma_div_is_ordered((q + 1) * s, q * n, s);
    lemma_div_multiples_vanish(q + 1, s);
    lemma_mul_is_commutative(q + 1, s);
}

/// At one STAKE token value, NEAR converted to STAKE and the STAKE converted back to NEAR never
/// gives less NEAR than was converted: the precision lost to rounding is added back, never
/// taken away.
pub proof fn lemma_near_stake_round_trip(value: StakeTokenValue, near: nat)
    requires
        value.wf(),
    ensures
        value.spec_stake_to_near(value.spec_near_to_stake(near) as nat) >= near,
{
    let n = value.total_staked_near_balance.0 as int;
    let s = value.total_stake_supply.0 as int;
    if n != 0 && s != 0 {
        let x = near as int;
        lemma_round_trip(near, s as nat, n as nat);
        let q = x * s / n;
        let f = q * n / s;
        let stake = value.spec_near_to_stake(near);
        assert(stake == q + (x - f));
        assert(q >= 0) by {
            lemma_fundamental_div_mod(x * s, n);
            assert(x * s >= 0) by (nonlinear_arith)
                requires
                    x >= 0,
                    s >= 0,
            ;
        }
        assert(f * s <= q * n) by {
            lemma_fundamental_div_mod(q * n, s);
            lemma_mul_is_commutative(s, f);
            assert(q * n >= 0) by (nonlinear_arith)
                requires
                    q >= 0,
                    n >= 0,
            ;
        }
        assert(x - f >= 0);
        assert(stake * n >= x * s) by (nonlinear_arith)
            requires
                stake == q + (x - f),
                f * s <= q * n,
                x - f >= 0,
                n >= s,
                s > 0,
        ;
        lemma_stake_to_near_rounds_up(value, stake as nat);
        let a = stake * n;
        lemma_div_is_ordered(x * s, a + s - 1, s);
        lemma_div_multiples_vanish(x, s);
        lemma_mul_is_commutative(x, s);
    }
}

/// As staking rewards are earned the STAKE token value increases: for the same STAKE supply, a
/// larger staked NEAR balance never gives less NEAR for the same STAKE.
pub proof fn lemma_stake_value_grows_with_staked_balance(a: StakeTokenValue, b: StakeTokenValue, stake: nat)
    requires
        a.wf(),
        b.wf(),
        a.total_stake_supply == b.total_stake_supply,
        a.total_staked_near_balance.0 <= b.total_staked_near_balance.0,
    ensures
        a.spec_stake_to_near(stake) <= b.spec_stake_to_near(stake),
{
    let s = a.total_stake_supply.0 as int;
    if s > 0 {
        lemma_stake_to_near_rounds_up(a, stake);
        lemma_stake_to_near_rounds_up(b, stake);
        let na = a.total_staked_near_balance.0 as int;
        let nb = b.total_staked_near_balance.0 as int;
        let x = stake as int;
        assert(x * na <= x * nb) by (nonlinear_arith)
            requires
                na <= nb,
                x >= 0,
        ;
        lemma_div_is_ordered(x * na + s - 1, x * nb + s - 1, s);
    } else {
        lemma_stake_to_near_at_least(b, stake);
    }
}

} // verus!

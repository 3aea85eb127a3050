//! 256-bit intermediate arithmetic for token value conversions, carried out by
//! `primitive_types::U256`.

use primitive_types::U256;
use vstd::prelude::*;

verus! {

#[verifier::external_type_specification]
#[verifier::external_body]
pub struct ExU256(U256);

/// a 256-bit unsigned integer together with the natural number it stands for
pub struct Wide {
    raw: U256,
    val: Ghost<nat>,
}

impl View for Wide {
    type V = nat;

    closed spec fn view(&self) -> nat {
        self.val@
    }
}

/// `U256::from(u128)`: the 256-bit integer holding `x`
#[verifier::external_body]
pub fn wide(x: u128) -> (r: Wide)
    ensures
        r@ == x,
{
    Wide { raw: U256::from(x), val: Ghost(x as nat) }
}

/// `U256 * U256`: the product, which `U256` panics on if it does not fit in 256 bits
#[verifier::external_body]
pub fn wide_mul(a: &Wide, b: &Wide) -> (r: Wide)
    requires
        a@ * b@ < 0x1_0000_0000_0000_0000_0000_0000_0000_0000_0000_0000_0000_0000_0000_0000_0000_0000,
    ensures
        r@ == a@ * b@,
{
    Wide { raw: a.raw * b.raw, val: Ghost(a@ * b@) }
}

/// `U256 / U256`: the quotient rounded down, which `U256` panics on if the divisor is zero
#[verifier::external_body]
pub fn wide_div(a: &Wide, b: &Wide) -> (r: Wide)
    requires
        b@ > 0,
    ensures
        r@ == a@ / b@,
{
    Wide { raw: a.raw / b.raw, val: Ghost(a@ / b@) }
}

/// `U256 <= U256` against `U256::from(u128::MAX)`: whether the value fits in a `u128`
#[verifier::external_body]
pub fn wide_fits_u128(a: &Wide) -> (r: bool)
    ensures
        r == (a@ <= u128::MAX),
{
    a.raw <= U256::from(u128::MAX)
}

/// `U256::as_u128`: the value as a `u128`, which `U256` panics on if it does not fit
#[verifier::external_body]
pub fn wide_as_u128(a: &Wide) -> (r: u128)
    requires
        a@ <= u128::MAX,
    ensures
        r == a@,
{
    a.raw.as_u128()
}

} // verus!

//! From a payment to a number of tokens.

use vstd::arithmetic::div_mod::{
    lemma_div_is_ordered, lemma_div_is_ordered_by_denominator, lemma_fundamental_div_mod,
    lemma_mod_bound,
};
use vstd::arithmetic::power::{lemma_pow_positive, pow};
use vstd::prelude::*;

verus! {

/// `payment` in the smallest units of a token with `decimals` decimals: the
/// product `payment * 10^decimals`, held at the largest 128-bit value where it
/// would pass it.
pub open spec fn scaled_payment(payment: u128, decimals: u8) -> int {
    let exact = payment * pow(10, decimals as nat);
    if exact > u128::MAX {
        u128::MAX as int
    } else {
        exact
    }
}

/// The tokens that `payment` buys at `price` per whole token: the scaled
/// payment divided by the price, rounded down.
pub open spec fn spec_tokens_for_payment(payment: u128, price: u128, decimals: u8) -> int
    recommends
        price > 0,
{
    scaled_payment(payment, decimals) / (price as int)
}

/// The tokens bought are a 128-bit amount.
pub proof fn lemma_tokens_in_range(payment: u128, price: u128, decimals: u8)
    requires
        price > 0,
    ensures
        0 <= spec_tokens_for_payment(payment, price, decimals) <= u128::MAX,
{
    let scaled = scaled_payment(payment, decimals);
    lemma_pow_positive(10, decimals as nat);
    let scale = pow(10, decimals as nat);
    assert(payment * scale >= 0) by (nonlinear_arith)
        requires
            payment >= 0,
            scale > 0,
    ;
    lemma_div_is_ordered(0, scaled, price as int);
    lemma_div_is_ordered(scaled, u128::MAX as int, price as int);
    lemma_div_is_ordered_by_denominator(u128::MAX as int, 1, price as int);
}

/// One more decimal multiplies the exact product by ten.
proof fn lemma_scale_step(payment: u128, i: nat)
    ensures
        payment * pow(10, i + 1) == (payment * pow(10, i)) * 10,
        payment * pow(10, i) >= 0,
{
    reveal(pow);
    lemma_pow_positive(10, i);
    let x = pow(10, i);
    assert(pow(10, i + 1) == 10 * x);
    assert(payment * (10 * x) == (payment * x) * 10) by (nonlinear_arith);
    assert(payment * x >= 0) by (nonlinear_arith)
        requires
            payment >= 0,
            x > 0,
    ;
}

/// The number of tokens that `payment` buys at `price` per whole token of a
/// ledger with `decimals` decimals.
pub fn tokens_for_payment(payment: u128, price: u128, decimals: u8) -> (tokens: u128)
    requires
        price > 0,
    ensures
        tokens == spec_tokens_for_payment(payment, price, decimals),
{
    let mut scaled: u128 = payment;
    let mut i: u8 = 0;
    proof {
        reveal(pow);
        assert(payment * pow(10, 0) == payment);
    }
    while i < decimals
        invariant
            i <= decimals,
            scaled == scaled_payment(payment, i),
        decreases decimals - i,
    {
        proof {
            lemma_scale_step(payment, i as nat);
        }
        scaled =
        match scaled.checked_mul(10) {
            Some(s) => s,
            None => u128::MAX,
        };
        i += 1;
    }
    scaled / price
}

/// A larger payment never buys fewer tokens.
pub proof fn lemma_tokens_monotonic(smaller: u128, larger: u128, price: u128, decimals: u8)
    requires
        smaller <= larger,
        price > 0,
    ensures
        spec_tokens_for_payment(smaller, price, decimals) <= spec_tokens_for_payment(
            larger,
            price,
            decimals,
        ),
{
    let scale = pow(10, decimals as nat);
    lemma_pow_positive(10, decimals as nat);
    assert(smaller * scale <= larger * scale) by (nonlinear_arith)
        requires
            smaller <= larger,
            scale > 0,
    ;
    lemma_div_is_ordered(
        scaled_payment(smaller, decimals),
        scaled_payment(larger, decimals),
        price as int,
    );
}

/// Where the product fits in 128 bits, the tokens bought are its quotient by
/// the price, rounded down: the largest number of tokens whose cost is within
/// the scaled payment.
pub proof fn lemma_tokens_exact(payment: u128, price: u128, decimals: u8)
    requires
        price > 0,
        payment * pow(10, decimals as nat) <= u128::MAX,
    ensures
        spec_tokens_for_payment(payment, price, decimals) == (payment * pow(10, decimals as nat))
            / (price as int),
        spec_tokens_for_payment(payment, price, decimals) * price <= payment * pow(
            10,
            decimals as nat,
        ),
        payment * pow(10, decimals as nat) < (spec_tokens_for_payment(payment, price, decimals)
            + 1) * price,
{
    let exact = payment * pow(10, decimals as nat);
    let tokens = exact / (price as int);
    lemma_fundamental_div_mod(exact, price as int);
    lemma_mod_bound(exact, price as int);
    assert(price * tokens == tokens * price) by (nonlinear_arith);
    assert((tokens + 1) * price == tokens * price + price) by (nonlinear_arith);
}

} // verus!

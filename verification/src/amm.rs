//! The reserve-pool pricing math: a constant-product curve with a 0.3%
//! fee, over unsigned 64-bit reserves, with every arithmetic step checked
//! for overflow.
//!
//! A swap against reserves `(input_reserve, output_reserve)` charges a fee
//! of `floor(input_amount * 3 / 1000)`, adds the remainder to the input
//! reserve, and pays out whatever brings the output reserve down to
//! `floor(k / new_input_reserve)`, where `k` is the pre-trade product.
//! The fee stays in the pool: only the input net of fee takes part in the
//! curve, while the full input is what the ledger credits to the vault.

use vstd::prelude::*;

use vstd::arithmetic::div_mod::lemma_div_is_ordered_by_denominator;
use vstd::arithmetic::div_mod::lemma_div_multiples_vanish;
use vstd::arithmetic::div_mod::lemma_div_pos_is_pos;
use vstd::arithmetic::div_mod::lemma_fundamental_div_mod;
use vstd::arithmetic::div_mod::lemma_mod_bound;
use vstd::arithmetic::mul::lemma_mul_nonnegative;

use crate::market::ErrorCode;

verus! {

/// The fee charged on a swap input: 0.3%, rounded down.
pub open spec fn fee_of(input_amount: u64) -> int {
    (input_amount * 3) / 1000
}

/// The part of the input that takes part in the curve.
pub open spec fn input_after_fee(input_amount: u64) -> int {
    input_amount - fee_of(input_amount)
}

/// The input-side reserve after a swap.
pub open spec fn new_input_reserve_of(input_reserve: u64, input_amount: u64) -> int {
    input_reserve + input_after_fee(input_amount)
}

/// The output-side reserve after a swap: the pre-trade product, divided
/// (rounding down) by the new input reserve.
pub open spec fn new_output_reserve_of(
    input_reserve: u64,
    output_reserve: u64,
    input_amount: u64,
) -> int {
    (input_reserve * output_reserve) / new_input_reserve_of(input_reserve, input_amount)
}

/// What a swap pays out.
pub open spec fn output_of(input_reserve: u64, output_reserve: u64, input_amount: u64) -> int {
    output_reserve - new_output_reserve_of(input_reserve, output_reserve, input_amount)
}

/// Some checked arithmetic step of the quote would exceed `u64::MAX`:
/// the fee numerator, the new input reserve, or the pre-trade product.
pub open spec fn quote_overflows(
    input_reserve: u64,
    output_reserve: u64,
    input_amount: u64,
) -> bool {
    ||| input_amount * 3 > u64::MAX
    ||| new_input_reserve_of(input_reserve, input_amount) > u64::MAX
    ||| input_reserve * output_reserve > u64::MAX
}

/// The result of a successful quote: what the trader receives and the
/// two reserve values the pool must move to.
#[derive(Clone, Copy, Debug)]
pub struct SwapQuote {
    pub output_amount: u64,
    pub new_input_reserve: u64,
    pub new_output_reserve: u64,
}

/// The fee never exceeds the input, and is never negative.
pub proof fn lemma_fee_bounds(input_amount: u64)
    ensures
        0 <= fee_of(input_amount) <= input_amount,
{
    lemma_div_pos_is_pos(input_amount * 3, 1000);
    lemma_fundamental_div_mod(input_amount * 3, 1000);
    lemma_mod_bound(input_amount * 3, 1000);
}

/// The output reserve never goes up: the quotient `k / new_input_reserve`
/// is at most `output_reserve`, because the divisor is at least
/// `input_reserve` and `k / input_reserve == output_reserve` exactly.
pub proof fn lemma_new_output_le_output(
    input_reserve: u64,
    output_reserve: u64,
    input_amount: u64,
)
    requires
        input_reserve > 0,
    ensures
        0 <= new_output_reserve_of(input_reserve, output_reserve, input_amount)
            <= output_reserve,
{
    let k = input_reserve * output_reserve;
    let ni = new_input_reserve_of(input_reserve, input_amount);
    lemma_fee_bounds(input_amount);
    lemma_mul_nonnegative(input_reserve as int, output_reserve as int);
    lemma_div_pos_is_pos(k, ni);
    lemma_div_is_ordered_by_denominator(k, input_reserve as int, ni);
    lemma_div_multiples_vanish(output_reserve as int, input_reserve as int);
    assert(input_reserve * output_reserve == (input_reserve as int) * (output_reserve as int));
}

/// Quote a swap against the given reserves.
///
/// Fails with `InsufficientLiquidity` exactly when either reserve is
/// empty, and with `MathOverflow` exactly when some checked step of the
/// math would exceed `u64::MAX`; otherwise returns the new reserves and
/// the payout the curve allows. Pure: nothing is mutated here.
pub fn quote_swap(input_reserve: u64, output_reserve: u64, input_amount: u64) -> (r: Result<
    SwapQuote,
    ErrorCode,
>)
    ensures
        match r {
            Ok(q) => {
                &&& input_reserve > 0
                &&& output_reserve > 0
                &&& !quote_overflows(input_reserve, output_reserve, input_amount)
                &&& q.new_input_reserve == new_input_reserve_of(input_reserve, input_amount)
                &&& q.new_output_reserve == new_output_reserve_of(
                    input_reserve,
                    output_reserve,
                    input_amount,
                )
                &&& q.output_amount == output_of(input_reserve, output_reserve, input_amount)
            },
            Err(ErrorCode::InsufficientLiquidity) => !(input_reserve > 0 && output_reserve > 0),
            Err(ErrorCode::MathOverflow) => {
                &&& input_reserve > 0
                &&& output_reserve > 0
                &&& quote_overflows(input_reserve, output_reserve, input_amount)
            },
            Err(_) => false,
        },
{
    if !(input_reserve > 0 && output_reserve > 0) {
        return Err(ErrorCode::InsufficientLiquidity);
    }
    let fee_numerator = match input_amount.checked_mul(3) {
        Some(x) => x,
        None => {
            return Err(ErrorCode::MathOverflow);
        },
    };
    let fee = fee_numerator / 1000;
    proof {
        lemma_fee_bounds(input_amount);
    }
    let after_fee = input_amount - fee;
    let new_input_reserve = match input_reserve.checked_add(after_fee) {
        Some(x) => x,
        None => {
            return Err(ErrorCode::MathOverflow);
        },
    };
    let k = match input_reserve.checked_mul(output_reserve) {
        Some(x) => x,
        None => {
            return Err(ErrorCode::MathOverflow);
        },
    };
    let new_output_reserve = k / new_input_reserve;
    proof {
        lemma_new_output_le_output(input_reserve, output_reserve, input_amount);
    }
    let output_amount = output_reserve - new_output_reserve;
    Ok(SwapQuote { output_amount, new_input_reserve, new_output_reserve })
}

/// After a valid swap the stored reserve product never exceeds the
/// pre-trade product, and falls short of it by less than the new input
/// reserve: the payout is rounded in the trader's favor, but the loss of
/// product per trade is bounded by one rounding step.
pub proof fn lemma_swap_product_bounds(input_reserve: u64, output_reserve: u64, input_amount: u64)
    requires
        input_reserve > 0,
        output_reserve > 0,
        !quote_overflows(input_reserve, output_reserve, input_amount),
    ensures
        ({
            let k = input_reserve * output_reserve;
            let ni = new_input_reserve_of(input_reserve, input_amount);
            let no = new_output_reserve_of(input_reserve, output_reserve, input_amount);
            &&& ni * no <= k
            &&& k - ni * no < ni
        }),
{
    let k = input_reserve * output_reserve;
    let ni = new_input_reserve_of(input_reserve, input_amount);
    lemma_fee_bounds(input_amount);
    lemma_fundamental_div_mod(k, ni);
    lemma_mod_bound(k, ni);
}

/// Where the new input reserve divides the pre-trade product exactly, no
/// rounding happens and the reserve product is preserved by the swap.
pub proof fn lemma_swap_product_preserved_when_exact(
    input_reserve: u64,
    output_reserve: u64,
    input_amount: u64,
)
    requires
        input_reserve > 0,
        output_reserve > 0,
        !quote_overflows(input_reserve, output_reserve, input_amount),
        (input_reserve * output_reserve) % new_input_reserve_of(input_reserve, input_amount)
            == 0,
    ensures
        new_input_reserve_of(input_reserve, input_amount) * new_output_reserve_of(
            input_reserve,
            output_reserve,
            input_amount,
        ) == input_reserve * output_reserve,
{
    let k = input_reserve * output_reserve;
    let ni = new_input_reserve_of(input_reserve, input_amount);
    lemma_fee_bounds(input_amount);
    lemma_fundamental_div_mod(k, ni);
}

} // verus!

//! The exchange operations over a market record: creation, swapping,
//! adding and removing liquidity, and resolution.

use vstd::prelude::*;

use crate::amm::new_input_reserve_of;
use crate::amm::new_output_reserve_of;
use crate::amm::output_of;
use crate::amm::quote_overflows;
use crate::amm::quote_swap;
use crate::market::ErrorCode;
use crate::market::Market;
use crate::market::MarketStatus;
use crate::market::MAX_QUESTION_LEN;

verus! {

/// The reserve a swap draws its input side from.
pub open spec fn swap_input_reserve(m: Market, swapping_yes: bool) -> u64 {
    if swapping_yes {
        m.yes_reserve
    } else {
        m.no_reserve
    }
}

/// The reserve a swap pays its output from.
pub open spec fn swap_output_reserve(m: Market, swapping_yes: bool) -> u64 {
    if swapping_yes {
        m.no_reserve
    } else {
        m.yes_reserve
    }
}

/// A swap with these parameters goes through: both reserves are
/// positive, no checked step overflows, and the payout clears the
/// caller's floor.
pub open spec fn can_swap(m: Market, input_amount: u64, min_output: u64, swapping_yes: bool) -> bool {
    let ir = swap_input_reserve(m, swapping_yes);
    let or = swap_output_reserve(m, swapping_yes);
    &&& ir > 0
    &&& or > 0
    &&& !quote_overflows(ir, or, input_amount)
    &&& output_of(ir, or, input_amount) >= min_output
}

/// The market after a successful swap: only the two reserves move.
pub open spec fn after_swap(m: Market, input_amount: u64, swapping_yes: bool) -> Market {
    let ir = swap_input_reserve(m, swapping_yes);
    let or = swap_output_reserve(m, swapping_yes);
    if swapping_yes {
        Market {
            yes_reserve: new_input_reserve_of(ir, input_amount) as u64,
            no_reserve: new_output_reserve_of(ir, or, input_amount) as u64,
            ..m
        }
    } else {
        Market {
            no_reserve: new_input_reserve_of(ir, input_amount) as u64,
            yes_reserve: new_output_reserve_of(ir, or, input_amount) as u64,
            ..m
        }
    }
}

/// Which error a refused swap reports. Liquidity is checked first, then
/// the arithmetic, and the slippage floor only against a fully computed
/// payout.
pub open spec fn swap_error(m: Market, input_amount: u64, min_output: u64, swapping_yes: bool) -> ErrorCode {
    let ir = swap_input_reserve(m, swapping_yes);
    let or = swap_output_reserve(m, swapping_yes);
    if !(ir > 0 && or > 0) {
        ErrorCode::InsufficientLiquidity
    } else if quote_overflows(ir, or, input_amount) {
        ErrorCode::MathOverflow
    } else {
        ErrorCode::SlippageExceeded
    }
}

/// Both reserve additions fit in a `u64`.
pub open spec fn can_add_liquidity(m: Market, yes_amount: u64, no_amount: u64) -> bool {
    &&& m.yes_reserve + yes_amount <= u64::MAX
    &&& m.no_reserve + no_amount <= u64::MAX
}

/// The market after a successful deposit.
pub open spec fn after_add_liquidity(m: Market, yes_amount: u64, no_amount: u64) -> Market {
    Market {
        yes_reserve: (m.yes_reserve + yes_amount) as u64,
        no_reserve: (m.no_reserve + no_amount) as u64,
        ..m
    }
}

/// Both reserves cover the requested withdrawal.
pub open spec fn can_remove_liquidity(m: Market, yes_amount: u64, no_amount: u64) -> bool {
    &&& m.yes_reserve >= yes_amount
    &&& m.no_reserve >= no_amount
}

/// The market after a successful withdrawal.
pub open spec fn after_remove_liquidity(m: Market, yes_amount: u64, no_amount: u64) -> Market {
    Market {
        yes_reserve: (m.yes_reserve - yes_amount) as u64,
        no_reserve: (m.no_reserve - no_amount) as u64,
        ..m
    }
}

/// Resolution is permitted only while the market is active.
pub open spec fn can_resolve(m: Market) -> bool {
    m.status == MarketStatus::Active
}

/// The market after a successful resolution: a terminal status and the
/// resolution timestamp, nothing else.
pub open spec fn after_resolve(m: Market, outcome: bool, now: i64) -> Market {
    Market {
        status: if outcome {
            MarketStatus::ResolvedYes
        } else {
            MarketStatus::ResolvedNo
        },
        resolved_at: Some(now),
        ..m
    }
}

/// Allocate a new market: zero reserves, `Active`, created now.
///
/// Fails with `InvalidInput` exactly when the question exceeds its
/// length bound; nothing else is validated here.
pub fn create_market(
    creator: u64,
    question: Vec<u8>,
    yes_mint: u64,
    no_mint: u64,
    now: i64,
) -> (r: Result<Market, ErrorCode>)
    ensures
        match r {
            Ok(m) => {
                &&& question@.len() <= MAX_QUESTION_LEN
                &&& m.creator == creator
                &&& m.question@ == question@
                &&& m.yes_mint == yes_mint
                &&& m.no_mint == no_mint
                &&& m.yes_reserve == 0
                &&& m.no_reserve == 0
                &&& m.created_at == now
                &&& m.resolved_at is None
                &&& m.status == MarketStatus::Active
                &&& m.wf()
            },
            Err(e) => {
                &&& e == ErrorCode::InvalidInput
                &&& question@.len() > MAX_QUESTION_LEN
            },
        },
{
    if question.len() > MAX_QUESTION_LEN {
        return Err(ErrorCode::InvalidInput);
    }
    Ok(
        Market {
            creator,
            question,
            yes_mint,
            no_mint,
            yes_reserve: 0,
            no_reserve: 0,
            created_at: now,
            resolved_at: None,
            status: MarketStatus::Active,
        },
    )
}

/// Swap one outcome token for the other against the pool, with
/// `swapping_yes` selecting YES-in/NO-out or the reverse.
///
/// On success the reserves move exactly as the curve dictates and the
/// payout, at least `min_output`, is returned; the ledger must then debit
/// `input_amount` of the input token from the caller and credit the
/// payout of the other token to the caller. On any failure the record is
/// untouched and the error says which check refused the trade.
pub fn swap(market: &mut Market, input_amount: u64, min_output: u64, swapping_yes: bool) -> (r:
    Result<u64, ErrorCode>)
    ensures
        match r {
            Ok(output_amount) => {
                &&& can_swap(*old(market), input_amount, min_output, swapping_yes)
                &&& output_amount == output_of(
                    swap_input_reserve(*old(market), swapping_yes),
                    swap_output_reserve(*old(market), swapping_yes),
                    input_amount,
                )
                &&& *final(market) == after_swap(*old(market), input_amount, swapping_yes)
            },
            Err(e) => {
                &&& !can_swap(*old(market), input_amount, min_output, swapping_yes)
                &&& e == swap_error(*old(market), input_amount, min_output, swapping_yes)
                &&& *final(market) == *old(market)
            },
        },
{
    let (input_reserve, output_reserve) = if swapping_yes {
        (market.yes_reserve, market.no_reserve)
    } else {
        (market.no_reserve, market.yes_reserve)
    };
    let quote = match quote_swap(input_reserve, output_reserve, input_amount) {
        Ok(q) => q,
        Err(e) => {
            return Err(e);
        },
    };
    if quote.output_amount < min_output {
        return Err(ErrorCode::SlippageExceeded);
    }
    if swapping_yes {
        market.yes_reserve = quote.new_input_reserve;
        market.no_reserve = quote.new_output_reserve;
    } else {
        market.no_reserve = quote.new_input_reserve;
        market.yes_reserve = quote.new_output_reserve;
    }
    Ok(quote.output_amount)
}

/// Deposit `yes_amount` and `no_amount` into the pool.
///
/// The ledger must move both amounts from the caller into the vaults;
/// the reserves then grow by exactly those amounts. The deposit need not
/// match the current price: an imbalanced deposit is permitted and
/// shifts the pool price. Fails with `MathOverflow`, touching nothing,
/// exactly when either reserve would exceed `u64::MAX`.
pub fn add_liquidity(market: &mut Market, yes_amount: u64, no_amount: u64) -> (r: Result<
    (),
    ErrorCode,
>)
    ensures
        match r {
            Ok(()) => {
                &&& can_add_liquidity(*old(market), yes_amount, no_amount)
                &&& *final(market) == after_add_liquidity(*old(market), yes_amount, no_amount)
            },
            Err(e) => {
                &&& e == ErrorCode::MathOverflow
                &&& !can_add_liquidity(*old(market), yes_amount, no_amount)
                &&& *final(market) == *old(market)
            },
        },
{
    let new_yes = match market.yes_reserve.checked_add(yes_amount) {
        Some(x) => x,
        None => {
            return Err(ErrorCode::MathOverflow);
        },
    };
    let new_no = match market.no_reserve.checked_add(no_amount) {
        Some(x) => x,
        None => {
            return Err(ErrorCode::MathOverflow);
        },
    };
    market.yes_reserve = new_yes;
    market.no_reserve = new_no;
    Ok(())
}

/// Withdraw `yes_amount` and `no_amount` from the pool.
///
/// The reserves shrink by exactly those amounts, and the ledger must
/// then move them from the vaults back to the caller. Fails with
/// `InsufficientLiquidity`, touching nothing, exactly when either
/// reserve falls short; the pre-checked subtractions can never wrap.
pub fn remove_liquidity(market: &mut Market, yes_amount: u64, no_amount: u64) -> (r: Result<
    (),
    ErrorCode,
>)
    ensures
        match r {
            Ok(()) => {
                &&& can_remove_liquidity(*old(market), yes_amount, no_amount)
                &&& *final(market) == after_remove_liquidity(*old(market), yes_amount, no_amount)
            },
            Err(e) => {
                &&& e == ErrorCode::InsufficientLiquidity
                &&& !can_remove_liquidity(*old(market), yes_amount, no_amount)
                &&& *final(market) == *old(market)
            },
        },
{
    if !(market.yes_reserve >= yes_amount && market.no_reserve >= no_amount) {
        return Err(ErrorCode::InsufficientLiquidity);
    }
    market.yes_reserve = market.yes_reserve - yes_amount;
    market.no_reserve = market.no_reserve - no_amount;
    Ok(())
}

/// Record the outcome of the market: YES won or NO won.
///
/// Permitted only while the market is active; the status becomes the
/// matching terminal state and `resolved_at` is set to `now`. Once a
/// market has left `Active` every further resolution fails with
/// `MarketNotActive` and changes nothing, so a recorded outcome can
/// never be overwritten. Who may resolve is the caller's concern; this
/// core checks only the lifecycle.
pub fn resolve_market(market: &mut Market, outcome: bool, now: i64) -> (r: Result<(), ErrorCode>)
    ensures
        match r {
            Ok(()) => {
                &&& can_resolve(*old(market))
                &&& *final(market) == after_resolve(*old(market), outcome, now)
            },
            Err(e) => {
                &&& e == ErrorCode::MarketNotActive
                &&& !can_resolve(*old(market))
                &&& *final(market) == *old(market)
            },
        },
{
    if !(market.status == MarketStatus::Active) {
        return Err(ErrorCode::MarketNotActive);
    }
    market.status = if outcome {
        MarketStatus::ResolvedYes
    } else {
        MarketStatus::ResolvedNo
    };
    market.resolved_at = Some(now);
    Ok(())
}

/// A permitted swap never grows the stored reserve product
/// `yes_reserve * no_reserve`, and the shortfall against the pre-trade
/// product is less than the new input reserve; the product is preserved
/// exactly when the new input reserve divides the pre-trade product.
/// The payout is rounded down on the output-reserve side, which rounds
/// the trader's proceeds up, so a strict gain for the pool on every
/// fee-bearing trade does not hold here.
pub proof fn lemma_swap_product_bounds(
    m: Market,
    input_amount: u64,
    min_output: u64,
    swapping_yes: bool,
)
    requires
        can_swap(m, input_amount, min_output, swapping_yes),
    ensures
        ({
            let m2 = after_swap(m, input_amount, swapping_yes);
            let ir = swap_input_reserve(m, swapping_yes);
            &&& m2.yes_reserve * m2.no_reserve <= m.yes_reserve * m.no_reserve
            &&& m.yes_reserve * m.no_reserve - m2.yes_reserve * m2.no_reserve
                < new_input_reserve_of(ir, input_amount)
        }),
{
    let ir = swap_input_reserve(m, swapping_yes);
    let or = swap_output_reserve(m, swapping_yes);
    crate::amm::lemma_fee_bounds(input_amount);
    crate::amm::lemma_new_output_le_output(ir, or, input_amount);
    assert(0 <= new_input_reserve_of(ir, input_amount) <= u64::MAX);
    crate::amm::lemma_swap_product_bounds(ir, or, input_amount);
    let ni = new_input_reserve_of(ir, input_amount);
    let no = new_output_reserve_of(ir, or, input_amount);
    vstd::arithmetic::mul::lemma_mul_is_commutative(or as int, ir as int);
    vstd::arithmetic::mul::lemma_mul_is_commutative(no, ni);
}

/// The restriction of reserve-product preservation under which it holds
/// exactly: when the post-trade input reserve divides the pre-trade
/// product, the swap leaves `yes_reserve * no_reserve` unchanged.
pub proof fn lemma_swap_product_preserved_when_exact(
    m: Market,
    input_amount: u64,
    min_output: u64,
    swapping_yes: bool,
)
    requires
        can_swap(m, input_amount, min_output, swapping_yes),
        (swap_input_reserve(m, swapping_yes) * swap_output_reserve(m, swapping_yes))
            % new_input_reserve_of(swap_input_reserve(m, swapping_yes), input_amount) == 0,
    ensures
        ({
            let m2 = after_swap(m, input_amount, swapping_yes);
            m2.yes_reserve * m2.no_reserve == m.yes_reserve * m.no_reserve
        }),
{
    let ir = swap_input_reserve(m, swapping_yes);
    let or = swap_output_reserve(m, swapping_yes);
    crate::amm::lemma_fee_bounds(input_amount);
    crate::amm::lemma_new_output_le_output(ir, or, input_amount);
    assert(0 <= new_input_reserve_of(ir, input_amount) <= u64::MAX);
    crate::amm::lemma_swap_product_preserved_when_exact(ir, or, input_amount);
    let ni = new_input_reserve_of(ir, input_amount);
    let no = new_output_reserve_of(ir, or, input_amount);
    vstd::arithmetic::mul::lemma_mul_is_commutative(or as int, ir as int);
    vstd::arithmetic::mul::lemma_mul_is_commutative(no, ni);
}

/// Conservation: depositing and then withdrawing the same amounts, with
/// nothing in between, is always permitted and returns the market
/// exactly to where it started.
pub proof fn lemma_liquidity_conservation(m: Market, yes_amount: u64, no_amount: u64)
    requires
        can_add_liquidity(m, yes_amount, no_amount),
    ensures
        can_remove_liquidity(after_add_liquidity(m, yes_amount, no_amount), yes_amount, no_amount),
        after_remove_liquidity(
            after_add_liquidity(m, yes_amount, no_amount),
            yes_amount,
            no_amount,
        ) == m,
{
}

/// Lifecycle terminality: whatever outcome and timestamp a successful
/// resolution records, the market it leaves behind can never be
/// resolved again.
pub proof fn lemma_resolve_is_terminal(m: Market, outcome: bool, now: i64)
    requires
        can_resolve(m),
    ensures
        !can_resolve(after_resolve(m, outcome, now)),
{
}

/// Every exchange operation preserves well-formedness and never touches
/// the identity fields of the record: swaps and liquidity moves change
/// reserves alone, and resolution changes the lifecycle alone.
pub proof fn lemma_ops_preserve_wf(
    m: Market,
    input_amount: u64,
    swapping_yes: bool,
    yes_amount: u64,
    no_amount: u64,
    outcome: bool,
    now: i64,
)
    requires
        m.wf(),
    ensures
        after_swap(m, input_amount, swapping_yes).wf(),
        m.same_identity(after_swap(m, input_amount, swapping_yes)),
        after_add_liquidity(m, yes_amount, no_amount).wf(),
        m.same_identity(after_add_liquidity(m, yes_amount, no_amount)),
        after_remove_liquidity(m, yes_amount, no_amount).wf(),
        m.same_identity(after_remove_liquidity(m, yes_amount, no_amount)),
        after_resolve(m, outcome, now).wf(),
        m.same_identity(after_resolve(m, outcome, now)),
{
}

} // verus!

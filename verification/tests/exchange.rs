use futarchy_gov::amm::quote_swap;
use futarchy_gov::market::ErrorCode;
use futarchy_gov::market::Market;
use futarchy_gov::market::MarketStatus;
use futarchy_gov::ops::add_liquidity;
use futarchy_gov::ops::create_market;
use futarchy_gov::ops::remove_liquidity;
use futarchy_gov::ops::resolve_market;
use futarchy_gov::ops::swap;

fn funded_market(yes: u64, no: u64) -> Market {
    let mut m = create_market(1, b"will it rain tomorrow?".to_vec(), 10, 11, 1_700_000_000)
        .expect("creation succeeds");
    add_liquidity(&mut m, yes, no).expect("funding succeeds");
    m
}

#[test]
fn create_market_sets_every_field() {
    let m = create_market(7, b"question".to_vec(), 21, 22, 123).expect("creation succeeds");
    assert_eq!(m.creator, 7);
    assert_eq!(m.question, b"question".to_vec());
    assert_eq!(m.yes_mint, 21);
    assert_eq!(m.no_mint, 22);
    assert_eq!(m.yes_reserve, 0);
    assert_eq!(m.no_reserve, 0);
    assert_eq!(m.created_at, 123);
    assert_eq!(m.resolved_at, None);
    assert_eq!(m.status, MarketStatus::Active);
}

#[test]
fn create_market_rejects_long_question() {
    let q = vec![b'x'; 513];
    assert_eq!(create_market(1, q, 2, 3, 0).unwrap_err(), ErrorCode::InvalidInput);
}

#[test]
fn create_market_accepts_question_at_bound() {
    let q = vec![b'x'; 512];
    assert!(create_market(1, q, 2, 3, 0).is_ok());
}

#[test]
fn quote_swap_charges_fee_and_floors_output() {
    // k = 1_000_000; fee = floor(1000 * 3 / 1000) = 3; input after fee = 997;
    // new input reserve = 1997; new output reserve = floor(1_000_000 / 1997) = 500.
    let q = quote_swap(1000, 1000, 1000).expect("quote succeeds");
    assert_eq!(q.new_input_reserve, 1997);
    assert_eq!(q.new_output_reserve, 500);
    assert_eq!(q.output_amount, 500);
}

#[test]
fn quote_swap_small_input_pays_no_fee() {
    // fee = floor(100 * 3 / 1000) = 0; new input reserve = 1100;
    // new output reserve = floor(1_000_000 / 1100) = 909.
    let q = quote_swap(1000, 1000, 100).expect("quote succeeds");
    assert_eq!(q.new_input_reserve, 1100);
    assert_eq!(q.new_output_reserve, 909);
    assert_eq!(q.output_amount, 91);
}

#[test]
fn quote_swap_needs_liquidity_on_both_sides() {
    assert_eq!(quote_swap(0, 1000, 10).unwrap_err(), ErrorCode::InsufficientLiquidity);
    assert_eq!(quote_swap(1000, 0, 10).unwrap_err(), ErrorCode::InsufficientLiquidity);
    assert_eq!(quote_swap(0, 0, 10).unwrap_err(), ErrorCode::InsufficientLiquidity);
}

#[test]
fn quote_swap_detects_fee_overflow() {
    assert_eq!(quote_swap(1000, 1000, u64::MAX).unwrap_err(), ErrorCode::MathOverflow);
}

#[test]
fn quote_swap_detects_product_overflow() {
    let big = 1u64 << 33;
    assert_eq!(quote_swap(big, big, 10).unwrap_err(), ErrorCode::MathOverflow);
}

#[test]
fn quote_swap_detects_reserve_overflow() {
    // The new input reserve would exceed u64::MAX before the product is formed.
    assert_eq!(quote_swap(u64::MAX, 1, 1000).unwrap_err(), ErrorCode::MathOverflow);
}

#[test]
fn swap_moves_reserves_along_the_curve() {
    let mut m = funded_market(1000, 1000);
    let out = swap(&mut m, 1000, 500, true).expect("swap succeeds");
    assert_eq!(out, 500);
    assert_eq!(m.yes_reserve, 1997);
    assert_eq!(m.no_reserve, 500);
}

#[test]
fn swap_other_direction_mirrors_the_sides() {
    let mut m = funded_market(1000, 1000);
    let out = swap(&mut m, 1000, 0, false).expect("swap succeeds");
    assert_eq!(out, 500);
    assert_eq!(m.no_reserve, 1997);
    assert_eq!(m.yes_reserve, 500);
}

#[test]
fn swap_enforces_slippage_floor() {
    let mut m = funded_market(1000, 1000);
    let err = swap(&mut m, 1000, 501, true).unwrap_err();
    assert_eq!(err, ErrorCode::SlippageExceeded);
    assert_eq!(m.yes_reserve, 1000);
    assert_eq!(m.no_reserve, 1000);
}

#[test]
fn swap_on_empty_pool_fails() {
    let mut m = create_market(1, b"q".to_vec(), 2, 3, 0).expect("creation succeeds");
    let err = swap(&mut m, 100, 0, true).unwrap_err();
    assert_eq!(err, ErrorCode::InsufficientLiquidity);
    assert_eq!(m.yes_reserve, 0);
    assert_eq!(m.no_reserve, 0);
}

#[test]
fn swap_never_grows_the_stored_product() {
    for input in [1u64, 100, 250, 334, 1000, 5000] {
        let mut m = funded_market(1000, 1000);
        let before = (m.yes_reserve as u128) * (m.no_reserve as u128);
        swap(&mut m, input, 0, true).expect("swap succeeds");
        let after = (m.yes_reserve as u128) * (m.no_reserve as u128);
        assert!(after <= before, "product grew on input {input}");
    }
}

#[test]
fn swap_preserves_product_when_division_is_exact() {
    // fee = 0 on input 250, so the new input reserve is 1250, which divides
    // 1_000_000 exactly: 1250 * 800 = 1_000_000.
    let mut m = funded_market(1000, 1000);
    swap(&mut m, 250, 0, true).expect("swap succeeds");
    assert_eq!(m.yes_reserve, 1250);
    assert_eq!(m.no_reserve, 800);
    assert_eq!((m.yes_reserve as u128) * (m.no_reserve as u128), 1_000_000);
}

#[test]
fn add_liquidity_grows_both_reserves() {
    let mut m = funded_market(1000, 1000);
    add_liquidity(&mut m, 30, 70).expect("deposit succeeds");
    assert_eq!(m.yes_reserve, 1030);
    assert_eq!(m.no_reserve, 1070);
}

#[test]
fn add_liquidity_detects_overflow_and_changes_nothing() {
    let mut m = funded_market(1000, u64::MAX - 5);
    let err = add_liquidity(&mut m, 1, 6).unwrap_err();
    assert_eq!(err, ErrorCode::MathOverflow);
    assert_eq!(m.yes_reserve, 1000);
    assert_eq!(m.no_reserve, u64::MAX - 5);
}

#[test]
fn imbalanced_deposits_are_permitted() {
    let mut m = create_market(1, b"q".to_vec(), 2, 3, 0).expect("creation succeeds");
    add_liquidity(&mut m, 5, 0).expect("an imbalanced deposit is allowed");
    assert_eq!(m.yes_reserve, 5);
    assert_eq!(m.no_reserve, 0);
    // Trading still needs liquidity on both sides.
    assert_eq!(swap(&mut m, 1, 0, true).unwrap_err(), ErrorCode::InsufficientLiquidity);
}

#[test]
fn add_then_remove_restores_reserves() {
    let mut m = funded_market(1000, 1000);
    add_liquidity(&mut m, 300, 700).expect("deposit succeeds");
    remove_liquidity(&mut m, 300, 700).expect("withdrawal succeeds");
    assert_eq!(m.yes_reserve, 1000);
    assert_eq!(m.no_reserve, 1000);
}

#[test]
fn remove_liquidity_takes_from_both_reserves() {
    let mut m = funded_market(1000, 1000);
    remove_liquidity(&mut m, 1000, 400).expect("withdrawal succeeds");
    assert_eq!(m.yes_reserve, 0);
    assert_eq!(m.no_reserve, 600);
}

#[test]
fn remove_liquidity_beyond_reserve_fails_and_changes_nothing() {
    let mut m = funded_market(1000, 1000);
    let err = remove_liquidity(&mut m, 1001, 0).unwrap_err();
    assert_eq!(err, ErrorCode::InsufficientLiquidity);
    assert_eq!(m.yes_reserve, 1000);
    assert_eq!(m.no_reserve, 1000);
    let err = remove_liquidity(&mut m, 0, 1001).unwrap_err();
    assert_eq!(err, ErrorCode::InsufficientLiquidity);
    assert_eq!(m.yes_reserve, 1000);
    assert_eq!(m.no_reserve, 1000);
}

#[test]
fn resolve_records_yes_outcome_once() {
    let mut m = funded_market(1000, 1000);
    resolve_market(&mut m, true, 555).expect("resolution succeeds");
    assert_eq!(m.status, MarketStatus::ResolvedYes);
    assert_eq!(m.resolved_at, Some(555));
    for outcome in [true, false] {
        let err = resolve_market(&mut m, outcome, 999).unwrap_err();
        assert_eq!(err, ErrorCode::MarketNotActive);
        assert_eq!(m.status, MarketStatus::ResolvedYes);
        assert_eq!(m.resolved_at, Some(555));
    }
}

#[test]
fn resolve_records_no_outcome() {
    let mut m = funded_market(1000, 1000);
    resolve_market(&mut m, false, 556).expect("resolution succeeds");
    assert_eq!(m.status, MarketStatus::ResolvedNo);
    assert_eq!(m.resolved_at, Some(556));
}

#[test]
fn trading_is_not_gated_by_resolution() {
    // The lifecycle gates only resolution itself; liquidity can still be
    // withdrawn (and trades made) after the market resolves.
    let mut m = funded_market(1000, 1000);
    resolve_market(&mut m, true, 557).expect("resolution succeeds");
    remove_liquidity(&mut m, 1000, 1000).expect("withdrawal succeeds");
    assert_eq!(m.yes_reserve, 0);
    assert_eq!(m.no_reserve, 0);
}

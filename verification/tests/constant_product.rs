use pythia_markets::constant_product::{
    hide_market_state, initialize_market, process_private_trade, reveal_market_state,
    update_user_position, MarketState, K_SCALE,
};
use pythia_markets::errors::ErrorCode;
use pythia_markets::position::{initialize_user_position, UserPosition};
use pythia_markets::pricing::{TradeInput, SHARES_PER_USDC};

fn opened() -> MarketState {
    initialize_market(1_000_000).unwrap()
}

fn product(state: &MarketState) -> u128 {
    state.yes_pool as u128 * state.no_pool as u128
}

fn k_scaled(state: &MarketState) -> u128 {
    state.k as u128 * K_SCALE as u128
}

#[test]
fn constant_product_market_of_one_million_units() {
    assert_eq!(SHARES_PER_USDC, 1_000);
    assert_eq!(
        initialize_market(1_000_000),
        Ok(MarketState {
            yes_pool: 500_000_000,
            no_pool: 500_000_000,
            k: 250_000_000_000,
            total_trades: 0,
        })
    );
}

#[test]
fn constant_product_buy_yes_of_one_thousand_units() {
    let trade = TradeInput { amount: 1_000, is_buy_yes: true };
    let (next, shares) = process_private_trade(&opened(), &trade).unwrap();
    assert_eq!(next.no_pool, 501_000_000);
    assert_eq!(next.yes_pool, 250_000_000_000_000_000 / 501_000_000);
    assert_eq!(next.yes_pool, 499_001_996);
    assert_eq!(shares, 998_004);
    assert_eq!(next.k, 250_000_000_000);
    assert_eq!(next.total_trades, 1);
}

#[test]
fn constant_product_buy_no_is_the_mirror_image() {
    let trade = TradeInput { amount: 1_000, is_buy_yes: false };
    let (next, shares) = process_private_trade(&opened(), &trade).unwrap();
    assert_eq!(next.yes_pool, 501_000_000);
    assert_eq!(next.no_pool, 499_001_996);
    assert_eq!(shares, 998_004);
    assert_eq!(next.total_trades, 1);
}

#[test]
fn constant_product_product_stays_within_one_unit_of_the_constant() {
    let mut state = opened();
    let amounts: [u64; 8] = [1_000, 1, 37, 250_000, 3, 999_999, 12, 4_000];
    let mut i = 0;
    while i < amounts.len() {
        let trade = TradeInput { amount: amounts[i], is_buy_yes: i % 3 != 1 };
        let (next, shares) = process_private_trade(&state, &trade).unwrap();
        let paid_into = if trade.is_buy_yes { next.no_pool } else { next.yes_pool };
        let taken_from = if trade.is_buy_yes { next.yes_pool } else { next.no_pool };
        assert!(product(&next) <= k_scaled(&state));
        assert!(k_scaled(&state) - product(&next) < paid_into as u128);
        assert!((taken_from as u128 + 1) * paid_into as u128 > k_scaled(&state));
        assert_eq!(next.k, state.k);
        assert_eq!(next.total_trades, state.total_trades + 1);
        let before = if trade.is_buy_yes { state.yes_pool } else { state.no_pool };
        assert_eq!(shares, before - taken_from);
        state = next;
        i += 1;
    }
    assert_eq!(state.total_trades, 8);
}

#[test]
fn constant_product_zero_amount_is_invalid() {
    let trade = TradeInput { amount: 0, is_buy_yes: true };
    assert_eq!(process_private_trade(&opened(), &trade), Err(ErrorCode::InvalidTrade));
}

#[test]
fn constant_product_emptying_a_pool_is_invalid() {
    let state = MarketState { yes_pool: 1_000, no_pool: 1_000, k: 1, total_trades: 0 };
    // 1_000_000 / (1_000 + 1_000_000) rounds down to 0.
    let trade = TradeInput { amount: 1_000, is_buy_yes: true };
    assert_eq!(process_private_trade(&state, &trade), Err(ErrorCode::InvalidTrade));
    // 1_000_000 / (1_000 + 999_000) is exactly 1.
    let trade = TradeInput { amount: 999, is_buy_yes: true };
    let (next, shares) = process_private_trade(&state, &trade).unwrap();
    assert_eq!(next.yes_pool, 1);
    assert_eq!(next.no_pool, 1_000_000);
    assert_eq!(shares, 999);
}

#[test]
fn constant_product_empty_market_takes_no_trade() {
    let state = initialize_market(0).unwrap();
    assert_eq!(state, MarketState { yes_pool: 0, no_pool: 0, k: 0, total_trades: 0 });
    let trade = TradeInput { amount: 1, is_buy_yes: false };
    assert_eq!(process_private_trade(&state, &trade), Err(ErrorCode::InvalidTrade));
}

#[test]
fn constant_product_overdrawing_a_pool_is_invalid() {
    // The constant asks for more than the bought pool holds.
    let state = MarketState { yes_pool: 10, no_pool: 1_000, k: 1, total_trades: 0 };
    let trade = TradeInput { amount: 1, is_buy_yes: true };
    // 1_000_000 / 2_000 = 500 > 10.
    assert_eq!(process_private_trade(&state, &trade), Err(ErrorCode::InvalidTrade));
}

#[test]
fn constant_product_share_conversion_overflow_is_reported() {
    let trade = TradeInput { amount: u64::MAX / 1_000 + 1, is_buy_yes: true };
    assert_eq!(process_private_trade(&opened(), &trade), Err(ErrorCode::Overflow));
}

#[test]
fn constant_product_constant_overflow_is_reported() {
    let state = MarketState {
        yes_pool: 5_000_000_000,
        no_pool: 5_000_000_000,
        k: 25_000_000_000_000,
        total_trades: 0,
    };
    let trade = TradeInput { amount: 1, is_buy_yes: true };
    assert_eq!(process_private_trade(&state, &trade), Err(ErrorCode::Overflow));
}

#[test]
fn constant_product_pool_overflow_is_reported() {
    let state = MarketState { yes_pool: 7, no_pool: u64::MAX - 999, k: 1, total_trades: 0 };
    let trade = TradeInput { amount: 1, is_buy_yes: true };
    assert_eq!(process_private_trade(&state, &trade), Err(ErrorCode::Overflow));
}

#[test]
fn constant_product_trade_count_overflow_is_reported() {
    let mut state = opened();
    state.total_trades = u64::MAX;
    let trade = TradeInput { amount: 1_000, is_buy_yes: true };
    assert_eq!(process_private_trade(&state, &trade), Err(ErrorCode::Overflow));
}

#[test]
fn constant_product_overflow_is_reported_before_an_emptied_pool() {
    let state = MarketState { yes_pool: 1_000, no_pool: 1_000, k: 1, total_trades: u64::MAX };
    let trade = TradeInput { amount: 1_000, is_buy_yes: true };
    assert_eq!(process_private_trade(&state, &trade), Err(ErrorCode::Overflow));
}

#[test]
fn constant_product_initial_liquidity_overflow_is_reported() {
    assert_eq!(initialize_market(u64::MAX), Err(ErrorCode::Overflow));
    assert_eq!(initialize_market(u64::MAX / 1_000 + 1), Err(ErrorCode::Overflow));
    // The shares fit, their stored constant does not.
    assert_eq!(initialize_market(u64::MAX / 1_000), Err(ErrorCode::Overflow));
}

#[test]
fn constant_product_largest_liquidity_whose_constant_fits() {
    // The square of 4_294_967_295 fits in 64 bits, that of 4_294_967_296 does not.
    let side_in_thousands: u64 = 4_294_967_295;
    let state = initialize_market(2 * side_in_thousands).unwrap();
    assert_eq!(state.yes_pool, side_in_thousands * 1_000);
    assert_eq!(state.k, side_in_thousands * side_in_thousands);
    assert_eq!(initialize_market(2 * (side_in_thousands + 1)), Err(ErrorCode::Overflow));
}

#[test]
fn constant_product_odd_liquidity_splits_evenly() {
    let state = initialize_market(3).unwrap();
    assert_eq!(state, MarketState { yes_pool: 1_500, no_pool: 1_500, k: 1, total_trades: 0 });
}

#[test]
fn constant_product_reveal_shows_pools_and_prices() {
    assert_eq!(
        reveal_market_state(&opened()),
        (500_000_000, 500_000_000, 500, 500, 0, 250_000_000_000)
    );
    let trade = TradeInput { amount: 1_000, is_buy_yes: true };
    let (next, _) = process_private_trade(&opened(), &trade).unwrap();
    // 501_000_000 * 1000 / 1_000_001_996 = 500.99...
    assert_eq!(
        reveal_market_state(&next),
        (499_001_996, 501_000_000, 500, 500, 1, 250_000_000_000)
    );
    let skewed = MarketState { yes_pool: 250, no_pool: 750, k: 7, total_trades: 9 };
    assert_eq!(reveal_market_state(&skewed), (250, 750, 750, 250, 9, 7));
}

#[test]
fn constant_product_reveal_of_empty_pools_shows_one_half() {
    let empty = MarketState { yes_pool: 0, no_pool: 0, k: 0, total_trades: 0 };
    assert_eq!(reveal_market_state(&empty), (0, 0, 500, 500, 0, 0));
}

#[test]
fn constant_product_reveal_of_full_pools_does_not_overflow() {
    let full = MarketState { yes_pool: u64::MAX, no_pool: u64::MAX, k: 0, total_trades: 1 };
    assert_eq!(reveal_market_state(&full), (u64::MAX, u64::MAX, 500, 500, 1, 0));
    let one_sided = MarketState { yes_pool: 0, no_pool: u64::MAX, k: u64::MAX, total_trades: 1 };
    assert_eq!(reveal_market_state(&one_sided), (0, u64::MAX, 1_000, 0, 1, u64::MAX));
}

#[test]
fn constant_product_hide_carries_the_constant() {
    // The pool after one trade: the constant is the one that the market
    // opened with, not the product of the pools in whole thousands.
    assert_eq!(
        hide_market_state(499_001_996, 501_000_000, 250_000_000_000, 1),
        MarketState {
            yes_pool: 499_001_996,
            no_pool: 501_000_000,
            k: 250_000_000_000,
            total_trades: 1,
        }
    );
    assert_ne!(499_001 * 501_000, 250_000_000_000u64);
}

#[test]
fn constant_product_hide_of_what_was_revealed_gives_the_pool_back() {
    let trade = TradeInput { amount: 1_000, is_buy_yes: true };
    let (traded, _) = process_private_trade(&opened(), &trade).unwrap();
    for state in [opened(), traded] {
        let shown = reveal_market_state(&state);
        assert_eq!(hide_market_state(shown.0, shown.1, shown.5, shown.4), state);
    }
}

#[test]
fn constant_product_hide_takes_any_constant_with_any_pools() {
    assert_eq!(
        hide_market_state(u64::MAX, u64::MAX, 3, 0),
        MarketState { yes_pool: u64::MAX, no_pool: u64::MAX, k: 3, total_trades: 0 }
    );
    assert_eq!(
        hide_market_state(0, 0, u64::MAX, 5),
        MarketState { yes_pool: 0, no_pool: 0, k: u64::MAX, total_trades: 5 }
    );
}

#[test]
fn constant_product_position_gets_the_shares_of_the_amount() {
    let position = initialize_user_position();
    let position =
        update_user_position(&position, &TradeInput { amount: 1_000, is_buy_yes: true }).unwrap();
    let position =
        update_user_position(&position, &TradeInput { amount: 2, is_buy_yes: false }).unwrap();
    assert_eq!(
        position,
        UserPosition {
            yes_tokens_open: 1_000_000,
            no_tokens_open: 2_000,
            yes_tokens_closed: 0,
            no_tokens_closed: 0,
        }
    );
}

#[test]
fn constant_product_position_overflow_is_reported() {
    let position = initialize_user_position();
    let trade = TradeInput { amount: u64::MAX / 1_000 + 1, is_buy_yes: true };
    assert_eq!(update_user_position(&position, &trade), Err(ErrorCode::Overflow));
    let full = UserPosition {
        yes_tokens_open: 0,
        no_tokens_open: u64::MAX - 999,
        yes_tokens_closed: 0,
        no_tokens_closed: 0,
    };
    let trade = TradeInput { amount: 1, is_buy_yes: false };
    assert_eq!(update_user_position(&full, &trade), Err(ErrorCode::Overflow));
}

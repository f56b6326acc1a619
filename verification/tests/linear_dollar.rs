use pythia_markets::errors::ErrorCode;
use pythia_markets::linear_dollar::{process_public_trade, MarketState};
use pythia_markets::pricing::TradeInput;

fn pool() -> MarketState {
    MarketState { yes_pool: 1_000, no_pool: 2_000, last_price: 500, total_trades: 7 }
}

#[test]
fn linear_buy_yes_adds_the_amount_and_raises_the_price() {
    let trade = TradeInput { amount: 250, is_buy_yes: true };
    assert_eq!(
        process_public_trade(&pool(), &trade),
        Ok((MarketState { yes_pool: 1_250, no_pool: 2_000, last_price: 502, total_trades: 7 }, 250))
    );
}

#[test]
fn linear_buy_no_adds_the_amount_and_lowers_the_price() {
    let trade = TradeInput { amount: 250, is_buy_yes: false };
    assert_eq!(
        process_public_trade(&pool(), &trade),
        Ok((MarketState { yes_pool: 1_000, no_pool: 2_250, last_price: 498, total_trades: 7 }, 250))
    );
}

#[test]
fn linear_price_moves_by_whole_hundredths_only() {
    let trade = TradeInput { amount: 99, is_buy_yes: true };
    let (next, _) = process_public_trade(&pool(), &trade).unwrap();
    assert_eq!(next.last_price, 500);
    let trade = TradeInput { amount: 100, is_buy_yes: false };
    let (next, _) = process_public_trade(&pool(), &trade).unwrap();
    assert_eq!(next.last_price, 499);
}

#[test]
fn linear_price_is_not_held_to_a_range() {
    let trade = TradeInput { amount: 10_000_000, is_buy_yes: true };
    let (next, shares) = process_public_trade(&pool(), &trade).unwrap();
    assert_eq!(next.last_price, 100_500);
    assert_eq!(shares, 10_000_000);
}

#[test]
fn linear_zero_amount_is_invalid() {
    let trade = TradeInput { amount: 0, is_buy_yes: false };
    assert_eq!(process_public_trade(&pool(), &trade), Err(ErrorCode::InvalidTrade));
}

#[test]
fn linear_pool_overflow_is_reported() {
    let full = MarketState { yes_pool: u64::MAX, no_pool: u64::MAX - 1, last_price: 5, total_trades: 0 };
    let yes = TradeInput { amount: 1, is_buy_yes: true };
    assert_eq!(process_public_trade(&full, &yes), Err(ErrorCode::Overflow));
    let no = TradeInput { amount: 2, is_buy_yes: false };
    assert_eq!(process_public_trade(&full, &no), Err(ErrorCode::Overflow));
    let fits = TradeInput { amount: 1, is_buy_yes: false };
    let (next, _) = process_public_trade(&full, &fits).unwrap();
    assert_eq!(next.no_pool, u64::MAX);
}

#[test]
fn linear_price_overflow_is_reported() {
    let high = MarketState { yes_pool: 0, no_pool: 0, last_price: u64::MAX, total_trades: 0 };
    let trade = TradeInput { amount: 100, is_buy_yes: true };
    assert_eq!(process_public_trade(&high, &trade), Err(ErrorCode::Overflow));
    let small = TradeInput { amount: 99, is_buy_yes: true };
    assert!(process_public_trade(&high, &small).is_ok());
}

#[test]
fn linear_price_below_zero_is_reported() {
    let low = MarketState { yes_pool: 0, no_pool: 0, last_price: 2, total_trades: 0 };
    let trade = TradeInput { amount: 300, is_buy_yes: false };
    assert_eq!(process_public_trade(&low, &trade), Err(ErrorCode::Overflow));
    let trade = TradeInput { amount: 200, is_buy_yes: false };
    let (next, _) = process_public_trade(&low, &trade).unwrap();
    assert_eq!(next.last_price, 0);
    assert_eq!(next.no_pool, 200);
}

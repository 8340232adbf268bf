use quanta_engine::{Order, OrderType, RiskValidator};

fn order(quantity: i64, price: i64) -> Order {
    Order::new("AAPL".to_string(), quantity, OrderType::Limit, price, 0, None)
}

#[test]
fn risk_accepts_equal_bounds() {
    let r = RiskValidator::new(100, 500, 10_000);
    assert!(r.validate_order(&order(100, 100), 0, -500));
    assert!(r.validate_order(&order(-100, 100), 0, 0));
}

#[test]
fn risk_rejects_each_violation() {
    let r = RiskValidator::new(100, 500, 10_000);
    assert!(!r.validate_order(&order(101, 1), 0, 0));
    assert!(!r.validate_order(&order(-101, 1), 0, 0));
    assert!(!r.validate_order(&order(100, 101), 0, 0));
    assert!(!r.validate_order(&order(1, 1), 0, -501));
    assert!(!r.validate_order(&order(10, 1), 95, 0));
    assert!(!r.validate_order(&order(-10, 1), -95, 0));
}

#[test]
fn risk_sell_notional_is_signed() {
    let r = RiskValidator::new(100, 500, 10);
    assert!(r.validate_order(&order(-100, 1_000_000), 0, 0));
}

#[test]
fn risk_extreme_values_do_not_overflow() {
    let r = RiskValidator::new(i64::MAX, i64::MAX, i64::MAX);
    assert!(!r.validate_order(&order(i64::MIN, 1), 0, 0));
    assert!(!r.validate_order(&order(i64::MAX, i64::MAX), 0, 0));
    assert!(!r.validate_order(&order(1, 1), i64::MAX, 0));
}

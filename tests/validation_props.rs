use quanta_engine::clock::unix_now;
use quanta_engine::{Order, OrderType, OrderValidator, ValidationError, ValidationRule};
use std::collections::HashMap;

fn limit_validator() -> OrderValidator {
    let mut v = OrderValidator::new();
    v.set_rule(OrderType::Limit, ValidationRule::new(1, 1000, 10, 500));
    v.add_symbol("AAPL".to_string());
    v
}

fn order(symbol: &str, quantity: i64, order_type: OrderType, price: i64, ts: i64) -> Order {
    Order::new(symbol.to_string(), quantity, order_type, price, ts, None)
}

#[test]
fn scenario_limit_order_accepted_and_unknown_symbol_rejected() {
    let v = limit_validator();
    let ok = order("AAPL", 100, OrderType::Limit, 150, 1625140800);
    assert_eq!(v.validate(&ok), Ok(()));
    let bad = order("MSFT", 100, OrderType::Limit, 150, 1625140800);
    assert_eq!(
        v.validate(&bad),
        Err(ValidationError::UnknownSymbol { symbol: "MSFT".to_string() })
    );
}

#[test]
fn conforming_orders_pass_including_bounds() {
    let mut v = limit_validator();
    v.set_max_order_age(Some(60));
    for (q, p) in [(1, 10), (1000, 500), (500, 250)] {
        assert_eq!(v.validate_at(&order("AAPL", q, OrderType::Limit, p, 1000), 1060), Ok(()));
    }
}

#[test]
fn unknown_symbol_wins_over_every_other_failure() {
    let mut v = limit_validator();
    v.set_max_order_age(Some(1));
    let o = order("ZZZ", -5, OrderType::Stop, -1, 0);
    assert_eq!(
        v.validate_at(&o, 1_000_000),
        Err(ValidationError::UnknownSymbol { symbol: "ZZZ".to_string() })
    );
}

#[test]
fn each_check_reports_its_error() {
    let mut v = limit_validator();
    v.set_max_order_age(Some(60));
    assert_eq!(
        v.validate_at(&order("AAPL", 5, OrderType::Market, 0, 0), 0),
        Err(ValidationError::NoRuleForType { order_type: OrderType::Market })
    );
    assert_eq!(
        v.validate_at(&order("AAPL", 1001, OrderType::Limit, 150, 0), 0),
        Err(ValidationError::QuantityOutOfRange { quantity: 1001, min_quantity: 1, max_quantity: 1000 })
    );
    assert_eq!(
        v.validate_at(&order("AAPL", 0, OrderType::Limit, 150, 0), 0),
        Err(ValidationError::QuantityOutOfRange { quantity: 0, min_quantity: 1, max_quantity: 1000 })
    );
    assert_eq!(
        v.validate_at(&order("AAPL", 10, OrderType::Limit, 501, 0), 0),
        Err(ValidationError::PriceOutOfRange { price: 501, min_price: 10, max_price: 500 })
    );
    assert_eq!(
        v.validate_at(&order("AAPL", 10, OrderType::Limit, 150, 1000), 1061),
        Err(ValidationError::OrderTooOld { timestamp: 1000, max_age: 60 })
    );
}

#[test]
fn market_orders_skip_the_price_check() {
    let mut v = limit_validator();
    v.set_rule(OrderType::Market, ValidationRule::new(1, 10, 100, 200));
    assert_eq!(v.validate_at(&order("AAPL", 5, OrderType::Market, 0, 0), 0), Ok(()));
}

#[test]
fn age_check_off_when_unset() {
    let mut v = limit_validator();
    v.set_max_order_age(Some(5));
    v.set_max_order_age(None);
    assert_eq!(v.validate_at(&order("AAPL", 5, OrderType::Limit, 20, 0), 1_000_000_000), Ok(()));
}

#[test]
fn messages_are_exact() {
    assert_eq!(
        ValidationError::UnknownSymbol { symbol: "MSFT".to_string() }.message(),
        "Invalid symbol: MSFT"
    );
    assert_eq!(
        ValidationError::NoRuleForType { order_type: OrderType::StopLimit }.message(),
        "No validation rule for order type: StopLimit"
    );
    assert_eq!(
        ValidationError::QuantityOutOfRange { quantity: 0, min_quantity: -20, max_quantity: 1000 }
            .message(),
        "Order quantity must be between -20 and 1000"
    );
    assert_eq!(
        ValidationError::PriceOutOfRange { price: 0, min_price: 10, max_price: 500 }.message(),
        "Order price must be between 10 and 500"
    );
    assert_eq!(ValidationError::OrderTooOld { timestamp: 0, max_age: 1 }.message(), "Order is too old");
}

#[test]
fn batch_reports_failing_indices_in_order() {
    let v = limit_validator();
    let orders = vec![
        order("AAPL", 100, OrderType::Limit, 150, 0),
        order("MSFT", 100, OrderType::Limit, 150, 0),
        order("AAPL", 100, OrderType::Limit, 150, 0),
        order("AAPL", 2000, OrderType::Limit, 150, 0),
        order("AAPL", 100, OrderType::Stop, 150, 0),
    ];
    let r = v.validate_multiple_at(&orders, 0);
    assert_eq!(
        r,
        vec![
            (1, "Invalid symbol: MSFT".to_string()),
            (3, "Order quantity must be between 1 and 1000".to_string()),
            (4, "No validation rule for order type: Stop".to_string()),
        ]
    );
    for (i, o) in orders.iter().enumerate() {
        let failed = v.validate_at(o, 0).is_err();
        assert_eq!(failed, r.iter().any(|(k, m)| *k == i && !m.is_empty()));
    }
    assert_eq!(v.validate_multiple(&orders).len(), 3);
}

#[test]
fn empty_batch_reports_nothing() {
    let v = limit_validator();
    assert!(v.validate_multiple(&Vec::new()).is_empty());
}

#[test]
fn set_rule_replaces_only_its_type() {
    let mut v = limit_validator();
    v.set_rule(OrderType::Limit, ValidationRule::new(2, 3, 4, 5));
    assert_eq!(v.rules.get(&OrderType::Limit), Some(&ValidationRule::new(2, 3, 4, 5)));
    assert_eq!(v.rules.get(&OrderType::Stop), None);
}

#[test]
fn order_description_is_exact() {
    let mut o = order("AAPL", -100, OrderType::Limit, 150, 1625140800);
    assert_eq!(
        o.describe(),
        "Order(symbol=AAPL, quantity=-100, order_type=Limit, price=150, timestamp=1625140800)"
    );
    let mut extra = HashMap::new();
    extra.insert("account".to_string(), "A1".to_string());
    o.set_additional_data(extra.clone());
    assert_eq!(o.additional_data, Some(extra));
}

#[test]
fn clock_reads_a_recent_time() {
    assert!(unix_now() > 1_600_000_000);
}

use quanta_engine::{
    Order, OrderExecutor, OrderType, OrderValidator, RegistryError, StrategyManager, StrategyStatus,
    ValidationError, ValidationRule,
};

fn manager_with_user() -> StrategyManager<u32> {
    let mut m = StrategyManager::new();
    m.add_user("u1".to_string(), "Alice".to_string(), 1);
    m
}

#[test]
fn unknown_user_is_refused_and_nothing_changes() {
    let mut m = manager_with_user();
    assert_eq!(
        m.add_strategy_at("s1".to_string(), "S".to_string(), "nobody".to_string(), 5, 10),
        Err(RegistryError::UserNotFound)
    );
    assert!(m.get_strategy("s1").is_none());
    assert!(m.list_active_strategies().is_empty());
}

#[test]
fn added_strategy_is_active_and_owned() {
    let mut m = manager_with_user();
    m.add_strategy_at("s1".to_string(), "S".to_string(), "u1".to_string(), 5, 10).unwrap();
    let s = m.get_strategy("s1").unwrap();
    assert_eq!(s.status, StrategyStatus::Active);
    assert_eq!(s.user_id, "u1");
    assert_eq!(s.created_at, 10);
    assert_eq!(s.updated_at, 10);
    assert_eq!(s.user.name, "Alice");
    assert_eq!(s.get_strategy(), 5);
    assert_eq!(s.get_broker_api(), 1);
}

#[test]
fn paused_strategy_leaves_active_list() {
    let mut m = manager_with_user();
    m.add_strategy("s1".to_string(), "S".to_string(), "u1".to_string(), 5).unwrap();
    m.add_strategy("s2".to_string(), "T".to_string(), "u1".to_string(), 6).unwrap();
    m.update_strategy_status("s1", StrategyStatus::Paused).unwrap();
    let active = m.list_active_strategies();
    assert_eq!(active.len(), 1);
    assert_eq!(active[0].id, "s2");
    let s = m.get_strategy("s1").unwrap();
    assert_eq!(s.status, StrategyStatus::Paused);
    assert!(s.updated_at >= s.created_at);
}

#[test]
fn update_time_never_goes_back() {
    let mut m = manager_with_user();
    m.add_strategy_at("s1".to_string(), "S".to_string(), "u1".to_string(), 5, 100).unwrap();
    m.update_strategy_status_at("s1", StrategyStatus::Stopped, 50).unwrap();
    let s = m.get_strategy("s1").unwrap();
    assert_eq!(s.status, StrategyStatus::Stopped);
    assert_eq!(s.updated_at, 100);
    m.update_strategy_status_at("s1", StrategyStatus::Active, 150).unwrap();
    let s = m.get_strategy("s1").unwrap();
    assert_eq!(s.status, StrategyStatus::Active);
    assert_eq!(s.updated_at, 150);
    assert_eq!(s.created_at, 100);
}

#[test]
fn unknown_strategy_update_is_refused() {
    let mut m = manager_with_user();
    m.add_strategy_at("s1".to_string(), "S".to_string(), "u1".to_string(), 5, 10).unwrap();
    assert_eq!(
        m.update_strategy_status("nope", StrategyStatus::Paused),
        Err(RegistryError::StrategyNotFound)
    );
    let all = m.list_user_strategies("u1");
    assert_eq!(all.len(), 1);
    assert_eq!(all[0].status, StrategyStatus::Active);
}

#[test]
fn same_ids_replace_earlier_entries() {
    let mut m = manager_with_user();
    m.add_user("u2".to_string(), "Bob".to_string(), 2);
    m.add_strategy_at("s1".to_string(), "S".to_string(), "u1".to_string(), 5, 10).unwrap();
    m.add_strategy_at("s1".to_string(), "S2".to_string(), "u2".to_string(), 6, 20).unwrap();
    let s = m.get_strategy("s1").unwrap();
    assert_eq!(s.name, "S2");
    assert_eq!(s.user_id, "u2");
    assert_eq!(m.list_active_strategies().len(), 1);
    m.add_user("u1".to_string(), "Alicia".to_string(), 3);
    assert!(m.has_user("u1"));
    assert!(!m.has_user("u3"));
    assert!(m.list_user_strategies("u1").is_empty());
}

#[test]
fn snapshots_are_independent() {
    let mut m = manager_with_user();
    m.add_strategy_at("s1".to_string(), "S".to_string(), "u1".to_string(), 5, 10).unwrap();
    let mut copy = m.get_strategy("s1").unwrap();
    copy.status = StrategyStatus::Stopped;
    assert_eq!(m.get_strategy("s1").unwrap().status, StrategyStatus::Active);
}

#[test]
fn executor_prepares_and_queues() {
    let mut v = OrderValidator::new();
    v.add_symbol("AAPL".to_string());
    v.set_rule(OrderType::Market, ValidationRule::new(1, 10, 0, 0));
    v.set_rule(OrderType::Limit, ValidationRule::new(1, 10, 1, 100));
    let mut ex = OrderExecutor::new(v, 42u8);
    assert_eq!(*ex.callback(), 42);
    let market = Order::new("AAPL".to_string(), 5, OrderType::Market, 77, 0, None);
    let p = ex.prepare_order_at(&market, 0).unwrap();
    assert_eq!(p.order_type, "Market");
    assert_eq!(p.price, None);
    let limit = Order::new("AAPL".to_string(), 5, OrderType::Limit, 50, 0, None);
    let p = ex.prepare_order(&limit).unwrap();
    assert_eq!(p.symbol, "AAPL");
    assert_eq!(p.price, Some(50));
    let bad = Order::new("AAPL".to_string(), 50, OrderType::Limit, 50, 0, None);
    assert_eq!(
        ex.prepare_order_at(&bad, 0).unwrap_err(),
        ValidationError::QuantityOutOfRange { quantity: 50, min_quantity: 1, max_quantity: 10 }
    );
    ex.queue_order(market);
    ex.queue_order(limit);
    assert_eq!(ex.queued_len(), 2);
    assert_eq!(ex.pop_queued().unwrap().order_type, OrderType::Market);
    assert_eq!(ex.pop_queued().unwrap().order_type, OrderType::Limit);
    assert!(ex.pop_queued().is_none());
}

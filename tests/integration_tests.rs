use quanta_engine::StrategyManager;

#[test]
fn integration_tests_test_strategy_manager_integration() {
    let mut strategy_manager = StrategyManager::new();
    let user_id = "user1".to_string();
    let strategy_id = "strat1".to_string();

    let broker_api = 7u32;

    strategy_manager.add_user(user_id.clone(), "User 1".to_string(), broker_api);

    let strategy = 11u32;

    strategy_manager
        .add_strategy(strategy_id.clone(), "Test Strategy".to_string(), user_id.clone(), strategy)
        .unwrap();

    let retrieved_strategy = strategy_manager.get_strategy(&strategy_id).unwrap();
    assert_eq!(retrieved_strategy.id, strategy_id);
}

#[test]
fn lib_test_strategy_manager_integration() {
    let mut strategy_manager = StrategyManager::new();
    let user_id = "user1".to_string();
    let strategy_id = "strat1".to_string();

    strategy_manager.add_user(user_id.clone(), "User 1".to_string(), 7u32);
    strategy_manager
        .add_strategy(strategy_id.clone(), "Test Strategy".to_string(), user_id.clone(), 11u32)
        .unwrap();

    let retrieved_strategy = strategy_manager.get_strategy(&strategy_id).unwrap();
    assert_eq!(retrieved_strategy.id, strategy_id);
}

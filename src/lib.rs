//! An in-process trading-order engine: rule-based order validation, portfolio
//! risk screening, and a registry of user-owned trading strategies.
//!
//! Amounts are integers: quantities in whole units (the sign gives the side),
//! prices in the instrument's minor unit, and times in whole seconds since the
//! Unix epoch.
pub mod clock;
pub mod executor;
pub mod keyed;
pub mod order;
pub mod registry;
pub mod risk;
pub mod strategy;
pub mod text;
pub mod validation;

pub use executor::{OrderExecutor, PreparedOrder};
pub use order::{Order, OrderType};
pub use registry::{RegistryError, StrategyManager};
pub use risk::RiskValidator;
pub use strategy::{StrategyStatus, StrategyWrapper, User};
pub use validation::{OrderValidator, RuleTable, ValidationError, ValidationRule};

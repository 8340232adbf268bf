use crate::clock::unix_now;
use crate::order::{Order, OrderType};
use crate::text::{decimal, decimal_string};
use vstd::prelude::*;
use vstd::string::StringExecFns;

verus! {

/// Bounds on quantity and price for one order type; both ends are inclusive.
#[derive(Debug, Clone, Copy, PartialEq, Eq, Structural)]
pub struct ValidationRule {
    pub min_quantity: i64,
    pub max_quantity: i64,
    pub min_price: i64,
    pub max_price: i64,
}

impl ValidationRule {
    pub fn new(min_quantity: i64, max_quantity: i64, min_price: i64, max_price: i64) -> (r:
        ValidationRule)
        ensures
            r.min_quantity == min_quantity,
            r.max_quantity == max_quantity,
            r.min_price == min_price,
            r.max_price == max_price,
    {
        ValidationRule { min_quantity, max_quantity, min_price, max_price }
    }
}

/// One rule slot per order type.
#[derive(Debug, Clone, Copy, PartialEq, Eq, Structural)]
pub struct RuleTable {
    pub market: Option<ValidationRule>,
    pub limit: Option<ValidationRule>,
    pub stop: Option<ValidationRule>,
    pub stop_limit: Option<ValidationRule>,
}

impl RuleTable {
    /// The rule set for `t`, if any.
    pub open spec fn rule_for(self, t: OrderType) -> Option<ValidationRule> {
        match t {
            OrderType::Market => self.market,
            OrderType::Limit => self.limit,
            OrderType::Stop => self.stop,
            OrderType::StopLimit => self.stop_limit,
        }
    }

    pub fn new() -> (r: RuleTable)
        ensures
            forall|t: OrderType| r.rule_for(t) is None,
    {
        RuleTable { market: None, limit: None, stop: None, stop_limit: None }
    }

    pub fn get(&self, t: &OrderType) -> (r: Option<&ValidationRule>)
        ensures
            r is Some <==> self.rule_for(*t) is Some,
            r matches Some(rule) ==> self.rule_for(*t) == Some(*rule),
    {
        match t {
            OrderType::Market => self.market.as_ref(),
            OrderType::Limit => self.limit.as_ref(),
            OrderType::Stop => self.stop.as_ref(),
            OrderType::StopLimit => self.stop_limit.as_ref(),
        }
    }

    /// Replaces the rule for `t`; the other slots keep theirs.
    pub fn insert(&mut self, t: OrderType, rule: ValidationRule)
        ensures
            forall|u: OrderType|
                #[trigger] final(self).rule_for(u) == if u == t {
                    Some(rule)
                } else {
                    old(self).rule_for(u)
                },
    {
        match t {
            OrderType::Market => self.market = Some(rule),
            OrderType::Limit => self.limit = Some(rule),
            OrderType::Stop => self.stop = Some(rule),
            OrderType::StopLimit => self.stop_limit = Some(rule),
        }
    }
}

/// Why an order was rejected, with the offending value and the bound it broke.
#[derive(Debug, Clone, PartialEq, Eq)]
pub enum ValidationError {
    UnknownSymbol { symbol: String },
    NoRuleForType { order_type: OrderType },
    QuantityOutOfRange { quantity: i64, min_quantity: i64, max_quantity: i64 },
    PriceOutOfRange { price: i64, min_price: i64, max_price: i64 },
    OrderTooOld { timestamp: i64, max_age: i64 },
}

impl ValidationError {
    /// The human-readable reason.
    pub open spec fn message_spec(self) -> Seq<char> {
        match self {
            ValidationError::UnknownSymbol { symbol } => "Invalid symbol: "@ + symbol@,
            ValidationError::NoRuleForType { order_type } => "No validation rule for order type: "@
                + order_type.name_spec(),
            ValidationError::QuantityOutOfRange { min_quantity, max_quantity, .. } =>
                "Order quantity must be between "@ + decimal(min_quantity as int) + " and "@
                + decimal(max_quantity as int),
            ValidationError::PriceOutOfRange { min_price, max_price, .. } =>
                "Order price must be between "@ + decimal(min_price as int) + " and "@ + decimal(
                max_price as int),
            ValidationError::OrderTooOld { .. } => "Order is too old"@,
        }
    }

    pub fn message(&self) -> (r: String)
        ensures
            r@ == self.message_spec(),
    {
        match self {
            ValidationError::UnknownSymbol { symbol } => {
                let mut s = "Invalid symbol: ".to_owned();
                s.append(symbol.as_str());
                s
            },
            ValidationError::NoRuleForType { order_type } => {
                let mut s = "No validation rule for order type: ".to_owned();
                s.append(order_type.name());
                s
            },
            ValidationError::QuantityOutOfRange { min_quantity, max_quantity, .. } => {
                between("Order quantity must be between ", *min_quantity, *max_quantity)
            },
            ValidationError::PriceOutOfRange { min_price, max_price, .. } => {
                between("Order price must be between ", *min_price, *max_price)
            },
            ValidationError::OrderTooOld { .. } => "Order is too old".to_owned(),
        }
    }
}

fn between(prefix: &str, lo: i64, hi: i64) -> (r: String)
    ensures
        r@ == prefix@ + decimal(lo as int) + " and "@ + decimal(hi as int),
{
    let mut s = prefix.to_owned();
    let lo_text = decimal_string(lo);
    s.append(lo_text.as_str());
    s.append(" and ");
    let hi_text = decimal_string(hi);
    s.append(hi_text.as_str());
    s
}

/// Validates orders against per-type rules, a symbol allow-list and an
/// optional maximum order age (seconds).
#[derive(Debug, Clone)]
pub struct OrderValidator {
    pub rules: RuleTable,
    pub symbols: Vec<String>,
    pub max_order_age: Option<i64>,
}

impl OrderValidator {
    /// Whether `symbol` is on the allow-list.
    pub open spec fn allows(self, symbol: Seq<char>) -> bool {
        exists|i: int| 0 <= i < self.symbols@.len() && #[trigger] self.symbols@[i]@ == symbol
    }

    /// The checks that do not depend on the time, in order: symbol, rule,
    /// quantity, and price (but for market orders).
    pub open spec fn static_outcome(self, order: Order) -> Result<(), ValidationError> {
        if !self.allows(order.symbol@) {
            Err(ValidationError::UnknownSymbol { symbol: order.symbol })
        } else {
            match self.rules.rule_for(order.order_type) {
                None => Err(ValidationError::NoRuleForType { order_type: order.order_type }),
                Some(rule) => if order.quantity < rule.min_quantity || order.quantity
                    > rule.max_quantity {
                    Err(
                        ValidationError::QuantityOutOfRange {
                            quantity: order.quantity,
                            min_quantity: rule.min_quantity,
                            max_quantity: rule.max_quantity,
                        },
                    )
                } else if order.order_type != OrderType::Market && (order.price < rule.min_price
                    || order.price > rule.max_price) {
                    Err(
                        ValidationError::PriceOutOfRange {
                            price: order.price,
                            min_price: rule.min_price,
                            max_price: rule.max_price,
                        },
                    )
                } else {
                    Ok(())
                },
            }
        }
    }

    /// The full verdict at time `now`: the static checks, then the age check.
    pub open spec fn outcome(self, order: Order, now: int) -> Result<(), ValidationError> {
        match self.static_outcome(order) {
            Err(e) => Err(e),
            Ok(_) => match self.max_order_age {
                Some(max_age) => if now - order.timestamp > max_age {
                    Err(
                        ValidationError::OrderTooOld {
                            timestamp: order.timestamp,
                            max_age: max_age,
                        },
                    )
                } else {
                    Ok(())
                },
                None => Ok(()),
            },
        }
    }

    pub fn new() -> (r: OrderValidator)
        ensures
            forall|t: OrderType| r.rules.rule_for(t) is None,
            r.symbols@.len() == 0,
            r.max_order_age is None,
    {
        OrderValidator { rules: RuleTable::new(), symbols: Vec::new(), max_order_age: None }
    }

    /// Whether `symbol` is on the allow-list.
    pub fn is_allowed(&self, symbol: &String) -> (r: bool)
        ensures
            r == self.allows(symbol@),
    {
        let n = self.symbols.len();
        let mut i: usize = 0;
        while i < n
            invariant
                n == self.symbols@.len(),
                0 <= i <= n,
                forall|j: int| 0 <= j < i ==> #[trigger] self.symbols@[j]@ != symbol@,
            decreases n - i,
        {
            if self.symbols[i] == *symbol {
                return true;
            }
            i += 1;
        }
        false
    }

    /// Validates `order` as of `now` (seconds since the epoch).
    pub fn validate_at(&self, order: &Order, now: i128) -> (r: Result<(), ValidationError>)
        ensures
            r == self.outcome(*order, now as int),
    {
        if !self.is_allowed(&order.symbol) {
            return Err(ValidationError::UnknownSymbol { symbol: order.symbol.clone() });
        }
        match self.rules.get(&order.order_type) {
            None => {
                return Err(ValidationError::NoRuleForType { order_type: order.order_type });
            },
            Some(rule) => {
                if order.quantity < rule.min_quantity || order.quantity > rule.max_quantity {
                    return Err(
                        ValidationError::QuantityOutOfRange {
                            quantity: order.quantity,
                            min_quantity: rule.min_quantity,
                            max_quantity: rule.max_quantity,
                        },
                    );
                }
                if order.order_type != OrderType::Market && (order.price < rule.min_price
                    || order.price > rule.max_price) {
                    return Err(
                        ValidationError::PriceOutOfRange {
                            price: order.price,
                            min_price: rule.min_price,
                            max_price: rule.max_price,
                        },
                    );
                }
            },
        }
        if let Some(max_age) = self.max_order_age {
            // now - timestamp > max_age, without a subtraction that could overflow
            if now > order.timestamp as i128 + max_age as i128 {
                return Err(ValidationError::OrderTooOld { timestamp: order.timestamp, max_age });
            }
        }
        Ok(())
    }

    /// Validates `order` against the clock. The age check is the only one
    /// that depends on the time.
    pub fn validate(&self, order: &Order) -> (r: Result<(), ValidationError>)
        ensures
            exists|now: int| r == self.outcome(*order, now),
            self.static_outcome(*order) is Err ==> r == self.static_outcome(*order),
            self.max_order_age is None ==> r == self.static_outcome(*order),
    {
        let now = unix_now();
        self.validate_at(order, now)
    }
}

/// A batch entry as the contracts see it: the order's index and the reason.
pub open spec fn entry_view(e: (usize, String)) -> (int, Seq<char>) {
    (e.0 as int, e.1@)
}

impl OrderValidator {
    /// The failing orders of a batch, in input order, each with its index and
    /// reason, all judged at time `now`.
    pub open spec fn failures(self, orders: Seq<Order>, now: int) -> Seq<(int, Seq<char>)>
        decreases orders.len(),
    {
        if orders.len() == 0 {
            seq![]
        } else {
            let earlier = self.failures(orders.drop_last(), now);
            match self.outcome(orders.last(), now) {
                Err(e) => earlier.push((orders.len() - 1, e.message_spec())),
                Ok(_) => earlier,
            }
        }
    }

    /// Replaces the rule for `order_type`.
    pub fn set_rule(&mut self, order_type: OrderType, rule: ValidationRule)
        ensures
            forall|t: OrderType|
                #[trigger] final(self).rules.rule_for(t) == if t == order_type {
                    Some(rule)
                } else {
                    old(self).rules.rule_for(t)
                },
            final(self).symbols == old(self).symbols,
            final(self).max_order_age == old(self).max_order_age,
    {
        self.rules.insert(order_type, rule);
    }

    /// Appends `symbol` to the allow-list.
    pub fn add_symbol(&mut self, symbol: String)
        ensures
            final(self).symbols@ == old(self).symbols@.push(symbol),
            final(self).rules == old(self).rules,
            final(self).max_order_age == old(self).max_order_age,
    {
        self.symbols.push(symbol);
    }

    /// Replaces the age limit; `None` turns the age check off.
    pub fn set_max_order_age(&mut self, max_age: Option<i64>)
        ensures
            final(self).max_order_age == max_age,
            final(self).rules == old(self).rules,
            final(self).symbols == old(self).symbols,
    {
        self.max_order_age = max_age;
    }

    /// Validates each order on its own at time `now` and returns the index
    /// and reason of every one that fails, in input order.
    pub fn validate_multiple_at(&self, orders: &Vec<Order>, now: i128) -> (r: Vec<(usize, String)>)
        ensures
            r@.map_values(|e: (usize, String)| entry_view(e)) == self.failures(orders@, now as int),
    {
        let mut errors: Vec<(usize, String)> = Vec::new();
        let n = orders.len();
        let mut i: usize = 0;
        while i < n
            invariant
                n == orders@.len(),
                0 <= i <= n,
                errors@.map_values(|e: (usize, String)| entry_view(e)) == self.failures(
                    orders@.subrange(0, i as int),
                    now as int,
                ),
            decreases n - i,
        {
            let ghost before = errors@;
            proof {
                assert(orders@.subrange(0, i + 1).drop_last() =~= orders@.subrange(0, i as int));
            }
            match self.validate_at(&orders[i], now) {
                Err(e) => {
                    errors.push((i, e.message()));
                    assert(errors@.map_values(|e: (usize, String)| entry_view(e)) =~= before.map_values(
                        |e: (usize, String)| entry_view(e),
                    ).push(entry_view(errors@.last())));
                },
                Ok(_) => {},
            }
            i += 1;
        }
        assert(orders@.subrange(0, n as int) =~= orders@);
        errors
    }

    /// Validates each order on its own against one reading of the clock and
    /// returns the index and reason of every one that fails, in input order.
    pub fn validate_multiple(&self, orders: &Vec<Order>) -> (r: Vec<(usize, String)>)
        ensures
            exists|now: int|
                r@.map_values(|e: (usize, String)| entry_view(e)) == self.failures(orders@, now),
    {
        let now = unix_now();
        self.validate_multiple_at(orders, now)
    }
}

/// Every rejection reason is non-empty.
pub proof fn lemma_message_nonempty(e: ValidationError)
    ensures
        e.message_spec().len() > 0,
{
    reveal_strlit("Invalid symbol: ");
    reveal_strlit("No validation rule for order type: ");
    reveal_strlit("Order quantity must be between ");
    reveal_strlit("Order price must be between ");
    reveal_strlit(" and ");
    reveal_strlit("Order is too old");
}

/// An order whose symbol is allowed, whose type has a rule, whose quantity
/// and (unless it is a market order) price lie within that rule's bounds, and
/// which is no older than the age limit, if one is set, passes validation.
pub proof fn lemma_conforming_order_passes(v: OrderValidator, order: Order, now: int)
    requires
        v.allows(order.symbol@),
        v.rules.rule_for(order.order_type) matches Some(rule) && rule.min_quantity
            <= order.quantity <= rule.max_quantity && (order.order_type == OrderType::Market || (
        rule.min_price <= order.price <= rule.max_price)),
        v.max_order_age matches Some(max_age) ==> now - order.timestamp <= max_age,
    ensures
        v.outcome(order, now) == Ok::<(), ValidationError>(()),
{
}

/// An order whose symbol is not on the allow-list fails with `UnknownSymbol`,
/// whatever its other fields and whatever the time.
pub proof fn lemma_unknown_symbol_rejected(v: OrderValidator, order: Order, now: int)
    requires
        !v.allows(order.symbol@),
    ensures
        v.outcome(order, now) == Err::<(), ValidationError>(
            ValidationError::UnknownSymbol { symbol: order.symbol },
        ),
{
}

/// A batch reports exactly the orders that fail on their own: each reported
/// index names a failing order and carries that order's non-empty reason, the
/// indices rise in input order, and no failing order is left out.
pub proof fn lemma_batch_reports_exactly_the_failures(
    v: OrderValidator,
    orders: Seq<Order>,
    now: int,
)
    ensures
        forall|k: int|
            0 <= k < v.failures(orders, now).len() ==> {
                let (i, reason) = #[trigger] v.failures(orders, now)[k];
                &&& 0 <= i < orders.len()
                &&& v.outcome(orders[i], now) matches Err(e) && reason == e.message_spec()
                &&& reason.len() > 0
            },
        forall|k1: int, k2: int|
            0 <= k1 < k2 < v.failures(orders, now).len() ==> v.failures(orders, now)[k1].0 < v.failures(
                orders,
                now,
            )[k2].0,
        forall|i: int|
            0 <= i < orders.len() && (#[trigger] v.outcome(orders[i], now)) is Err ==> exists|k: int|
                0 <= k < v.failures(orders, now).len() && v.failures(orders, now)[k].0 == i,
    decreases orders.len(),
{
    if orders.len() > 0 {
        let prefix = orders.drop_last();
        lemma_batch_reports_exactly_the_failures(v, prefix, now);
        let f0 = v.failures(prefix, now);
        let f = v.failures(orders, now);
        assert forall|k: int| 0 <= k < f0.len() implies f0[k].0 < orders.len() - 1 && orders[f0[k].0]
            == prefix[f0[k].0] by {}
        match v.outcome(orders.last(), now) {
            Err(e) => {
                lemma_message_nonempty(e);
                assert(f == f0.push((orders.len() - 1, e.message_spec())));
                assert forall|i: int|
                    0 <= i < orders.len() && (#[trigger] v.outcome(orders[i], now)) is Err implies exists|
                    k: int,
                | 0 <= k < f.len() && f[k].0 == i by {
                    if i < orders.len() - 1 {
                        assert(orders[i] == prefix[i]);
                        assert(v.outcome(prefix[i], now) is Err);
                        let k = choose|k: int| 0 <= k < f0.len() && f0[k].0 == i;
                        assert(f[k] == f0[k]);
                    } else {
                        assert(f[f.len() - 1].0 == i);
                    }
                }
            },
            Ok(_) => {
                assert forall|i: int|
                    0 <= i < orders.len() && (#[trigger] v.outcome(orders[i], now)) is Err implies exists|
                    k: int,
                | 0 <= k < f.len() && f[k].0 == i by {
                    assert(i != orders.len() - 1);
                    assert(orders[i] == prefix[i]);
                    assert(v.outcome(prefix[i], now) is Err);
                }
            },
        }
    }
}

} // verus!

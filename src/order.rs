use std::collections::HashMap;
use crate::text::{decimal, decimal_string};
use vstd::prelude::*;
use vstd::string::StringExecFns;

verus! {

/// The kind of an order.
#[derive(Debug, Clone, Copy, PartialEq, Eq, Hash, Structural)]
pub enum OrderType {
    Market,
    Limit,
    Stop,
    StopLimit,
}

impl OrderType {
    /// The name under which the order type is shown.
    pub open spec fn name_spec(self) -> Seq<char> {
        match self {
            OrderType::Market => "Market"@,
            OrderType::Limit => "Limit"@,
            OrderType::Stop => "Stop"@,
            OrderType::StopLimit => "StopLimit"@,
        }
    }

    pub fn name(&self) -> (r: &'static str)
        ensures
            r@ == self.name_spec(),
    {
        match self {
            OrderType::Market => "Market",
            OrderType::Limit => "Limit",
            OrderType::Stop => "Stop",
            OrderType::StopLimit => "StopLimit",
        }
    }
}

/// A proposed trade. Validity is not an invariant of the type: it is what
/// the validators decide.
#[derive(Debug, Clone)]
pub struct Order {
    pub symbol: String,
    /// Signed: a negative quantity sells.
    pub quantity: i64,
    pub order_type: OrderType,
    /// Always stored, though a market order ignores it.
    pub price: i64,
    /// Seconds since the Unix epoch.
    pub timestamp: i64,
    /// Broker-specific fields.
    pub additional_data: Option<HashMap<String, String>>,
}

impl Order {
    pub fn new(
        symbol: String,
        quantity: i64,
        order_type: OrderType,
        price: i64,
        timestamp: i64,
        additional_data: Option<HashMap<String, String>>,
    ) -> (r: Order)
        ensures
            r.symbol == symbol,
            r.quantity == quantity,
            r.order_type == order_type,
            r.price == price,
            r.timestamp == timestamp,
            r.additional_data == additional_data,
    {
        Order { symbol, quantity, order_type, price, timestamp, additional_data }
    }

    pub fn set_additional_data(&mut self, data: HashMap<String, String>)
        ensures
            final(self).additional_data == Some(data),
            final(self).symbol == old(self).symbol,
            final(self).quantity == old(self).quantity,
            final(self).order_type == old(self).order_type,
            final(self).price == old(self).price,
            final(self).timestamp == old(self).timestamp,
    {
        self.additional_data = Some(data);
    }
}

impl Order {
    /// The one-line description of the order.
    pub open spec fn describe_spec(self) -> Seq<char> {
        "Order(symbol="@ + self.symbol@ + ", quantity="@ + decimal(self.quantity as int)
            + ", order_type="@ + self.order_type.name_spec() + ", price="@ + decimal(
            self.price as int,
        ) + ", timestamp="@ + decimal(self.timestamp as int) + ")"@
    }

    pub fn describe(&self) -> (r: String)
        ensures
            r@ == self.describe_spec(),
    {
        let mut s = "Order(symbol=".to_owned();
        s.append(self.symbol.as_str());
        s.append(", quantity=");
        let q = decimal_string(self.quantity);
        s.append(q.as_str());
        s.append(", order_type=");
        s.append(self.order_type.name());
        s.append(", price=");
        let p = decimal_string(self.price);
        s.append(p.as_str());
        s.append(", timestamp=");
        let t = decimal_string(self.timestamp);
        s.append(t.as_str());
        s.append(")");
        s
    }
}

} // verus!

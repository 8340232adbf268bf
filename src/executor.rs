use crate::clock::unix_now;
use crate::order::{Order, OrderType};
use crate::validation::{OrderValidator, ValidationError};
use std::collections::HashMap;
use std::collections::VecDeque;
use vstd::prelude::*;

verus! {

/// The fields of a validated order as the broker receives them. A market
/// order carries no price.
#[derive(Debug, Clone)]
pub struct PreparedOrder {
    pub symbol: String,
    pub quantity: i64,
    /// The order type's name.
    pub order_type: String,
    pub price: Option<i64>,
    /// Broker-specific fields, passed on as they are.
    pub additional_data: Option<HashMap<String, String>>,
}

/// `p` is what `order` becomes once prepared for the broker.
pub open spec fn prepared_from(p: PreparedOrder, order: Order) -> bool {
    &&& p.symbol == order.symbol
    &&& p.quantity == order.quantity
    &&& p.order_type@ == order.order_type.name_spec()
    &&& p.price == if order.order_type == OrderType::Market {
        None
    } else {
        Some(order.price)
    }
    &&& p.additional_data is Some <==> order.additional_data is Some
    &&& p.additional_data matches Some(m) ==> m@ == order.additional_data.unwrap()@
}

/// Validates orders and hands them to a broker callback, one at a time or
/// from a first-in first-out queue. `C` is the host's callback handle; the
/// host makes the calls.
pub struct OrderExecutor<C> {
    validator: OrderValidator,
    callback: C,
    order_queue: VecDeque<Order>,
}

impl<C> OrderExecutor<C> {
    pub closed spec fn validator_spec(&self) -> OrderValidator {
        self.validator
    }

    pub closed spec fn callback_spec(&self) -> C {
        self.callback
    }

    /// The queued orders, oldest first.
    pub closed spec fn queued(&self) -> Seq<Order> {
        self.order_queue@
    }

    pub fn new(validator: OrderValidator, callback: C) -> (r: OrderExecutor<C>)
        ensures
            r.validator_spec() == validator,
            r.callback_spec() == callback,
            r.queued().len() == 0,
    {
        OrderExecutor { validator, callback, order_queue: VecDeque::new() }
    }

    /// Validates `order` as of `now` and, when it passes, gives the fields the
    /// broker receives.
    pub fn prepare_order_at(&self, order: &Order, now: i128) -> (r: Result<
        PreparedOrder,
        ValidationError,
    >)
        ensures
            match self.validator_spec().outcome(*order, now as int) {
                Err(e) => r == Err::<PreparedOrder, ValidationError>(e),
                Ok(_) => r matches Ok(p) && prepared_from(p, *order),
            },
    {
        match self.validator.validate_at(order, now) {
            Err(e) => Err(e),
            Ok(()) => {
                let price = if order.order_type == OrderType::Market {
                    None
                } else {
                    Some(order.price)
                };
                let additional_data = match &order.additional_data {
                    Some(m) => Some(m.clone()),
                    None => None,
                };
                Ok(
                    PreparedOrder {
                        symbol: order.symbol.clone(),
                        quantity: order.quantity,
                        order_type: order.order_type.name().to_owned(),
                        price,
                        additional_data,
                    },
                )
            },
        }
    }

    /// Validates `order` against the clock and, when it passes, gives the
    /// fields the broker receives.
    pub fn prepare_order(&self, order: &Order) -> (r: Result<PreparedOrder, ValidationError>)
        ensures
            exists|now: int|
                match #[trigger] self.validator_spec().outcome(*order, now) {
                    Err(e) => r == Err::<PreparedOrder, ValidationError>(e),
                    Ok(_) => r matches Ok(p) && prepared_from(p, *order),
                },
    {
        let now = unix_now();
        self.prepare_order_at(order, now)
    }

    /// Puts `order` at the back of the queue.
    pub fn queue_order(&mut self, order: Order)
        ensures
            final(self).queued() == old(self).queued().push(order),
            final(self).validator_spec() == old(self).validator_spec(),
    {
        self.order_queue.push_back(order);
    }

    /// Takes the oldest queued order, if any.
    pub fn pop_queued(&mut self) -> (r: Option<Order>)
        ensures
            old(self).queued().len() == 0 ==> r is None && final(self).queued() == old(self).queued(),
            old(self).queued().len() > 0 ==> r == Some(old(self).queued()[0]) && final(self).queued()
                == old(self).queued().drop_first(),
            final(self).validator_spec() == old(self).validator_spec(),
    {
        let r = self.order_queue.pop_front();
        proof {
            if r is Some {
                assert(self.order_queue@ =~= old(self).order_queue@.drop_first());
            }
        }
        r
    }

    /// The broker callback handle.
    pub fn callback(&self) -> (r: &C)
        ensures
            *r == self.callback_spec(),
    {
        &self.callback
    }

    /// The number of queued orders.
    pub fn queued_len(&self) -> (r: usize)
        ensures
            r == self.queued().len(),
    {
        self.order_queue.len()
    }
}

} // verus!

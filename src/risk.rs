use crate::order::Order;
use vstd::prelude::*;

verus! {

pub open spec fn abs(x: int) -> int {
    if x < 0 {
        -x
    } else {
        x
    }
}

/// Portfolio-level limits on a single order. Fixed at construction.
#[derive(Debug, Clone, Copy, PartialEq, Eq, Structural)]
pub struct RiskValidator {
    pub max_position_size: i64,
    pub max_daily_loss: i64,
    pub max_order_value: i64,
}

impl RiskValidator {
    /// The order's size is within the position cap.
    pub open spec fn size_ok(self, quantity: int) -> bool {
        abs(quantity) <= self.max_position_size
    }

    /// The order's notional, quantity times price, is within the cap. The
    /// product is signed: a sell never exceeds a positive cap.
    pub open spec fn notional_ok(self, quantity: int, price: int) -> bool {
        quantity * price <= self.max_order_value
    }

    /// The day's profit and loss is above the loss limit.
    pub open spec fn daily_loss_ok(self, daily_pnl: int) -> bool {
        daily_pnl >= -self.max_daily_loss
    }

    /// The position after the trade is within the position cap.
    pub open spec fn position_ok(self, current_position: int, quantity: int) -> bool {
        abs(current_position + quantity) <= self.max_position_size
    }

    /// All four checks pass.
    pub open spec fn accepts(
        self,
        quantity: int,
        price: int,
        current_position: int,
        daily_pnl: int,
    ) -> bool {
        &&& self.size_ok(quantity)
        &&& self.notional_ok(quantity, price)
        &&& self.daily_loss_ok(daily_pnl)
        &&& self.position_ok(current_position, quantity)
    }

    pub fn new(max_position_size: i64, max_daily_loss: i64, max_order_value: i64) -> (r:
        RiskValidator)
        ensures
            r.max_position_size == max_position_size,
            r.max_daily_loss == max_daily_loss,
            r.max_order_value == max_order_value,
    {
        RiskValidator { max_position_size, max_daily_loss, max_order_value }
    }

    /// Whether `order` passes all four risk checks given the current position
    /// and the day's profit and loss. A bound that is met exactly passes.
    pub fn validate_order(&self, order: &Order, current_position: i64, daily_pnl: i64) -> (r: bool)
        ensures
            r == self.accepts(
                order.quantity as int,
                order.price as int,
                current_position as int,
                daily_pnl as int,
            ),
    {
        let q = order.quantity as i128;
        let cap = self.max_position_size as i128;
        if (if q < 0 { -q } else { q }) > cap {
            return false;
        }
        let p = order.price as i128;
        assert(i64::MIN <= q <= i64::MAX && i64::MIN <= p <= i64::MAX);
        assert(-0x4000_0000_0000_0000_0000_0000_0000_0000 <= q * p <= 0x4000_0000_0000_0000_0000_0000_0000_0000)
            by (nonlinear_arith)
            requires
                -0x8000_0000_0000_0000 <= q <= 0x7fff_ffff_ffff_ffff,
                -0x8000_0000_0000_0000 <= p <= 0x7fff_ffff_ffff_ffff,
        ;
        if q * p > self.max_order_value as i128 {
            return false;
        }
        if (daily_pnl as i128) < -(self.max_daily_loss as i128) {
            return false;
        }
        let after = current_position as i128 + q;
        if (if after < 0 { -after } else { after }) > cap {
            return false;
        }
        true
    }
}

/// The limits are inclusive: an order that meets every limit exactly passes.
pub proof fn lemma_limits_inclusive(
    r: RiskValidator,
    quantity: int,
    price: int,
    current_position: int,
    daily_pnl: int,
)
    requires
        abs(quantity) == r.max_position_size,
        quantity * price == r.max_order_value,
        daily_pnl == -r.max_daily_loss,
        abs(current_position + quantity) == r.max_position_size,
    ensures
        r.accepts(quantity, price, current_position, daily_pnl),
{
}

} // verus!

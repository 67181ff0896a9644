//! Commodities, positions and the two kinds of market order.

use uuid::Uuid;
use vstd::prelude::*;

verus! {

/// A tradable good. Orders only ever match within one commodity.
#[derive(Clone, Copy, Debug, PartialEq, Eq, Hash, Structural)]
pub enum Commodity {
    Water,
    Food,
    Hydrogen,
    HydrogenTanks,
    Fuel,
}

/// A point on the map, in whole distance units.
#[derive(Clone, Copy, Debug, PartialEq, Eq, Structural)]
pub struct Position {
    pub x: i32,
    pub y: i32,
}

impl Position {
    /// The squared Euclidean distance between two points.
    pub open spec fn dist2(self, other: Position) -> int {
        (self.x - other.x) * (self.x - other.x) + (self.y - other.y) * (self.y - other.y)
    }

    /// The squared Euclidean distance between `self` and `other`.
    pub fn distance_squared(&self, other: &Position) -> (r: u128)
        ensures
            r == self.dist2(*other),
    {
        let dx: i64 = self.x as i64 - other.x as i64;
        let dy: i64 = self.y as i64 - other.y as i64;
        let ax: u128 = if dx < 0 { (-dx) as u128 } else { dx as u128 };
        let ay: u128 = if dy < 0 { (-dy) as u128 } else { dy as u128 };
        assert(ax * ax <= 0x1_0000_0000u128 * 0x1_0000_0000u128) by (nonlinear_arith)
            requires ax <= 0x1_0000_0000u128;
        assert(ay * ay <= 0x1_0000_0000u128 * 0x1_0000_0000u128) by (nonlinear_arith)
            requires ay <= 0x1_0000_0000u128;
        assert(ax * ax == dx * dx) by (nonlinear_arith)
            requires ax == dx || ax == -dx;
        assert(ay * ay == dy * dy) by (nonlinear_arith)
            requires ay == dy || ay == -dy;
        ax * ax + ay * ay
    }
}

/// A standing offer to buy `amount` units of `commodity` at up to `price` each.
#[derive(Clone, Copy, Debug, PartialEq, Eq)]
pub struct BuyOrder {
    pub id: Uuid,
    pub commodity: Commodity,
    pub buyer: Uuid,
    pub location: Uuid,
    pub position: Position,
    pub amount: u64,
    pub price: u64,
}

/// A standing offer to sell `amount` units of `commodity` at no less than
/// `price` each.
#[derive(Clone, Copy, Debug, PartialEq, Eq)]
pub struct SellOrder {
    pub id: Uuid,
    pub commodity: Commodity,
    pub seller: Uuid,
    pub location: Uuid,
    pub position: Position,
    pub amount: u64,
    pub price: u64,
}

/// An order of either side.
#[derive(Clone, Copy, Debug, PartialEq, Eq)]
pub enum MarketOrder {
    BuyOrder(BuyOrder),
    SellOrder(SellOrder),
}

impl MarketOrder {
    pub open spec fn spec_is_buy(self) -> bool {
        self is BuyOrder
    }

    pub open spec fn spec_price(self) -> u64 {
        match self {
            MarketOrder::BuyOrder(o) => o.price,
            MarketOrder::SellOrder(o) => o.price,
        }
    }

    pub open spec fn spec_amount(self) -> u64 {
        match self {
            MarketOrder::BuyOrder(o) => o.amount,
            MarketOrder::SellOrder(o) => o.amount,
        }
    }

    pub open spec fn spec_commodity(self) -> Commodity {
        match self {
            MarketOrder::BuyOrder(o) => o.commodity,
            MarketOrder::SellOrder(o) => o.commodity,
        }
    }

    /// Where the order rests.
    pub open spec fn spec_location(self) -> Uuid {
        match self {
            MarketOrder::BuyOrder(o) => o.location,
            MarketOrder::SellOrder(o) => o.location,
        }
    }

    pub open spec fn spec_position(self) -> Position {
        match self {
            MarketOrder::BuyOrder(o) => o.position,
            MarketOrder::SellOrder(o) => o.position,
        }
    }

    /// The trader who placed the order: the buyer of a buy order, the seller
    /// of a sell order.
    pub open spec fn spec_owner(self) -> Uuid {
        match self {
            MarketOrder::BuyOrder(o) => o.buyer,
            MarketOrder::SellOrder(o) => o.seller,
        }
    }

    /// The same order with `amount` units left.
    pub open spec fn with_amount(self, amount: u64) -> MarketOrder {
        match self {
            MarketOrder::BuyOrder(o) => MarketOrder::BuyOrder(BuyOrder { amount, ..o }),
            MarketOrder::SellOrder(o) => MarketOrder::SellOrder(SellOrder { amount, ..o }),
        }
    }

    /// Whether `other` offers a strictly better price than `self`, seen from
    /// the opposite side: a higher bid among buy orders, a lower ask among
    /// sell orders.
    pub open spec fn spec_other_price_better(self, other: MarketOrder) -> bool {
        if self.spec_is_buy() {
            self.spec_price() < other.spec_price()
        } else {
            self.spec_price() > other.spec_price()
        }
    }

    pub fn is_buy(&self) -> (r: bool)
        ensures
            r == self.spec_is_buy(),
    {
        match self {
            MarketOrder::BuyOrder(_) => true,
            MarketOrder::SellOrder(_) => false,
        }
    }

    pub fn price(&self) -> (r: u64)
        ensures
            r == self.spec_price(),
    {
        match self {
            MarketOrder::BuyOrder(order) => order.price,
            MarketOrder::SellOrder(order) => order.price,
        }
    }

    pub fn amount(&self) -> (r: u64)
        ensures
            r == self.spec_amount(),
    {
        match self {
            MarketOrder::BuyOrder(order) => order.amount,
            MarketOrder::SellOrder(order) => order.amount,
        }
    }

    pub fn commodity(&self) -> (r: Commodity)
        ensures
            r == self.spec_commodity(),
    {
        match self {
            MarketOrder::BuyOrder(order) => order.commodity,
            MarketOrder::SellOrder(order) => order.commodity,
        }
    }

    pub fn owner(&self) -> (r: Uuid)
        ensures
            r == self.spec_owner(),
    {
        match self {
            MarketOrder::BuyOrder(order) => order.buyer,
            MarketOrder::SellOrder(order) => order.seller,
        }
    }

    /// Takes `amount` units off the order; the units must be there.
    pub fn reduce_amount(&mut self, amount: u64)
        requires
            amount <= old(self).spec_amount(),
        ensures
            *final(self) == old(self).with_amount((old(self).spec_amount() - amount) as u64),
    {
        match self {
            MarketOrder::BuyOrder(order) => order.amount = order.amount - amount,
            MarketOrder::SellOrder(order) => order.amount = order.amount - amount,
        }
    }

    /// Compares the prices of two orders of the same side.
    pub fn is_other_price_better(&self, other: &MarketOrder) -> (r: bool)
        requires
            self.spec_is_buy() == other.spec_is_buy(),
        ensures
            r == self.spec_other_price_better(*other),
    {
        match self {
            MarketOrder::BuyOrder(order) => order.price < other.price(),
            MarketOrder::SellOrder(order) => order.price > other.price(),
        }
    }
}

impl BuyOrder {
    /// A buy order of water at the origin, with the nil identity as its id
    /// and location.
    pub fn from(buyer: Uuid, amount: u64, price: u64) -> (r: MarketOrder)
        requires
            amount > 0,
        ensures
            r matches MarketOrder::BuyOrder(o) && o.commodity == Commodity::Water && o.buyer
                == buyer && o.position == (Position { x: 0, y: 0 }) && o.amount == amount
                && o.price == price,
    {
        BuyOrder::from_w_commodity(buyer, amount, price, Commodity::Water)
    }

    /// A buy order of `commodity` at the origin, with the nil identity as its
    /// id and location.
    pub fn from_w_commodity(buyer: Uuid, amount: u64, price: u64, commodity: Commodity) -> (r:
        MarketOrder)
        requires
            amount > 0,
        ensures
            r matches MarketOrder::BuyOrder(o) && o.commodity == commodity && o.buyer == buyer
                && o.position == (Position { x: 0, y: 0 }) && o.amount == amount && o.price
                == price,
    {
        MarketOrder::BuyOrder(
            BuyOrder {
                id: Uuid::nil(),
                commodity,
                buyer,
                location: Uuid::nil(),
                position: Position { x: 0, y: 0 },
                amount,
                price,
            },
        )
    }
}

impl SellOrder {
    /// A sell order of water at the origin, with the nil identity as its id
    /// and location.
    pub fn from(seller: Uuid, amount: u64, price: u64) -> (r: MarketOrder)
        requires
            amount > 0,
        ensures
            r matches MarketOrder::SellOrder(o) && o.commodity == Commodity::Water && o.seller
                == seller && o.position == (Position { x: 0, y: 0 }) && o.amount == amount
                && o.price == price,
    {
        SellOrder::from_w_commodity(seller, amount, price, Commodity::Water)
    }

    /// A sell order of `commodity` at the origin, with the nil identity as its
    /// id and location.
    pub fn from_w_commodity(seller: Uuid, amount: u64, price: u64, commodity: Commodity) -> (r:
        MarketOrder)
        requires
            amount > 0,
        ensures
            r matches MarketOrder::SellOrder(o) && o.commodity == commodity && o.seller == seller
                && o.position == (Position { x: 0, y: 0 }) && o.amount == amount && o.price
                == price,
    {
        MarketOrder::SellOrder(
            SellOrder {
                id: Uuid::nil(),
                commodity,
                seller,
                location: Uuid::nil(),
                position: Position { x: 0, y: 0 },
                amount,
                price,
            },
        )
    }
}

impl From<BuyOrder> for MarketOrder {
    fn from(order: BuyOrder) -> (r: MarketOrder) {
        MarketOrder::BuyOrder(order)
    }
}

impl vstd::std_specs::convert::FromSpecImpl<BuyOrder> for MarketOrder {
    open spec fn obeys_from_spec() -> bool {
        true
    }

    open spec fn from_spec(order: BuyOrder) -> MarketOrder {
        MarketOrder::BuyOrder(order)
    }
}

impl From<SellOrder> for MarketOrder {
    fn from(order: SellOrder) -> (r: MarketOrder) {
        MarketOrder::SellOrder(order)
    }
}

impl vstd::std_specs::convert::FromSpecImpl<SellOrder> for MarketOrder {
    open spec fn obeys_from_spec() -> bool {
        true
    }

    open spec fn from_spec(order: SellOrder) -> MarketOrder {
        MarketOrder::SellOrder(order)
    }
}

} // verus!

//! Price discovery over a snapshot of resting orders: where to buy, where to
//! sell, and what price to ask or bid for a quantity.

use crate::orders::{BuyOrder, Commodity, MarketOrder, Position, SellOrder};
use uuid::Uuid;
use vstd::prelude::*;

verus! {

/// The nearest integer to `n / d`, a half rounded up.
pub open spec fn round_div(n: int, d: int) -> int {
    (2 * n + d) / (2 * d)
}

/// What a market pays for a good it holds `stock` of, out of a wished-for
/// `max`: 30 * (1 - stock / max) rounded to the nearest integer, and 0 where
/// that is not positive or `max` is 0.
pub open spec fn basic_buying_price(stock: int, max: int) -> int {
    if max > 0 && stock < max {
        round_div(30 * (max - stock), max)
    } else {
        0
    }
}

/// What a market asks for a good it holds `stock` of, out of a wished-for
/// `max`: 30 * (1 - stock / max) + 5 rounded to the nearest integer, and 0
/// where that is not positive or `max` is 0.
pub open spec fn basic_selling_price(stock: int, max: int) -> int {
    if max > 0 && 6 * stock < 7 * max {
        round_div(35 * max - 30 * stock, max)
    } else {
        0
    }
}

/// The asking price of a market that holds `stockpile_size` of a good and
/// wishes to hold `max_stockpile`.
pub fn calculate_basic_selling_price(
    stockpile_size: u64,
    max_stockpile: u64,
    _monthly_expenses: u64,
    _current_wallet: u64,
) -> (r: u64)
    ensures
        r == basic_selling_price(stockpile_size as int, max_stockpile as int),
{
    let stock = stockpile_size as u128;
    let max = max_stockpile as u128;
    if max > 0 && 6 * stock < 7 * max {
        let n: u128 = 35 * max - 30 * stock;
        let r: u128 = (2 * n + max) / (2 * max);
        assert(r <= 35) by (nonlinear_arith)
            requires
                r == (2 * n + max) / (2 * max),
                n <= 35 * max,
                max > 0,
        ;
        r as u64
    } else {
        0
    }
}

/// The bid of a market that holds `stockpile_size` of a good and wishes to
/// hold `max_stockpile`.
pub fn calculate_basic_buying_price(
    stockpile_size: u64,
    max_stockpile: u64,
    _monthly_expenses: u64,
    _current_wallet: u64,
) -> (r: u64)
    ensures
        r == basic_buying_price(stockpile_size as int, max_stockpile as int),
{
    let stock = stockpile_size as u128;
    let max = max_stockpile as u128;
    if max > 0 && stock < max {
        let n: u128 = 30 * (max - stock);
        let r: u128 = (2 * n + max) / (2 * max);
        assert(r <= 30) by (nonlinear_arith)
            requires
                r == (2 * n + max) / (2 * max),
                n <= 30 * max,
                max > 0,
        ;
        r as u64
    } else {
        0
    }
}

/// `orders[i]` is the sell order to buy from, seen from `position`: the
/// lowest price; among those, the nearest; among those, the last.
pub open spec fn is_best_place_to_buy(orders: Seq<MarketOrder>, position: Position, i: int) -> bool {
    &&& 0 <= i < orders.len()
    &&& !orders[i].spec_is_buy()
    &&& forall|j: int|
        0 <= j < orders.len() && !(#[trigger] orders[j]).spec_is_buy() ==> {
            let pi = orders[i].spec_price();
            let pj = orders[j].spec_price();
            let di = position.dist2(orders[i].spec_position());
            let dj = position.dist2(orders[j].spec_position());
            pi < pj || (pi == pj && (di < dj || (di == dj && j <= i)))
        }
}

/// The location of the cheapest sell order, the nearest to `position` among
/// equally cheap ones; `None` when there is no sell order.
pub fn calculate_where_to_buy_frakking_food(position: &Position, market_orders: &Vec<MarketOrder>) -> (r:
    Option<Uuid>)
    ensures
        r is None <==> forall|j: int| 0 <= j < market_orders@.len() ==> market_orders@[j].spec_is_buy(),
        r matches Some(l) ==> exists|i: int|
            is_best_place_to_buy(market_orders@, *position, i) && l == market_orders@[i].spec_location(),
{
    let ghost s = market_orders@;
    let mut best: Option<usize> = None;
    let mut best_price: u64 = 0;
    let mut best_distance: u128 = 0;
    let mut k: usize = 0;
    while k < market_orders.len()
        invariant
            k <= s.len(),
            s == market_orders@,
            best is None ==> forall|j: int| 0 <= j < k ==> s[j].spec_is_buy(),
            best matches Some(b) ==> {
                &&& b < k
                &&& !s[b as int].spec_is_buy()
                &&& best_price == s[b as int].spec_price()
                &&& best_distance == position.dist2(s[b as int].spec_position())
                &&& forall|j: int|
                    0 <= j < k && !(#[trigger] s[j]).spec_is_buy() ==> {
                        let pj = s[j].spec_price();
                        let dj = position.dist2(s[j].spec_position());
                        best_price < pj || (best_price == pj && (best_distance < dj || (
                        best_distance == dj && j <= b)))
                    }
            },
        decreases s.len() - k,
    {
        if let MarketOrder::SellOrder(order) = &market_orders[k] {
            let distance = position.distance_squared(&order.position);
            let take = match best {
                None => true,
                Some(_) => {
                    if order.price != best_price {
                        order.price < best_price
                    } else {
                        !(best_distance < distance)
                    }
                },
            };
            if take {
                best = Some(k);
                best_price = order.price;
                best_distance = distance;
            }
        }
        k = k + 1;
    }
    match best {
        None => None,
        Some(b) => {
            assert(is_best_place_to_buy(s, *position, b as int));
            Some(
                match &market_orders[b] {
                    MarketOrder::BuyOrder(order) => order.location,
                    MarketOrder::SellOrder(order) => order.location,
                },
            )
        },
    }
}

/// What selling up to `amount` units to `order` brings in.
pub open spec fn proceeds(order: MarketOrder, amount: u64) -> int {
    let units = if order.spec_amount() < amount {
        order.spec_amount()
    } else {
        amount
    };
    units * order.spec_price()
}

/// `orders[i]` is the buy order to sell `amount` units to: the one that
/// brings in the most, and the earliest of those; it brings in something.
pub open spec fn is_best_place_to_sell(orders: Seq<MarketOrder>, amount: u64, i: int) -> bool {
    &&& 0 <= i < orders.len()
    &&& orders[i].spec_is_buy()
    &&& proceeds(orders[i], amount) > 0
    &&& forall|j: int|
        0 <= j < orders.len() && (#[trigger] orders[j]).spec_is_buy() ==> proceeds(orders[j], amount)
            < proceeds(orders[i], amount) || (proceeds(orders[j], amount) == proceeds(
            orders[i],
            amount,
        ) && i <= j)
}

/// The location of the buy order that brings in the most for `food_amount`
/// units, the earliest among equal ones; `None` when no buy order brings in
/// anything.
pub fn calculate_where_to_sell_cargo(
    _position: &Position,
    food_amount: u64,
    market_orders: &Vec<MarketOrder>,
) -> (r: Option<Uuid>)
    ensures
        r is None <==> forall|j: int|
            0 <= j < market_orders@.len() && (#[trigger] market_orders@[j]).spec_is_buy() ==> proceeds(
                market_orders@[j],
                food_amount,
            ) == 0,
        r matches Some(l) ==> exists|i: int|
            is_best_place_to_sell(market_orders@, food_amount, i) && l
                == market_orders@[i].spec_location(),
{
    let ghost s = market_orders@;
    let mut best: Option<usize> = None;
    let mut best_value: u128 = 0;
    let mut k: usize = 0;
    while k < market_orders.len()
        invariant
            k <= s.len(),
            s == market_orders@,
            best is None ==> best_value == 0,
            forall|j: int|
                0 <= j < k && (#[trigger] s[j]).spec_is_buy() ==> proceeds(s[j], food_amount)
                    <= best_value,
            best matches Some(b) ==> {
                &&& b < k
                &&& s[b as int].spec_is_buy()
                &&& best_value == proceeds(s[b as int], food_amount)
                &&& best_value > 0
                &&& forall|j: int|
                    0 <= j < b && (#[trigger] s[j]).spec_is_buy() ==> proceeds(s[j], food_amount)
                        < best_value
            },
        decreases s.len() - k,
    {
        if let MarketOrder::BuyOrder(order) = &market_orders[k] {
            let units: u64 = if order.amount < food_amount {
                order.amount
            } else {
                food_amount
            };
            assert(units as u128 * order.price as u128 <= u64::MAX as u128 * u64::MAX as u128)
                by (nonlinear_arith)
                requires
                    units <= u64::MAX,
                    order.price <= u64::MAX,
            ;
            let value: u128 = units as u128 * order.price as u128;
            if value > best_value {
                best = Some(k);
                best_value = value;
            }
        }
        k = k + 1;
    }
    match best {
        None => None,
        Some(b) => {
            assert(is_best_place_to_sell(s, food_amount, b as int));
            Some(
                match &market_orders[b] {
                    MarketOrder::BuyOrder(order) => order.location,
                    MarketOrder::SellOrder(order) => order.location,
                },
            )
        },
    }
}

/// The units that the sell orders in `s` offer at `p` or below.
pub open spec fn supply_at_or_below(s: Seq<&SellOrder>, p: u64) -> int
    decreases s.len(),
{
    if s.len() == 0 {
        0
    } else {
        supply_at_or_below(s.drop_last(), p) + if s.last().price <= p {
            s.last().amount as int
        } else {
            0
        }
    }
}

/// The units that the buy orders in `b` bid for at `p` or above.
pub open spec fn demand_at_or_above(b: Seq<&BuyOrder>, p: u64) -> int
    decreases b.len(),
{
    if b.len() == 0 {
        0
    } else {
        demand_at_or_above(b.drop_last(), p) + if b.last().price >= p {
            b.last().amount as int
        } else {
            0
        }
    }
}

/// `p` is what it costs at the margin to buy `amount` units from `s`, taking
/// the cheapest first: the lowest price of an order in `s` at or below which
/// `amount` units are offered, or the highest price in `s` where they are not.
pub open spec fn is_buy_fill_price(s: Seq<&SellOrder>, amount: u64, p: u64) -> bool {
    &&& exists|i: int| 0 <= i < s.len() && s[i].price == p
    &&& supply_at_or_below(s, p) >= amount || forall|i: int| 0 <= i < s.len() ==> s[i].price <= p
    &&& forall|i: int|
        0 <= i < s.len() && s[i].price < p ==> supply_at_or_below(s, #[trigger] s[i].price) < amount
}

/// `p` is what selling `amount` units to `b` fetches at the margin, taking the
/// highest bids first: the highest price of an order in `b` at or above which
/// `amount` units are bid for, or the lowest price in `b` where they are not.
pub open spec fn is_sell_fill_price(b: Seq<&BuyOrder>, amount: u64, p: u64) -> bool {
    &&& exists|i: int| 0 <= i < b.len() && b[i].price == p
    &&& demand_at_or_above(b, p) >= amount || forall|i: int| 0 <= i < b.len() ==> b[i].price >= p
    &&& forall|i: int|
        0 <= i < b.len() && b[i].price > p ==> demand_at_or_above(b, #[trigger] b[i].price) < amount
}

/// Whether the orders in `sell_orders` offer `amount` units at `price` or
/// below.
fn supply_covers(sell_orders: &Vec<&SellOrder>, price: u64, amount: u64) -> (r: bool)
    ensures
        r == (supply_at_or_below(sell_orders@, price) >= amount),
{
    let ghost s = sell_orders@;
    let mut missing: u64 = amount;
    let mut k: usize = 0;
    while k < sell_orders.len()
        invariant
            k <= s.len(),
            s == sell_orders@,
            missing == if supply_at_or_below(s.take(k as int), price) >= amount {
                0
            } else {
                amount - supply_at_or_below(s.take(k as int), price)
            },
        decreases s.len() - k,
    {
        assert(s.take(k + 1).drop_last() =~= s.take(k as int));
        let order = sell_orders[k];
        if order.price <= price {
            missing = if missing > order.amount {
                missing - order.amount
            } else {
                0
            };
        }
        k = k + 1;
    }
    assert(s.take(s.len() as int) =~= s);
    missing == 0
}

/// Whether the orders in `buy_orders` bid for `amount` units at `price` or
/// above.
fn demand_covers(buy_orders: &Vec<&BuyOrder>, price: u64, amount: u64) -> (r: bool)
    ensures
        r == (demand_at_or_above(buy_orders@, price) >= amount),
{
    let ghost b = buy_orders@;
    let mut missing: u64 = amount;
    let mut k: usize = 0;
    while k < buy_orders.len()
        invariant
            k <= b.len(),
            b == buy_orders@,
            missing == if demand_at_or_above(b.take(k as int), price) >= amount {
                0
            } else {
                amount - demand_at_or_above(b.take(k as int), price)
            },
        decreases b.len() - k,
    {
        assert(b.take(k + 1).drop_last() =~= b.take(k as int));
        let order = buy_orders[k];
        if order.price >= price {
            missing = if missing > order.amount {
                missing - order.amount
            } else {
                0
            };
        }
        k = k + 1;
    }
    assert(b.take(b.len() as int) =~= b);
    missing == 0
}

/// The marginal price of buying `amount` units from `sell_orders`, cheapest
/// first: the price of the order that completes the amount, or the highest
/// price where the orders do not hold that much.
pub fn synthesize_buy_price(sell_orders: &Vec<&SellOrder>, amount: u64) -> (r: u64)
    requires
        sell_orders@.len() > 0,
    ensures
        is_buy_fill_price(sell_orders@, amount, r),
{
    let ghost s = sell_orders@;
    let mut filled_at: Option<u64> = None;
    let mut highest: u64 = sell_orders[0].price;
    let mut k: usize = 0;
    while k < sell_orders.len()
        invariant
            k <= s.len(),
            s == sell_orders@,
            s.len() > 0,
            exists|i: int| 0 <= i < s.len() && s[i].price == highest,
            forall|i: int| 0 <= i < k ==> s[i].price <= highest,
            filled_at is None ==> forall|i: int|
                0 <= i < k ==> supply_at_or_below(s, #[trigger] s[i].price) < amount,
            filled_at matches Some(p) ==> {
                &&& exists|i: int| 0 <= i < s.len() && s[i].price == p
                &&& supply_at_or_below(s, p) >= amount
                &&& forall|i: int|
                    0 <= i < k && supply_at_or_below(s, #[trigger] s[i].price) >= amount ==> p
                        <= s[i].price
            },
        decreases s.len() - k,
    {
        let price = sell_orders[k].price;
        if price > highest {
            highest = price;
        }
        if supply_covers(sell_orders, price, amount) {
            filled_at = match filled_at {
                None => Some(price),
                Some(p) => Some(
                    if price < p {
                        price
                    } else {
                        p
                    },
                ),
            };
        }
        k = k + 1;
    }
    match filled_at {
        Some(p) => p,
        None => highest,
    }
}

/// The marginal price of selling `amount` units to `buy_orders`, highest bid
/// first: the price of the order that completes the amount, or the lowest
/// price where the orders do not bid for that much.
pub fn synthesize_sell_price(buy_orders: &Vec<&BuyOrder>, amount: u64) -> (r: u64)
    requires
        buy_orders@.len() > 0,
    ensures
        is_sell_fill_price(buy_orders@, amount, r),
{
    let ghost b = buy_orders@;
    let mut filled_at: Option<u64> = None;
    let mut lowest: u64 = buy_orders[0].price;
    let mut k: usize = 0;
    while k < buy_orders.len()
        invariant
            k <= b.len(),
            b == buy_orders@,
            b.len() > 0,
            exists|i: int| 0 <= i < b.len() && b[i].price == lowest,
            forall|i: int| 0 <= i < k ==> b[i].price >= lowest,
            filled_at is None ==> forall|i: int|
                0 <= i < k ==> demand_at_or_above(b, #[trigger] b[i].price) < amount,
            filled_at matches Some(p) ==> {
                &&& exists|i: int| 0 <= i < b.len() && b[i].price == p
                &&& demand_at_or_above(b, p) >= amount
                &&& forall|i: int|
                    0 <= i < k && demand_at_or_above(b, #[trigger] b[i].price) >= amount ==> p
                        >= b[i].price
            },
        decreases b.len() - k,
    {
        let price = buy_orders[k].price;
        if price < lowest {
            lowest = price;
        }
        if demand_covers(buy_orders, price, amount) {
            filled_at = match filled_at {
                None => Some(price),
                Some(p) => Some(
                    if price > p {
                        price
                    } else {
                        p
                    },
                ),
            };
        }
        k = k + 1;
    }
    match filled_at {
        Some(p) => p,
        None => lowest,
    }
}

/// A new buy order for `amount` units of `commodity`, priced at what buying
/// that amount from `sell_orders` costs at the margin, and placed at the
/// position of the first of them. Its id is fresh and random.
pub fn create_buy_order(
    amount: u64,
    commodity: Commodity,
    buyer: Uuid,
    sell_orders: Vec<&SellOrder>,
    location: Uuid,
) -> (r: BuyOrder)
    requires
        amount > 0,
        sell_orders@.len() > 0,
    ensures
        r.commodity == commodity,
        r.buyer == buyer,
        r.location == location,
        r.position == sell_orders@[0].position,
        r.amount == amount,
        is_buy_fill_price(sell_orders@, amount, r.price),
{
    let price = synthesize_buy_price(&sell_orders, amount);
    BuyOrder {
        id: Uuid::new_v4(),
        commodity,
        buyer,
        location,
        position: sell_orders[0].position,
        amount,
        price,
    }
}

/// A new sell order for `amount` units of `commodity`, priced at what selling
/// that amount to `buy_orders` fetches at the margin, and placed at the
/// position of the first of them. Its id is fresh and random.
pub fn create_sell_order(
    amount: u64,
    commodity: Commodity,
    seller: Uuid,
    buy_orders: Vec<&BuyOrder>,
    location: Uuid,
) -> (r: SellOrder)
    requires
        amount > 0,
        buy_orders@.len() > 0,
    ensures
        r.commodity == commodity,
        r.seller == seller,
        r.location == location,
        r.position == buy_orders@[0].position,
        r.amount == amount,
        is_sell_fill_price(buy_orders@, amount, r.price),
{
    let price = synthesize_sell_price(&buy_orders, amount);
    SellOrder {
        id: Uuid::new_v4(),
        commodity,
        seller,
        location,
        position: buy_orders[0].position,
        amount,
        price,
    }
}

} // verus!

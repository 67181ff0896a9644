use star_market::market_calculations::{
    calculate_basic_buying_price, calculate_basic_selling_price, calculate_where_to_buy_frakking_food,
    calculate_where_to_sell_cargo, create_buy_order, create_sell_order, synthesize_buy_price,
    synthesize_sell_price,
};
use star_market::orders::{BuyOrder, Commodity, MarketOrder, Position, SellOrder};
use uuid::Uuid;

fn ident(n: u128) -> Uuid {
    Uuid::from_u128(n)
}

fn sell_at(n: u128, x: i32, y: i32, amount: u64, price: u64) -> SellOrder {
    SellOrder {
        id: ident(n),
        commodity: Commodity::Food,
        seller: ident(10 + n),
        location: ident(20 + n),
        position: Position { x, y },
        amount,
        price,
    }
}

fn buy_at(n: u128, x: i32, y: i32, amount: u64, price: u64) -> BuyOrder {
    BuyOrder {
        id: ident(n),
        commodity: Commodity::Food,
        buyer: ident(10 + n),
        location: ident(20 + n),
        position: Position { x, y },
        amount,
        price,
    }
}

#[test]
fn market_calculations_test_calc_where_to_buy_cargo() {
    let best = SellOrder {
        id: ident(0),
        commodity: Commodity::Food,
        seller: ident(10),
        location: ident(20),
        position: Position { x: 1, y: 1 },
        amount: 100,
        price: 10,
    };
    let to_expensive = SellOrder {
        id: ident(1),
        commodity: Commodity::Food,
        seller: ident(11),
        location: ident(21),
        position: Position { x: 1, y: 1 },
        amount: 100,
        price: 11,
    };
    let to_far_away = SellOrder {
        id: ident(2),
        commodity: Commodity::Food,
        seller: ident(12),
        location: ident(22),
        position: Position { x: 100, y: 100 },
        amount: 100,
        price: 5,
    };

    let sell_orders = vec![to_expensive.into(), best.into(), to_far_away.into()];

    let result = calculate_where_to_buy_frakking_food(&Position { x: 0, y: 0 }, &sell_orders);
    assert!(result.is_some());
    if let Some(id) = result {
        assert_eq!(id, to_far_away.location);
    }
}

#[test]
fn market_calculations_test_calculate_where_to_sell_cargo() {
    let best = BuyOrder {
        id: ident(0),
        commodity: Commodity::Food,
        buyer: ident(10),
        location: ident(20),
        position: Position { x: 1, y: 1 },
        amount: 100,
        price: 20,
    };
    let to_cheap = BuyOrder {
        id: ident(1),
        commodity: Commodity::Food,
        buyer: ident(11),
        location: ident(21),
        position: Position { x: 1, y: 1 },
        amount: 100,
        price: 10,
    };
    let to_far_away = BuyOrder {
        id: ident(2),
        commodity: Commodity::Food,
        buyer: ident(12),
        location: ident(22),
        position: Position { x: 100, y: 100 },
        amount: 100,
        price: 40,
    };

    let buy_orders = vec![best.into(), to_cheap.into(), to_far_away.into()];

    let result = calculate_where_to_sell_cargo(&Position { x: 0, y: 0 }, 200, &buy_orders);

    assert!(result.is_some());
    if let Some(id) = result {
        assert_eq!(id, ident(22));
    }
}

#[test]
fn market_calculations_test_create_buy_order() {
    let cheapest = &SellOrder {
        id: Uuid::new_v4(),
        commodity: Commodity::Food,
        seller: Uuid::new_v4(),
        location: Uuid::new_v4(),
        position: Position { x: 0, y: 0 },
        amount: 50,
        price: 10,
    };
    let mid_tier = &SellOrder { amount: 100, price: 20, ..cheapest.clone() };
    let expensive = &SellOrder { amount: 100, price: 30, ..cheapest.clone() };

    let orders = vec![cheapest, mid_tier, expensive];

    let result = create_buy_order(100, Commodity::Food, ident(0), orders, ident(1));

    assert_eq!(result.price, 20);
    assert_eq!(result.amount, 100);
}

#[test]
fn where_to_buy_lowest_price_wins_over_distance() {
    let orders: Vec<MarketOrder> = vec![
        sell_at(1, 1, 1, 100, 10).into(),
        sell_at(0, 1, 1, 100, 10).into(),
        sell_at(2, 100, 100, 100, 5).into(),
    ];
    let result = calculate_where_to_buy_frakking_food(&Position { x: 0, y: 0 }, &orders);
    assert_eq!(result, Some(ident(22)));
}

#[test]
fn where_to_buy_nearest_wins_on_equal_price() {
    let orders: Vec<MarketOrder> = vec![
        sell_at(0, 30, 40, 100, 10).into(),
        sell_at(1, 3, 4, 100, 10).into(),
        sell_at(2, -6, 8, 100, 10).into(),
    ];
    let result = calculate_where_to_buy_frakking_food(&Position { x: 0, y: 0 }, &orders);
    assert_eq!(result, Some(ident(21)));
}

#[test]
fn where_to_buy_last_wins_on_equal_price_and_distance() {
    let orders: Vec<MarketOrder> = vec![
        sell_at(0, 3, 4, 100, 10).into(),
        sell_at(1, -4, 3, 100, 10).into(),
        buy_at(2, 0, 0, 100, 10).into(),
    ];
    let result = calculate_where_to_buy_frakking_food(&Position { x: 0, y: 0 }, &orders);
    assert_eq!(result, Some(ident(21)));
}

#[test]
fn where_to_buy_without_sell_orders_is_none() {
    let empty: Vec<MarketOrder> = vec![];
    assert_eq!(calculate_where_to_buy_frakking_food(&Position { x: 0, y: 0 }, &empty), None);
    let only_buys: Vec<MarketOrder> = vec![buy_at(0, 0, 0, 10, 10).into()];
    assert_eq!(calculate_where_to_buy_frakking_food(&Position { x: 0, y: 0 }, &only_buys), None);
}

#[test]
fn where_to_buy_handles_far_corners() {
    let orders: Vec<MarketOrder> = vec![
        sell_at(0, i32::MAX, i32::MAX, 1, 3).into(),
        sell_at(1, i32::MIN, i32::MIN, 1, 3).into(),
    ];
    let result = calculate_where_to_buy_frakking_food(&Position { x: i32::MAX, y: i32::MAX }, &orders);
    assert_eq!(result, Some(ident(20)));
}

#[test]
fn where_to_sell_counts_only_what_is_sold() {
    let orders: Vec<MarketOrder> = vec![
        buy_at(0, 0, 0, 10, 100).into(),
        buy_at(1, 0, 0, 1000, 2).into(),
        sell_at(2, 0, 0, 1000, 1000).into(),
    ];
    let result = calculate_where_to_sell_cargo(&Position { x: 0, y: 0 }, 600, &orders);
    assert_eq!(result, Some(ident(21)));
}

#[test]
fn where_to_sell_earliest_wins_on_equal_proceeds() {
    let orders: Vec<MarketOrder> = vec![
        buy_at(0, 0, 0, 10, 20).into(),
        buy_at(1, 0, 0, 20, 10).into(),
        buy_at(2, 0, 0, 40, 5).into(),
    ];
    let result = calculate_where_to_sell_cargo(&Position { x: 0, y: 0 }, 40, &orders);
    assert_eq!(result, Some(ident(20)));
}

#[test]
fn where_to_sell_without_proceeds_is_none() {
    let orders: Vec<MarketOrder> = vec![buy_at(0, 0, 0, 10, 20).into(), buy_at(1, 0, 0, 10, 0).into()];
    assert_eq!(calculate_where_to_sell_cargo(&Position { x: 0, y: 0 }, 0, &orders), None);
    assert_eq!(calculate_where_to_sell_cargo(&Position { x: 0, y: 0 }, 5, &orders), Some(ident(20)));
    let empty: Vec<MarketOrder> = vec![];
    assert_eq!(calculate_where_to_sell_cargo(&Position { x: 0, y: 0 }, 5, &empty), None);
}

#[test]
fn where_to_sell_large_proceeds_do_not_overflow() {
    let orders: Vec<MarketOrder> = vec![
        buy_at(0, 0, 0, u64::MAX, u64::MAX - 1).into(),
        buy_at(1, 0, 0, u64::MAX, u64::MAX).into(),
    ];
    let result = calculate_where_to_sell_cargo(&Position { x: 0, y: 0 }, u64::MAX, &orders);
    assert_eq!(result, Some(ident(21)));
}

#[test]
fn buy_price_is_marginal_price_of_the_fill() {
    let a = sell_at(0, 0, 0, 50, 10);
    let b = sell_at(1, 0, 0, 100, 30);
    let c = sell_at(2, 0, 0, 100, 20);
    let orders = vec![&b, &a, &c];
    assert_eq!(synthesize_buy_price(&orders, 1), 10);
    assert_eq!(synthesize_buy_price(&orders, 50), 10);
    assert_eq!(synthesize_buy_price(&orders, 51), 20);
    assert_eq!(synthesize_buy_price(&orders, 150), 20);
    assert_eq!(synthesize_buy_price(&orders, 151), 30);
    assert_eq!(synthesize_buy_price(&orders, 10_000), 30);
}

#[test]
fn sell_price_is_marginal_price_of_the_fill() {
    let a = buy_at(0, 0, 0, 50, 30);
    let b = buy_at(1, 0, 0, 100, 10);
    let c = buy_at(2, 0, 0, 100, 20);
    let orders = vec![&b, &a, &c];
    assert_eq!(synthesize_sell_price(&orders, 50), 30);
    assert_eq!(synthesize_sell_price(&orders, 100), 20);
    assert_eq!(synthesize_sell_price(&orders, 250), 10);
    assert_eq!(synthesize_sell_price(&orders, 10_000), 10);
}

#[test]
fn create_sell_order_prices_from_bids() {
    let a = buy_at(0, 7, 8, 50, 30);
    let b = buy_at(1, 0, 0, 100, 10);
    let c = buy_at(2, 0, 0, 100, 20);
    let order = create_sell_order(100, Commodity::Food, ident(5), vec![&a, &b, &c], ident(6));
    assert_eq!(order.price, 20);
    assert_eq!(order.amount, 100);
    assert_eq!(order.seller, ident(5));
    assert_eq!(order.location, ident(6));
    assert_eq!(order.commodity, Commodity::Food);
    assert_eq!(order.position, Position { x: 7, y: 8 });
}

#[test]
fn created_orders_get_fresh_ids() {
    let a = sell_at(0, 0, 0, 50, 10);
    let first = create_buy_order(10, Commodity::Food, ident(1), vec![&a], ident(2));
    let second = create_buy_order(10, Commodity::Food, ident(1), vec![&a], ident(2));
    assert_ne!(first.id, second.id);
    assert_ne!(first.id, Uuid::nil());
    assert_eq!(first.price, 10);
}

#[test]
fn basic_buying_price_values() {
    assert_eq!(calculate_basic_buying_price(0, 800, 0, 0), 30);
    assert_eq!(calculate_basic_buying_price(300, 800, 0, 0), 19);
    assert_eq!(calculate_basic_buying_price(1, 4, 0, 0), 23);
    assert_eq!(calculate_basic_buying_price(800, 800, 0, 0), 0);
    assert_eq!(calculate_basic_buying_price(1000, 800, 0, 0), 0);
    assert_eq!(calculate_basic_buying_price(10, 0, 0, 0), 0);
    assert_eq!(calculate_basic_buying_price(0, u64::MAX, 0, 0), 30);
}

#[test]
fn basic_selling_price_values() {
    assert_eq!(calculate_basic_selling_price(0, 800, 0, 0), 35);
    assert_eq!(calculate_basic_selling_price(300, 800, 0, 0), 24);
    assert_eq!(calculate_basic_selling_price(800, 800, 0, 0), 5);
    assert_eq!(calculate_basic_selling_price(900, 800, 0, 0), 1);
    assert_eq!(calculate_basic_selling_price(1000, 800, 0, 0), 0);
    assert_eq!(calculate_basic_selling_price(0, 0, 0, 0), 0);
    assert_eq!(calculate_basic_selling_price(u64::MAX, u64::MAX, 0, 0), 5);
}

#[test]
fn squared_distance_values() {
    let origin = Position { x: 0, y: 0 };
    assert_eq!(origin.distance_squared(&Position { x: 3, y: -4 }), 25);
    let far = Position { x: i32::MIN, y: i32::MIN };
    let other = Position { x: i32::MAX, y: i32::MAX };
    let side: u128 = (u32::MAX as u128) * (u32::MAX as u128);
    assert_eq!(far.distance_squared(&other), 2 * side);
}

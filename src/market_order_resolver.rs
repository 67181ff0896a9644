//! The matching engine: an incoming order is matched against the resting
//! orders by price, then by arrival, until it is filled or no resting order
//! can trade with it.

use crate::orders::{Commodity, MarketOrder};
use uuid::Uuid;
use vstd::prelude::*;

verus! {

/// A trade that took place: `amount` units of `commodity` went from `seller`
/// to `buyer` at `price` each.
#[derive(Clone, Copy, Debug, PartialEq, Eq)]
pub struct Transaction {
    pub seller: Uuid,
    pub buyer: Uuid,
    pub commodity: Commodity,
    pub amount: u64,
    pub price: u64,
}

impl Transaction {
    /// A trade of water.
    pub fn from(seller: Uuid, buyer: Uuid, amount: u64, price: u64) -> (r: Transaction)
        ensures
            r == (Transaction { seller, buyer, commodity: Commodity::Water, amount, price }),
    {
        Transaction { seller, buyer, commodity: Commodity::Water, amount, price }
    }
}

/// Every order has units left.
pub open spec fn all_positive(book: Seq<MarketOrder>) -> bool {
    forall|i: int| 0 <= i < book.len() ==> #[trigger] book[i].spec_amount() > 0
}

/// `resting` is on the other side of `incoming`, for the same commodity.
pub open spec fn is_counterpart(resting: MarketOrder, incoming: MarketOrder) -> bool {
    resting.spec_is_buy() != incoming.spec_is_buy() && resting.spec_commodity()
        == incoming.spec_commodity()
}

/// `book[i]` is the counterpart of `incoming` with the best price (the
/// highest bid, or the lowest ask), and the earliest of those with that price.
pub open spec fn is_best_counterpart(book: Seq<MarketOrder>, incoming: MarketOrder, i: int) -> bool {
    &&& 0 <= i < book.len()
    &&& is_counterpart(book[i], incoming)
    &&& forall|j: int|
        0 <= j < book.len() && is_counterpart(#[trigger] book[j], incoming) ==> {
            &&& !book[i].spec_other_price_better(book[j])
            &&& (j < i ==> book[j].spec_other_price_better(book[i]))
        }
}

/// The position of the best counterpart of `incoming`, if it has any.
pub open spec fn best_counterpart(book: Seq<MarketOrder>, incoming: MarketOrder) -> Option<int> {
    if exists|i: int| is_best_counterpart(book, incoming, i) {
        Some(choose|i: int| is_best_counterpart(book, incoming, i))
    } else {
        None
    }
}

/// The bid is at least the ask.
pub open spec fn prices_cross(resting: MarketOrder, incoming: MarketOrder) -> bool {
    if incoming.spec_is_buy() {
        incoming.spec_price() >= resting.spec_price()
    } else {
        resting.spec_price() >= incoming.spec_price()
    }
}

/// The trade of `amount` units between `resting` and `incoming`, at the
/// resting order's price.
pub open spec fn trade(resting: MarketOrder, incoming: MarketOrder, amount: u64) -> Transaction {
    let seller = if incoming.spec_is_buy() {
        resting.spec_owner()
    } else {
        incoming.spec_owner()
    };
    let buyer = if incoming.spec_is_buy() {
        incoming.spec_owner()
    } else {
        resting.spec_owner()
    };
    Transaction {
        seller,
        buyer,
        commodity: incoming.spec_commodity(),
        amount,
        price: resting.spec_price(),
    }
}

/// The resting orders and the trades after `incoming` arrives at `book`.
///
/// While the best counterpart's price crosses, `incoming` trades with it as
/// much as both have; an exhausted resting order leaves the book. What is left
/// of `incoming` rests at the end of the book once no counterpart crosses.
pub open spec fn resolve(book: Seq<MarketOrder>, incoming: MarketOrder) -> (Seq<MarketOrder>, Seq<
    Transaction,
>)
    decreases book.len(),
{
    match best_counterpart(book, incoming) {
        None => (book.push(incoming), seq![]),
        Some(i) => {
            let resting = book[i];
            let want = incoming.spec_amount();
            let have = resting.spec_amount();
            if !prices_cross(resting, incoming) {
                (book.push(incoming), seq![])
            } else if want < have {
                (
                    book.update(i, resting.with_amount((have - want) as u64)),
                    seq![trade(resting, incoming, want)],
                )
            } else if want == have {
                (book.remove(i), seq![trade(resting, incoming, want)])
            } else {
                let rest = resolve(book.remove(i), incoming.with_amount((want - have) as u64));
                (rest.0, seq![trade(resting, incoming, have)] + rest.1)
            }
        },
    }
}

/// Holds of the orders that are not of commodity `c`.
pub open spec fn not_of(c: Commodity) -> spec_fn(MarketOrder) -> bool {
    |o: MarketOrder| o.spec_commodity() != c
}

/// Taking out or replacing an order that `pred` rejects, by another that it
/// rejects, leaves the orders that `pred` keeps as they were.
proof fn lemma_filter_unchanged(
    s: Seq<MarketOrder>,
    i: int,
    x: MarketOrder,
    pred: spec_fn(MarketOrder) -> bool,
)
    requires
        0 <= i < s.len(),
        !pred(s[i]),
        !pred(x),
    ensures
        s.remove(i).filter(pred) == s.filter(pred),
        s.update(i, x).filter(pred) == s.filter(pred),
        s.push(x).filter(pred) == s.filter(pred),
{
    let front = s.subrange(0, i);
    let back = s.subrange(i + 1, s.len() as int);
    reveal(Seq::filter);
    assert(seq![s[i]].filter(pred) =~= Seq::<MarketOrder>::empty()) by {
        assert(seq![s[i]].drop_last() =~= Seq::<MarketOrder>::empty());
        assert(Seq::<MarketOrder>::empty().filter(pred) =~= Seq::<MarketOrder>::empty());
    }
    assert(seq![x].filter(pred) =~= Seq::<MarketOrder>::empty()) by {
        assert(seq![x].drop_last() =~= Seq::<MarketOrder>::empty());
        assert(Seq::<MarketOrder>::empty().filter(pred) =~= Seq::<MarketOrder>::empty());
    }
    assert(s =~= front + seq![s[i]] + back);
    assert(s.remove(i) =~= front + back);
    assert(s.update(i, x) =~= front + seq![x] + back);
    Seq::filter_distributes_over_add(front + seq![s[i]], back, pred);
    Seq::filter_distributes_over_add(front, seq![s[i]], pred);
    Seq::filter_distributes_over_add(front + seq![x], back, pred);
    Seq::filter_distributes_over_add(front, seq![x], pred);
    Seq::filter_distributes_over_add(front, back, pred);
    Seq::filter_distributes_over_add(s, seq![x], pred);
    assert(s.push(x) =~= s + seq![x]);
    assert(front.filter(pred) + Seq::<MarketOrder>::empty() =~= front.filter(pred));
    assert(s.filter(pred) + Seq::<MarketOrder>::empty() =~= s.filter(pred));
}

/// Orders of different commodities never interact: resolving an incoming
/// order leaves the resting orders of every other commodity as they were and
/// in their order, and every trade is in the incoming order's commodity.
pub proof fn lemma_commodity_isolation(book: Seq<MarketOrder>, incoming: MarketOrder)
    ensures
        resolve(book, incoming).0.filter(not_of(incoming.spec_commodity())) == book.filter(
            not_of(incoming.spec_commodity()),
        ),
        forall|k: int|
            0 <= k < resolve(book, incoming).1.len() ==> (#[trigger] resolve(book, incoming).1[k]).commodity
                == incoming.spec_commodity(),
    decreases book.len(),
{
    let pred = not_of(incoming.spec_commodity());
    match best_counterpart(book, incoming) {
        None => {
            lemma_filter_push_rejected(book, incoming, pred);
        },
        Some(i) => {
            assert(is_best_counterpart(book, incoming, i));
            let resting = book[i];
            let want = incoming.spec_amount();
            let have = resting.spec_amount();
            if !prices_cross(resting, incoming) {
                lemma_filter_push_rejected(book, incoming, pred);
            } else {
                lemma_filter_unchanged(book, i, resting.with_amount((have - want) as u64), pred);
                if want > have {
                    let next = incoming.with_amount((want - have) as u64);
                    lemma_commodity_isolation(book.remove(i), next);
                    let rest = resolve(book.remove(i), next);
                    assert forall|k: int| 0 <= k < resolve(book, incoming).1.len() implies (#[trigger] resolve(book, incoming).1[k]).commodity
                        == incoming.spec_commodity() by {
                        if k > 0 {
                            assert(resolve(book, incoming).1[k] == rest.1[k - 1]);
                        }
                    }
                }
            }
        },
    }
}

/// Appending an order that `pred` rejects leaves the orders that it keeps as
/// they were.
proof fn lemma_filter_push_rejected(s: Seq<MarketOrder>, x: MarketOrder, pred: spec_fn(MarketOrder) -> bool)
    requires
        !pred(x),
    ensures
        s.push(x).filter(pred) == s.filter(pred),
{
    reveal(Seq::filter);
    assert(s.push(x).drop_last() =~= s);
}

/// An incoming order that no counterpart's price crosses changes nothing but
/// the end of the book, where it comes to rest, and makes no trade. Resolving
/// it again from the same book gives the same result.
pub proof fn lemma_no_match_appends(book: Seq<MarketOrder>, incoming: MarketOrder)
    requires
        forall|i: int|
            0 <= i < book.len() && is_counterpart(#[trigger] book[i], incoming) ==> !prices_cross(
                book[i],
                incoming,
            ),
    ensures
        resolve(book, incoming) == (book.push(incoming), Seq::<Transaction>::empty()),
{
    if let Some(i) = best_counterpart(book, incoming) {
        assert(is_best_counterpart(book, incoming, i));
    }
}

/// There is at most one best counterpart.
pub proof fn lemma_best_counterpart_unique(
    book: Seq<MarketOrder>,
    incoming: MarketOrder,
    i: int,
    j: int,
)
    requires
        is_best_counterpart(book, incoming, i),
        is_best_counterpart(book, incoming, j),
    ensures
        i == j,
{
}

/// Finds the best counterpart of `incoming` in `book`.
fn find_best_counterpart(book: &Vec<MarketOrder>, incoming: &MarketOrder) -> (r: Option<usize>)
    ensures
        r matches Some(i) ==> is_best_counterpart(book@, *incoming, i as int),
        r is None ==> forall|j: int| 0 <= j < book@.len() ==> !is_counterpart(book@[j], *incoming),
{
    let mut best: Option<usize> = None;
    let mut k: usize = 0;
    while k < book.len()
        invariant
            k <= book@.len(),
            best is None ==> forall|j: int| 0 <= j < k ==> !is_counterpart(book@[j], *incoming),
            best matches Some(b) ==> {
                &&& b < k
                &&& is_counterpart(book@[b as int], *incoming)
                &&& forall|j: int|
                    0 <= j < k && is_counterpart(#[trigger] book@[j], *incoming) ==> {
                        &&& !book@[b as int].spec_other_price_better(book@[j])
                        &&& (j < b ==> book@[j].spec_other_price_better(book@[b as int]))
                    }
            },
        decreases book@.len() - k,
    {
        let order = &book[k];
        if order.is_buy() != incoming.is_buy() && order.commodity() == incoming.commodity() {
            match best {
                None => {
                    best = Some(k);
                },
                Some(b) => {
                    if book[b].is_other_price_better(order) {
                        best = Some(k);
                    }
                },
            }
        }
        k = k + 1;
    }
    best
}

/// Whether the bid is at least the ask.
fn prices_compatible(resting: &MarketOrder, incoming: &MarketOrder) -> (r: bool)
    ensures
        r == prices_cross(*resting, *incoming),
{
    match incoming {
        MarketOrder::BuyOrder(buy) => buy.price >= resting.price(),
        MarketOrder::SellOrder(sell) => resting.price() >= sell.price,
    }
}

/// The trade of `amount` units between `resting` and `incoming`.
fn make_trade(resting: &MarketOrder, incoming: &MarketOrder, amount: u64) -> (r: Transaction)
    ensures
        r == trade(*resting, *incoming, amount),
{
    let (seller, buyer) = match incoming {
        MarketOrder::BuyOrder(buy) => (resting.owner(), buy.buyer),
        MarketOrder::SellOrder(sell) => (sell.seller, resting.owner()),
    };
    Transaction { seller, buyer, commodity: incoming.commodity(), amount, price: resting.price() }
}

/// Matches `new_order` against `old_orders` and returns the orders left
/// resting and the trades made, in the order they were made.
pub fn resolve_orders(old_orders: Vec<MarketOrder>, new_order: MarketOrder) -> (r: (
    Vec<MarketOrder>,
    Vec<Transaction>,
))
    requires
        new_order.spec_amount() > 0,
        all_positive(old_orders@),
    ensures
        (r.0@, r.1@) == resolve(old_orders@, new_order),
        all_positive(r.0@),
        forall|k: int| 0 <= k < r.1@.len() ==> (#[trigger] r.1@[k]).amount > 0,
{
    let ghost book0 = old_orders@;
    let mut orders = old_orders;
    let mut incoming = new_order;
    let mut transactions: Vec<Transaction> = Vec::new();
    loop
        invariant
            book0 == old_orders@,
            incoming.spec_amount() > 0,
            all_positive(orders@),
            forall|k: int| 0 <= k < transactions@.len() ==> (#[trigger] transactions@[k]).amount > 0,
            resolve(book0, new_order) == (resolve(orders@, incoming).0, transactions@ + resolve(
                orders@,
                incoming,
            ).1),
        decreases orders@.len(),
    {
        let ghost before = orders@;
        let ghost traded = transactions@;
        match find_best_counterpart(&orders, &incoming) {
            None => {
                assert(best_counterpart(before, incoming) is None);
                assert(resolve(before, incoming) == (before.push(incoming), Seq::<Transaction>::empty()));
                orders.push(incoming);
                assert(transactions@ + Seq::<Transaction>::empty() =~= transactions@);
                return (orders, transactions);
            },
            Some(i) => {
                assert(best_counterpart(before, incoming) == Some(i as int)) by {
                    let c = choose|c: int| is_best_counterpart(before, incoming, c);
                    lemma_best_counterpart_unique(before, incoming, c, i as int);
                }
                let resting = orders[i];
                if !prices_compatible(&resting, &incoming) {
                    assert(resolve(before, incoming) == (before.push(incoming), Seq::<Transaction>::empty()));
                    orders.push(incoming);
                    assert(transactions@ + Seq::<Transaction>::empty() =~= transactions@);
                    return (orders, transactions);
                }
                let amount_to_transfer = if resting.amount() < incoming.amount() {
                    resting.amount()
                } else {
                    incoming.amount()
                };
                let tx = make_trade(&resting, &incoming, amount_to_transfer);
                transactions.push(tx);
                let mut reduced = resting;
                reduced.reduce_amount(amount_to_transfer);
                if reduced.amount() == 0 {
                    orders.remove(i);
                } else {
                    orders.set(i, reduced);
                }
                incoming.reduce_amount(amount_to_transfer);
                if incoming.amount() == 0 {
                    assert(transactions@ =~= traded + seq![tx]);
                    return (orders, transactions);
                }
                assert(transactions@ + resolve(orders@, incoming).1 =~= traded + (seq![tx]
                    + resolve(orders@, incoming).1));
            },
        }
    }
}

} // verus!

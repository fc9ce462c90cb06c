//! The book of one option contract: a call or a put at one strike.

use super::quote::Quote;
use super::totals::nothing_counted;
use crate::error::Error;
use orderbook_rs::{Id, OrderBook, OrderBookError, OrderBookSnapshot, Side, TimeInForce};
use vstd::prelude::*;

verus! {

/// `OrderBook` of `orderbook_rs`: the matching engine of one contract.
#[verifier::external_type_specification]
#[verifier::external_body]
#[verifier::reject_recursive_types(T)]
pub struct ExOrderBook<T>(OrderBook<T>);

/// `OrderBookError` of `orderbook_rs`: why the engine refused a request.
#[verifier::external_type_specification]
#[verifier::external_body]
pub struct ExOrderBookError(OrderBookError);

/// `OrderBookSnapshot` of `orderbook_rs`: the levels captured in one reading.
#[verifier::external_type_specification]
#[verifier::external_body]
pub struct ExOrderBookSnapshot(OrderBookSnapshot);

/// `Id` of `orderbook_rs`: the identifier of an order.
#[verifier::external_type_specification]
#[verifier::external_body]
pub struct ExId(Id);

/// `Side` of `orderbook_rs`: buy or sell.
#[verifier::external_type_specification]
#[verifier::external_body]
pub struct ExSide(Side);

/// `TimeInForce` of `orderbook_rs`: how long an order rests.
#[verifier::external_type_specification]
#[verifier::external_body]
pub struct ExTimeInForce(TimeInForce);

/// The right an option gives: to buy (a call) or to sell (a put).
#[derive(Debug, Clone, Copy, PartialEq, Eq, Hash, Structural)]
pub enum OptionStyle {
    /// The right to buy the underlying at the strike.
    Call,
    /// The right to sell the underlying at the strike.
    Put,
}

/// Makes an empty engine with `OrderBook::new`. Nothing is claimed of it.
#[verifier::external_body]
fn engine_new(symbol: &str) -> (engine: OrderBook<()>) {
    OrderBook::new(symbol)
}

/// The time in force of an order that rests until it is filled or
/// cancelled: `TimeInForce::Gtc`.
#[verifier::external_body]
fn good_till_cancelled() -> (time_in_force: TimeInForce) {
    TimeInForce::Gtc
}

/// Hands a limit order to `OrderBook::add_limit_order`, with no extra
/// fields, and gives the id of the order that the engine reports as resting.
/// The engine decides whether the order is accepted; nothing is claimed of
/// the outcome.
#[verifier::external_body]
fn engine_add_limit(
    engine: &OrderBook<()>,
    id: Id,
    side: Side,
    price: u128,
    size: u64,
    time_in_force: TimeInForce,
) -> (outcome: Result<Id, OrderBookError>) {
    match engine.add_limit_order(id, price, size, side, time_in_force, None) {
        Ok(order) => Ok(order.id()),
        Err(refusal) => Err(refusal),
    }
}

/// Calls `OrderBook::cancel_order` and gives the id of the order that the
/// engine took out, if one was resting under the id. Nothing is claimed of
/// the outcome.
#[verifier::external_body]
fn engine_cancel(engine: &OrderBook<()>, id: Id) -> (outcome: Result<Option<Id>, OrderBookError>) {
    match engine.cancel_order(id) {
        Ok(Some(order)) => Ok(Some(order.id())),
        Ok(None) => Ok(None),
        Err(refusal) => Err(refusal),
    }
}

/// Captures the best levels of each side with `OrderBook::create_snapshot`,
/// `depth` of them at most; `None` where the engine could not capture them.
/// Nothing is claimed of what was captured.
#[verifier::external_body]
fn engine_snapshot(engine: &OrderBook<()>, depth: usize) -> (top: Option<OrderBookSnapshot>) {
    match engine.create_snapshot(depth) {
        Ok(snapshot) => Some(snapshot),
        Err(_) => None,
    }
}

/// Reads `OrderBookSnapshot::best_bid`: the highest bid price captured and
/// the visible size at it. Nothing is claimed of them.
#[verifier::external_body]
fn captured_bid(top: &OrderBookSnapshot) -> (level: Option<(u128, u64)>) {
    top.best_bid()
}

/// Reads `OrderBookSnapshot::best_ask`: the lowest ask price captured and
/// the visible size at it. Nothing is claimed of them.
#[verifier::external_body]
fn captured_ask(top: &OrderBookSnapshot) -> (level: Option<(u128, u64)>) {
    top.best_ask()
}

/// Walks the engine with `OrderBook::get_all_orders` and gives the id of
/// each order met: the orders resting on either side at the moment of the
/// walk. Nothing is claimed of them.
#[verifier::external_body]
fn engine_resting(engine: &OrderBook<()>) -> (ids: Vec<Id>) {
    engine.get_all_orders().iter().map(|order| order.id()).collect()
}

/// Calls `OrderBook::cancel_all_orders` and drops its report.
#[verifier::external_body]
fn engine_clear(engine: &OrderBook<()>) {
    let _ = engine.cancel_all_orders();
}

/// Writes an engine error with its `Display`. Nothing is claimed of the text.
#[verifier::external_body]
fn refusal_text(refusal: &OrderBookError) -> (text: String) {
    refusal.to_string()
}

/// The book of one option contract.
///
/// The orders live in a matching engine that any number of threads may use
/// at once, so what a reading returns holds for the moment of the reading
/// only.
pub struct OptionOrderBook {
    symbol: String,
    option_style: OptionStyle,
    engine: OrderBook<()>,
}

impl OptionOrderBook {
    /// The symbol the book was made for.
    pub closed spec fn symbol_text(&self) -> Seq<char> {
        self.symbol@
    }

    /// The style the book was made for.
    pub closed spec fn style(&self) -> OptionStyle {
        self.option_style
    }

    /// Creates an empty book for the contract named `symbol`.
    pub fn new(symbol: &str, option_style: OptionStyle) -> (book: OptionOrderBook)
        ensures
            book.symbol_text() == symbol@,
            book.style() == option_style,
    {
        OptionOrderBook { symbol: symbol.to_owned(), option_style, engine: engine_new(symbol) }
    }

    /// Returns the symbol of the contract.
    pub fn symbol(&self) -> (symbol: &str)
        ensures
            symbol@ == self.symbol_text(),
    {
        self.symbol.as_str()
    }

    /// Returns the style of the contract.
    pub fn option_style(&self) -> (option_style: OptionStyle)
        ensures
            option_style == self.style(),
    {
        self.option_style
    }

    /// What a request gives once the engine has answered: the engine's value
    /// where it accepted, `Error::OrderBook` with the engine's text where it
    /// refused.
    pub fn settle<T>(outcome: Result<T, String>) -> (settled: Result<T, Error>)
        ensures
            match outcome {
                Ok(value) => settled == Ok::<T, Error>(value),
                Err(reason) => settled == Err::<T, Error>(Error::OrderBook(reason)),
            },
    {
        match outcome {
            Ok(value) => Ok(value),
            Err(reason) => Err(Error::orderbook(reason)),
        }
    }

    /// Adds a limit order that rests until it is filled or cancelled.
    ///
    /// The engine decides; where it refuses, the error is `Error::OrderBook`.
    pub fn add_limit_order(&self, order_id: Id, side: Side, price: u128, size: u64) -> (added: Result<(), Error>)
        ensures
            added is Err ==> added->Err_0 is OrderBook,
    {
        match engine_add_limit(&self.engine, order_id, side, price, size, good_till_cancelled()) {
            Ok(_) => Self::settle(Ok(())),
            Err(refusal) => Self::settle(Err(refusal_text(&refusal))),
        }
    }

    /// Cancels the order resting under `order_id`; `Ok(false)` where none was.
    ///
    /// The engine decides; where it refuses, the error is `Error::OrderBook`.
    pub fn cancel_order(&self, order_id: Id) -> (cancelled: Result<bool, Error>)
        ensures
            cancelled is Err ==> cancelled->Err_0 is OrderBook,
    {
        match engine_cancel(&self.engine, order_id) {
            Ok(removed) => Self::settle(Ok(removed.is_some())),
            Err(refusal) => Self::settle(Err(refusal_text(&refusal))),
        }
    }

    /// Returns the best bid and ask with their sizes: an empty quote where
    /// the engine could capture nothing.
    pub fn best_quote(&self) -> (quote: Quote)
        ensures
            quote.bid_price is None ==> quote.bid_size == 0,
            quote.ask_price is None ==> quote.ask_size == 0,
    {
        match engine_snapshot(&self.engine, 1) {
            Some(top) => Quote::from_levels(captured_bid(&top), captured_ask(&top)),
            None => Quote::from_levels(None, None),
        }
    }

    /// Returns the number of resting orders.
    pub fn order_count(&self) -> (count: usize) {
        engine_resting(&self.engine).len()
    }

    /// Returns true if no order is resting.
    pub fn is_empty(&self) -> (empty: bool) {
        nothing_counted(engine_resting(&self.engine).len())
    }

    /// Cancels every resting order.
    pub fn clear(&self) {
        engine_clear(&self.engine)
    }
}

} // verus!

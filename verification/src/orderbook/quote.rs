//! The top of one book, both sides.

use vstd::prelude::*;

verus! {

/// The best price on each side of a book and the size resting at it.
///
/// A side with no resting order has no price. The quote is a reading of the
/// book at one moment; it is not kept up to date.
#[derive(Debug, Clone, Copy, PartialEq, Eq)]
pub struct Quote {
    /// The highest price a buyer bids, if any buyer bids.
    pub bid_price: Option<u128>,
    /// The size resting at the best bid.
    pub bid_size: u64,
    /// The lowest price a seller asks, if any seller asks.
    pub ask_price: Option<u128>,
    /// The size resting at the best ask.
    pub ask_size: u64,
}

impl Quote {
    /// A quote from its four parts.
    pub fn new(bid_price: Option<u128>, bid_size: u64, ask_price: Option<u128>, ask_size: u64) -> (quote: Quote)
        ensures
            quote == (Quote { bid_price, bid_size, ask_price, ask_size }),
    {
        Quote { bid_price, bid_size, ask_price, ask_size }
    }

    /// The quote of a book whose best levels are `bid` and `ask`, each a
    /// price and the size at it. An absent level quotes no price and size 0.
    pub open spec fn of_levels(bid: Option<(u128, u64)>, ask: Option<(u128, u64)>) -> Quote {
        Quote {
            bid_price: match bid {
                Some(level) => Some(level.0),
                None => None,
            },
            bid_size: match bid {
                Some(level) => level.1,
                None => 0,
            },
            ask_price: match ask {
                Some(level) => Some(level.0),
                None => None,
            },
            ask_size: match ask {
                Some(level) => level.1,
                None => 0,
            },
        }
    }

    /// Builds the quote of a book from its best level on each side.
    pub fn from_levels(bid: Option<(u128, u64)>, ask: Option<(u128, u64)>) -> (quote: Quote)
        ensures
            quote == Self::of_levels(bid, ask),
    {
        let (bid_price, bid_size): (Option<u128>, u64) = match bid {
            Some(level) => (Some(level.0), level.1),
            None => (None, 0),
        };
        let (ask_price, ask_size): (Option<u128>, u64) = match ask {
            Some(level) => (Some(level.0), level.1),
            None => (None, 0),
        };
        Quote { bid_price, bid_size, ask_price, ask_size }
    }

    /// Whether both a bid and an ask are present.
    pub open spec fn two_sided(self) -> bool {
        self.bid_price is Some && self.ask_price is Some
    }

    /// The best bid price, if there is a bid.
    pub fn bid_price(&self) -> (price: Option<u128>)
        ensures
            price == self.bid_price,
    {
        self.bid_price
    }

    /// The size at the best bid.
    pub fn bid_size(&self) -> (size: u64)
        ensures
            size == self.bid_size,
    {
        self.bid_size
    }

    /// The best ask price, if there is an ask.
    pub fn ask_price(&self) -> (price: Option<u128>)
        ensures
            price == self.ask_price,
    {
        self.ask_price
    }

    /// The size at the best ask.
    pub fn ask_size(&self) -> (size: u64)
        ensures
            size == self.ask_size,
    {
        self.ask_size
    }

    /// Returns true if both a bid and an ask are present.
    pub fn is_two_sided(&self) -> (both: bool)
        ensures
            both == self.two_sided(),
    {
        self.bid_price.is_some() && self.ask_price.is_some()
    }

    /// Returns true if neither a bid nor an ask is present.
    pub fn is_empty(&self) -> (neither: bool)
        ensures
            neither == (self.bid_price is None && self.ask_price is None),
    {
        self.bid_price.is_none() && self.ask_price.is_none()
    }
}

} // verus!

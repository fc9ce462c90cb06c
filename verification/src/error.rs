//! The failures the registry reports, each with the key that caused it.

use crate::text::{decimal, decimal_text};
use crate::utils::{describe_expiration, description_at, parts, Instant};
use optionstratlib::ExpirationDate;
use vstd::prelude::*;
use vstd::string::StringExecFns;

verus! {

/// Why a request could not be served.
#[derive(Debug, PartialEq)]
pub enum Error {
    /// No underlying is registered under this symbol.
    UnderlyingNotFound(String),
    /// No chain is registered under this expiration.
    ExpirationNotFound(ExpirationDate),
    /// No book is registered under this strike.
    StrikeNotFound(u64),
    /// The query needs data that is not there; the text says which.
    NoDataAvailable(String),
    /// The expiration does not resolve to a date the calendar can write.
    InvalidExpiration(ExpirationDate),
    /// The matching engine refused the request; the text is the engine's own.
    OrderBook(String),
}

impl Error {
    /// Whether this is `UnderlyingNotFound` for the symbol `symbol`.
    pub open spec fn is_underlying_not_found(self, symbol: Seq<char>) -> bool {
        self matches Error::UnderlyingNotFound(name) && name@ == symbol
    }

    /// Whether this is `NoDataAvailable` with the context `context`.
    pub open spec fn is_no_data(self, context: Seq<char>) -> bool {
        self matches Error::NoDataAvailable(text) && text@ == context
    }

    /// The failure of a lookup by underlying symbol.
    pub fn underlying_not_found(symbol: &str) -> (error: Error)
        ensures
            error.is_underlying_not_found(symbol@),
    {
        Error::UnderlyingNotFound(symbol.to_owned())
    }

    /// The failure of a lookup by expiration.
    pub fn expiration_not_found(expiration: ExpirationDate) -> (error: Error)
        ensures
            error == Error::ExpirationNotFound(expiration),
    {
        Error::ExpirationNotFound(expiration)
    }

    /// The failure of a lookup by strike.
    pub fn strike_not_found(strike: u64) -> (error: Error)
        ensures
            error == Error::StrikeNotFound(strike),
    {
        Error::StrikeNotFound(strike)
    }

    /// The failure of a query that found nothing to answer from.
    pub fn no_data(context: &str) -> (error: Error)
        ensures
            error.is_no_data(context@),
    {
        Error::NoDataAvailable(context.to_owned())
    }

    /// The failure of an expiration that resolves to no date.
    pub fn invalid_expiration(expiration: ExpirationDate) -> (error: Error)
        ensures
            error == Error::InvalidExpiration(expiration),
    {
        Error::InvalidExpiration(expiration)
    }

    /// The failure of a request that the matching engine refused.
    pub fn orderbook(reason: String) -> (error: Error)
        ensures
            error == Error::OrderBook(reason),
    {
        Error::OrderBook(reason)
    }

    /// What the error says, an expiration in it written as `label`.
    pub open spec fn text(self, label: Seq<char>) -> Seq<char> {
        match self {
            Error::UnderlyingNotFound(symbol) => "underlying not found: "@ + symbol@,
            Error::ExpirationNotFound(_) => "expiration not found: "@ + label,
            Error::StrikeNotFound(strike) => "strike not found: "@ + decimal(strike as nat),
            Error::NoDataAvailable(context) => "no data available: "@ + context@,
            Error::InvalidExpiration(_) => "invalid expiration: "@ + label,
            Error::OrderBook(reason) => "orderbook error: "@ + reason@,
        }
    }

    /// Writes the error, an expiration in it written as `label`.
    pub fn describe(&self, label: &str) -> (line: String)
        ensures
            line@ == self.text(label@),
    {
        match self {
            Error::UnderlyingNotFound(symbol) => String::from_str("underlying not found: ").concat(symbol.as_str()),
            Error::ExpirationNotFound(_) => String::from_str("expiration not found: ").concat(label),
            Error::StrikeNotFound(strike) => String::from_str("strike not found: ").concat(
                decimal_text(*strike).as_str(),
            ),
            Error::NoDataAvailable(context) => String::from_str("no data available: ").concat(context.as_str()),
            Error::InvalidExpiration(_) => String::from_str("invalid expiration: ").concat(label),
            Error::OrderBook(reason) => String::from_str("orderbook error: ").concat(reason.as_str()),
        }
    }

    /// Writes the error, an expiration in it written as the date and time it
    /// resolves to now.
    pub fn to_string(&self) -> (line: String)
        ensures
            match *self {
                Error::ExpirationNotFound(expiration) => exists|base: Instant|
                    line@ == self.text(#[trigger] description_at(parts(expiration), base)),
                Error::InvalidExpiration(expiration) => exists|base: Instant|
                    line@ == self.text(#[trigger] description_at(parts(expiration), base)),
                _ => line@ == self.text(Seq::empty()),
            },
    {
        match self {
            Error::ExpirationNotFound(expiration) => {
                let label = describe_expiration(expiration);
                self.describe(label.as_str())
            },
            Error::InvalidExpiration(expiration) => {
                let label = describe_expiration(expiration);
                self.describe(label.as_str())
            },
            _ => self.describe(""),
        }
    }
}

} // verus!

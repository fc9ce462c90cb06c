//! The option chain of one expiration, and a registry of chains by
//! expiration.

use super::strike::{StrikeOrderBook, StrikeOrderBookManager};
use super::totals::{nothing_counted, total};
use crate::error::Error;
use crate::registry::{discard, empty_map, entries, entry_count, find, find_or_insert, strictly_ascending};
use crate::text::{decimal, decimal_text};
use crate::utils::{describe_expiration, description_at, parts, same_expiration, Instant};
use crossbeam_skiplist::SkipMap;
use optionstratlib::ExpirationDate;
use std::sync::Arc;
use vstd::prelude::*;
use vstd::string::StringExecFns;

verus! {

/// Option chain order book for a single expiration: every strike of one
/// underlying that expires on one date.
pub struct OptionChainOrderBook {
    underlying: String,
    expiration: ExpirationDate,
    strikes: StrikeOrderBookManager,
}

impl OptionChainOrderBook {
    #[verifier::type_invariant]
    spec fn well_formed(&self) -> bool {
        &&& self.strikes.underlying_text() == self.underlying@
        &&& self.strikes.expiration_date() == self.expiration
    }

    /// The symbol of the underlying asset that the chain was made for.
    pub closed spec fn underlying_text(&self) -> Seq<char> {
        self.underlying@
    }

    /// The expiration that the chain was made for.
    pub closed spec fn expiration_date(&self) -> ExpirationDate {
        self.expiration
    }

    /// The registry of the chain's strikes.
    pub closed spec fn strike_manager(&self) -> StrikeOrderBookManager {
        self.strikes
    }

    /// Whether `book` is a book of this chain's underlying and expiration at
    /// the strike `strike`.
    pub open spec fn keeps(&self, book: StrikeOrderBook, strike: u64) -> bool {
        &&& book@.underlying == self.underlying_text()
        &&& book@.expiration == self.expiration_date()
        &&& book@.strike == strike
    }

    /// Creates a new option chain order book.
    pub fn new(underlying: &str, expiration: ExpirationDate) -> (chain: OptionChainOrderBook)
        ensures
            chain.underlying_text() == underlying@,
            chain.expiration_date() == expiration,
    {
        OptionChainOrderBook {
            strikes: StrikeOrderBookManager::new(underlying, expiration),
            underlying: String::from_str(underlying),
            expiration,
        }
    }

    /// Returns the underlying asset symbol.
    pub fn underlying(&self) -> (underlying: &str)
        ensures
            underlying@ == self.underlying_text(),
    {
        self.underlying.as_str()
    }

    /// Returns the expiration date.
    pub fn expiration(&self) -> (expiration: &ExpirationDate)
        ensures
            *expiration == self.expiration_date(),
    {
        &self.expiration
    }

    /// Returns a reference to the strike manager.
    pub fn strikes(&self) -> (strikes: &StrikeOrderBookManager)
        ensures
            *strikes == self.strike_manager(),
            strikes.underlying_text() == self.underlying_text(),
            strikes.expiration_date() == self.expiration_date(),
    {
        proof {
            use_type_invariant(self);
        }
        &self.strikes
    }

    /// Gets or creates a strike order book.
    pub fn get_or_create_strike(&self, strike: u64) -> (book: Arc<StrikeOrderBook>)
        ensures
            self.keeps(*book, strike),
    {
        proof {
            use_type_invariant(self);
        }
        self.strikes.get_or_create(strike)
    }

    /// Gets a strike order book.
    ///
    /// Fails with `StrikeNotFound` where the strike is not registered.
    pub fn get_strike(&self, strike: u64) -> (result: Result<Arc<StrikeOrderBook>, Error>)
        ensures
            match result {
                Ok(book) => self.keeps(*book, strike),
                Err(error) => error == Error::StrikeNotFound(strike),
            },
    {
        proof {
            use_type_invariant(self);
        }
        self.strikes.get(strike)
    }

    /// Returns the number of strikes: an estimate while other threads
    /// register or remove strikes.
    pub fn strike_count(&self) -> (count: usize) {
        self.strikes.len()
    }

    /// Returns true if there are no strikes.
    pub fn is_empty(&self) -> (empty: bool) {
        self.strikes.is_empty()
    }

    /// Returns all strike prices, strictly ascending.
    pub fn strike_prices(&self) -> (prices: Vec<u64>)
        ensures
            strictly_ascending(prices@),
    {
        self.strikes.strike_prices()
    }

    /// Returns the total order count across all strikes.
    pub fn total_order_count(&self) -> (count: usize) {
        self.strikes.total_order_count()
    }

    /// Returns the ATM strike closest to the given spot price.
    ///
    /// Fails with `NoDataAvailable` where there is no strike.
    pub fn atm_strike(&self, spot: u64) -> (nearest: Result<u64, Error>)
        ensures
            nearest is Err ==> nearest->Err_0.is_no_data("no strikes available"@),
    {
        self.strikes.atm_strike(spot)
    }

    /// Returns statistics about this option chain: its expiration with what
    /// `strike_count` and `total_order_count` read, the strikes first; see
    /// `OptionChainStats::of_counts`.
    pub fn stats(&self) -> (stats: OptionChainStats)
        ensures
            stats.expiration == self.expiration_date(),
    {
        OptionChainStats::of_counts(self.expiration, self.strike_count(), self.total_order_count())
    }
}

/// Statistics about an option chain.
#[derive(Debug, Clone)]
pub struct OptionChainStats {
    /// The expiration date.
    pub expiration: ExpirationDate,
    /// Number of strikes.
    pub strike_count: usize,
    /// Total number of orders.
    pub total_orders: usize,
}

impl OptionChainStats {
    /// The statistics of the chain of `expiration` that counts
    /// `strike_count` strikes and `total_orders` orders.
    pub fn of_counts(expiration: ExpirationDate, strike_count: usize, total_orders: usize) -> (stats:
        OptionChainStats)
        ensures
            stats.expiration == expiration,
            stats.strike_count == strike_count,
            stats.total_orders == total_orders,
    {
        OptionChainStats { expiration, strike_count, total_orders }
    }

    /// The line that reports a chain written as `label` with these counts.
    pub open spec fn line(label: Seq<char>, strike_count: usize, total_orders: usize) -> Seq<char> {
        label + ": "@ + decimal(strike_count as nat) + " strikes, "@ + decimal(total_orders as nat) + " orders"@
    }

    /// Writes the statistics in one line, the expiration written as `label`.
    pub fn describe(&self, label: &str) -> (line: String)
        ensures
            line@ == Self::line(label@, self.strike_count, self.total_orders),
    {
        let mut line = String::from_str(label);
        line.append(": ");
        line.append(decimal_text(self.strike_count as u64).as_str());
        line.append(" strikes, ");
        line.append(decimal_text(self.total_orders as u64).as_str());
        line.append(" orders");
        line
    }

    /// Writes the statistics in one line, the expiration written as the
    /// date and time it resolves to now.
    pub fn to_string(&self) -> (line: String)
        ensures
            exists|base: Instant|
                line@ == Self::line(
                    #[trigger] description_at(parts(self.expiration), base),
                    self.strike_count,
                    self.total_orders,
                ),
    {
        let label = describe_expiration(&self.expiration);
        self.describe(label.as_str())
    }
}

/// Manages option chain order books for multiple expirations of one
/// underlying.
///
/// Any number of threads may use one manager at once. A chain handed out
/// stays usable after it has been removed from the manager.
///
/// Expirations are kept in their own order. Day counts among themselves and
/// fixed instants among themselves are ordered without reading a clock; a
/// day count is ordered against a fixed instant by where it falls now, so a
/// manager should hold expirations of one kind.
pub struct OptionChainOrderBookManager {
    chains: SkipMap<ExpirationDate, Arc<OptionChainOrderBook>>,
    underlying: String,
}

impl OptionChainOrderBookManager {
    /// The symbol of the underlying asset that the manager was made for.
    pub closed spec fn underlying_text(&self) -> Seq<char> {
        self.underlying@
    }

    /// Whether `chain` is the chain of this manager's underlying for
    /// `expiration`.
    pub open spec fn keeps(&self, chain: OptionChainOrderBook, expiration: ExpirationDate) -> bool {
        &&& chain.underlying_text() == self.underlying_text()
        &&& chain.expiration_date() == expiration
    }

    /// What a lookup by `expiration` gives when the map has answered
    /// `found`: the chain found, if it is this manager's chain for that
    /// expiration, and `ExpirationNotFound` otherwise.
    pub open spec fn vetted(&self, found: Option<Arc<OptionChainOrderBook>>, expiration: ExpirationDate) -> Result<
        Arc<OptionChainOrderBook>,
        Error,
    > {
        match found {
            Some(chain) => if self.keeps(*chain, expiration) {
                Ok(chain)
            } else {
                Err(Error::ExpirationNotFound(expiration))
            },
            None => Err(Error::ExpirationNotFound(expiration)),
        }
    }

    /// Creates a new option chain manager.
    pub fn new(underlying: &str) -> (manager: OptionChainOrderBookManager)
        ensures
            manager.underlying_text() == underlying@,
    {
        OptionChainOrderBookManager { chains: empty_map(), underlying: String::from_str(underlying) }
    }

    /// Returns the underlying asset symbol.
    pub fn underlying(&self) -> (underlying: &str)
        ensures
            underlying@ == self.underlying_text(),
    {
        self.underlying.as_str()
    }

    /// Returns the number of option chains: an estimate while other threads
    /// register or remove chains.
    pub fn len(&self) -> (count: usize) {
        entry_count(&self.chains)
    }

    /// Returns true if there are no option chains.
    pub fn is_empty(&self) -> (empty: bool) {
        nothing_counted(entry_count(&self.chains))
    }

    /// Tells whether `chain` is this manager's chain for `expiration`.
    pub fn owns(&self, chain: &OptionChainOrderBook, expiration: &ExpirationDate) -> (own: bool)
        ensures
            own == self.keeps(*chain, *expiration),
    {
        same_expiration(chain.expiration(), expiration) && chain.underlying.eq(&self.underlying)
    }

    /// Turns the map's answer to a lookup by `expiration` into the result of
    /// the lookup.
    pub fn vet(&self, found: Option<Arc<OptionChainOrderBook>>, expiration: &ExpirationDate) -> (result: Result<
        Arc<OptionChainOrderBook>,
        Error,
    >)
        ensures
            result == self.vetted(found, *expiration),
    {
        match found {
            Some(chain) => {
                if self.owns(&chain, expiration) {
                    Ok(chain)
                } else {
                    Err(Error::expiration_not_found(*expiration))
                }
            },
            None => Err(Error::expiration_not_found(*expiration)),
        }
    }

    /// Gets or creates an option chain for the given expiration.
    ///
    /// Where the expiration is not registered, a new chain is offered to the
    /// map, which keeps it unless another thread has registered the
    /// expiration meanwhile; the chain that the map keeps is returned.
    ///
    /// Only this function stores chains in the map, each under its own
    /// expiration, so the map answers with this manager's chain for the
    /// expiration. Should it ever answer with another chain, that chain is
    /// not handed out: a new chain is returned that the map does not hold.
    pub fn get_or_create(&self, expiration: ExpirationDate) -> (chain: Arc<OptionChainOrderBook>)
        ensures
            self.keeps(*chain, expiration),
    {
        match self.vet(find(&self.chains, &expiration), &expiration) {
            Ok(chain) => chain,
            Err(_) => {
                let candidate = Arc::new(OptionChainOrderBook::new(self.underlying.as_str(), expiration));
                match self.vet(Some(find_or_insert(&self.chains, expiration, candidate)), &expiration) {
                    Ok(chain) => chain,
                    Err(_) => Arc::new(OptionChainOrderBook::new(self.underlying.as_str(), expiration)),
                }
            },
        }
    }

    /// Gets an option chain by expiration.
    ///
    /// Fails with `ExpirationNotFound` where the expiration is not
    /// registered; never registers it.
    pub fn get(&self, expiration: &ExpirationDate) -> (result: Result<Arc<OptionChainOrderBook>, Error>)
        ensures
            match result {
                Ok(chain) => self.keeps(*chain, *expiration),
                Err(error) => error == Error::ExpirationNotFound(*expiration),
            },
    {
        self.vet(find(&self.chains, expiration), expiration)
    }

    /// Returns true if an option chain exists for the expiration: if `get`
    /// would succeed now.
    pub fn contains(&self, expiration: &ExpirationDate) -> (present: bool) {
        self.vet(find(&self.chains, expiration), expiration).is_ok()
    }

    /// Removes an option chain. Returns true if the expiration was
    /// registered and this call removed it. Chains handed out before stay
    /// usable.
    pub fn remove(&self, expiration: &ExpirationDate) -> (removed: bool) {
        discard(&self.chains, expiration).is_some()
    }

    /// Returns the total order count across all chains: the counts of the
    /// chains met in one walk, each read as the walk reaches it.
    pub fn total_order_count(&self) -> (count: usize) {
        let pairs = entries(&self.chains);
        let mut counts: Vec<usize> = Vec::new();
        let mut done: usize = 0;
        while done < pairs.len()
            invariant
                done <= pairs.len(),
            decreases pairs.len() - done,
        {
            counts.push(pairs[done].1.total_order_count());
            done = done + 1;
        }
        total(&counts)
    }
}

/// A lookup fails exactly when the map does not hold the manager's chain
/// for the expiration, and then with `ExpirationNotFound` for that
/// expiration.
pub proof fn chain_not_found_iff_absent(
    manager: OptionChainOrderBookManager,
    found: Option<Arc<OptionChainOrderBook>>,
    expiration: ExpirationDate,
)
    ensures
        manager.vetted(found, expiration) is Err <==> !(found is Some && manager.keeps(*found->Some_0, expiration)),
        manager.vetted(found, expiration) is Err ==> manager.vetted(found, expiration) == Err::<
            Arc<OptionChainOrderBook>,
            Error,
        >(Error::ExpirationNotFound(expiration)),
        manager.vetted(found, expiration) is Ok ==> manager.vetted(found, expiration) == Ok::<
            Arc<OptionChainOrderBook>,
            Error,
        >(found->Some_0),
{
}

} // verus!

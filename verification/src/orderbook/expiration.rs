//! Everything that expires on one date, and the registry of the expirations
//! of one underlying.

use super::chain::{OptionChainOrderBook, OptionChainStats};
use super::strike::StrikeOrderBook;
use super::totals::{capped, nothing_counted, sum, total};
use crate::error::Error;
use crate::registry::{discard, empty_map, entries, entry_count, find, find_or_insert, share, strictly_ascending};
use crate::text::{decimal, decimal_text};
use crate::utils::same_expiration;
use crossbeam_skiplist::SkipMap;
use optionstratlib::ExpirationDate;
use std::sync::Arc;
use vstd::prelude::*;
use vstd::string::StringExecFns;

verus! {

/// Order book for a single expiration date: the option chain of one
/// underlying for that date.
pub struct ExpirationOrderBook {
    underlying: String,
    expiration: ExpirationDate,
    chain: Arc<OptionChainOrderBook>,
}

impl ExpirationOrderBook {
    #[verifier::type_invariant]
    spec fn well_formed(&self) -> bool {
        &&& self.chain.underlying_text() == self.underlying@
        &&& self.chain.expiration_date() == self.expiration
    }

    /// The symbol of the underlying asset that the book was made for.
    pub closed spec fn underlying_text(&self) -> Seq<char> {
        self.underlying@
    }

    /// The expiration that the book was made for.
    pub closed spec fn expiration_date(&self) -> ExpirationDate {
        self.expiration
    }

    /// The option chain of the book.
    pub closed spec fn option_chain(&self) -> OptionChainOrderBook {
        *self.chain
    }

    /// Whether `book` is a book of this underlying and expiration at the
    /// strike `strike`.
    pub open spec fn keeps(&self, book: StrikeOrderBook, strike: u64) -> bool {
        &&& book@.underlying == self.underlying_text()
        &&& book@.expiration == self.expiration_date()
        &&& book@.strike == strike
    }

    /// Creates a new expiration order book.
    pub fn new(underlying: &str, expiration: ExpirationDate) -> (book: ExpirationOrderBook)
        ensures
            book.underlying_text() == underlying@,
            book.expiration_date() == expiration,
    {
        ExpirationOrderBook {
            chain: Arc::new(OptionChainOrderBook::new(underlying, expiration)),
            underlying: String::from_str(underlying),
            expiration,
        }
    }

    /// Returns the underlying asset symbol.
    pub fn underlying(&self) -> (underlying: &str)
        ensures
            underlying@ == self.underlying_text(),
    {
        self.underlying.as_str()
    }

    /// Returns the expiration date.
    pub fn expiration(&self) -> (expiration: &ExpirationDate)
        ensures
            *expiration == self.expiration_date(),
    {
        &self.expiration
    }

    /// Returns a reference to the option chain.
    pub fn chain(&self) -> (chain: &OptionChainOrderBook)
        ensures
            *chain == self.option_chain(),
            chain.underlying_text() == self.underlying_text(),
            chain.expiration_date() == self.expiration_date(),
    {
        proof {
            use_type_invariant(self);
        }
        &self.chain
    }

    /// Returns another handle to the option chain.
    pub fn chain_arc(&self) -> (chain: Arc<OptionChainOrderBook>)
        ensures
            *chain == self.option_chain(),
            chain.underlying_text() == self.underlying_text(),
            chain.expiration_date() == self.expiration_date(),
    {
        proof {
            use_type_invariant(self);
        }
        share(&self.chain)
    }

    /// Gets or creates a strike order book.
    pub fn get_or_create_strike(&self, strike: u64) -> (book: Arc<StrikeOrderBook>)
        ensures
            self.keeps(*book, strike),
    {
        proof {
            use_type_invariant(self);
        }
        self.chain.get_or_create_strike(strike)
    }

    /// Gets a strike order book.
    ///
    /// Fails with `StrikeNotFound` where the strike is not registered.
    pub fn get_strike(&self, strike: u64) -> (result: Result<Arc<StrikeOrderBook>, Error>)
        ensures
            match result {
                Ok(book) => self.keeps(*book, strike),
                Err(error) => error == Error::StrikeNotFound(strike),
            },
    {
        proof {
            use_type_invariant(self);
        }
        self.chain.get_strike(strike)
    }

    /// Returns the number of strikes: an estimate while other threads
    /// register or remove strikes.
    pub fn strike_count(&self) -> (count: usize) {
        self.chain.strike_count()
    }

    /// Returns true if there are no strikes.
    pub fn is_empty(&self) -> (empty: bool) {
        self.chain.is_empty()
    }

    /// Returns all strike prices, strictly ascending.
    pub fn strike_prices(&self) -> (prices: Vec<u64>)
        ensures
            strictly_ascending(prices@),
    {
        self.chain.strike_prices()
    }

    /// Returns the total order count.
    pub fn total_order_count(&self) -> (count: usize) {
        self.chain.total_order_count()
    }

    /// Returns the ATM strike closest to the given spot price.
    ///
    /// Fails with `NoDataAvailable` where there is no strike.
    pub fn atm_strike(&self, spot: u64) -> (nearest: Result<u64, Error>)
        ensures
            nearest is Err ==> nearest->Err_0.is_no_data("no strikes available"@),
    {
        self.chain.atm_strike(spot)
    }
}

/// Manages expiration order books for a single underlying.
///
/// Any number of threads may use one manager at once. A book handed out
/// stays usable after it has been removed from the manager.
///
/// Expirations are kept in their own order. Day counts among themselves and
/// fixed instants among themselves are ordered without reading a clock; a
/// day count is ordered against a fixed instant by where it falls now, so a
/// manager should hold expirations of one kind.
pub struct ExpirationOrderBookManager {
    expirations: SkipMap<ExpirationDate, Arc<ExpirationOrderBook>>,
    underlying: String,
}

impl ExpirationOrderBookManager {
    /// The symbol of the underlying asset that the manager was made for.
    pub closed spec fn underlying_text(&self) -> Seq<char> {
        self.underlying@
    }

    /// Whether `book` is the book of this manager's underlying for
    /// `expiration`.
    pub open spec fn keeps(&self, book: ExpirationOrderBook, expiration: ExpirationDate) -> bool {
        &&& book.underlying_text() == self.underlying_text()
        &&& book.expiration_date() == expiration
    }

    /// What a lookup by `expiration` gives when the map has answered
    /// `found`: the book found, if it is this manager's book for that
    /// expiration, and `ExpirationNotFound` otherwise.
    pub open spec fn vetted(&self, found: Option<Arc<ExpirationOrderBook>>, expiration: ExpirationDate) -> Result<
        Arc<ExpirationOrderBook>,
        Error,
    > {
        match found {
            Some(book) => if self.keeps(*book, expiration) {
                Ok(book)
            } else {
                Err(Error::ExpirationNotFound(expiration))
            },
            None => Err(Error::ExpirationNotFound(expiration)),
        }
    }

    /// Creates a new expiration order book manager.
    pub fn new(underlying: &str) -> (manager: ExpirationOrderBookManager)
        ensures
            manager.underlying_text() == underlying@,
    {
        ExpirationOrderBookManager { expirations: empty_map(), underlying: String::from_str(underlying) }
    }

    /// Returns the underlying asset symbol.
    pub fn underlying(&self) -> (underlying: &str)
        ensures
            underlying@ == self.underlying_text(),
    {
        self.underlying.as_str()
    }

    /// Returns the number of expirations: an estimate while other threads
    /// register or remove expirations.
    pub fn len(&self) -> (count: usize) {
        entry_count(&self.expirations)
    }

    /// Returns true if there are no expirations.
    pub fn is_empty(&self) -> (empty: bool) {
        nothing_counted(entry_count(&self.expirations))
    }

    /// Tells whether `book` is this manager's book for `expiration`.
    pub fn owns(&self, book: &ExpirationOrderBook, expiration: &ExpirationDate) -> (own: bool)
        ensures
            own == self.keeps(*book, *expiration),
    {
        same_expiration(book.expiration(), expiration) && book.underlying.eq(&self.underlying)
    }

    /// Turns the map's answer to a lookup by `expiration` into the result of
    /// the lookup.
    pub fn vet(&self, found: Option<Arc<ExpirationOrderBook>>, expiration: &ExpirationDate) -> (result: Result<
        Arc<ExpirationOrderBook>,
        Error,
    >)
        ensures
            result == self.vetted(found, *expiration),
    {
        match found {
            Some(book) => {
                if self.owns(&book, expiration) {
                    Ok(book)
                } else {
                    Err(Error::expiration_not_found(*expiration))
                }
            },
            None => Err(Error::expiration_not_found(*expiration)),
        }
    }

    /// Gets or creates an expiration order book.
    ///
    /// Where the expiration is not registered, a new book is offered to the
    /// map, which keeps it unless another thread has registered the
    /// expiration meanwhile; the book that the map keeps is returned.
    ///
    /// Only this function stores books in the map, each under its own
    /// expiration, so the map answers with this manager's book for the
    /// expiration. Should it ever answer with another book, that book is not
    /// handed out: a new book is returned that the map does not hold.
    pub fn get_or_create(&self, expiration: ExpirationDate) -> (book: Arc<ExpirationOrderBook>)
        ensures
            self.keeps(*book, expiration),
    {
        match self.vet(find(&self.expirations, &expiration), &expiration) {
            Ok(book) => book,
            Err(_) => {
                let candidate = Arc::new(ExpirationOrderBook::new(self.underlying.as_str(), expiration));
                match self.vet(Some(find_or_insert(&self.expirations, expiration, candidate)), &expiration) {
                    Ok(book) => book,
                    Err(_) => Arc::new(ExpirationOrderBook::new(self.underlying.as_str(), expiration)),
                }
            },
        }
    }

    /// Gets an expiration order book.
    ///
    /// Fails with `ExpirationNotFound` where the expiration is not
    /// registered; never registers it.
    pub fn get(&self, expiration: &ExpirationDate) -> (result: Result<Arc<ExpirationOrderBook>, Error>)
        ensures
            match result {
                Ok(book) => self.keeps(*book, *expiration),
                Err(error) => error == Error::ExpirationNotFound(*expiration),
            },
    {
        self.vet(find(&self.expirations, expiration), expiration)
    }

    /// Returns true if an expiration exists: if `get` would succeed now.
    pub fn contains(&self, expiration: &ExpirationDate) -> (present: bool) {
        self.vet(find(&self.expirations, expiration), expiration).is_ok()
    }

    /// Returns the expirations met in one walk, each with this manager's
    /// book for it.
    pub fn iter(&self) -> (pairs: Vec<(ExpirationDate, Arc<ExpirationOrderBook>)>)
        ensures
            forall|i: int| 0 <= i < pairs@.len() ==> self.keeps(*(#[trigger] pairs@[i]).1, pairs@[i].0),
    {
        self.own_entries(entries(&self.expirations))
    }

    /// Removes an expiration order book. Returns true if the expiration was
    /// registered and this call removed it. Books handed out before stay
    /// usable.
    pub fn remove(&self, expiration: &ExpirationDate) -> (removed: bool) {
        discard(&self.expirations, expiration).is_some()
    }

    /// Returns the total order count across all expirations: the counts of
    /// the expirations met in one walk, each read as the walk reaches it.
    pub fn total_order_count(&self) -> (count: usize) {
        let pairs = entries(&self.expirations);
        let mut counts: Vec<usize> = Vec::new();
        let mut done: usize = 0;
        while done < pairs.len()
            invariant
                done <= pairs.len(),
            decreases pairs.len() - done,
        {
            counts.push(pairs[done].1.total_order_count());
            done = done + 1;
        }
        total(&counts)
    }

    /// Returns the total strike count across all expirations: the counts of
    /// the expirations met in one walk, each read as the walk reaches it.
    pub fn total_strike_count(&self) -> (count: usize) {
        let pairs = entries(&self.expirations);
        let mut counts: Vec<usize> = Vec::new();
        let mut done: usize = 0;
        while done < pairs.len()
            invariant
                done <= pairs.len(),
            decreases pairs.len() - done,
        {
            counts.push(pairs[done].1.strike_count());
            done = done + 1;
        }
        total(&counts)
    }

    /// Returns statistics about this expiration manager: the sums of the
    /// statistics of the chains met in one walk.
    pub fn stats(&self) -> (stats: ExpirationManagerStats)
        ensures
            stats.underlying@ == self.underlying_text(),
            stats.expiration_count == 0 ==> stats.total_strikes == 0 && stats.total_orders == 0,
    {
        let pairs = entries(&self.expirations);
        let mut chains: Vec<OptionChainStats> = Vec::new();
        let mut done: usize = 0;
        while done < pairs.len()
            invariant
                done <= pairs.len(),
            decreases pairs.len() - done,
        {
            chains.push(pairs[done].1.chain().stats());
            done = done + 1;
        }
        ExpirationManagerStats::summing(self.underlying.as_str(), &chains)
    }

    /// The entries among `pairs` whose book is this manager's book for the
    /// expiration it stands under, in their order.
    pub open spec fn owned(&self, pairs: Seq<(ExpirationDate, Arc<ExpirationOrderBook>)>) -> Seq<
        (ExpirationDate, Arc<ExpirationOrderBook>),
    > {
        pairs.filter(|pair: (ExpirationDate, Arc<ExpirationOrderBook>)| self.keeps(*pair.1, pair.0))
    }

    /// Keeps of the entries that a walk of the map has met those whose book
    /// is this manager's book for the expiration it stands under.
    pub fn own_entries(&self, pairs: Vec<(ExpirationDate, Arc<ExpirationOrderBook>)>) -> (kept: Vec<
        (ExpirationDate, Arc<ExpirationOrderBook>),
    >)
        ensures
            kept@ == self.owned(pairs@),
            forall|i: int| 0 <= i < kept@.len() ==> self.keeps(*(#[trigger] kept@[i]).1, kept@[i].0),
    {
        let ghost keep = |pair: (ExpirationDate, Arc<ExpirationOrderBook>)| self.keeps(*pair.1, pair.0);
        let ghost all = pairs@;
        let mut kept: Vec<(ExpirationDate, Arc<ExpirationOrderBook>)> = Vec::new();
        proof {
            reveal(Seq::filter);
            assert(all.take(0) =~= Seq::empty());
        }
        for pair in it: pairs
            invariant
                it.seq() == all,
                keep == |pair: (ExpirationDate, Arc<ExpirationOrderBook>)| self.keeps(*pair.1, pair.0),
                kept@ == all.take(it.index() as int).filter(keep),
                forall|i: int| 0 <= i < kept@.len() ==> self.keeps(*(#[trigger] kept@[i]).1, kept@[i].0),
        {
            proof {
                reveal(Seq::filter);
                assert(all.take(it.index() + 1).drop_last() =~= all.take(it.index() as int));
            }
            if self.owns(&pair.1, &pair.0) {
                kept.push(pair);
            }
        }
        proof {
            assert(all.take(all.len() as int) =~= all);
        }
        kept
    }
}

/// The strike counts of the chains, in the chains' order.
pub open spec fn strike_counts(chains: Seq<OptionChainStats>) -> Seq<usize> {
    Seq::new(chains.len(), |i: int| chains[i].strike_count)
}

/// The order counts of the chains, in the chains' order.
pub open spec fn order_counts(chains: Seq<OptionChainStats>) -> Seq<usize> {
    Seq::new(chains.len(), |i: int| chains[i].total_orders)
}

/// Statistics about an expiration manager.
#[derive(Debug, Clone)]
pub struct ExpirationManagerStats {
    /// The underlying asset symbol.
    pub underlying: String,
    /// Number of expirations.
    pub expiration_count: usize,
    /// Total number of strikes across all expirations.
    pub total_strikes: usize,
    /// Total number of orders across all expirations.
    pub total_orders: usize,
}

impl ExpirationManagerStats {
    /// The line that reports these counts for `underlying`.
    pub open spec fn line(
        underlying: Seq<char>,
        expiration_count: usize,
        total_strikes: usize,
        total_orders: usize,
    ) -> Seq<char> {
        underlying + ": "@ + decimal(expiration_count as nat) + " expirations, "@ + decimal(total_strikes as nat)
            + " strikes, "@ + decimal(total_orders as nat) + " orders"@
    }

    /// The statistics of an underlying whose chains report `chains`: the
    /// number of chains and the sums of their counts, a sum too large for a
    /// `usize` given as `usize::MAX`.
    pub fn summing(underlying: &str, chains: &Vec<OptionChainStats>) -> (stats: ExpirationManagerStats)
        ensures
            stats.underlying@ == underlying@,
            stats.expiration_count == chains@.len(),
            stats.total_strikes == capped(sum(strike_counts(chains@))),
            stats.total_orders == capped(sum(order_counts(chains@))),
    {
        let mut strikes: Vec<usize> = Vec::new();
        let mut orders: Vec<usize> = Vec::new();
        let mut done: usize = 0;
        while done < chains.len()
            invariant
                done <= chains.len(),
                strikes@ == strike_counts(chains@).take(done as int),
                orders@ == order_counts(chains@).take(done as int),
            decreases chains.len() - done,
        {
            strikes.push(chains[done].strike_count);
            orders.push(chains[done].total_orders);
            assert(strikes@ =~= strike_counts(chains@).take(done + 1));
            assert(orders@ =~= order_counts(chains@).take(done + 1));
            done = done + 1;
        }
        assert(strikes@ =~= strike_counts(chains@));
        assert(orders@ =~= order_counts(chains@));
        ExpirationManagerStats {
            underlying: String::from_str(underlying),
            expiration_count: chains.len(),
            total_strikes: total(&strikes),
            total_orders: total(&orders),
        }
    }

    /// Writes the statistics in one line.
    pub fn to_string(&self) -> (line: String)
        ensures
            line@ == Self::line(self.underlying@, self.expiration_count, self.total_strikes, self.total_orders),
    {
        let mut line = self.underlying.clone();
        line.append(": ");
        line.append(decimal_text(self.expiration_count as u64).as_str());
        line.append(" expirations, ");
        line.append(decimal_text(self.total_strikes as u64).as_str());
        line.append(" strikes, ");
        line.append(decimal_text(self.total_orders as u64).as_str());
        line.append(" orders");
        line
    }
}

/// A lookup fails exactly when the map does not hold the manager's book for
/// the expiration, and then with `ExpirationNotFound` for that expiration.
pub proof fn expiration_not_found_iff_absent(
    manager: ExpirationOrderBookManager,
    found: Option<Arc<ExpirationOrderBook>>,
    expiration: ExpirationDate,
)
    ensures
        manager.vetted(found, expiration) is Err <==> !(found is Some && manager.keeps(*found->Some_0, expiration)),
        manager.vetted(found, expiration) is Err ==> manager.vetted(found, expiration) == Err::<
            Arc<ExpirationOrderBook>,
            Error,
        >(Error::ExpirationNotFound(expiration)),
        manager.vetted(found, expiration) is Ok ==> manager.vetted(found, expiration) == Ok::<
            Arc<ExpirationOrderBook>,
            Error,
        >(found->Some_0),
{
}

} // verus!

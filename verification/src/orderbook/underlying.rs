//! Everything registered for one underlying asset, and the root registry
//! of underlyings.

use super::expiration::{ExpirationManagerStats, ExpirationOrderBook, ExpirationOrderBookManager};
use super::chain::OptionChainStats;
use super::expiration::{order_counts, strike_counts};
use super::totals::{
    capped, nothing_counted, root_total_counts_every_leaf, sum, sum_is_zero_iff_each_is, sum_of_groups,
    sum_of_trees, total, total_of_totals, totals, totals_of_totals,
};
use crate::error::Error;
use crate::registry::{
    discard, empty_map, entry_count, find, find_or_insert, kept_names_ascend, named_entries, names_of,
    texts_ascending, texts_of,
};
use crate::text::{decimal, decimal_text};
use crossbeam_skiplist::SkipMap;
use optionstratlib::ExpirationDate;
use std::sync::Arc;
use vstd::prelude::*;
use vstd::string::StringExecFns;

verus! {

/// Order book for a single underlying asset: all its expirations.
pub struct UnderlyingOrderBook {
    underlying: String,
    expirations: ExpirationOrderBookManager,
}

impl UnderlyingOrderBook {
    #[verifier::type_invariant]
    spec fn well_formed(&self) -> bool {
        self.expirations.underlying_text() == self.underlying@
    }

    /// The symbol of the underlying asset that the book was made for.
    pub closed spec fn underlying_text(&self) -> Seq<char> {
        self.underlying@
    }

    /// The registry of the book's expirations.
    pub closed spec fn expiration_manager(&self) -> ExpirationOrderBookManager {
        self.expirations
    }

    /// Whether `book` is the book of this underlying for `expiration`.
    pub open spec fn keeps(&self, book: ExpirationOrderBook, expiration: ExpirationDate) -> bool {
        &&& book.underlying_text() == self.underlying_text()
        &&& book.expiration_date() == expiration
    }

    /// Creates a new underlying order book.
    pub fn new(underlying: &str) -> (book: UnderlyingOrderBook)
        ensures
            book.underlying_text() == underlying@,
    {
        UnderlyingOrderBook {
            expirations: ExpirationOrderBookManager::new(underlying),
            underlying: String::from_str(underlying),
        }
    }

    /// Returns the underlying asset symbol.
    pub fn underlying(&self) -> (underlying: &str)
        ensures
            underlying@ == self.underlying_text(),
    {
        self.underlying.as_str()
    }

    /// Returns a reference to the expiration manager.
    pub fn expirations(&self) -> (expirations: &ExpirationOrderBookManager)
        ensures
            *expirations == self.expiration_manager(),
            expirations.underlying_text() == self.underlying_text(),
    {
        proof {
            use_type_invariant(self);
        }
        &self.expirations
    }

    /// Gets or creates an expiration order book.
    pub fn get_or_create_expiration(&self, expiration: ExpirationDate) -> (book: Arc<ExpirationOrderBook>)
        ensures
            self.keeps(*book, expiration),
    {
        proof {
            use_type_invariant(self);
        }
        self.expirations.get_or_create(expiration)
    }

    /// Gets an expiration order book.
    ///
    /// Fails with `ExpirationNotFound` where the expiration is not
    /// registered.
    pub fn get_expiration(&self, expiration: &ExpirationDate) -> (result: Result<Arc<ExpirationOrderBook>, Error>)
        ensures
            match result {
                Ok(book) => self.keeps(*book, *expiration),
                Err(error) => error == Error::ExpirationNotFound(*expiration),
            },
    {
        proof {
            use_type_invariant(self);
        }
        self.expirations.get(expiration)
    }

    /// Returns the number of expirations: an estimate while other threads
    /// register or remove expirations.
    pub fn expiration_count(&self) -> (count: usize) {
        self.expirations.len()
    }

    /// Returns true if there are no expirations.
    pub fn is_empty(&self) -> (empty: bool) {
        self.expirations.is_empty()
    }

    /// Returns the total order count across all expirations.
    pub fn total_order_count(&self) -> (count: usize) {
        self.expirations.total_order_count()
    }

    /// Returns the total strike count across all expirations.
    pub fn total_strike_count(&self) -> (count: usize) {
        self.expirations.total_strike_count()
    }

    /// Returns statistics about this underlying: those of its expiration
    /// manager.
    pub fn stats(&self) -> (stats: UnderlyingStats)
        ensures
            stats.underlying@ == self.underlying_text(),
            stats.expiration_count == 0 ==> stats.total_strikes == 0 && stats.total_orders == 0,
    {
        proof {
            use_type_invariant(self);
        }
        UnderlyingStats::of_expirations(self.expirations.stats())
    }
}

/// Statistics about an underlying order book.
#[derive(Debug, Clone)]
pub struct UnderlyingStats {
    /// The underlying asset symbol.
    pub underlying: String,
    /// Number of expirations.
    pub expiration_count: usize,
    /// Total number of strikes.
    pub total_strikes: usize,
    /// Total number of orders.
    pub total_orders: usize,
}

impl UnderlyingStats {
    /// The statistics of the underlying whose expiration manager reports
    /// `expirations`: the same symbol and counts.
    pub fn of_expirations(expirations: ExpirationManagerStats) -> (stats: UnderlyingStats)
        ensures
            stats.underlying == expirations.underlying,
            stats.expiration_count == expirations.expiration_count,
            stats.total_strikes == expirations.total_strikes,
            stats.total_orders == expirations.total_orders,
    {
        UnderlyingStats {
            underlying: expirations.underlying,
            expiration_count: expirations.expiration_count,
            total_strikes: expirations.total_strikes,
            total_orders: expirations.total_orders,
        }
    }

    /// Writes the statistics in one line.
    pub fn to_string(&self) -> (line: String)
        ensures
            line@ == ExpirationManagerStats::line(
                self.underlying@,
                self.expiration_count,
                self.total_strikes,
                self.total_orders,
            ),
    {
        let mut line = self.underlying.clone();
        line.append(": ");
        line.append(decimal_text(self.expiration_count as u64).as_str());
        line.append(" expirations, ");
        line.append(decimal_text(self.total_strikes as u64).as_str());
        line.append(" strikes, ");
        line.append(decimal_text(self.total_orders as u64).as_str());
        line.append(" orders");
        line
    }
}

/// Manages underlying order books for all assets: the root of the
/// registry.
///
/// Any number of threads may use one manager at once. A book handed out
/// stays usable after it has been removed from the manager.
pub struct UnderlyingOrderBookManager {
    underlyings: SkipMap<String, Arc<UnderlyingOrderBook>>,
}

impl Default for UnderlyingOrderBookManager {
    fn default() -> (manager: UnderlyingOrderBookManager) {
        Self::new()
    }
}

impl UnderlyingOrderBookManager {
    /// Whether `book` is the book of the underlying `symbol`.
    pub open spec fn keeps(book: UnderlyingOrderBook, symbol: Seq<char>) -> bool {
        book.underlying_text() == symbol
    }

    /// What a lookup by `symbol` gives when the map has answered `found`:
    /// the book found, if it is the book of that underlying, and otherwise no
    /// book.
    pub open spec fn vetted(found: Option<Arc<UnderlyingOrderBook>>, symbol: Seq<char>) -> Option<
        Arc<UnderlyingOrderBook>,
    > {
        match found {
            Some(book) => if Self::keeps(*book, symbol) {
                Some(book)
            } else {
                None
            },
            None => None,
        }
    }

    /// Creates a new underlying order book manager.
    pub fn new() -> (manager: UnderlyingOrderBookManager) {
        UnderlyingOrderBookManager { underlyings: empty_map() }
    }

    /// Returns the number of underlyings: an estimate while other threads
    /// register or remove underlyings.
    pub fn len(&self) -> (count: usize) {
        entry_count(&self.underlyings)
    }

    /// Returns true if there are no underlyings.
    pub fn is_empty(&self) -> (empty: bool) {
        nothing_counted(entry_count(&self.underlyings))
    }

    /// Turns the map's answer to a lookup by `symbol` into the result of the
    /// lookup: the book found, or `UnderlyingNotFound` for the symbol.
    pub fn vet(found: Option<Arc<UnderlyingOrderBook>>, symbol: &str) -> (result: Result<
        Arc<UnderlyingOrderBook>,
        Error,
    >)
        ensures
            match result {
                Ok(book) => Self::vetted(found, symbol@) == Some(book),
                Err(error) => Self::vetted(found, symbol@) is None && error.is_underlying_not_found(symbol@),
            },
    {
        match found {
            Some(book) => {
                if book.underlying.eq(&String::from_str(symbol)) {
                    Ok(book)
                } else {
                    Err(Error::underlying_not_found(symbol))
                }
            },
            None => Err(Error::underlying_not_found(symbol)),
        }
    }

    /// Gets or creates an underlying order book.
    ///
    /// Where the symbol is not registered, a new book is offered to the map,
    /// which keeps it unless another thread has registered the symbol
    /// meanwhile; the book that the map keeps is returned.
    ///
    /// Only this function stores books in the map, each under its own
    /// symbol, so the map answers with the book of the symbol. Should it ever
    /// answer with another book, that book is not handed out: a new book is
    /// returned that the map does not hold.
    pub fn get_or_create(&self, underlying: &str) -> (book: Arc<UnderlyingOrderBook>)
        ensures
            Self::keeps(*book, underlying@),
    {
        let symbol = String::from_str(underlying);
        match Self::vet(find(&self.underlyings, &symbol), underlying) {
            Ok(book) => book,
            Err(_) => {
                let candidate = Arc::new(UnderlyingOrderBook::new(underlying));
                match Self::vet(Some(find_or_insert(&self.underlyings, symbol, candidate)), underlying) {
                    Ok(book) => book,
                    Err(_) => Arc::new(UnderlyingOrderBook::new(underlying)),
                }
            },
        }
    }

    /// Gets an underlying order book.
    ///
    /// Fails with `UnderlyingNotFound` where the symbol is not registered;
    /// never registers it.
    pub fn get(&self, underlying: &str) -> (result: Result<Arc<UnderlyingOrderBook>, Error>)
        ensures
            match result {
                Ok(book) => Self::keeps(*book, underlying@),
                Err(error) => error.is_underlying_not_found(underlying@),
            },
    {
        Self::vet(find(&self.underlyings, &String::from_str(underlying)), underlying)
    }

    /// Returns true if an underlying exists: if `get` would succeed now.
    pub fn contains(&self, underlying: &str) -> (present: bool) {
        Self::vet(find(&self.underlyings, &String::from_str(underlying)), underlying).is_ok()
    }

    /// Returns the underlyings met in one walk, each with its book, in
    /// strictly ascending order of their symbols.
    pub fn iter(&self) -> (pairs: Vec<(String, Arc<UnderlyingOrderBook>)>)
        ensures
            texts_ascending(names_of(pairs@)),
            forall|i: int| 0 <= i < pairs@.len() ==> Self::keeps(*(#[trigger] pairs@[i]).1, pairs@[i].0@),
    {
        Self::own_entries(named_entries(&self.underlyings))
    }

    /// Removes an underlying order book. Returns true if the symbol was
    /// registered and this call removed it. Books handed out before stay
    /// usable.
    pub fn remove(&self, underlying: &str) -> (removed: bool) {
        discard(&self.underlyings, &String::from_str(underlying)).is_some()
    }

    /// Returns all underlying symbols, strictly ascending.
    pub fn underlying_symbols(&self) -> (symbols: Vec<String>)
        ensures
            texts_ascending(texts_of(symbols@)),
    {
        Self::symbols_of(&named_entries(&self.underlyings))
    }

    /// Returns the total order count across all underlyings: the counts of
    /// the underlyings met in one walk, each read as the walk reaches it.
    pub fn total_order_count(&self) -> (count: usize) {
        let pairs = named_entries(&self.underlyings);
        let mut counts: Vec<usize> = Vec::new();
        let mut done: usize = 0;
        while done < pairs.len()
            invariant
                done <= pairs.len(),
            decreases pairs.len() - done,
        {
            counts.push(pairs[done].1.total_order_count());
            done = done + 1;
        }
        total(&counts)
    }

    /// Returns the total expiration count across all underlyings: the counts
    /// of the underlyings met in one walk, each read as the walk reaches it.
    pub fn total_expiration_count(&self) -> (count: usize) {
        let pairs = named_entries(&self.underlyings);
        let mut counts: Vec<usize> = Vec::new();
        let mut done: usize = 0;
        while done < pairs.len()
            invariant
                done <= pairs.len(),
            decreases pairs.len() - done,
        {
            counts.push(pairs[done].1.expiration_count());
            done = done + 1;
        }
        total(&counts)
    }

    /// Returns the total strike count across all underlyings: the counts of
    /// the underlyings met in one walk, each read as the walk reaches it.
    pub fn total_strike_count(&self) -> (count: usize) {
        let pairs = named_entries(&self.underlyings);
        let mut counts: Vec<usize> = Vec::new();
        let mut done: usize = 0;
        while done < pairs.len()
            invariant
                done <= pairs.len(),
            decreases pairs.len() - done,
        {
            counts.push(pairs[done].1.total_strike_count());
            done = done + 1;
        }
        total(&counts)
    }

    /// Returns statistics about the entire order book system: the sums of
    /// the statistics of the underlyings met in one walk. Where the walk
    /// meets no underlying, every total is zero; where the underlyings met
    /// count no expiration, they count no strike and no order.
    pub fn stats(&self) -> (stats: GlobalStats)
        ensures
            stats.underlying_count == 0 ==> stats.total_expirations == 0,
            stats.total_expirations == 0 ==> stats.total_strikes == 0 && stats.total_orders == 0,
    {
        let pairs = named_entries(&self.underlyings);
        let mut underlyings: Vec<UnderlyingStats> = Vec::new();
        let mut done: usize = 0;
        while done < pairs.len()
            invariant
                done <= pairs.len(),
                forall|i: int|
                    0 <= i < underlyings@.len() && (#[trigger] underlyings@[i]).expiration_count == 0
                        ==> underlyings@[i].total_strikes == 0 && underlyings@[i].total_orders == 0,
            decreases pairs.len() - done,
        {
            underlyings.push(pairs[done].1.stats());
            done = done + 1;
        }
        let stats = GlobalStats::summing(&underlyings);
        proof {
            sum_is_zero_iff_each_is(expiration_counts(underlyings@));
            sum_is_zero_iff_each_is(strike_totals(underlyings@));
            sum_is_zero_iff_each_is(order_totals(underlyings@));
            if stats.total_expirations == 0 {
                assert forall|i: int| 0 <= i < underlyings@.len() implies strike_totals(underlyings@)[i] == 0
                    && order_totals(underlyings@)[i] == 0 by {
                    assert(expiration_counts(underlyings@)[i] == 0);
                }
            }
        }
        stats
    }

    /// The symbols of entries keyed by symbol, in the entries' order.
    pub fn symbols_of(pairs: &Vec<(String, Arc<UnderlyingOrderBook>)>) -> (symbols: Vec<String>)
        ensures
            texts_of(symbols@) == names_of(pairs@),
    {
        let mut symbols: Vec<String> = Vec::new();
        let mut done: usize = 0;
        while done < pairs.len()
            invariant
                done <= pairs.len(),
                symbols@.len() == done,
                texts_of(symbols@) == names_of(pairs@).take(done as int),
            decreases pairs.len() - done,
        {
            let ghost before = symbols@;
            symbols.push(pairs[done].0.clone());
            assert forall|i: int| 0 <= i < symbols@.len() implies texts_of(symbols@)[i] == names_of(pairs@)[i] by {
                if i < done {
                    assert(texts_of(before)[i] == names_of(pairs@).take(done as int)[i]);
                }
            }
            assert(texts_of(symbols@) =~= names_of(pairs@).take(done + 1));
            done = done + 1;
        }
        assert(texts_of(symbols@) =~= names_of(pairs@));
        symbols
    }

    /// The entries among `pairs` whose book is the book of the symbol it
    /// stands under, in their order.
    pub open spec fn owned(pairs: Seq<(String, Arc<UnderlyingOrderBook>)>) -> Seq<
        (String, Arc<UnderlyingOrderBook>),
    > {
        pairs.filter(|pair: (String, Arc<UnderlyingOrderBook>)| Self::keeps(*pair.1, pair.0@))
    }

    /// Keeps of the entries that a walk of the map has met those whose book
    /// is the book of the symbol it stands under.
    pub fn own_entries(pairs: Vec<(String, Arc<UnderlyingOrderBook>)>) -> (kept: Vec<
        (String, Arc<UnderlyingOrderBook>),
    >)
        ensures
            kept@ == Self::owned(pairs@),
            forall|i: int| 0 <= i < kept@.len() ==> Self::keeps(*(#[trigger] kept@[i]).1, kept@[i].0@),
            texts_ascending(names_of(pairs@)) ==> texts_ascending(names_of(kept@)),
    {
        let ghost keep = |pair: (String, Arc<UnderlyingOrderBook>)| Self::keeps(*pair.1, pair.0@);
        let ghost all = pairs@;
        let mut kept: Vec<(String, Arc<UnderlyingOrderBook>)> = Vec::new();
        proof {
            reveal(Seq::filter);
            assert(all.take(0) =~= Seq::empty());
        }
        for pair in it: pairs
            invariant
                it.seq() == all,
                keep == |pair: (String, Arc<UnderlyingOrderBook>)| Self::keeps(*pair.1, pair.0@),
                kept@ == all.take(it.index() as int).filter(keep),
                forall|i: int| 0 <= i < kept@.len() ==> Self::keeps(*(#[trigger] kept@[i]).1, kept@[i].0@),
        {
            proof {
                reveal(Seq::filter);
                assert(all.take(it.index() + 1).drop_last() =~= all.take(it.index() as int));
            }
            if pair.1.underlying.eq(&pair.0) {
                kept.push(pair);
            }
        }
        proof {
            assert(all.take(all.len() as int) =~= all);
            if texts_ascending(names_of(all)) {
                kept_names_ascend(all, keep);
            }
        }
        kept
    }
}

/// The expiration counts of the underlyings, in the underlyings' order.
pub open spec fn expiration_counts(underlyings: Seq<UnderlyingStats>) -> Seq<usize> {
    Seq::new(underlyings.len(), |i: int| underlyings[i].expiration_count)
}

/// The strike counts of the underlyings, in the underlyings' order.
pub open spec fn strike_totals(underlyings: Seq<UnderlyingStats>) -> Seq<usize> {
    Seq::new(underlyings.len(), |i: int| underlyings[i].total_strikes)
}

/// The order counts of the underlyings, in the underlyings' order.
pub open spec fn order_totals(underlyings: Seq<UnderlyingStats>) -> Seq<usize> {
    Seq::new(underlyings.len(), |i: int| underlyings[i].total_orders)
}

/// Global statistics about the order book system.
#[derive(Debug, Clone)]
pub struct GlobalStats {
    /// Number of underlyings.
    pub underlying_count: usize,
    /// Total number of expirations.
    pub total_expirations: usize,
    /// Total number of strikes.
    pub total_strikes: usize,
    /// Total number of orders.
    pub total_orders: usize,
}

impl GlobalStats {
    /// The line that reports these counts.
    pub open spec fn line(
        underlying_count: usize,
        total_expirations: usize,
        total_strikes: usize,
        total_orders: usize,
    ) -> Seq<char> {
        decimal(underlying_count as nat) + " underlyings, "@ + decimal(total_expirations as nat) + " expirations, "@
            + decimal(total_strikes as nat) + " strikes, "@ + decimal(total_orders as nat) + " orders"@
    }

    /// The statistics of a system whose underlyings report `underlyings`:
    /// the number of underlyings and the sums of their counts, a sum too
    /// large for a `usize` given as `usize::MAX`.
    pub fn summing(underlyings: &Vec<UnderlyingStats>) -> (stats: GlobalStats)
        ensures
            stats.underlying_count == underlyings@.len(),
            stats.total_expirations == capped(sum(expiration_counts(underlyings@))),
            stats.total_strikes == capped(sum(strike_totals(underlyings@))),
            stats.total_orders == capped(sum(order_totals(underlyings@))),
    {
        let mut expirations: Vec<usize> = Vec::new();
        let mut strikes: Vec<usize> = Vec::new();
        let mut orders: Vec<usize> = Vec::new();
        let mut done: usize = 0;
        while done < underlyings.len()
            invariant
                done <= underlyings.len(),
                expirations@ == expiration_counts(underlyings@).take(done as int),
                strikes@ == strike_totals(underlyings@).take(done as int),
                orders@ == order_totals(underlyings@).take(done as int),
            decreases underlyings.len() - done,
        {
            expirations.push(underlyings[done].expiration_count);
            strikes.push(underlyings[done].total_strikes);
            orders.push(underlyings[done].total_orders);
            assert(expirations@ =~= expiration_counts(underlyings@).take(done + 1));
            assert(strikes@ =~= strike_totals(underlyings@).take(done + 1));
            assert(orders@ =~= order_totals(underlyings@).take(done + 1));
            done = done + 1;
        }
        assert(expirations@ =~= expiration_counts(underlyings@));
        assert(strikes@ =~= strike_totals(underlyings@));
        assert(orders@ =~= order_totals(underlyings@));
        GlobalStats {
            underlying_count: underlyings.len(),
            total_expirations: total(&expirations),
            total_strikes: total(&strikes),
            total_orders: total(&orders),
        }
    }

    /// Writes the statistics in one line.
    pub fn to_string(&self) -> (line: String)
        ensures
            line@ == Self::line(self.underlying_count, self.total_expirations, self.total_strikes, self.total_orders),
    {
        let mut line = decimal_text(self.underlying_count as u64);
        line.append(" underlyings, ");
        line.append(decimal_text(self.total_expirations as u64).as_str());
        line.append(" expirations, ");
        line.append(decimal_text(self.total_strikes as u64).as_str());
        line.append(" strikes, ");
        line.append(decimal_text(self.total_orders as u64).as_str());
        line.append(" orders");
        line
    }
}

/// A lookup gives no book exactly when the map does not hold the book of
/// the underlying; where it gives one, it is the book that the map holds.
pub proof fn underlying_not_found_iff_absent(found: Option<Arc<UnderlyingOrderBook>>, symbol: Seq<char>)
    ensures
        UnderlyingOrderBookManager::vetted(found, symbol) is None <==> !(found is Some
            && UnderlyingOrderBookManager::keeps(*found->Some_0, symbol)),
        UnderlyingOrderBookManager::vetted(found, symbol) is Some ==> UnderlyingOrderBookManager::vetted(
            found,
            symbol,
        ) == found,
{
}

/// With no book changing meanwhile, the root's order count is the sum of the
/// order counts of every strike that can be reached from it: `trees` holds,
/// for each underlying, for each of its expirations, the order count of each
/// of its strikes; every chain reports the total of its strikes, every
/// underlying the total of what its chains report, and the root the total of
/// what its underlyings report. A sum too large for a `usize` is
/// `usize::MAX`.
pub proof fn root_orders_count_every_leaf(
    underlyings: Seq<UnderlyingStats>,
    chains: Seq<Seq<OptionChainStats>>,
    trees: Seq<Seq<Seq<usize>>>,
)
    requires
        underlyings.len() == chains.len() == trees.len(),
        forall|u: int| 0 <= u < trees.len() ==> (#[trigger] chains[u]).len() == trees[u].len(),
        forall|u: int, e: int|
            0 <= u < trees.len() && 0 <= e < trees[u].len() ==> (#[trigger] chains[u][e]).total_orders == capped(
                sum(trees[u][e]),
            ),
        forall|u: int|
            0 <= u < trees.len() ==> (#[trigger] underlyings[u]).total_orders == capped(sum(order_counts(chains[u]))),
    ensures
        capped(sum(order_totals(underlyings))) == capped(sum_of_trees(trees)),
{
    assert forall|u: int| 0 <= u < trees.len() implies order_totals(underlyings)[u] == totals_of_totals(trees)[u] by {
        assert(underlyings[u].total_orders == capped(sum(order_counts(chains[u]))));
        assert(chains[u].len() == trees[u].len());
        assert forall|e: int| 0 <= e < trees[u].len() implies order_counts(chains[u])[e] == totals(trees[u])[e] by {
            assert(chains[u][e].total_orders == capped(sum(trees[u][e])));
        }
        assert(order_counts(chains[u]) =~= totals(trees[u]));
    }
    assert(order_totals(underlyings) =~= totals_of_totals(trees));
    root_total_counts_every_leaf(trees);
}

/// The strike counts that the chains of each underlying report, underlying
/// by underlying.
pub open spec fn strike_count_groups(chains: Seq<Seq<OptionChainStats>>) -> Seq<Seq<usize>> {
    Seq::new(chains.len(), |u: int| strike_counts(chains[u]))
}

/// With no book changing meanwhile, the root's strike count is the sum of
/// the strike counts of every chain that can be reached from it: every
/// underlying reports the total of what its chains report, and the root the
/// total of what its underlyings report. A sum too large for a `usize` is
/// `usize::MAX`.
pub proof fn root_strikes_count_every_chain(underlyings: Seq<UnderlyingStats>, chains: Seq<Seq<OptionChainStats>>)
    requires
        underlyings.len() == chains.len(),
        forall|u: int|
            0 <= u < chains.len() ==> (#[trigger] underlyings[u]).total_strikes == capped(
                sum(strike_counts(chains[u])),
            ),
    ensures
        capped(sum(strike_totals(underlyings))) == capped(sum_of_groups(strike_count_groups(chains))),
{
    assert(strike_totals(underlyings) =~= totals(strike_count_groups(chains))) by {
        assert forall|u: int| 0 <= u < chains.len() implies strike_totals(underlyings)[u] == totals(
            strike_count_groups(chains),
        )[u] by {
            assert(underlyings[u].total_strikes == capped(sum(strike_counts(chains[u]))));
        }
    }
    total_of_totals(strike_count_groups(chains));
}

} // verus!

//! The call and put at one strike, and the registry of the strikes of one
//! expiration.

use super::book::{OptionOrderBook, OptionStyle};
use super::quote::Quote;
use super::totals::{capped, nothing_counted, total};
use crate::error::Error;
use crate::registry::{
    discard, empty_map, entry_count, find, find_or_insert, numbered_entries, numbers_of, strictly_ascending,
};
use crate::text::{decimal, decimal_text};
use crate::utils::{label_at, label_expiration, parts, same_expiration, Instant};
use crossbeam_skiplist::SkipMap;
use optionstratlib::greeks::Greek;
use optionstratlib::ExpirationDate;
use std::sync::Arc;
use vstd::prelude::*;
use vstd::string::StringExecFns;

verus! {

/// `Greek` of `optionstratlib`: the sensitivities of one option. The registry
/// keeps them and hands them back.
#[verifier::external_type_specification]
#[verifier::external_body]
pub struct ExGreek(Greek);

/// The letter that ends the symbol of a contract: `C` for a call, `P` for a
/// put.
pub open spec fn style_letter(style: OptionStyle) -> char {
    match style {
        OptionStyle::Call => 'C',
        OptionStyle::Put => 'P',
    }
}

/// The symbol of a contract: underlying, expiration label, strike in decimal
/// and style letter, joined by hyphens.
pub open spec fn contract_symbol(underlying: Seq<char>, label: Seq<char>, strike: u64, style: OptionStyle) -> Seq<
    char,
> {
    underlying + seq!['-'] + label + seq!['-'] + decimal(strike as nat) + seq!['-', style_letter(style)]
}

/// Writes the symbol of a contract.
pub fn contract_symbol_text(underlying: &str, label: &str, strike: u64, style: OptionStyle) -> (symbol: String)
    ensures
        symbol@ == contract_symbol(underlying@, label@, strike, style),
{
    proof {
        reveal_strlit("-");
        reveal_strlit("-C");
        reveal_strlit("-P");
    }
    let mut symbol = String::from_str(underlying);
    symbol.append("-");
    symbol.append(label);
    symbol.append("-");
    let digits = decimal_text(strike);
    symbol.append(digits.as_str());
    match style {
        OptionStyle::Call => {
            symbol.append("-C");
            assert("-C"@ =~= seq!['-', 'C']);
        },
        OptionStyle::Put => {
            symbol.append("-P");
            assert("-P"@ =~= seq!['-', 'P']);
        },
    }
    assert("-"@ =~= seq!['-']);
    symbol
}

/// How far a strike lies from a spot price.
pub open spec fn distance(strike: u64, spot: u64) -> nat {
    if strike >= spot {
        (strike - spot) as nat
    } else {
        (spot - strike) as nat
    }
}

/// Measures how far a strike lies from a spot price.
pub fn gap(strike: u64, spot: u64) -> (apart: u64)
    ensures
        apart == distance(strike, spot),
{
    if strike >= spot {
        strike - spot
    } else {
        spot - strike
    }
}

/// Whether the strike at `index` is the at-the-money strike for `spot`: no
/// strike lies nearer to the spot, and every strike before it lies farther.
pub open spec fn at_the_money(strikes: Seq<u64>, spot: u64, index: int) -> bool {
    &&& 0 <= index < strikes.len()
    &&& forall|other: int|
        0 <= other < strikes.len() ==> distance(strikes[index], spot) <= distance(
            #[trigger] strikes[other],
            spot,
        )
    &&& forall|earlier: int|
        0 <= earlier < index ==> distance(strikes[index], spot) < distance(#[trigger] strikes[earlier], spot)
}

/// Picks the strike nearest to `spot`, the earliest of those equally near.
/// Fails with `NoDataAvailable` if and only if there is no strike.
pub fn atm_among(strikes: &Vec<u64>, spot: u64) -> (nearest: Result<u64, Error>)
    ensures
        match nearest {
            Ok(strike) => exists|index: int| at_the_money(strikes@, spot, index) && strikes@[index] == strike,
            Err(error) => strikes@.len() == 0 && error.is_no_data("no strikes available"@),
        },
{
    if strikes.len() == 0 {
        return Err(Error::no_data("no strikes available"));
    }
    let mut best: usize = 0;
    let mut next: usize = 1;
    while next < strikes.len()
        invariant
            0 <= best < next <= strikes.len(),
            at_the_money(strikes@.take(next as int), spot, best as int),
        decreases strikes.len() - next,
    {
        if gap(strikes[next], spot) < gap(strikes[best], spot) {
            best = next;
        }
        next = next + 1;
    }
    assert(strikes@.take(next as int) == strikes@);
    Ok(strikes[best])
}

/// Among ascending strikes the at-the-money strike is the lower of two that
/// lie equally near to the spot.
pub proof fn tie_goes_to_lower_strike(strikes: Seq<u64>, spot: u64, index: int, other: int)
    requires
        strictly_ascending(strikes),
        at_the_money(strikes, spot, index),
        0 <= other < strikes.len(),
        distance(strikes[other], spot) == distance(strikes[index], spot),
    ensures
        strikes[index] <= strikes[other],
{
    if other < index {
        assert(distance(strikes[index], spot) < distance(strikes[other], spot));
    }
}

/// For given strikes and spot there is one at-the-money strike at most.
pub proof fn at_the_money_is_unique(strikes: Seq<u64>, spot: u64, first: int, second: int)
    requires
        at_the_money(strikes, spot, first),
        at_the_money(strikes, spot, second),
    ensures
        first == second,
{
    if first < second {
        assert(distance(strikes[second], spot) < distance(strikes[first], spot));
        assert(distance(strikes[first], spot) <= distance(strikes[second], spot));
    } else if second < first {
        assert(distance(strikes[first], spot) < distance(strikes[second], spot));
        assert(distance(strikes[second], spot) <= distance(strikes[first], spot));
    }
}

/// What a strike book is, as its contracts see it.
pub struct StrikeOrderBookView {
    /// The symbol of the underlying asset.
    pub underlying: Seq<char>,
    /// The expiration.
    pub expiration: ExpirationDate,
    /// The expiration as the symbols of the two contracts write it.
    pub label: Seq<char>,
    /// The strike price.
    pub strike: u64,
    /// The book of the call.
    pub call: OptionOrderBook,
    /// The book of the put.
    pub put: OptionOrderBook,
    /// The Greeks last set for the call.
    pub call_greeks: Option<Greek>,
    /// The Greeks last set for the put.
    pub put_greeks: Option<Greek>,
}

impl StrikeOrderBookView {
    /// Whether the two books are the call and the put of this strike, each
    /// under the symbol of its contract.
    pub open spec fn bound(self) -> bool {
        &&& self.call.style() == OptionStyle::Call
        &&& self.put.style() == OptionStyle::Put
        &&& self.call.symbol_text() == contract_symbol(self.underlying, self.label, self.strike, OptionStyle::Call)
        &&& self.put.symbol_text() == contract_symbol(self.underlying, self.label, self.strike, OptionStyle::Put)
    }
}

/// The call and the put at one strike of one expiration.
///
/// The two books are bound to the symbols of their contracts when the strike
/// book is made, and stay so.
pub struct StrikeOrderBook {
    underlying: String,
    expiration: ExpirationDate,
    label: String,
    strike: u64,
    call: OptionOrderBook,
    put: OptionOrderBook,
    call_greeks: Option<Greek>,
    put_greeks: Option<Greek>,
}

impl View for StrikeOrderBook {
    type V = StrikeOrderBookView;

    closed spec fn view(&self) -> StrikeOrderBookView {
        StrikeOrderBookView {
            underlying: self.underlying@,
            expiration: self.expiration,
            label: self.label@,
            strike: self.strike,
            call: self.call,
            put: self.put,
            call_greeks: self.call_greeks,
            put_greeks: self.put_greeks,
        }
    }
}

impl StrikeOrderBook {
    #[verifier::type_invariant]
    spec fn well_formed(&self) -> bool {
        self@.bound()
    }

    /// Creates the strike book whose contracts write the expiration as
    /// `label`.
    pub fn with_label(underlying: &str, expiration: ExpirationDate, label: &str, strike: u64) -> (book:
        StrikeOrderBook)
        ensures
            book@.underlying == underlying@,
            book@.expiration == expiration,
            book@.label == label@,
            book@.strike == strike,
            book@.call_greeks is None,
            book@.put_greeks is None,
            book@.bound(),
    {
        let call_symbol = contract_symbol_text(underlying, label, strike, OptionStyle::Call);
        let put_symbol = contract_symbol_text(underlying, label, strike, OptionStyle::Put);
        StrikeOrderBook {
            underlying: String::from_str(underlying),
            expiration,
            label: String::from_str(label),
            strike,
            call: OptionOrderBook::new(call_symbol.as_str(), OptionStyle::Call),
            put: OptionOrderBook::new(put_symbol.as_str(), OptionStyle::Put),
            call_greeks: None,
            put_greeks: None,
        }
    }

    /// Creates a new strike order book.
    ///
    /// The label is the date of the expiration as `YYYYMMDD`, or the
    /// expiration's description where it has no date. A day count is taken
    /// from the reference instant pinned on this thread, or from the clock
    /// where none is pinned.
    pub fn new(underlying: &str, expiration: ExpirationDate, strike: u64) -> (book: StrikeOrderBook)
        ensures
            book@.underlying == underlying@,
            book@.expiration == expiration,
            book@.strike == strike,
            book@.call_greeks is None,
            book@.put_greeks is None,
            book@.bound(),
            exists|base: Instant| book@.label == #[trigger] label_at(parts(expiration), base),
    {
        let label = label_expiration(&expiration);
        Self::with_label(underlying, expiration, label.as_str(), strike)
    }

    /// Returns the underlying asset symbol.
    pub fn underlying(&self) -> (underlying: &str)
        ensures
            underlying@ == self@.underlying,
    {
        self.underlying.as_str()
    }

    /// Returns the expiration date.
    pub fn expiration(&self) -> (expiration: &ExpirationDate)
        ensures
            *expiration == self@.expiration,
    {
        &self.expiration
    }

    /// Returns the expiration as the symbols of the two contracts write it.
    pub fn expiration_label(&self) -> (label: &str)
        ensures
            label@ == self@.label,
    {
        self.label.as_str()
    }

    /// Returns the strike price.
    pub fn strike(&self) -> (strike: u64)
        ensures
            strike == self@.strike,
    {
        self.strike
    }

    /// Returns a reference to the call order book.
    pub fn call(&self) -> (call: &OptionOrderBook)
        ensures
            *call == self@.call,
            self@.bound(),
    {
        proof {
            use_type_invariant(self);
        }
        &self.call
    }

    /// Returns a reference to the put order book.
    pub fn put(&self) -> (put: &OptionOrderBook)
        ensures
            *put == self@.put,
            self@.bound(),
    {
        proof {
            use_type_invariant(self);
        }
        &self.put
    }

    /// Returns the order book for the specified option style.
    pub fn get(&self, option_style: OptionStyle) -> (book: &OptionOrderBook)
        ensures
            *book == match option_style {
                OptionStyle::Call => self@.call,
                OptionStyle::Put => self@.put,
            },
            book.style() == option_style,
            book.symbol_text() == contract_symbol(self@.underlying, self@.label, self@.strike, option_style),
    {
        proof {
            use_type_invariant(self);
        }
        match option_style {
            OptionStyle::Call => &self.call,
            OptionStyle::Put => &self.put,
        }
    }

    /// Returns the best quote for the call option.
    pub fn call_quote(&self) -> (quote: Quote)
        ensures
            quote.bid_price is None ==> quote.bid_size == 0,
            quote.ask_price is None ==> quote.ask_size == 0,
    {
        self.call.best_quote()
    }

    /// Returns the best quote for the put option.
    pub fn put_quote(&self) -> (quote: Quote)
        ensures
            quote.bid_price is None ==> quote.bid_size == 0,
            quote.ask_price is None ==> quote.ask_size == 0,
    {
        self.put.best_quote()
    }

    /// Whether a strike whose call quotes `call` and whose put quotes `put`
    /// is fully quoted: both quotes are two-sided.
    pub fn fully_quoted(call: Quote, put: Quote) -> (both: bool)
        ensures
            both == (call.two_sided() && put.two_sided()),
    {
        call.is_two_sided() && put.is_two_sided()
    }

    /// Returns true if both call and put have two-sided quotes.
    ///
    /// The call is read first and the put after it; the book may change
    /// between the two readings.
    pub fn is_fully_quoted(&self) -> (both: bool) {
        Self::fully_quoted(self.call.best_quote(), self.put.best_quote())
    }

    /// Returns the total order count across call and put, `usize::MAX` where
    /// the sum is larger. The call is counted first and the put after it.
    pub fn order_count(&self) -> (count: usize) {
        Self::counted_together(self.call.order_count(), self.put.order_count())
    }

    /// Returns true if both call and put are empty. The call is read first
    /// and the put after it; see `both_empty`.
    pub fn is_empty(&self) -> (empty: bool) {
        Self::both_empty(self.call.is_empty(), self.put.is_empty())
    }

    /// Clears all orders from both call and put books, the call first.
    pub fn clear(&self) {
        self.call.clear();
        self.put.clear();
    }

    /// Updates the Greeks for the call option.
    pub fn update_call_greeks(&mut self, greeks: Greek)
        ensures
            final(self)@ == (StrikeOrderBookView { call_greeks: Some(greeks), ..old(self)@ }),
    {
        proof {
            use_type_invariant(&*self);
        }
        self.call_greeks = Some(greeks);
    }

    /// Updates the Greeks for the put option.
    pub fn update_put_greeks(&mut self, greeks: Greek)
        ensures
            final(self)@ == (StrikeOrderBookView { put_greeks: Some(greeks), ..old(self)@ }),
    {
        proof {
            use_type_invariant(&*self);
        }
        self.put_greeks = Some(greeks);
    }

    /// Returns the Greeks for the call option.
    pub fn call_greeks(&self) -> (greeks: Option<&Greek>)
        ensures
            match greeks {
                Some(set) => self@.call_greeks == Some(*set),
                None => self@.call_greeks is None,
            },
    {
        self.call_greeks.as_ref()
    }

    /// Returns the Greeks for the put option.
    pub fn put_greeks(&self) -> (greeks: Option<&Greek>)
        ensures
            match greeks {
                Some(set) => self@.put_greeks == Some(*set),
                None => self@.put_greeks is None,
            },
    {
        self.put_greeks.as_ref()
    }

    /// Whether a strike is empty whose call answers `call_empty` and whose
    /// put answers `put_empty` when asked whether it is empty: it is when
    /// both are.
    pub fn both_empty(call_empty: bool, put_empty: bool) -> (empty: bool)
        ensures
            empty == (call_empty && put_empty),
    {
        call_empty && put_empty
    }

    /// The order count of a strike whose call counts `call` orders and whose
    /// put counts `put`: their sum, `usize::MAX` where the sum is larger.
    pub fn counted_together(call: usize, put: usize) -> (count: usize)
        ensures
            count == capped((call + put) as nat),
    {
        call.saturating_add(put)
    }
}

/// A strike is empty exactly when it counts no order: both leaves count
/// none if and only if their counts together are zero.
pub proof fn empty_iff_nothing_counted(call: usize, put: usize)
    ensures
        (call == 0 && put == 0) <==> capped((call + put) as nat) == 0,
{
}

/// The strikes of entries keyed by strike, in the entries' order.
pub fn strikes_of(pairs: &Vec<(u64, Arc<StrikeOrderBook>)>) -> (strikes: Vec<u64>)
    ensures
        strikes@ == numbers_of(pairs@),
{
    let mut strikes: Vec<u64> = Vec::new();
    let mut done: usize = 0;
    while done < pairs.len()
        invariant
            done <= pairs.len(),
            strikes@ == numbers_of(pairs@).take(done as int),
        decreases pairs.len() - done,
    {
        strikes.push(pairs[done].0);
        assert(strikes@ =~= numbers_of(pairs@).take(done + 1));
        done = done + 1;
    }
    assert(strikes@ =~= numbers_of(pairs@));
    strikes
}

/// Manages strike order books for a single expiration.
///
/// Any number of threads may use one manager at once. A book handed out
/// stays usable after it has been removed from the manager.
pub struct StrikeOrderBookManager {
    strikes: SkipMap<u64, Arc<StrikeOrderBook>>,
    underlying: String,
    expiration: ExpirationDate,
}

impl StrikeOrderBookManager {
    /// The symbol of the underlying asset that the manager was made for.
    pub closed spec fn underlying_text(&self) -> Seq<char> {
        self.underlying@
    }

    /// The expiration that the manager was made for.
    pub closed spec fn expiration_date(&self) -> ExpirationDate {
        self.expiration
    }

    /// Whether `book` is a book of this manager's underlying and expiration
    /// at the strike `strike`.
    pub open spec fn keeps(&self, book: StrikeOrderBook, strike: u64) -> bool {
        &&& book@.underlying == self.underlying_text()
        &&& book@.expiration == self.expiration_date()
        &&& book@.strike == strike
    }

    /// What a lookup by `strike` gives when the map has answered `found`: the
    /// book found, if it is this manager's book at that strike, and
    /// `StrikeNotFound` otherwise.
    pub open spec fn vetted(&self, found: Option<Arc<StrikeOrderBook>>, strike: u64) -> Result<
        Arc<StrikeOrderBook>,
        Error,
    > {
        match found {
            Some(book) => if self.keeps(*book, strike) {
                Ok(book)
            } else {
                Err(Error::StrikeNotFound(strike))
            },
            None => Err(Error::StrikeNotFound(strike)),
        }
    }

    /// Creates a new strike order book manager.
    pub fn new(underlying: &str, expiration: ExpirationDate) -> (manager: StrikeOrderBookManager)
        ensures
            manager.underlying_text() == underlying@,
            manager.expiration_date() == expiration,
    {
        StrikeOrderBookManager { strikes: empty_map(), underlying: String::from_str(underlying), expiration }
    }

    /// Returns the underlying asset symbol.
    pub fn underlying(&self) -> (underlying: &str)
        ensures
            underlying@ == self.underlying_text(),
    {
        self.underlying.as_str()
    }

    /// Returns the expiration date.
    pub fn expiration(&self) -> (expiration: &ExpirationDate)
        ensures
            *expiration == self.expiration_date(),
    {
        &self.expiration
    }

    /// Returns the number of strikes: an estimate while other threads
    /// register or remove strikes.
    pub fn len(&self) -> (count: usize) {
        entry_count(&self.strikes)
    }

    /// Returns true if there are no strikes.
    pub fn is_empty(&self) -> (empty: bool) {
        nothing_counted(entry_count(&self.strikes))
    }

    /// Tells whether `book` is this manager's book at `strike`.
    pub fn owns(&self, book: &StrikeOrderBook, strike: u64) -> (own: bool)
        ensures
            own == self.keeps(*book, strike),
    {
        book.strike() == strike && same_expiration(book.expiration(), &self.expiration)
            && book.underlying.eq(&self.underlying)
    }

    /// Turns the map's answer to a lookup by `strike` into the result of the
    /// lookup.
    pub fn vet(&self, found: Option<Arc<StrikeOrderBook>>, strike: u64) -> (result: Result<
        Arc<StrikeOrderBook>,
        Error,
    >)
        ensures
            result == self.vetted(found, strike),
    {
        match found {
            Some(book) => {
                if self.owns(&book, strike) {
                    Ok(book)
                } else {
                    Err(Error::strike_not_found(strike))
                }
            },
            None => Err(Error::strike_not_found(strike)),
        }
    }

    /// Gets or creates a strike order book.
    ///
    /// Where the strike is not registered, a new book is offered to the map,
    /// which keeps it unless another thread has registered the strike
    /// meanwhile; the book that the map keeps is returned. Every caller of
    /// one strike is so handed the same book.
    ///
    /// Only this function stores books in the map, each under its own
    /// strike, so the map answers with this manager's book for the strike.
    /// Should it ever answer with another book, that book is not handed out:
    /// a new book is returned that the map does not hold.
    pub fn get_or_create(&self, strike: u64) -> (book: Arc<StrikeOrderBook>)
        ensures
            self.keeps(*book, strike),
    {
        match self.vet(find(&self.strikes, &strike), strike) {
            Ok(book) => book,
            Err(_) => {
                let candidate = Arc::new(StrikeOrderBook::new(self.underlying.as_str(), self.expiration, strike));
                match self.vet(Some(find_or_insert(&self.strikes, strike, candidate)), strike) {
                    Ok(book) => book,
                    Err(_) => Arc::new(StrikeOrderBook::new(self.underlying.as_str(), self.expiration, strike)),
                }
            },
        }
    }

    /// Gets a strike order book by strike price.
    ///
    /// Fails with `StrikeNotFound` where the strike is not registered; never
    /// registers it.
    pub fn get(&self, strike: u64) -> (result: Result<Arc<StrikeOrderBook>, Error>)
        ensures
            match result {
                Ok(book) => self.keeps(*book, strike),
                Err(error) => error == Error::StrikeNotFound(strike),
            },
    {
        self.vet(find(&self.strikes, &strike), strike)
    }

    /// Returns true if a strike exists: if `get` would succeed now.
    pub fn contains(&self, strike: u64) -> (present: bool) {
        self.vet(find(&self.strikes, &strike), strike).is_ok()
    }

    /// Removes a strike order book. Returns true if the strike was
    /// registered and this call removed it. Books handed out before stay
    /// usable.
    pub fn remove(&self, strike: u64) -> (removed: bool) {
        discard(&self.strikes, &strike).is_some()
    }

    /// Returns all strike prices, strictly ascending.
    pub fn strike_prices(&self) -> (prices: Vec<u64>)
        ensures
            strictly_ascending(prices@),
    {
        strikes_of(&numbered_entries(&self.strikes))
    }

    /// Returns the total order count across all strikes: the counts of the
    /// strikes met in one walk, each read as the walk reaches it.
    pub fn total_order_count(&self) -> (count: usize) {
        let pairs = numbered_entries(&self.strikes);
        let mut counts: Vec<usize> = Vec::new();
        let mut done: usize = 0;
        while done < pairs.len()
            invariant
                done <= pairs.len(),
            decreases pairs.len() - done,
        {
            counts.push(pairs[done].1.order_count());
            done = done + 1;
        }
        total(&counts)
    }

    /// Returns the ATM (at-the-money) strike closest to the given spot
    /// price among the strikes met in one walk; of two equally close, the
    /// lower.
    ///
    /// Fails with `NoDataAvailable` where the walk meets no strike.
    pub fn atm_strike(&self, spot: u64) -> (nearest: Result<u64, Error>)
        ensures
            nearest is Err ==> nearest->Err_0.is_no_data("no strikes available"@),
    {
        atm_among(&self.strike_prices(), spot)
    }
}

/// A lookup fails exactly when the map does not hold the manager's book at
/// the strike, and then with `StrikeNotFound` for that strike.
pub proof fn strike_not_found_iff_absent(
    manager: StrikeOrderBookManager,
    found: Option<Arc<StrikeOrderBook>>,
    strike: u64,
)
    ensures
        manager.vetted(found, strike) is Err <==> !(found is Some && manager.keeps(*found->Some_0, strike)),
        manager.vetted(found, strike) is Err ==> manager.vetted(found, strike) == Err::<Arc<StrikeOrderBook>, Error>(
            Error::StrikeNotFound(strike),
        ),
        manager.vetted(found, strike) is Ok ==> manager.vetted(found, strike) == Ok::<Arc<StrikeOrderBook>, Error>(
            found->Some_0,
        ),
{
}

} // verus!

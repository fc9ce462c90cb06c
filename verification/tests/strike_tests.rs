use option_chain_orderbook::orderbook::strike::{atm_among, contract_symbol_text, gap};
use option_chain_orderbook::orderbook::{OptionStyle, Quote, StrikeOrderBook, StrikeOrderBookManager};
use option_chain_orderbook::Error;
use optionstratlib::prelude::Positive;
use optionstratlib::ExpirationDate;
use orderbook_rs::{Id, Side};
use std::sync::Arc;

fn test_expiration() -> ExpirationDate {
    ExpirationDate::Days(Positive::new(30.0).unwrap())
}

#[test]
fn test_strike_order_book_creation() {
    let strike = StrikeOrderBook::new("BTC", test_expiration(), 50000);

    assert_eq!(strike.underlying(), "BTC");
    assert_eq!(strike.strike(), 50000);
    assert!(strike.is_empty());
}

#[test]
fn test_strike_order_book_orders() {
    let strike = StrikeOrderBook::new("BTC", test_expiration(), 50000);

    strike.call().add_limit_order(Id::from_u64(1), Side::Buy, 100, 10).unwrap();
    strike.put().add_limit_order(Id::from_u64(2), Side::Sell, 50, 5).unwrap();

    assert_eq!(strike.order_count(), 2);
    assert!(!strike.is_empty());
}

#[test]
fn test_strike_manager_creation() {
    let manager = StrikeOrderBookManager::new("BTC", test_expiration());

    assert!(manager.is_empty());
    assert_eq!(manager.len(), 0);
    assert_eq!(manager.underlying(), "BTC");
}

#[test]
fn test_strike_manager_get_or_create() {
    let manager = StrikeOrderBookManager::new("BTC", test_expiration());

    let strike = manager.get_or_create(50000);
    assert_eq!(strike.strike(), 50000);

    manager.get_or_create(55000);
    manager.get_or_create(45000);

    assert_eq!(manager.len(), 3);

    let strikes = manager.strike_prices();
    assert_eq!(strikes, vec![45000, 50000, 55000]);
}

#[test]
fn test_strike_manager_atm() {
    let manager = StrikeOrderBookManager::new("BTC", test_expiration());

    manager.get_or_create(45000);
    manager.get_or_create(50000);
    manager.get_or_create(55000);

    assert_eq!(manager.atm_strike(48000).unwrap(), 50000);
    assert_eq!(manager.atm_strike(52000).unwrap(), 50000);
    assert_eq!(manager.atm_strike(53000).unwrap(), 55000);
}

#[test]
fn test_strike_manager_atm_empty() {
    let manager = StrikeOrderBookManager::new("BTC", test_expiration());
    assert!(manager.atm_strike(50000).is_err());
}

#[test]
fn atm_on_a_registered_strike_is_that_strike() {
    let manager = StrikeOrderBookManager::new("BTC", test_expiration());
    manager.get_or_create(55000);
    manager.get_or_create(45000);
    manager.get_or_create(50000);

    assert_eq!(manager.atm_strike(50000).unwrap(), 50000);
    assert_eq!(manager.atm_strike(0).unwrap(), 45000);
    assert_eq!(manager.atm_strike(u64::MAX).unwrap(), 55000);
}

#[test]
fn atm_tie_goes_to_the_lower_strike() {
    let manager = StrikeOrderBookManager::new("BTC", test_expiration());
    manager.get_or_create(55000);
    manager.get_or_create(50000);

    assert_eq!(manager.atm_strike(52500).unwrap(), 50000);
    assert_eq!(manager.atm_strike(52501).unwrap(), 55000);
    assert_eq!(manager.atm_strike(52499).unwrap(), 50000);
}

#[test]
fn atm_on_an_empty_manager_reports_no_data() {
    let manager = StrikeOrderBookManager::new("BTC", test_expiration());
    assert_eq!(
        manager.atm_strike(7),
        Err(Error::NoDataAvailable("no strikes available".to_string()))
    );
}

#[test]
fn atm_among_picks_the_nearest_and_the_first_of_equals() {
    assert_eq!(atm_among(&vec![45000, 50000, 55000], 48000), Ok(50000));
    assert_eq!(atm_among(&vec![45000, 50000, 55000], 53000), Ok(55000));
    assert_eq!(atm_among(&vec![45000, 50000, 55000], 50000), Ok(50000));
    assert_eq!(atm_among(&vec![45000, 50000, 55000], 52500), Ok(50000));
    assert_eq!(atm_among(&vec![55000, 50000], 52500), Ok(55000));
    assert_eq!(atm_among(&vec![7], u64::MAX), Ok(7));
    assert_eq!(atm_among(&vec![0, u64::MAX], 1 << 63), Ok(u64::MAX));
    assert_eq!(atm_among(&vec![0, u64::MAX], (1 << 63) - 1), Ok(0));
    assert_eq!(
        atm_among(&vec![], 1),
        Err(Error::NoDataAvailable("no strikes available".to_string()))
    );
}

#[test]
fn gap_is_the_absolute_difference() {
    assert_eq!(gap(50000, 48000), 2000);
    assert_eq!(gap(48000, 50000), 2000);
    assert_eq!(gap(5, 5), 0);
    assert_eq!(gap(0, u64::MAX), u64::MAX);
    assert_eq!(gap(u64::MAX, 0), u64::MAX);
}

#[test]
fn contract_symbols_join_the_parts_with_hyphens() {
    assert_eq!(
        contract_symbol_text("BTC", "20240329", 50000, OptionStyle::Call),
        "BTC-20240329-50000-C"
    );
    assert_eq!(
        contract_symbol_text("BTC", "20240329", 50000, OptionStyle::Put),
        "BTC-20240329-50000-P"
    );
    assert_eq!(contract_symbol_text("", "", 0, OptionStyle::Call), "--0-C");
    assert_eq!(
        contract_symbol_text("ETH", "x", u64::MAX, OptionStyle::Put),
        "ETH-x-18446744073709551615-P"
    );
}

#[test]
fn strike_book_binds_its_leaves_to_their_symbols() {
    let book = StrikeOrderBook::with_label("BTC", test_expiration(), "20240329", 50000);

    assert_eq!(book.expiration_label(), "20240329");
    assert_eq!(*book.expiration(), test_expiration());
    assert_eq!(book.call().symbol(), "BTC-20240329-50000-C");
    assert_eq!(book.put().symbol(), "BTC-20240329-50000-P");
    assert_eq!(book.call().option_style(), OptionStyle::Call);
    assert_eq!(book.put().option_style(), OptionStyle::Put);
    assert_eq!(book.get(OptionStyle::Call).symbol(), "BTC-20240329-50000-C");
    assert_eq!(book.get(OptionStyle::Put).symbol(), "BTC-20240329-50000-P");
    assert!(book.call_greeks().is_none());
    assert!(book.put_greeks().is_none());
}

#[test]
fn new_strike_book_labels_a_fixed_instant_by_its_date() {
    let at = chrono::DateTime::from_timestamp(1_766_428_200, 0).unwrap();
    let book = StrikeOrderBook::new("BTC", ExpirationDate::DateTime(at), 50000);

    assert_eq!(book.expiration_label(), "20251222");
    assert_eq!(book.call().symbol(), "BTC-20251222-50000-C");
    assert_eq!(book.put().symbol(), "BTC-20251222-50000-P");
}

#[test]
fn new_strike_book_labels_a_day_count_with_eight_digits() {
    let book = StrikeOrderBook::new("BTC", test_expiration(), 50000);
    let label = book.expiration_label().to_string();

    assert_eq!(label.len(), 8);
    assert!(label.chars().all(|c| c.is_ascii_digit()));
    assert_eq!(book.call().symbol(), format!("BTC-{}-50000-C", label));
}

#[test]
fn strike_book_quotes_follow_the_leaves() {
    let book = StrikeOrderBook::new("BTC", test_expiration(), 50000);
    assert!(!book.is_fully_quoted());
    assert!(book.call_quote().is_empty());

    book.call().add_limit_order(Id::from_u64(1), Side::Buy, 100, 10).unwrap();
    book.call().add_limit_order(Id::from_u64(2), Side::Sell, 105, 5).unwrap();
    assert_eq!(book.call_quote(), Quote::new(Some(100), 10, Some(105), 5));
    assert!(!book.is_fully_quoted());

    book.put().add_limit_order(Id::from_u64(3), Side::Buy, 50, 7).unwrap();
    assert_eq!(book.put_quote(), Quote::new(Some(50), 7, None, 0));
    assert!(!book.is_fully_quoted());

    book.put().add_limit_order(Id::from_u64(4), Side::Sell, 51, 3).unwrap();
    assert!(book.is_fully_quoted());
    assert_eq!(book.order_count(), 4);

    book.clear();
    assert!(book.is_empty());
    assert_eq!(book.order_count(), 0);
    assert!(!book.is_fully_quoted());
}

#[test]
fn fully_quoted_needs_both_sides_of_both_quotes() {
    let both = Quote::new(Some(1), 1, Some(2), 1);
    let bid_only = Quote::new(Some(1), 1, None, 0);
    let ask_only = Quote::new(None, 0, Some(2), 1);
    let neither = Quote::new(None, 0, None, 0);

    assert!(StrikeOrderBook::fully_quoted(both, both));
    assert!(!StrikeOrderBook::fully_quoted(both, bid_only));
    assert!(!StrikeOrderBook::fully_quoted(ask_only, both));
    assert!(!StrikeOrderBook::fully_quoted(neither, neither));
}

#[test]
fn greeks_are_absent_until_set() {
    let mut book = StrikeOrderBook::new("BTC", test_expiration(), 50000);
    let base = optionstratlib::greeks::Greek {
        delta: Default::default(),
        gamma: Default::default(),
        theta: Default::default(),
        vega: Default::default(),
        rho: Default::default(),
        rho_d: Default::default(),
        alpha: Default::default(),
        vanna: Default::default(),
        vomma: Default::default(),
        veta: Default::default(),
        charm: Default::default(),
        color: Default::default(),
    };
    let mut other = base.clone();
    other.delta = 5.into();

    book.update_call_greeks(base.clone());
    assert!(book.call_greeks() == Some(&base));
    assert!(book.put_greeks().is_none());

    book.update_put_greeks(other.clone());
    assert!(book.put_greeks() == Some(&other));
    assert!(book.call_greeks() == Some(&base));
    assert_eq!(book.strike(), 50000);
    assert_eq!(book.underlying(), "BTC");
}

#[test]
fn get_or_create_hands_out_one_book_per_strike() {
    let manager = StrikeOrderBookManager::new("BTC", test_expiration());

    let first = manager.get_or_create(50000);
    let second = manager.get_or_create(50000);
    let found = manager.get(50000).unwrap();
    let other = manager.get_or_create(50001);

    assert!(Arc::ptr_eq(&first, &second));
    assert!(Arc::ptr_eq(&first, &found));
    assert!(!Arc::ptr_eq(&first, &other));
    assert_eq!(manager.len(), 2);
    assert_eq!(first.underlying(), "BTC");
    assert_eq!(*first.expiration(), test_expiration());
    assert_eq!(other.strike(), 50001);
}

#[test]
fn get_fails_exactly_where_contains_is_false() {
    let manager = StrikeOrderBookManager::new("BTC", test_expiration());
    manager.get_or_create(50000);

    assert!(manager.contains(50000));
    assert_eq!(manager.get(50000).unwrap().strike(), 50000);

    assert!(!manager.contains(99999));
    assert_eq!(manager.get(99999).err(), Some(Error::StrikeNotFound(99999)));
    assert!(!manager.contains(99999));
    assert_eq!(manager.len(), 1);
}

#[test]
fn vet_turns_the_answer_of_the_map_into_the_result() {
    let manager = StrikeOrderBookManager::new("BTC", test_expiration());
    let own = Arc::new(StrikeOrderBook::new("BTC", test_expiration(), 50000));
    let foreign = Arc::new(StrikeOrderBook::new("ETH", test_expiration(), 50000));
    let later = Arc::new(StrikeOrderBook::new(
        "BTC",
        ExpirationDate::Days(Positive::new(60.0).unwrap()),
        50000,
    ));

    assert!(manager.owns(&own, 50000));
    assert!(!manager.owns(&own, 50001));
    assert!(!manager.owns(&foreign, 50000));
    assert!(!manager.owns(&later, 50000));

    let kept = manager.vet(Some(own.clone()), 50000).unwrap();
    assert!(Arc::ptr_eq(&kept, &own));
    assert_eq!(manager.vet(Some(own), 50001).err(), Some(Error::StrikeNotFound(50001)));
    assert_eq!(manager.vet(Some(foreign), 50000).err(), Some(Error::StrikeNotFound(50000)));
    assert_eq!(manager.vet(Some(later), 50000).err(), Some(Error::StrikeNotFound(50000)));
    assert_eq!(manager.vet(None, 7).err(), Some(Error::StrikeNotFound(7)));
}

#[test]
fn remove_succeeds_once_and_leaves_handles_usable() {
    let manager = StrikeOrderBookManager::new("BTC", test_expiration());
    let held = manager.get_or_create(50000);
    held.call().add_limit_order(Id::from_u64(1), Side::Buy, 100, 10).unwrap();

    assert!(!manager.remove(40000));
    assert!(manager.remove(50000));
    assert!(!manager.remove(50000));
    assert!(!manager.contains(50000));
    assert!(manager.is_empty());
    assert_eq!(manager.total_order_count(), 0);

    assert_eq!(held.order_count(), 1);
    held.put().add_limit_order(Id::from_u64(2), Side::Sell, 50, 5).unwrap();
    assert_eq!(held.order_count(), 2);
    assert_eq!(held.strike(), 50000);

    let again = manager.get_or_create(50000);
    assert!(!Arc::ptr_eq(&held, &again));
    assert!(again.is_empty());
}

#[test]
fn strike_prices_ascend_whatever_the_order_of_insertion() {
    let manager = StrikeOrderBookManager::new("BTC", test_expiration());
    for strike in [9u64, 3, u64::MAX, 7, 0, 3, 100, 7, 1] {
        manager.get_or_create(strike);
    }
    assert_eq!(manager.strike_prices(), vec![0, 1, 3, 7, 9, 100, u64::MAX]);

    manager.remove(7);
    assert_eq!(manager.strike_prices(), vec![0, 1, 3, 9, 100, u64::MAX]);
    assert_eq!(StrikeOrderBookManager::new("BTC", test_expiration()).strike_prices(), Vec::<u64>::new());
}

#[test]
fn manager_total_is_the_sum_over_its_strikes() {
    let manager = StrikeOrderBookManager::new("BTC", test_expiration());
    assert_eq!(manager.total_order_count(), 0);

    let low = manager.get_or_create(45000);
    let high = manager.get_or_create(55000);
    manager.get_or_create(50000);
    low.call().add_limit_order(Id::from_u64(1), Side::Buy, 100, 10).unwrap();
    low.put().add_limit_order(Id::from_u64(2), Side::Buy, 100, 10).unwrap();
    high.put().add_limit_order(Id::from_u64(3), Side::Sell, 100, 10).unwrap();

    assert_eq!(manager.total_order_count(), 3);
    assert_eq!(low.order_count() + high.order_count(), 3);
}

#[test]
fn counts_of_call_and_put_are_added() {
    assert_eq!(StrikeOrderBook::counted_together(0, 0), 0);
    assert_eq!(StrikeOrderBook::counted_together(3, 4), 7);
    assert_eq!(StrikeOrderBook::counted_together(0, 9), 9);
    assert_eq!(StrikeOrderBook::counted_together(usize::MAX, 0), usize::MAX);
    assert_eq!(StrikeOrderBook::counted_together(usize::MAX - 1, 1), usize::MAX);
    assert_eq!(StrikeOrderBook::counted_together(usize::MAX, usize::MAX), usize::MAX);
    assert_eq!(StrikeOrderBook::counted_together(usize::MAX - 1, 2), usize::MAX);
}

#[test]
fn a_strike_is_empty_when_both_leaves_are() {
    assert!(StrikeOrderBook::both_empty(true, true));
    assert!(!StrikeOrderBook::both_empty(true, false));
    assert!(!StrikeOrderBook::both_empty(false, true));
    assert!(!StrikeOrderBook::both_empty(false, false));
}

#[test]
fn a_strike_with_an_order_on_one_side_is_not_empty() {
    let on_put = StrikeOrderBook::new("BTC", test_expiration(), 50000);
    on_put.put().add_limit_order(Id::from_u64(1), Side::Sell, 50, 5).unwrap();
    assert!(on_put.call().is_empty());
    assert!(!on_put.put().is_empty());
    assert!(!on_put.is_empty());
    assert_eq!(on_put.order_count(), 1);

    let on_call = StrikeOrderBook::new("BTC", test_expiration(), 50000);
    on_call.call().add_limit_order(Id::from_u64(1), Side::Buy, 50, 5).unwrap();
    assert!(!on_call.is_empty());
    assert_eq!(on_call.order_count(), 1);

    on_call.clear();
    assert!(on_call.is_empty());
    assert_eq!(on_call.order_count(), 0);
}

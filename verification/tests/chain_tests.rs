use option_chain_orderbook::orderbook::{
    OptionChainOrderBook, OptionChainOrderBookManager, OptionChainStats,
};
use option_chain_orderbook::Error;
use optionstratlib::prelude::Positive;
use optionstratlib::ExpirationDate;
use orderbook_rs::{Id, Side};
use std::sync::Arc;

fn days(count: f64) -> ExpirationDate {
    ExpirationDate::Days(Positive::new(count).unwrap())
}

fn test_expiration() -> ExpirationDate {
    days(30.0)
}

#[test]
fn test_option_chain_creation() {
    let chain = OptionChainOrderBook::new("BTC", test_expiration());

    assert_eq!(chain.underlying(), "BTC");
    assert!(chain.is_empty());
}

#[test]
fn test_option_chain_strikes() {
    let chain = OptionChainOrderBook::new("BTC", test_expiration());

    chain.get_or_create_strike(50000);
    chain.get_or_create_strike(55000);
    chain.get_or_create_strike(45000);

    assert_eq!(chain.strike_count(), 3);
    assert_eq!(chain.strike_prices(), vec![45000, 50000, 55000]);
}

#[test]
fn test_option_chain_orders() {
    let chain = OptionChainOrderBook::new("BTC", test_expiration());

    let strike = chain.get_or_create_strike(50000);
    strike.call().add_limit_order(Id::from_u64(1), Side::Buy, 100, 10).unwrap();
    strike.put().add_limit_order(Id::from_u64(2), Side::Sell, 50, 5).unwrap();

    assert_eq!(chain.total_order_count(), 2);
}

#[test]
fn test_option_chain_stats() {
    let chain = OptionChainOrderBook::new("BTC", test_expiration());

    let strike = chain.get_or_create_strike(50000);
    strike.call().add_limit_order(Id::from_u64(1), Side::Buy, 100, 10).unwrap();
    strike.call().add_limit_order(Id::from_u64(2), Side::Sell, 101, 5).unwrap();
    strike.put().add_limit_order(Id::from_u64(3), Side::Buy, 50, 10).unwrap();
    strike.put().add_limit_order(Id::from_u64(4), Side::Sell, 51, 5).unwrap();

    let stats = chain.stats();
    assert_eq!(stats.strike_count, 1);
    assert_eq!(stats.total_orders, 4);
}

#[test]
fn test_option_chain_manager() {
    let manager = OptionChainOrderBookManager::new("BTC");

    manager.get_or_create(days(30.0));
    manager.get_or_create(days(60.0));
    manager.get_or_create(days(90.0));

    assert_eq!(manager.len(), 3);
}

#[test]
fn test_option_chain_expiration() {
    let exp = test_expiration();
    let chain = OptionChainOrderBook::new("BTC", exp);
    assert_eq!(*chain.expiration(), exp);
}

#[test]
fn test_option_chain_strikes_ref() {
    let chain = OptionChainOrderBook::new("BTC", test_expiration());
    chain.get_or_create_strike(50000);
    let strikes = chain.strikes();
    assert_eq!(strikes.len(), 1);
}

#[test]
fn test_option_chain_get_strike() {
    let chain = OptionChainOrderBook::new("BTC", test_expiration());
    chain.get_or_create_strike(50000);

    assert!(chain.get_strike(50000).is_ok());
    assert!(chain.get_strike(99999).is_err());
}

#[test]
fn test_option_chain_atm_strike() {
    let chain = OptionChainOrderBook::new("BTC", test_expiration());

    chain.get_or_create_strike(45000);
    chain.get_or_create_strike(50000);
    chain.get_or_create_strike(55000);

    assert_eq!(chain.atm_strike(48000).unwrap(), 50000);
    assert_eq!(chain.atm_strike(53000).unwrap(), 55000);
}

#[test]
fn test_option_chain_atm_strike_empty() {
    let chain = OptionChainOrderBook::new("BTC", test_expiration());
    assert!(chain.atm_strike(50000).is_err());
}

#[test]
fn test_option_chain_stats_display() {
    let chain = OptionChainOrderBook::new("BTC", test_expiration());
    chain.get_or_create_strike(50000);

    let stats = chain.stats();
    let display = stats.to_string();
    assert!(display.contains("1 strikes"));
}

#[test]
fn test_option_chain_manager_underlying() {
    let manager = OptionChainOrderBookManager::new("BTC");
    assert_eq!(manager.underlying(), "BTC");
}

#[test]
fn test_option_chain_manager_is_empty() {
    let manager = OptionChainOrderBookManager::new("BTC");
    assert!(manager.is_empty());

    manager.get_or_create(test_expiration());
    assert!(!manager.is_empty());
}

#[test]
fn test_option_chain_manager_get() {
    let manager = OptionChainOrderBookManager::new("BTC");
    let exp = test_expiration();

    manager.get_or_create(exp);

    assert!(manager.get(&exp).is_ok());
    assert!(manager.get(&days(999.0)).is_err());
}

#[test]
fn test_option_chain_manager_contains() {
    let manager = OptionChainOrderBookManager::new("BTC");
    let exp = test_expiration();

    manager.get_or_create(exp);

    assert!(manager.contains(&exp));
    assert!(!manager.contains(&days(999.0)));
}

#[test]
fn test_option_chain_manager_remove() {
    let manager = OptionChainOrderBookManager::new("BTC");
    let exp = test_expiration();

    manager.get_or_create(exp);
    assert_eq!(manager.len(), 1);

    assert!(manager.remove(&exp));
    assert_eq!(manager.len(), 0);
    assert!(!manager.remove(&exp));
}

#[test]
fn test_option_chain_manager_total_order_count() {
    let manager = OptionChainOrderBookManager::new("BTC");

    let chain = manager.get_or_create(test_expiration());
    let strike = chain.get_or_create_strike(50000);
    strike.call().add_limit_order(Id::from_u64(1), Side::Buy, 100, 10).unwrap();
    drop(strike);
    drop(chain);

    assert_eq!(manager.total_order_count(), 1);
}

#[test]
fn chain_hands_out_books_of_its_own_identity() {
    let chain = OptionChainOrderBook::new("ETH", days(60.0));
    let created = chain.get_or_create_strike(3000);
    let found = chain.get_strike(3000).unwrap();

    assert!(Arc::ptr_eq(&created, &found));
    assert_eq!(found.underlying(), "ETH");
    assert_eq!(*found.expiration(), days(60.0));
    assert_eq!(found.strike(), 3000);
    assert_eq!(chain.strikes().underlying(), "ETH");
    assert_eq!(*chain.strikes().expiration(), days(60.0));
    assert_eq!(chain.get_strike(3001).err(), Some(Error::StrikeNotFound(3001)));
    assert_eq!(
        chain.atm_strike(1).unwrap(),
        3000
    );
    assert_eq!(
        OptionChainOrderBook::new("ETH", days(60.0)).atm_strike(1),
        Err(Error::NoDataAvailable("no strikes available".to_string()))
    );
}

#[test]
fn chain_stats_line_is_written_from_its_parts() {
    let stats = OptionChainStats { expiration: days(30.0), strike_count: 12, total_orders: 0 };

    assert_eq!(stats.describe("2025-12-22 18:30:00 UTC"), "2025-12-22 18:30:00 UTC: 12 strikes, 0 orders");
    assert_eq!(stats.describe(""), ": 12 strikes, 0 orders");

    let at = chrono::DateTime::from_timestamp(1_766_428_200, 0).unwrap();
    let fixed = OptionChainStats {
        expiration: ExpirationDate::DateTime(at),
        strike_count: 1,
        total_orders: usize::MAX,
    };
    assert_eq!(
        fixed.to_string(),
        format!("2025-12-22 18:30:00 UTC: 1 strikes, {} orders", usize::MAX)
    );
    assert_eq!(fixed.clone().strike_count, 1);
}

#[test]
fn chain_manager_keeps_one_chain_per_expiration() {
    let manager = OptionChainOrderBookManager::new("BTC");
    let first = manager.get_or_create(days(30.0));
    let second = manager.get_or_create(days(30.0));
    let other = manager.get_or_create(days(60.0));

    assert!(Arc::ptr_eq(&first, &second));
    assert!(!Arc::ptr_eq(&first, &other));
    assert!(Arc::ptr_eq(&manager.get(&days(60.0)).unwrap(), &other));
    assert_eq!(first.underlying(), "BTC");
    assert_eq!(*first.expiration(), days(30.0));
    assert_eq!(*other.expiration(), days(60.0));
    assert_eq!(manager.get(&days(90.0)).err(), Some(Error::ExpirationNotFound(days(90.0))));
    assert_eq!(manager.len(), 2);
}

#[test]
fn chain_manager_vets_what_the_map_answers() {
    let manager = OptionChainOrderBookManager::new("BTC");
    let own = Arc::new(OptionChainOrderBook::new("BTC", days(30.0)));
    let foreign = Arc::new(OptionChainOrderBook::new("ETH", days(30.0)));

    assert!(manager.owns(&own, &days(30.0)));
    assert!(!manager.owns(&own, &days(31.0)));
    assert!(!manager.owns(&foreign, &days(30.0)));
    assert!(Arc::ptr_eq(&manager.vet(Some(own.clone()), &days(30.0)).unwrap(), &own));
    assert_eq!(manager.vet(Some(own), &days(31.0)).err(), Some(Error::ExpirationNotFound(days(31.0))));
    assert_eq!(manager.vet(Some(foreign), &days(30.0)).err(), Some(Error::ExpirationNotFound(days(30.0))));
    assert_eq!(manager.vet(None, &days(30.0)).err(), Some(Error::ExpirationNotFound(days(30.0))));
}

#[test]
fn chain_removed_from_its_manager_stays_usable() {
    let manager = OptionChainOrderBookManager::new("BTC");
    let held = manager.get_or_create(days(30.0));
    held.get_or_create_strike(50000);

    assert!(manager.remove(&days(30.0)));
    assert!(!manager.remove(&days(30.0)));
    assert!(!manager.contains(&days(30.0)));
    assert_eq!(manager.total_order_count(), 0);

    held.get_or_create_strike(51000);
    assert_eq!(held.strike_prices(), vec![50000, 51000]);
}

#[test]
fn chain_stats_hold_the_counts_they_are_made_of() {
    let stats = OptionChainStats::of_counts(days(30.0), 1, 4);
    assert_eq!(stats.expiration, days(30.0));
    assert_eq!(stats.strike_count, 1);
    assert_eq!(stats.total_orders, 4);

    let other = OptionChainStats::of_counts(days(60.0), usize::MAX, 0);
    assert_eq!(other.expiration, days(60.0));
    assert_eq!(other.strike_count, usize::MAX);
    assert_eq!(other.total_orders, 0);
}

#[test]
fn chain_stats_count_strikes_and_orders_apart() {
    let chain = OptionChainOrderBook::new("BTC", test_expiration());
    chain.get_or_create_strike(45000);
    chain.get_or_create_strike(55000);
    let strike = chain.get_or_create_strike(50000);
    strike.put().add_limit_order(Id::from_u64(1), Side::Sell, 51, 5).unwrap();

    let stats = chain.stats();
    assert_eq!(stats.expiration, test_expiration());
    assert_eq!(stats.strike_count, 3);
    assert_eq!(stats.total_orders, 1);
    assert_eq!(stats.strike_count, chain.strike_prices().len());
    assert_eq!(stats.total_orders, chain.total_order_count());
}

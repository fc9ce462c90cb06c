//! The registry of order books, level by level.
//!
//! ```text
//! UnderlyingOrderBookManager        every underlying, by symbol
//!   UnderlyingOrderBook             one underlying
//!     ExpirationOrderBookManager    its expirations, by date
//!       ExpirationOrderBook         one expiration
//!         OptionChainOrderBook      the chain of that expiration
//!           StrikeOrderBookManager  its strikes, by price
//!             StrikeOrderBook       one strike: a call and a put
//!               OptionOrderBook     the book of one contract
//! ```
//!
//! Every manager keeps its children in a map that threads share without a
//! lock. `get_or_create` registers a child on first use and hands out the
//! same child from then on; `get` fails where there is none. A child handed
//! out is shared with the map and outlives its removal.

pub mod book;
pub mod chain;
pub mod expiration;
pub mod quote;
pub mod strike;
pub mod totals;
pub mod underlying;

pub use book::{OptionOrderBook, OptionStyle};
pub use chain::{OptionChainOrderBook, OptionChainOrderBookManager, OptionChainStats};
pub use expiration::{ExpirationManagerStats, ExpirationOrderBook, ExpirationOrderBookManager};
pub use quote::Quote;
pub use strike::{StrikeOrderBook, StrikeOrderBookManager, StrikeOrderBookView};
pub use underlying::{GlobalStats, UnderlyingOrderBook, UnderlyingOrderBookManager, UnderlyingStats};

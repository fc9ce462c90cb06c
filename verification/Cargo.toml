[package]
name = "option_chain_orderbook"
version = "0.1.0"
edition = "2021"
publish = false

[dependencies]
chrono = "=0.4.45"
crossbeam-skiplist = "=0.1.3"
optionstratlib = "=0.23.0"
orderbook-rs = "=0.15.0"

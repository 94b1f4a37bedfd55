//! Decision core of a penny-stock scalping engine: order management, watchlist
//! tiers, risk gates, guards and bookkeeping buffers, each with its contract.
//!
//! Prices and other real-valued quantities are carried as [`types::OrdKey`]:
//! the order-preserving 64-bit key of an IEEE-754 double. The library only
//! compares them; arithmetic on them is done by the caller.

pub mod types;
pub mod strmap;
pub mod symmap;
pub mod oms;
pub mod metrics;
pub mod watchlist;
pub mod time_buffer;
pub mod locale;
pub mod pdt;
pub mod session;
pub mod datetime;
pub mod blocklist;
pub mod risk;
pub mod exposure;
pub mod guards;
pub mod latency;
pub mod alerts;
pub mod calibration;
pub mod mtf;
pub mod regime;
pub mod context;
pub mod events;
pub mod entry;
pub mod config;
pub mod auth;
pub mod calendar;
pub mod replay;
pub mod control;

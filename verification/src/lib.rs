//! A subscription-aware watcher for a rental-listing feed.
//!
//! The crate keeps, per subscriber, a set of watched cities, captures a
//! snapshot of the listings currently available, computes which listings
//! newly appeared since the last successful snapshot, and plans the
//! messages that fan those listings out to exactly the subscribers
//! watching the affected city.  All state handling and message planning
//! is verified; the surrounding process supplies the fetched listings and
//! performs the actual sends.

pub mod api;
pub mod auth;
pub mod city;
pub mod command;
pub mod diff;
pub mod listing;
pub mod ngrok;
pub mod notify;
pub mod poller;
pub mod registry;
pub mod snapshot;
pub mod text;

pub use city::City;
pub use city::CityId;

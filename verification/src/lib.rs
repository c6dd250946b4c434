//! Website monitoring: price, content, stock, keyword and uptime.
//!
//! A monitor watches a URL on a schedule and alerts when something changes: the site goes down, a
//! keyword appears or disappears, the page content changes, a price crosses a threshold, or an item
//! comes in or out of stock. Each check compares what it reads with the latest snapshot.
//!
//! This crate holds the decisions and is verified. Reading pages, the database, the network and
//! floating-point arithmetic stand outside; they hand plain values in and take plain values back.

pub mod access;
pub mod api;
pub mod boundary;
pub mod callback;
pub mod check;
pub mod engine;
pub mod json;
pub mod laws;
pub mod model;
pub mod notify;
pub mod number;
pub mod schedule;
pub mod store;
pub mod text;

pub use access::init_data_dir;
pub use model::{
    Alert, CheckStatus, CheckType, FetchBackend, Monitor, NumComparator, Snapshot,
};
pub use notify::{AlertDeliveryTargets, NotifyTarget};

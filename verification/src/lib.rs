//! A verified core for a freezer-inventory client.
//!
//! The library holds the domain records (freezers, models, products), the
//! error type, the hex colour parsing used for log colours, the request-path
//! builders for the REST backend, and the state machines that drive the
//! login form, the paginated list panel and the detail/edit panel.  All I/O
//! (HTTP, rendering) lives outside, in an application that performs the
//! commands these state machines hand back.

pub mod client;
pub mod error;
pub mod hex;
pub mod list;
pub mod log;
pub mod model;
pub mod num;
pub mod preview;
pub mod ui;

pub use error::Error;
pub use model::{Freezer, Model, Product};


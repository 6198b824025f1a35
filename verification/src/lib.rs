//! Read-only status and diagnostics of a database client connection.
//!
//! A [`connection::Connection`] records, as plain values, what a connection
//! handle reports about itself: possibly-absent byte buffers, small integer
//! codes and a terminated array of attribute names. Every accessor reads one
//! of those raw values and turns it into an owned, typed answer.

pub mod connection;
pub mod errors;
pub mod foreign;
pub mod ssl;
pub mod transaction;

//! Schema migrations for the application's local store, and the delivery of
//! desktop notifications over a chain of backends.

pub mod dispatch;
pub mod migrate;
pub mod runner;
pub mod sanitize;
pub mod schema;

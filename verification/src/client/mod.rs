//! Clients that carry out the queries.

pub mod exchange;
pub mod http;

//! Session layer of a client for the Amazon Selling Partner API: region
//! routing, access-token freshness and the assembly of authenticated requests.

pub mod address;
pub mod error_handling;
pub mod general;
pub mod models;
pub mod parameters;
pub mod text;

//! The message types that the session clients exchange with the gateway.
pub mod common;
pub mod response;
pub mod session;
pub mod quote;
pub mod trade;

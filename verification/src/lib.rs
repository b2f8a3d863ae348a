//! The request handling core of the BetterGovPH API: which reply each
//! request gets, stated and proved over plain values.

pub mod handlers;
pub mod http;
pub mod reply;
pub mod router;
pub mod server;
pub mod text;

//! Request dispatch for a reverse proxy in front of a chat platform's REST API.
//!
//! A bot sends the proxy the request it would have sent upstream. The proxy
//! finds out which bot is calling, keeps one upstream client per bot, and
//! forwards the request through it. This crate holds the decisions of that
//! pipeline; the listener and the network calls belong to the program around it.

pub mod decimal;
pub mod dispatch;
pub mod error;
pub mod headers;
pub mod identity;
pub mod method;
pub mod metrics;
pub mod registry;
pub mod request;
pub mod route;
pub mod text;

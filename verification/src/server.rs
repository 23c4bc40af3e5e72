//! The dispatcher, the latest-value cache, the fan-out channels and the
//! subscription streams.

pub mod api_rpc;
pub mod converter;
pub mod fanout;
pub mod fetcher;
pub mod server;

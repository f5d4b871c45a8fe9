//! A connector for a WooCommerce-style REST API: each action turns a host
//! request into HTTP requests, and the HTTP replies into a JSON result or a
//! classified failure. Sending the requests is left to the caller.

pub mod json;
pub mod error;
pub mod codec;
pub mod query;
pub mod not_found;
pub mod client;
pub mod paging;
pub mod pipeline;
pub mod actions;

//! A small HTTP request library: a builder that accumulates a request
//! description (method, url, headers), and a client that performs one
//! blocking call and normalizes every outcome into a single
//! success-or-failure result.

pub mod header_map;
pub mod http_client;
pub mod status_text;
mod transport;

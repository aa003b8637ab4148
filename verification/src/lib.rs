//! Verified core of the OSMOzzz connector layer: text building, a JSON value
//! model, request signing, URL encoding and the formatting of API results.
pub mod text;
pub mod occurs;
pub mod signing;
pub mod json;
pub mod encoding;
pub mod fmt;
pub mod timefmt;
pub mod http;
pub mod connectors;
pub mod mcp_proxy;

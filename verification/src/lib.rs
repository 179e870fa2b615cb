//! A verified client layer for chat-completion HTTP APIs.
//!
//! The library resolves a declarative client configuration into concrete
//! connection properties, builds outbound request bodies from rendered
//! prompt messages, classifies transport and provider failures into a
//! closed error taxonomy, and folds a stream of incremental deltas into a
//! monotonically growing response.  Network transport itself lives outside
//! the library; every decision about what is sent and how replies are
//! interpreted is made here, under contract.

pub mod accumulate;
pub mod client;
pub mod clock;
pub mod config;
pub mod json;
pub mod prompt;
pub mod request;
pub mod response;
pub mod resolve;
pub mod status;
pub mod text;
pub mod value;
pub mod wire;

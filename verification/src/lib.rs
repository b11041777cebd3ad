//! Client-side runtime core for talking to a Tempo simulation server.
//!
//! The crate holds the decisions of the client: which endpoint a connection
//! context targets, when its cached channel may be reused, and what a blocking
//! consumer of a server stream is handed at each pull. Network and runtime
//! work is performed by the caller, who reports each outcome back.

pub mod context;
pub mod endpoint;
pub mod error;
pub mod streaming;

pub use error::TempoError;

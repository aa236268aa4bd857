//! The adapter for the Dar es Salaam Stock Exchange data service.
//!
//! The service is reached over HTTP; this module holds everything about it
//! but the exchange of bytes: who the provider is, which requests it makes,
//! how a reply is read, and how its payloads become canonical values.

pub mod normalize;
pub mod provider;
pub mod response;
pub mod transport;

pub use provider::DseProvider;
pub use response::default_equity;

//! Market-data provider layer: a canonical quote model, capability matching,
//! provider routing with failover, rate limiting, currency resolution and the
//! normalization of one vendor's responses.

pub mod broker;
pub mod capabilities;
pub mod chronology;
pub mod decimal;
pub mod dse;
pub mod errors;
pub mod failover;
pub mod models;
pub mod rate_limiter;
pub mod resolver;
pub mod router;
pub mod text;
pub mod time;

//! A catalog of celestial bodies, keyed by identifier, with a batched refresh
//! scheduler that spreads the recomputation of positions over many ticks.
pub mod catalog;
pub mod celestial_body;
pub mod codec;
pub mod error;
pub mod planet;
pub mod scheduler;
pub mod star;

pub use catalog::Skyseeker;

//! An expiring key-value cache combined with a chained-lookup client:
//! a display name resolves to an internal id and then to a collection of
//! mastery records, each stage cached with its own time-to-live.

pub mod cache;
pub mod clock;
pub mod models;
pub mod riot;

//! An in-memory key-value store with per-key time-to-live expiration.
//!
//! Each key maps to a single record holding its value and, where a
//! time-to-live was set, the instant of a monotonic clock at which the
//! entry expires. Expiration is lazy: an expired entry is removed when it
//! is next read. The record is one unit, so a value and its expiry can
//! never be observed out of step with one another.

pub mod clock;
pub mod laws;
pub mod model;
pub mod store;

pub use store::{evict_key, get_key, insert_key, insert_with_expiry, read_at, write_with_ttl_at};
pub use store::Store;

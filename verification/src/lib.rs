//! A time-bounded in-memory key/value store.
//!
//! Every entry of a [`TtlCache`] carries the clock reading at which it was
//! inserted. Once an entry is older than the store's time-to-live it is
//! logically absent: reads no longer return it, and a periodic sweep
//! reclaims its slot.

pub mod clock;
pub mod expiry;
pub mod laws;
pub mod reaper;
pub mod ttl;

pub use crate::expiry::Entry;
pub use crate::reaper::{LockOutcome, ReaperAction};
pub use crate::ttl::TtlCache;

//! Concurrency smells.
pub mod async_trait_overhead;
pub mod missing_send_bound;

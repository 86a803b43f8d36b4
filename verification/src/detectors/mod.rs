//! The smell detectors and the policy they share.
pub mod architecture;
pub mod concurrency;
pub mod design;
pub mod laws;
pub mod implementation;
pub mod policy;
pub mod walk;

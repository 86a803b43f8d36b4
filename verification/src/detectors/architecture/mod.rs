//! Architecture smells.
pub mod cyclic_crate_dependency;
pub mod unstable_dependency;

//! Design smells.
pub mod feature_envy;
pub mod trait_impl_leakage;
pub mod rebellious_impl;

//! Implementation smells.
pub mod unused_result;
pub mod inline_candidate;
pub mod manual_default_constructor;
pub mod unnecessary_allocation_in_loop;

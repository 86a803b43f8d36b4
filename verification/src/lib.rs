//! Structural and architectural code smell detection for Rust sources,
//! working on a syntax model of each file.
#![verifier::loop_isolation(false)]
pub mod binary64;
pub mod cli;
pub mod detectors;
pub mod domain;
pub mod syntax;
pub mod text;

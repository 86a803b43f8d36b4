//! Command-line facing parts: arguments and text output helpers.
pub mod args;
pub mod llm_snippet;

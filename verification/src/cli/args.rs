//! Command-line arguments.
use vstd::prelude::*;

verus! {

/// The arguments of an analysis run.
pub struct Args {
    pub command: Option<Command>,
    /// Path to the Rust project or file to analyze.
    pub path: String,
    /// Configuration file path (default: `qualirs.toml` in the project root).
    pub config: Option<String>,
    /// Minimum severity to report: info, warning, critical.
    pub min_severity: String,
    /// Show only smells of a specific category.
    pub category: Option<String>,
    /// Quiet mode: only show summary counts.
    pub quiet: bool,
    /// Compact mode: show findings as a categorized list.
    pub compact: bool,
    /// Table mode: show findings in the table layout.
    pub table: bool,
    /// LLM mode: compact Markdown with fenced finding blocks.
    pub llm: bool,
    /// List available detectors and exit.
    pub list_detectors: bool,
}

/// A subcommand.
pub enum Command {
    /// Generate a default configuration file at `output`, overwriting an
    /// existing one only when `force` is set.
    InitConfig { output: String, force: bool },
}

} // verus!

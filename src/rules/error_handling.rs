//! Error-handling findings.
use vstd::prelude::*;

verus! {

/// The error-handling idioms detected.
#[derive(Debug, Clone, Default)]
pub struct ErrorHandlingAnalysis {
    pub failure_patterns: Vec<String>,
    /// No analyzer fills this in yet.
    pub logging_consistency: String,
}

} // verus!

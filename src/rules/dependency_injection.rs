//! Dependency-injection findings.
use vstd::prelude::*;

verus! {

/// How dependencies are handed to the code that uses them.
#[derive(Debug, Clone, Default)]
pub struct DIAnalysis {
    pub injection_patterns: Vec<String>,
    /// Share of abstract over concrete types, in hundredths; no analyzer computes it yet.
    pub abstraction_level: u32,
    /// No analyzer fills this in yet.
    pub global_state_usage: Vec<String>,
}

} // verus!

//! Security findings.
use vstd::prelude::*;

verus! {

/// Hard-coded secrets and the safety advisories.
#[derive(Debug, Clone, Default)]
pub struct SecurityAnalysis {
    pub hardcoded_secrets: Vec<String>,
    /// No rule fills this in yet.
    pub input_sanitization: String,
    /// No rule fills this in yet.
    pub memory_safety: String,
    /// No rule fills this in yet.
    pub concurrency_safety: String,
}

} // verus!

//! Third-party technology findings.
use vstd::prelude::*;

verus! {

/// The frameworks, libraries and databases that the imports name.
#[derive(Debug, Clone, Default)]
pub struct TechStack {
    pub frameworks: Vec<String>,
    pub libraries: Vec<String>,
    pub databases: Vec<String>,
    /// No analyzer fills this in yet.
    pub build_tools: Vec<String>,
}

} // verus!

//! Project layout findings.
use vstd::prelude::*;

verus! {

/// The architecture that the directory names suggest.
#[derive(Debug, Clone, Default)]
pub struct ArchitectureAnalysis {
    /// "Clean Architecture", "MVC" or "Standard Layout"; empty until a file sets it.
    pub pattern: String,
    pub layers: Vec<String>,
    /// No rule fills this in yet.
    pub modules: Vec<String>,
}

} // verus!

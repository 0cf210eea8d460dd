//! Configuration findings.
use vstd::prelude::*;

verus! {

/// Where configuration comes from and how it is typed.
#[derive(Debug, Clone, Default)]
pub struct ConfigAnalysis {
    pub config_sources: Vec<String>,
    pub type_safety: String,
    /// No rule fills this in yet.
    pub secret_handling: String,
}

} // verus!

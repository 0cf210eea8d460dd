//! Literal-string duplication findings.
use vstd::prelude::*;

verus! {

/// Repeated string literals, counted file by file.
#[derive(Debug, Clone, Default)]
pub struct DRYAnalysis {
    pub duplicated_blocks: Vec<String>,
    /// The duplication score in tenths: each extra occurrence of a literal
    /// within one file adds one tenth.
    pub duplication_score_tenths: u64,
}

} // verus!

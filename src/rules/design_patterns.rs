//! Design-pattern findings.
use vstd::prelude::*;

verus! {

/// The recurring design patterns detected.
#[derive(Debug, Clone, Default)]
pub struct DesignPatternAnalysis {
    pub patterns: Vec<String>,
}

} // verus!

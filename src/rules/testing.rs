//! Testing findings.
use vstd::prelude::*;

verus! {

/// Where tests live and which tools they use; each label is set once.
#[derive(Debug, Clone, Default)]
pub struct TestingAnalysis {
    pub test_location: String,
    pub mocking_strategy: String,
    pub naming_pattern: String,
    pub assertion_style: String,
}

} // verus!

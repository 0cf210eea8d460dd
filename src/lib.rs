//! Profiles the engineering conventions of a source repository.
use vstd::prelude::*;

pub mod analyzer;
pub mod heuristics;
pub mod labels;
pub mod languages;
pub mod llm;
pub mod laws;
pub mod parser;
pub mod paths;
pub mod patterns;
pub mod report;
pub mod rules;
pub mod syntax;
pub mod text;

pub use analyzer::ProjectAnalyzer;

verus! {

} // verus!

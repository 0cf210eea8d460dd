//! The findings of an analysis.
use vstd::prelude::*;
use crate::parser::SupportedLanguage;
use crate::text::strs;
use self::architecture::ArchitectureAnalysis;
use self::config::ConfigAnalysis;
use self::dependency_injection::DIAnalysis;
use self::design_patterns::DesignPatternAnalysis;
use self::dry::DRYAnalysis;
use self::error_handling::ErrorHandlingAnalysis;
use self::naming::{Casing, NamingConvention};
use self::security::SecurityAnalysis;
use self::tech_stack::TechStack;
use self::testing::TestingAnalysis;

pub mod architecture;
pub mod config;
pub mod dependency_injection;
pub mod design_patterns;
pub mod dry;
pub mod error_handling;
pub mod naming;
pub mod security;
pub mod tech_stack;
pub mod testing;

verus! {

/// How many successfully parsed files each language has.
#[derive(Debug, Clone, Copy, PartialEq, Eq, Structural, Default)]
pub struct LanguageCounts {
    pub go: usize,
    pub python: usize,
    pub typescript: usize,
    pub javascript: usize,
    pub rust: usize,
}

impl LanguageCounts {
    pub open spec fn spec_count(&self, l: SupportedLanguage) -> usize {
        match l {
            SupportedLanguage::Go => self.go,
            SupportedLanguage::Python => self.python,
            SupportedLanguage::TypeScript => self.typescript,
            SupportedLanguage::JavaScript => self.javascript,
            SupportedLanguage::Rust => self.rust,
        }
    }

    /// The number of files counted for `l`.
    #[verifier::when_used_as_spec(spec_count)]
    pub fn count(&self, l: SupportedLanguage) -> (r: usize)
        ensures
            r == self.spec_count(l),
    {
        match l {
            SupportedLanguage::Go => self.go,
            SupportedLanguage::Python => self.python,
            SupportedLanguage::TypeScript => self.typescript,
            SupportedLanguage::JavaScript => self.javascript,
            SupportedLanguage::Rust => self.rust,
        }
    }

    /// Counts one more file of language `l`.
    pub fn increment(&mut self, l: SupportedLanguage)
        requires
            old(self).spec_count(l) < usize::MAX,
        ensures
            forall|k: SupportedLanguage| #[trigger] final(self).spec_count(k) == old(self).spec_count(k) + if k == l { 1int } else { 0int },
    {
        match l {
            SupportedLanguage::Go => self.go = self.go + 1,
            SupportedLanguage::Python => self.python = self.python + 1,
            SupportedLanguage::TypeScript => self.typescript = self.typescript + 1,
            SupportedLanguage::JavaScript => self.javascript = self.javascript + 1,
            SupportedLanguage::Rust => self.rust = self.rust + 1,
        }
    }
}

/// The project-wide result, or the partial result of one file.
#[derive(Debug, Clone)]
pub struct AnalysisResult {
    pub naming: NamingConvention,
    pub di: DIAnalysis,
    pub testing: TestingAnalysis,
    pub config: ConfigAnalysis,
    pub security: SecurityAnalysis,
    pub error_handling: ErrorHandlingAnalysis,
    pub design_patterns: DesignPatternAnalysis,
    pub architecture: ArchitectureAnalysis,
    pub tech_stack: TechStack,
    pub dry: DRYAnalysis,
    pub language_counts: LanguageCounts,
    pub llm_summary: Option<String>,
}

impl AnalysisResult {
    /// No label list holds a label twice.
    pub open spec fn wf(&self) -> bool {
        &&& strs(self.di.injection_patterns@).no_duplicates()
        &&& strs(self.di.global_state_usage@).no_duplicates()
        &&& strs(self.config.config_sources@).no_duplicates()
        &&& strs(self.security.hardcoded_secrets@).no_duplicates()
        &&& strs(self.error_handling.failure_patterns@).no_duplicates()
        &&& strs(self.design_patterns.patterns@).no_duplicates()
        &&& strs(self.architecture.layers@).no_duplicates()
        &&& strs(self.architecture.modules@).no_duplicates()
        &&& strs(self.tech_stack.frameworks@).no_duplicates()
        &&& strs(self.tech_stack.libraries@).no_duplicates()
        &&& strs(self.tech_stack.databases@).no_duplicates()
        &&& strs(self.tech_stack.build_tools@).no_duplicates()
    }

    /// Nothing has been found yet.
    pub open spec fn is_empty(&self) -> bool {
        &&& self.naming.variable_casing == Casing::Unknown
        &&& self.naming.function_casing == Casing::Unknown
        &&& self.naming.class_struct_naming == Casing::Unknown
        &&& self.naming.file_naming == Casing::Unknown
        &&& self.naming.comment_style@.len() == 0
        &&& self.naming.interface_prefix is None
        &&& self.naming.struct_suffix is None
        &&& self.di.injection_patterns@.len() == 0
        &&& self.di.abstraction_level == 0
        &&& self.di.global_state_usage@.len() == 0
        &&& self.testing.test_location@.len() == 0
        &&& self.testing.mocking_strategy@.len() == 0
        &&& self.testing.naming_pattern@.len() == 0
        &&& self.testing.assertion_style@.len() == 0
        &&& self.config.config_sources@.len() == 0
        &&& self.config.type_safety@.len() == 0
        &&& self.config.secret_handling@.len() == 0
        &&& self.security.hardcoded_secrets@.len() == 0
        &&& self.security.input_sanitization@.len() == 0
        &&& self.security.memory_safety@.len() == 0
        &&& self.security.concurrency_safety@.len() == 0
        &&& self.error_handling.failure_patterns@.len() == 0
        &&& self.error_handling.logging_consistency@.len() == 0
        &&& self.design_patterns.patterns@.len() == 0
        &&& self.architecture.pattern@.len() == 0
        &&& self.architecture.layers@.len() == 0
        &&& self.architecture.modules@.len() == 0
        &&& self.tech_stack.frameworks@.len() == 0
        &&& self.tech_stack.libraries@.len() == 0
        &&& self.tech_stack.databases@.len() == 0
        &&& self.tech_stack.build_tools@.len() == 0
        &&& self.dry.duplicated_blocks@.len() == 0
        &&& self.dry.duplication_score_tenths == 0
        &&& self.language_counts == LanguageCounts { go: 0, python: 0, typescript: 0, javascript: 0, rust: 0 }
        &&& self.llm_summary is None
    }
}

impl Default for AnalysisResult {
    fn default() -> (r: AnalysisResult)
        ensures
            r.is_empty(),
            r.wf(),
    {
        let r = AnalysisResult {
            naming: NamingConvention {
                variable_casing: Casing::Unknown,
                function_casing: Casing::Unknown,
                class_struct_naming: Casing::Unknown,
                file_naming: Casing::Unknown,
                comment_style: String::new(),
                interface_prefix: None,
                struct_suffix: None,
            },
            di: DIAnalysis {
                injection_patterns: Vec::new(),
                abstraction_level: 0,
                global_state_usage: Vec::new(),
            },
            testing: TestingAnalysis {
                test_location: String::new(),
                mocking_strategy: String::new(),
                naming_pattern: String::new(),
                assertion_style: String::new(),
            },
            config: ConfigAnalysis {
                config_sources: Vec::new(),
                type_safety: String::new(),
                secret_handling: String::new(),
            },
            security: SecurityAnalysis {
                hardcoded_secrets: Vec::new(),
                input_sanitization: String::new(),
                memory_safety: String::new(),
                concurrency_safety: String::new(),
            },
            error_handling: ErrorHandlingAnalysis {
                failure_patterns: Vec::new(),
                logging_consistency: String::new(),
            },
            design_patterns: DesignPatternAnalysis { patterns: Vec::new() },
            architecture: ArchitectureAnalysis {
                pattern: String::new(),
                layers: Vec::new(),
                modules: Vec::new(),
            },
            tech_stack: TechStack {
                frameworks: Vec::new(),
                libraries: Vec::new(),
                databases: Vec::new(),
                build_tools: Vec::new(),
            },
            dry: DRYAnalysis { duplicated_blocks: Vec::new(), duplication_score_tenths: 0 },
            language_counts: LanguageCounts { go: 0, python: 0, typescript: 0, javascript: 0, rust: 0 },
            llm_summary: None,
        };
        assert(strs(r.di.injection_patterns@) =~= Seq::empty());
        r
    }
}

} // verus!

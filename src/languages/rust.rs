//! Rust: naming, technologies and error handling.
use vstd::prelude::*;
use crate::labels::{insert_all, label_if, lemma_insert_all, lemma_insert_all_append, push_label_if};
use crate::languages::{
    lemma_prefix_of_self, lemma_settle_keeps, collect_labels, hit_if, lemma_collect_step, record_tech, settle_casing, settle_naming, tech_names,
    table_hits, LanguageAnalyzer, TechCategory, TechHits, TechTable,
};
use crate::rules::AnalysisResult;
use crate::rules::error_handling::ErrorHandlingAnalysis;
use crate::rules::naming::NamingConvention;
use crate::rules::tech_stack::TechStack;
use crate::parser::SupportedLanguage;
use crate::syntax::{flatten, found, query_matches, Capture, SourceTree};
use crate::text::{has_substring, str_contains, str_eq, strs};

verus! {

pub struct RustAnalyzer;

pub const NAMING_QUERY: &'static str = "
    (function_item name: (identifier) @func_name)
    (struct_item name: (type_identifier) @class_name)
    (enum_item name: (type_identifier) @class_name)
    (let_declaration pattern: (identifier) @var_name)
    (const_item name: (identifier) @const_name)
";

pub const USE_QUERY: &'static str = "(use_declaration argument: (_) @import_source)";

pub const ERROR_QUERY: &'static str = "
    (enum_variant name: (identifier) @variant_name)
    (call_expression function: (identifier) @call_name)
    (macro_invocation macro: (identifier) @call_name)
";

/// The technologies that a `use` tree mentions, in table order.
pub open spec fn use_tech(t: Seq<char>) -> Seq<(TechCategory, Seq<char>)> {
    hit_if(has_substring(t, "tokio"@), TechCategory::Library, "Tokio"@)
        + hit_if(has_substring(t, "serde"@), TechCategory::Library, "Serde"@)
        + hit_if(has_substring(t, "reqwest"@), TechCategory::Library, "Reqwest"@)
        + hit_if(has_substring(t, "anyhow"@), TechCategory::Library, "Anyhow"@)
        + hit_if(has_substring(t, "thiserror"@), TechCategory::Library, "thiserror"@)
        + hit_if(has_substring(t, "clap"@), TechCategory::Library, "Clap"@)
        + hit_if(has_substring(t, "axum"@), TechCategory::Framework, "Axum"@)
        + hit_if(has_substring(t, "actix_web"@), TechCategory::Framework, "Actix-web"@)
        + hit_if(has_substring(t, "sqlx"@), TechCategory::Database, "sqlx"@)
        + hit_if(has_substring(t, "diesel"@), TechCategory::Database, "Diesel"@)
}

/// The technologies of one capture.
pub open spec fn use_hits(c: Capture) -> Seq<(TechCategory, Seq<char>)> {
    if c.name@ == "import_source"@ {
        use_tech(c.text@)
    } else {
        Seq::empty()
    }
}

/// The error-handling labels of one capture: enum variants named `Result`
/// or `Option`, and calls of a function or macro whose name holds `panic`.
pub open spec fn error_labels(c: Capture) -> Seq<Seq<char>> {
    label_if(c.name@ == "variant_name"@ && c.text@ == "Result"@, "Monadic (Result)"@)
        + label_if(c.name@ == "variant_name"@ && c.text@ == "Option"@, "Monadic (Option)"@)
        + label_if(c.name@ == "call_name"@ && has_substring(c.text@, "panic"@), "panic!()"@)
}

pub fn use_hits_of(c: &Capture) -> (r: TechHits)
    ensures
        r.holds(use_hits(*c)),
{
    let mut h = TechHits::none();
    if str_eq(c.name.as_str(), "import_source") {
        let t = c.text.as_str();
        let ghost e = Seq::<(TechCategory, Seq<char>)>::empty();
        h.add_if(str_contains(t, "tokio"), TechCategory::Library, "Tokio");
        h.add_if(str_contains(t, "serde"), TechCategory::Library, "Serde");
        h.add_if(str_contains(t, "reqwest"), TechCategory::Library, "Reqwest");
        h.add_if(str_contains(t, "anyhow"), TechCategory::Library, "Anyhow");
        h.add_if(str_contains(t, "thiserror"), TechCategory::Library, "thiserror");
        h.add_if(str_contains(t, "clap"), TechCategory::Library, "Clap");
        h.add_if(str_contains(t, "axum"), TechCategory::Framework, "Axum");
        h.add_if(str_contains(t, "actix_web"), TechCategory::Framework, "Actix-web");
        h.add_if(str_contains(t, "sqlx"), TechCategory::Database, "sqlx");
        h.add_if(str_contains(t, "diesel"), TechCategory::Database, "Diesel");
        assert(e + hit_if(has_substring(t@, "tokio"@), TechCategory::Library, "Tokio"@) =~= hit_if(has_substring(t@, "tokio"@), TechCategory::Library, "Tokio"@));
    }
    h
}

impl RustAnalyzer {
    /// Settles the function, type and variable casings from the captures of
    /// the naming query, first writer winning on each axis.
    pub fn naming_from_captures(caps: &Vec<Capture>, naming: &mut NamingConvention)
        ensures
            final(naming).function_casing == settle_casing(old(naming).function_casing, caps@, |n: Seq<char>| n == "func_name"@),
            final(naming).class_struct_naming == settle_casing(old(naming).class_struct_naming, caps@, |n: Seq<char>| n == "class_name"@),
            final(naming).variable_casing == settle_casing(old(naming).variable_casing, caps@, |n: Seq<char>| n == "var_name"@),
            final(naming).interface_prefix == old(naming).interface_prefix,
            final(naming).file_naming == old(naming).file_naming,
            final(naming).comment_style == old(naming).comment_style,
            final(naming).struct_suffix == old(naming).struct_suffix,
    {
        settle_naming(caps, naming);
    }

    /// Adds the technologies that the `use` declarations mention.
    pub fn tech_stack_from_captures(caps: &Vec<Capture>, stack: &mut TechStack)
        ensures
            strs(final(stack).frameworks@) == insert_all(strs(old(stack).frameworks@), tech_names(caps@, |c: Capture| use_hits(c), TechCategory::Framework)),
            strs(final(stack).libraries@) == insert_all(strs(old(stack).libraries@), tech_names(caps@, |c: Capture| use_hits(c), TechCategory::Library)),
            strs(final(stack).databases@) == insert_all(strs(old(stack).databases@), tech_names(caps@, |c: Capture| use_hits(c), TechCategory::Database)),
            final(stack).build_tools == old(stack).build_tools,
    {
        record_tech(TechTable::Rust, caps, stack);
        proof {
            let f = |c: Capture| use_hits(c);
            let g = |c: Capture| table_hits(TechTable::Rust, c);
            assert(f =~= g);
        }
    }

    /// Adds the error-handling labels of the captures of the error query.
    pub fn error_handling_from_captures(caps: &Vec<Capture>, eh: &mut ErrorHandlingAnalysis)
        ensures
            strs(final(eh).failure_patterns@) == insert_all(strs(old(eh).failure_patterns@), collect_labels(caps@, |c: Capture| error_labels(c))),
            final(eh).logging_consistency == old(eh).logging_consistency,
    {
        let ghost start = strs(eh.failure_patterns@);
        let mut i: usize = 0;
        while i < caps.len()
            invariant
                i <= caps.len(),
                strs(eh.failure_patterns@) == insert_all(start, collect_labels(caps@.take(i as int), |c: Capture| error_labels(c))),
                eh.logging_consistency == old(eh).logging_consistency,
            decreases caps.len() - i,
        {
            let c = &caps[i];
            let ghost before = strs(eh.failure_patterns@);
            proof {
                lemma_collect_step(start, caps@, i as int, |c: Capture| error_labels(c));
            }
            let variant = str_eq(c.name.as_str(), "variant_name");
            let result = variant && str_eq(c.text.as_str(), "Result");
            let option = variant && str_eq(c.text.as_str(), "Option");
            let panics = str_eq(c.name.as_str(), "call_name") && str_contains(c.text.as_str(), "panic");
            let ghost a = label_if(result, "Monadic (Result)"@);
            let ghost b = label_if(option, "Monadic (Option)"@);
            let ghost d = label_if(panics, "panic!()"@);
            push_label_if(&mut eh.failure_patterns, result, "Monadic (Result)");
            push_label_if(&mut eh.failure_patterns, option, "Monadic (Option)");
            proof {
                lemma_insert_all_append(before, a, b);
            }
            push_label_if(&mut eh.failure_patterns, panics, "panic!()");
            proof {
                lemma_insert_all_append(before, a + b, d);
            }
            i += 1;
        }
        assert(caps@.take(caps.len() as int) =~= caps@);
    }
}

/// What the Rust analyzer does to a result: each pass applied to the
/// captures of its query on the tree of `source` in `language`.
pub open spec fn rust_effect(language: SupportedLanguage, source: Seq<char>, old: AnalysisResult, new: AnalysisResult) -> bool {
    let names = found(language, source, NAMING_QUERY@);
    let uses = found(language, source, USE_QUERY@);
    let errors = found(language, source, ERROR_QUERY@);
    &&& new.naming.function_casing == settle_casing(old.naming.function_casing, names, |n: Seq<char>| n == "func_name"@)
    &&& new.naming.class_struct_naming == settle_casing(old.naming.class_struct_naming, names, |n: Seq<char>| n == "class_name"@)
    &&& new.naming.variable_casing == settle_casing(old.naming.variable_casing, names, |n: Seq<char>| n == "var_name"@)
    &&& new.naming.interface_prefix == old.naming.interface_prefix
    &&& new.naming.file_naming == old.naming.file_naming
    &&& new.naming.comment_style == old.naming.comment_style
    &&& new.naming.struct_suffix == old.naming.struct_suffix
    &&& strs(new.tech_stack.frameworks@) == insert_all(strs(old.tech_stack.frameworks@), tech_names(uses, |c: Capture| use_hits(c), TechCategory::Framework))
    &&& strs(new.tech_stack.libraries@) == insert_all(strs(old.tech_stack.libraries@), tech_names(uses, |c: Capture| use_hits(c), TechCategory::Library))
    &&& strs(new.tech_stack.databases@) == insert_all(strs(old.tech_stack.databases@), tech_names(uses, |c: Capture| use_hits(c), TechCategory::Database))
    &&& new.tech_stack.build_tools == old.tech_stack.build_tools
    &&& strs(new.error_handling.failure_patterns@) == insert_all(strs(old.error_handling.failure_patterns@), collect_labels(errors, |c: Capture| error_labels(c)))
    &&& new.error_handling.logging_consistency == old.error_handling.logging_consistency
    &&& new.dry == old.dry
    &&& new.di == old.di
    &&& new.design_patterns == old.design_patterns
    &&& new.testing == old.testing
    &&& new.architecture == old.architecture
    &&& new.config == old.config
    &&& new.security == old.security
    &&& new.language_counts == old.language_counts
    &&& new.llm_summary == old.llm_summary
}

impl LanguageAnalyzer for RustAnalyzer {
    open spec fn effect(&self, language: SupportedLanguage, source: Seq<char>, old: AnalysisResult, new: AnalysisResult) -> bool {
        rust_effect(language, source, old, new)
    }

    fn analyze(&self, tree: &SourceTree, result: &mut AnalysisResult) {
        let names = flatten(&query_matches(tree, NAMING_QUERY));
        Self::naming_from_captures(&names, &mut result.naming);
        let uses = flatten(&query_matches(tree, USE_QUERY));
        Self::tech_stack_from_captures(&uses, &mut result.tech_stack);
        let errors = flatten(&query_matches(tree, ERROR_QUERY));
        Self::error_handling_from_captures(&errors, &mut result.error_handling);
        proof {
            lemma_settle_keeps(old(result).naming.function_casing, names@, |n: Seq<char>| n == "func_name"@);
            lemma_settle_keeps(old(result).naming.class_struct_naming, names@, |n: Seq<char>| n == "class_name"@);
            lemma_settle_keeps(old(result).naming.variable_casing, names@, |n: Seq<char>| n == "var_name"@);
            lemma_prefix_of_self(strs(old(result).di.injection_patterns@));
            lemma_prefix_of_self(strs(old(result).design_patterns.patterns@));
            lemma_prefix_of_self(strs(old(result).dry.duplicated_blocks@));
            lemma_insert_all(strs(old(result).tech_stack.frameworks@), tech_names(uses@, |c: Capture| use_hits(c), TechCategory::Framework));
            lemma_insert_all(strs(old(result).tech_stack.libraries@), tech_names(uses@, |c: Capture| use_hits(c), TechCategory::Library));
            lemma_insert_all(strs(old(result).tech_stack.databases@), tech_names(uses@, |c: Capture| use_hits(c), TechCategory::Database));
            lemma_insert_all(strs(old(result).error_handling.failure_patterns@), collect_labels(errors@, |c: Capture| error_labels(c)));
        }
    }
}

} // verus!

//! Python: naming, technologies and repeated literals.
use vstd::prelude::*;
use crate::labels::{insert_all, lemma_insert_all};
use crate::languages::{
    lemma_prefix_of_append, lemma_prefix_of_self, lemma_settle_keeps, extra_occurrences, hit_if, long_literals, record_tech, settle_casing, settle_naming, tally,
    tech_names, table_hits, LanguageAnalyzer, TechCategory, TechHits, TechTable,
};
use crate::languages::dry::{dry_blocks, record_duplicates};
use crate::rules::AnalysisResult;
use crate::rules::dry::DRYAnalysis;
use crate::rules::naming::NamingConvention;
use crate::rules::tech_stack::TechStack;
use crate::parser::SupportedLanguage;
use crate::syntax::{flatten, found, query_matches, Capture, SourceTree};
use crate::text::{str_eq, strs};

verus! {

pub struct PythonAnalyzer;

pub const NAMING_QUERY: &'static str = "
    (function_definition name: (identifier) @func_name)
    (class_definition name: (identifier) @class_name)
    (assignment left: (identifier) @var_name)
";

pub const IMPORT_QUERY: &'static str = "
    (import_from_statement (dotted_name) @module_name)
    (import_statement (dotted_name) @module_name)
";

pub const STRING_QUERY: &'static str = "(string) @string";

/// The technology of an imported module, by its exact name.
pub open spec fn module_tech(m: Seq<char>) -> Seq<(TechCategory, Seq<char>)> {
    hit_if(m == "django"@, TechCategory::Framework, "Django"@)
        + hit_if(m == "flask"@, TechCategory::Framework, "Flask"@)
        + hit_if(m == "fastapi"@, TechCategory::Framework, "FastAPI"@)
        + hit_if(m == "sqlalchemy"@, TechCategory::Database, "SQLAlchemy"@)
        + hit_if(m == "pandas"@, TechCategory::Library, "Pandas"@)
        + hit_if(m == "numpy"@, TechCategory::Library, "NumPy"@)
        + hit_if(m == "pytest"@, TechCategory::Library, "pytest"@)
}

/// The technologies of one capture.
pub open spec fn module_hits(c: Capture) -> Seq<(TechCategory, Seq<char>)> {
    if c.name@ == "module_name"@ {
        module_tech(c.text@)
    } else {
        Seq::empty()
    }
}

pub fn module_hits_of(c: &Capture) -> (r: TechHits)
    ensures
        r.holds(module_hits(*c)),
{
    let mut h = TechHits::none();
    if str_eq(c.name.as_str(), "module_name") {
        let m = c.text.as_str();
        let ghost e = Seq::<(TechCategory, Seq<char>)>::empty();
        h.add_if(str_eq(m, "django"), TechCategory::Framework, "Django");
        h.add_if(str_eq(m, "flask"), TechCategory::Framework, "Flask");
        h.add_if(str_eq(m, "fastapi"), TechCategory::Framework, "FastAPI");
        h.add_if(str_eq(m, "sqlalchemy"), TechCategory::Database, "SQLAlchemy");
        h.add_if(str_eq(m, "pandas"), TechCategory::Library, "Pandas");
        h.add_if(str_eq(m, "numpy"), TechCategory::Library, "NumPy");
        h.add_if(str_eq(m, "pytest"), TechCategory::Library, "pytest");
        assert(e + hit_if(m@ == "django"@, TechCategory::Framework, "Django"@) =~= hit_if(m@ == "django"@, TechCategory::Framework, "Django"@));
    }
    h
}

impl PythonAnalyzer {
    /// Settles the function, class and variable casings from the captures
    /// of the naming query, first writer winning on each axis.
    pub fn naming_from_captures(caps: &Vec<Capture>, naming: &mut NamingConvention)
        ensures
            final(naming).function_casing == settle_casing(old(naming).function_casing, caps@, |n: Seq<char>| n == "func_name"@),
            final(naming).class_struct_naming == settle_casing(old(naming).class_struct_naming, caps@, |n: Seq<char>| n == "class_name"@),
            final(naming).variable_casing == settle_casing(old(naming).variable_casing, caps@, |n: Seq<char>| n == "var_name"@),
            final(naming).interface_prefix == old(naming).interface_prefix,
            final(naming).file_naming == old(naming).file_naming,
            final(naming).comment_style == old(naming).comment_style,
            final(naming).struct_suffix == old(naming).struct_suffix,
    {
        settle_naming(caps, naming);
    }

    /// Adds the technologies that the imported module names name.
    pub fn tech_stack_from_captures(caps: &Vec<Capture>, stack: &mut TechStack)
        ensures
            strs(final(stack).frameworks@) == insert_all(strs(old(stack).frameworks@), tech_names(caps@, |c: Capture| module_hits(c), TechCategory::Framework)),
            strs(final(stack).libraries@) == insert_all(strs(old(stack).libraries@), tech_names(caps@, |c: Capture| module_hits(c), TechCategory::Library)),
            strs(final(stack).databases@) == insert_all(strs(old(stack).databases@), tech_names(caps@, |c: Capture| module_hits(c), TechCategory::Database)),
            final(stack).build_tools == old(stack).build_tools,
    {
        record_tech(TechTable::Python, caps, stack);
        proof {
            let f = |c: Capture| module_hits(c);
            let g = |c: Capture| table_hits(TechTable::Python, c);
            assert(f =~= g);
        }
    }

    /// Records each string literal longer than ten characters that occurs
    /// more than once, adding one tenth per extra occurrence (saturating).
    pub fn dry_from_captures(caps: &Vec<Capture>, dry: &mut DRYAnalysis)
        ensures
            strs(final(dry).duplicated_blocks@) == strs(old(dry).duplicated_blocks@) + dry_blocks(tally(long_literals(caps@, "string"@))),
            final(dry).duplication_score_tenths == if old(dry).duplication_score_tenths + extra_occurrences(tally(long_literals(caps@, "string"@))) > u64::MAX {
                u64::MAX as int
            } else {
                old(dry).duplication_score_tenths + extra_occurrences(tally(long_literals(caps@, "string"@)))
            },
    {
        record_duplicates(caps, "string", dry);
    }
}

/// What the Python analyzer does to a result: each pass applied to the
/// captures of its query on the tree of `source` in `language`.
pub open spec fn python_effect(language: SupportedLanguage, source: Seq<char>, old: AnalysisResult, new: AnalysisResult) -> bool {
    let names = found(language, source, NAMING_QUERY@);
    let imports = found(language, source, IMPORT_QUERY@);
    let strings = found(language, source, STRING_QUERY@);
    let extra = extra_occurrences(tally(long_literals(strings, "string"@)));
    &&& new.naming.function_casing == settle_casing(old.naming.function_casing, names, |n: Seq<char>| n == "func_name"@)
    &&& new.naming.class_struct_naming == settle_casing(old.naming.class_struct_naming, names, |n: Seq<char>| n == "class_name"@)
    &&& new.naming.variable_casing == settle_casing(old.naming.variable_casing, names, |n: Seq<char>| n == "var_name"@)
    &&& new.naming.interface_prefix == old.naming.interface_prefix
    &&& new.naming.file_naming == old.naming.file_naming
    &&& new.naming.comment_style == old.naming.comment_style
    &&& new.naming.struct_suffix == old.naming.struct_suffix
    &&& strs(new.tech_stack.frameworks@) == insert_all(strs(old.tech_stack.frameworks@), tech_names(imports, |c: Capture| module_hits(c), TechCategory::Framework))
    &&& strs(new.tech_stack.libraries@) == insert_all(strs(old.tech_stack.libraries@), tech_names(imports, |c: Capture| module_hits(c), TechCategory::Library))
    &&& strs(new.tech_stack.databases@) == insert_all(strs(old.tech_stack.databases@), tech_names(imports, |c: Capture| module_hits(c), TechCategory::Database))
    &&& new.tech_stack.build_tools == old.tech_stack.build_tools
    &&& strs(new.dry.duplicated_blocks@) == strs(old.dry.duplicated_blocks@) + dry_blocks(tally(long_literals(strings, "string"@)))
    &&& new.dry.duplication_score_tenths == if old.dry.duplication_score_tenths + extra > u64::MAX {
        u64::MAX as int
    } else {
        old.dry.duplication_score_tenths + extra
    }
    &&& new.di == old.di
    &&& new.error_handling == old.error_handling
    &&& new.design_patterns == old.design_patterns
    &&& new.testing == old.testing
    &&& new.architecture == old.architecture
    &&& new.config == old.config
    &&& new.security == old.security
    &&& new.language_counts == old.language_counts
    &&& new.llm_summary == old.llm_summary
}

impl LanguageAnalyzer for PythonAnalyzer {
    open spec fn effect(&self, language: SupportedLanguage, source: Seq<char>, old: AnalysisResult, new: AnalysisResult) -> bool {
        python_effect(language, source, old, new)
    }

    fn analyze(&self, tree: &SourceTree, result: &mut AnalysisResult) {
        let names = flatten(&query_matches(tree, NAMING_QUERY));
        Self::naming_from_captures(&names, &mut result.naming);
        let imports = flatten(&query_matches(tree, IMPORT_QUERY));
        Self::tech_stack_from_captures(&imports, &mut result.tech_stack);
        let strings = flatten(&query_matches(tree, STRING_QUERY));
        Self::dry_from_captures(&strings, &mut result.dry);
        proof {
            lemma_settle_keeps(old(result).naming.function_casing, names@, |n: Seq<char>| n == "func_name"@);
            lemma_settle_keeps(old(result).naming.class_struct_naming, names@, |n: Seq<char>| n == "class_name"@);
            lemma_settle_keeps(old(result).naming.variable_casing, names@, |n: Seq<char>| n == "var_name"@);
            lemma_prefix_of_append(strs(old(result).dry.duplicated_blocks@), dry_blocks(tally(long_literals(strings@, "string"@))));
            lemma_prefix_of_self(strs(old(result).di.injection_patterns@));
            lemma_prefix_of_self(strs(old(result).error_handling.failure_patterns@));
            lemma_prefix_of_self(strs(old(result).design_patterns.patterns@));
            lemma_insert_all(strs(old(result).tech_stack.frameworks@), tech_names(imports@, |c: Capture| module_hits(c), TechCategory::Framework));
            lemma_insert_all(strs(old(result).tech_stack.libraries@), tech_names(imports@, |c: Capture| module_hits(c), TechCategory::Library));
            lemma_insert_all(strs(old(result).tech_stack.databases@), tech_names(imports@, |c: Capture| module_hits(c), TechCategory::Database));
        }
    }
}

} // verus!

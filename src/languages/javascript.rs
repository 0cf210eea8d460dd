//! JavaScript and TypeScript: naming and technologies.
use vstd::prelude::*;
use crate::labels::{insert_all, lemma_insert_all};
use crate::languages::{
    lemma_prefix_of_self, lemma_settle_keeps, hit_if, record_tech, settle_casing, settle_naming, strip_quotes, tech_names, table_hits, trim_quotes,
    LanguageAnalyzer, TechCategory, TechHits, TechTable,
};
use crate::rules::AnalysisResult;
use crate::rules::naming::NamingConvention;
use crate::rules::tech_stack::TechStack;
use crate::parser::SupportedLanguage;
use crate::syntax::{flatten, flatten_matches, found, query_captures, query_matches, Capture, SourceTree};
use crate::text::{has_substring, str_contains, str_eq, strs};

verus! {

pub struct JavaScriptAnalyzer;

pub const NAMING_QUERY: &'static str = "
    (function_declaration (identifier) @func_name)
    (method_definition (property_identifier) @func_name)
    (class_declaration (type_identifier) @class_name)
    (variable_declarator (identifier) @var_name)
";

pub const IMPORT_QUERY: &'static str = "
    (import_statement source: (string) @import_source)
    (call_expression function: (identifier) @func_name arguments: (arguments (string) @import_source))
";

/// The technology of an imported module, by its exact name.
pub open spec fn source_tech(s: Seq<char>) -> Seq<(TechCategory, Seq<char>)> {
    hit_if(s == "express"@, TechCategory::Framework, "Express"@)
        + hit_if(s == "next"@, TechCategory::Framework, "Next.js"@)
        + hit_if(s == "react"@, TechCategory::Library, "React"@)
        + hit_if(s == "vue"@, TechCategory::Library, "Vue"@)
        + hit_if(s == "mongoose"@, TechCategory::Database, "Mongoose"@)
        + hit_if(s == "prisma"@, TechCategory::Database, "Prisma"@)
        + hit_if(s == "axios"@, TechCategory::Library, "Axios"@)
        + hit_if(s == "jest"@, TechCategory::Library, "Jest"@)
}

/// The technologies of one capture: the module that an import source names,
/// once its quotes are stripped.
pub open spec fn source_hits(c: Capture) -> Seq<(TechCategory, Seq<char>)> {
    if c.name@ == "import_source"@ {
        source_tech(trim_quotes(c.text@))
    } else {
        Seq::empty()
    }
}

/// A match counts unless it calls a function whose name lacks `require`.
pub open spec fn admits(m: Seq<Capture>) -> bool {
    forall|i: int| 0 <= i < m.len() && (#[trigger] m[i]).name@ == "func_name"@ ==> has_substring(m[i].text@, "require"@)
}

/// The matches that count, in order.
pub open spec fn admitted(ms: Seq<Seq<Capture>>) -> Seq<Seq<Capture>>
    decreases ms.len(),
{
    if ms.len() == 0 {
        Seq::empty()
    } else if admits(ms.last()) {
        admitted(ms.drop_last()).push(ms.last())
    } else {
        admitted(ms.drop_last())
    }
}

pub fn source_hits_of(c: &Capture) -> (r: TechHits)
    ensures
        r.holds(source_hits(*c)),
{
    let mut h = TechHits::none();
    if str_eq(c.name.as_str(), "import_source") {
        let s = strip_quotes(c.text.as_str());
        let ghost e = Seq::<(TechCategory, Seq<char>)>::empty();
        h.add_if(str_eq(s, "express"), TechCategory::Framework, "Express");
        h.add_if(str_eq(s, "next"), TechCategory::Framework, "Next.js");
        h.add_if(str_eq(s, "react"), TechCategory::Library, "React");
        h.add_if(str_eq(s, "vue"), TechCategory::Library, "Vue");
        h.add_if(str_eq(s, "mongoose"), TechCategory::Database, "Mongoose");
        h.add_if(str_eq(s, "prisma"), TechCategory::Database, "Prisma");
        h.add_if(str_eq(s, "axios"), TechCategory::Library, "Axios");
        h.add_if(str_eq(s, "jest"), TechCategory::Library, "Jest");
        assert(e + hit_if(s@ == "express"@, TechCategory::Framework, "Express"@) =~= hit_if(s@ == "express"@, TechCategory::Framework, "Express"@));
    }
    h
}

/// Whether a match counts.
fn admits_exec(m: &Vec<Capture>) -> (r: bool)
    ensures
        r == admits(m@),
{
    let mut i: usize = 0;
    while i < m.len()
        invariant
            i <= m.len(),
            forall|k: int| 0 <= k < i && (#[trigger] m@[k]).name@ == "func_name"@ ==> has_substring(m@[k].text@, "require"@),
        decreases m.len() - i,
    {
        if str_eq(m[i].name.as_str(), "func_name") && !str_contains(m[i].text.as_str(), "require") {
            return false;
        }
        i += 1;
    }
    true
}

/// The captures of the matches that count, one match after another.
pub fn admitted_captures(ms: &Vec<Vec<Capture>>) -> (r: Vec<Capture>)
    ensures
        r@ == flatten_matches(admitted(ms@.map_values(|m: Vec<Capture>| m@))),
{
    let ghost mv = ms@.map_values(|m: Vec<Capture>| m@);
    let mut r: Vec<Capture> = Vec::new();
    let mut i: usize = 0;
    while i < ms.len()
        invariant
            i <= ms.len(),
            mv == ms@.map_values(|m: Vec<Capture>| m@),
            r@ == flatten_matches(admitted(mv.take(i as int))),
        decreases ms.len() - i,
    {
        let m = &ms[i];
        proof {
            assert(mv.take(i as int + 1).drop_last() =~= mv.take(i as int));
            assert(mv.take(i as int + 1).last() == m@);
        }
        if admits_exec(m) {
            let ghost before = r@;
            let mut j: usize = 0;
            while j < m.len()
                invariant
                    j <= m.len(),
                    r@ == before + m@.take(j as int),
                decreases m.len() - j,
            {
                r.push(m[j].duplicate());
                proof {
                    assert(m@.take(j as int + 1) =~= m@.take(j as int).push(m@[j as int]));
                }
                j += 1;
            }
            proof {
                assert(m@.take(m.len() as int) =~= m@);
                let a = admitted(mv.take(i as int + 1));
                assert(a.drop_last() =~= admitted(mv.take(i as int)));
            }
        }
        i += 1;
    }
    assert(mv.take(ms.len() as int) =~= mv);
    r
}

impl JavaScriptAnalyzer {
    /// Settles the function, class and variable casings from the captures
    /// of the naming query, first writer winning on each axis.
    pub fn naming_from_captures(caps: &Vec<Capture>, naming: &mut NamingConvention)
        ensures
            final(naming).function_casing == settle_casing(old(naming).function_casing, caps@, |n: Seq<char>| n == "func_name"@),
            final(naming).class_struct_naming == settle_casing(old(naming).class_struct_naming, caps@, |n: Seq<char>| n == "class_name"@),
            final(naming).variable_casing == settle_casing(old(naming).variable_casing, caps@, |n: Seq<char>| n == "var_name"@),
            final(naming).interface_prefix == old(naming).interface_prefix,
            final(naming).file_naming == old(naming).file_naming,
            final(naming).comment_style == old(naming).comment_style,
            final(naming).struct_suffix == old(naming).struct_suffix,
    {
        settle_naming(caps, naming);
    }

    /// Adds the technologies that `import` statements and `require` calls
    /// name; a call whose function name lacks `require` is skipped.
    pub fn tech_stack_from_matches(ms: &Vec<Vec<Capture>>, stack: &mut TechStack)
        ensures
            strs(final(stack).frameworks@) == insert_all(strs(old(stack).frameworks@), tech_names(flatten_matches(admitted(ms@.map_values(|m: Vec<Capture>| m@))), |c: Capture| source_hits(c), TechCategory::Framework)),
            strs(final(stack).libraries@) == insert_all(strs(old(stack).libraries@), tech_names(flatten_matches(admitted(ms@.map_values(|m: Vec<Capture>| m@))), |c: Capture| source_hits(c), TechCategory::Library)),
            strs(final(stack).databases@) == insert_all(strs(old(stack).databases@), tech_names(flatten_matches(admitted(ms@.map_values(|m: Vec<Capture>| m@))), |c: Capture| source_hits(c), TechCategory::Database)),
            final(stack).build_tools == old(stack).build_tools,
    {
        let caps = admitted_captures(ms);
        record_tech(TechTable::JavaScript, &caps, stack);
        proof {
            let f = |c: Capture| source_hits(c);
            let g = |c: Capture| table_hits(TechTable::JavaScript, c);
            assert(f =~= g);
        }
    }
}

/// What the JavaScript analyzer does to a result: each pass applied to the
/// captures of its query on the tree of `source` in `language`.
pub open spec fn javascript_effect(language: SupportedLanguage, source: Seq<char>, old: AnalysisResult, new: AnalysisResult) -> bool {
    let names = found(language, source, NAMING_QUERY@);
    let imports = flatten_matches(admitted(query_captures(language, source, IMPORT_QUERY@)));
    &&& new.naming.function_casing == settle_casing(old.naming.function_casing, names, |n: Seq<char>| n == "func_name"@)
    &&& new.naming.class_struct_naming == settle_casing(old.naming.class_struct_naming, names, |n: Seq<char>| n == "class_name"@)
    &&& new.naming.variable_casing == settle_casing(old.naming.variable_casing, names, |n: Seq<char>| n == "var_name"@)
    &&& new.naming.interface_prefix == old.naming.interface_prefix
    &&& new.naming.file_naming == old.naming.file_naming
    &&& new.naming.comment_style == old.naming.comment_style
    &&& new.naming.struct_suffix == old.naming.struct_suffix
    &&& strs(new.tech_stack.frameworks@) == insert_all(strs(old.tech_stack.frameworks@), tech_names(imports, |c: Capture| source_hits(c), TechCategory::Framework))
    &&& strs(new.tech_stack.libraries@) == insert_all(strs(old.tech_stack.libraries@), tech_names(imports, |c: Capture| source_hits(c), TechCategory::Library))
    &&& strs(new.tech_stack.databases@) == insert_all(strs(old.tech_stack.databases@), tech_names(imports, |c: Capture| source_hits(c), TechCategory::Database))
    &&& new.tech_stack.build_tools == old.tech_stack.build_tools
    &&& new.dry == old.dry
    &&& new.di == old.di
    &&& new.error_handling == old.error_handling
    &&& new.design_patterns == old.design_patterns
    &&& new.testing == old.testing
    &&& new.architecture == old.architecture
    &&& new.config == old.config
    &&& new.security == old.security
    &&& new.language_counts == old.language_counts
    &&& new.llm_summary == old.llm_summary
}

impl LanguageAnalyzer for JavaScriptAnalyzer {
    open spec fn effect(&self, language: SupportedLanguage, source: Seq<char>, old: AnalysisResult, new: AnalysisResult) -> bool {
        javascript_effect(language, source, old, new)
    }

    fn analyze(&self, tree: &SourceTree, result: &mut AnalysisResult) {
        let names = flatten(&query_matches(tree, NAMING_QUERY));
        Self::naming_from_captures(&names, &mut result.naming);
        let imports = query_matches(tree, IMPORT_QUERY);
        Self::tech_stack_from_matches(&imports, &mut result.tech_stack);
        proof {
            lemma_settle_keeps(old(result).naming.function_casing, names@, |n: Seq<char>| n == "func_name"@);
            lemma_settle_keeps(old(result).naming.class_struct_naming, names@, |n: Seq<char>| n == "class_name"@);
            lemma_settle_keeps(old(result).naming.variable_casing, names@, |n: Seq<char>| n == "var_name"@);
            lemma_prefix_of_self(strs(old(result).di.injection_patterns@));
            lemma_prefix_of_self(strs(old(result).error_handling.failure_patterns@));
            lemma_prefix_of_self(strs(old(result).design_patterns.patterns@));
            lemma_prefix_of_self(strs(old(result).dry.duplicated_blocks@));
            let caps = flatten_matches(admitted(imports@.map_values(|m: Vec<Capture>| m@)));
            lemma_insert_all(strs(old(result).tech_stack.frameworks@), tech_names(caps, |c: Capture| source_hits(c), TechCategory::Framework));
            lemma_insert_all(strs(old(result).tech_stack.libraries@), tech_names(caps, |c: Capture| source_hits(c), TechCategory::Library));
            lemma_insert_all(strs(old(result).tech_stack.databases@), tech_names(caps, |c: Capture| source_hits(c), TechCategory::Database));
        }
    }
}

} // verus!

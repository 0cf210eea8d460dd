//! Go: naming, error handling, dependency injection, design patterns,
//! testing tools, technologies and repeated literals.
use vstd::prelude::*;
use crate::labels::{insert_all, label_if, lemma_insert_all, lemma_insert_all_append, push_label_if};
use crate::languages::{
    lemma_prefix_of_append, lemma_settle_keeps, collect_labels, extra_occurrences, lemma_collect_step, lemma_tech_step, long_literals,
    record_hits, settle, settle_casing, tally, tech_names, LanguageAnalyzer, TechCategory, TechHits,
};
use crate::languages::dry::{dry_blocks, record_duplicates};
use crate::rules::AnalysisResult;
use crate::rules::design_patterns::DesignPatternAnalysis;
use crate::rules::dependency_injection::DIAnalysis;
use crate::rules::dry::DRYAnalysis;
use crate::rules::error_handling::ErrorHandlingAnalysis;
use crate::rules::naming::{char_is_uppercase, has_uppercase_property, is_upper, NamingConvention};
use crate::rules::tech_stack::TechStack;
use crate::rules::testing::TestingAnalysis;
use crate::parser::SupportedLanguage;
use crate::syntax::{flatten, found, query_matches, Capture, SourceTree};
use crate::text::{chars_of, has_prefix, has_substring, str_contains, str_eq, str_starts_with, strs};

verus! {

pub struct GoAnalyzer;

pub const NAMING_QUERY: &'static str = "
    (function_declaration name: (identifier) @func_name)
    (method_declaration name: (field_identifier) @method_name)
    (type_spec name: (type_identifier) @type_name)
    (var_spec name: (identifier) @var_name)
    (short_var_declaration left: (expression_list (identifier) @var_name))
    (type_spec name: (type_identifier) @interface_name type: (interface_type))
";

pub const ERROR_QUERY: &'static str = "
    (if_statement condition: (binary_expression left: (identifier) operator: \"!=\" right: (nil))) @error_check
    (call_expression function: (identifier) @call_name)
";

pub const DECLARATION_QUERY: &'static str = "
    (function_declaration name: (identifier) @func_name)
    (type_spec name: (type_identifier) type: (interface_type)) @interface
";

pub const TESTING_QUERY: &'static str = "
    (import_spec path: (interpreted_string_literal) @import_path)
    (call_expression function: (selector_expression operand: (identifier) @pkg_name))
";

pub const IMPORT_QUERY: &'static str = "(import_spec path: (interpreted_string_literal) @import_path)";

pub const STRING_QUERY: &'static str = "(interpreted_string_literal) @string";

pub open spec fn is_function_capture(n: Seq<char>) -> bool {
    n == "func_name"@ || n == "method_name"@
}

/// An interface named with an `I` and then an uppercase letter.
pub open spec fn has_interface_prefix(s: Seq<char>) -> bool {
    s.len() >= 2 && s[0] == 'I' && has_uppercase_property(s[1])
}

/// Some interface name of the run carries the `I` prefix.
pub open spec fn names_prefixed_interface(caps: Seq<Capture>) -> bool {
    exists|i: int| 0 <= i < caps.len() && caps[i].name@ == "interface_name"@ && has_interface_prefix(caps[i].text@)
}

/// `New` followed by an uppercase letter A to Z.
pub open spec fn is_constructor_name(s: Seq<char>) -> bool {
    has_prefix(s, "New"@) && s.len() > 3 && is_upper(s[3])
}

pub open spec fn is_singleton_getter(s: Seq<char>) -> bool {
    has_substring(s, "GetInstance"@) || has_substring(s, "GetConfig"@) || has_substring(s, "GetDB"@)
}

/// The dependency-injection labels of one capture.
pub open spec fn di_labels(c: Capture) -> Seq<Seq<char>> {
    label_if(c.name@ == "func_name"@ && is_constructor_name(c.text@), "Constructor Injection (NewXXX)"@)
}

/// The design-pattern labels of one capture.
pub open spec fn pattern_labels(c: Capture) -> Seq<Seq<char>> {
    label_if(c.name@ == "func_name"@ && is_constructor_name(c.text@), "Factory Pattern (NewXXX)"@)
        + label_if(c.name@ == "func_name"@ && is_singleton_getter(c.text@), "Potential Singleton (GetInstance)"@)
        + label_if(c.name@ == "interface"@, "Strategy Pattern (via Interfaces)"@)
}

/// The error-handling labels of one capture: a `!= nil` guard, or a call of
/// a function whose name holds `panic`.
pub open spec fn error_labels(c: Capture) -> Seq<Seq<char>> {
    label_if(c.name@ == "error_check"@, "if err != nil"@)
        + label_if(c.name@ == "call_name"@ && has_substring(c.text@, "panic"@), "panic()"@)
}

/// The technology that a Go import path names.
pub open spec fn import_tech(p: Seq<char>) -> Option<(TechCategory, Seq<char>)> {
    if has_substring(p, "github.com/gin-gonic/gin"@) {
        Some((TechCategory::Framework, "Gin"@))
    } else if has_substring(p, "github.com/labstack/echo"@) {
        Some((TechCategory::Framework, "Echo"@))
    } else if has_substring(p, "github.com/gofiber/fiber"@) {
        Some((TechCategory::Framework, "Fiber"@))
    } else if has_substring(p, "gorm.io/gorm"@) {
        Some((TechCategory::Database, "GORM"@))
    } else if has_substring(p, "github.com/jmoiron/sqlx"@) {
        Some((TechCategory::Database, "sqlx"@))
    } else if has_substring(p, "google.golang.org/grpc"@) {
        Some((TechCategory::Library, "gRPC"@))
    } else if has_substring(p, "github.com/spf13/cobra"@) {
        Some((TechCategory::Library, "Cobra"@))
    } else if has_substring(p, "github.com/spf13/viper"@) {
        Some((TechCategory::Library, "Viper"@))
    } else {
        None
    }
}

/// The technologies of one capture.
pub open spec fn tech_hits(c: Capture) -> Seq<(TechCategory, Seq<char>)> {
    if c.name@ == "import_path"@ {
        match import_tech(c.text@) {
            None => Seq::empty(),
            Some(h) => seq![h],
        }
    } else {
        Seq::empty()
    }
}

pub open spec fn mentions_gomock(caps: Seq<Capture>) -> bool {
    exists|i: int| 0 <= i < caps.len() && has_substring(caps[i].text@, "gomock"@)
}

pub open spec fn mentions_testify(caps: Seq<Capture>) -> bool {
    exists|i: int| 0 <= i < caps.len() && has_substring(caps[i].text@, "github.com/stretchr/testify"@)
}

/// Whether `name` is `New` followed by an uppercase letter A to Z.
fn constructor_name(name: &str) -> (r: bool)
    ensures
        r == is_constructor_name(name@),
{
    let cs = chars_of(name);
    str_starts_with(name, "New") && cs.len() > 3 && 'A' <= cs[3] && cs[3] <= 'Z'
}

fn singleton_getter(name: &str) -> (r: bool)
    ensures
        r == is_singleton_getter(name@),
{
    str_contains(name, "GetInstance") || str_contains(name, "GetConfig") || str_contains(name, "GetDB")
}

fn interface_prefix(name: &str) -> (r: bool)
    ensures
        r == has_interface_prefix(name@),
{
    let cs = chars_of(name);
    cs.len() >= 2 && cs[0] == 'I' && char_is_uppercase(cs[1])
}

fn import_tech_of(p: &str) -> (r: Option<(TechCategory, &'static str)>)
    ensures
        match r {
            None => import_tech(p@) is None,
            Some(h) => import_tech(p@) == Some((h.0, h.1@)),
        },
{
    if str_contains(p, "github.com/gin-gonic/gin") {
        Some((TechCategory::Framework, "Gin"))
    } else if str_contains(p, "github.com/labstack/echo") {
        Some((TechCategory::Framework, "Echo"))
    } else if str_contains(p, "github.com/gofiber/fiber") {
        Some((TechCategory::Framework, "Fiber"))
    } else if str_contains(p, "gorm.io/gorm") {
        Some((TechCategory::Database, "GORM"))
    } else if str_contains(p, "github.com/jmoiron/sqlx") {
        Some((TechCategory::Database, "sqlx"))
    } else if str_contains(p, "google.golang.org/grpc") {
        Some((TechCategory::Library, "gRPC"))
    } else if str_contains(p, "github.com/spf13/cobra") {
        Some((TechCategory::Library, "Cobra"))
    } else if str_contains(p, "github.com/spf13/viper") {
        Some((TechCategory::Library, "Viper"))
    } else {
        None
    }
}

impl GoAnalyzer {
    /// Settles the function, type and variable casings from the captures of
    /// the naming query, first writer winning on each axis, and records the
    /// `I` interface prefix when an interface name carries it.
    pub fn naming_from_captures(caps: &Vec<Capture>, naming: &mut NamingConvention)
        ensures
            final(naming).function_casing == settle_casing(old(naming).function_casing, caps@, |n: Seq<char>| is_function_capture(n)),
            final(naming).class_struct_naming == settle_casing(old(naming).class_struct_naming, caps@, |n: Seq<char>| n == "type_name"@),
            final(naming).variable_casing == settle_casing(old(naming).variable_casing, caps@, |n: Seq<char>| n == "var_name"@),
            names_prefixed_interface(caps@) ==> (final(naming).interface_prefix matches Some(p) && p@ == "I"@),
            !names_prefixed_interface(caps@) ==> final(naming).interface_prefix == old(naming).interface_prefix,
            final(naming).file_naming == old(naming).file_naming,
            final(naming).comment_style == old(naming).comment_style,
            final(naming).struct_suffix == old(naming).struct_suffix,
    {
        let ghost start = *naming;
        let mut i: usize = 0;
        while i < caps.len()
            invariant
                i <= caps.len(),
                naming.function_casing == settle_casing(start.function_casing, caps@.take(i as int), |n: Seq<char>| is_function_capture(n)),
                naming.class_struct_naming == settle_casing(start.class_struct_naming, caps@.take(i as int), |n: Seq<char>| n == "type_name"@),
                naming.variable_casing == settle_casing(start.variable_casing, caps@.take(i as int), |n: Seq<char>| n == "var_name"@),
                names_prefixed_interface(caps@.take(i as int)) ==> (naming.interface_prefix matches Some(p) && p@ == "I"@),
                !names_prefixed_interface(caps@.take(i as int)) ==> naming.interface_prefix == start.interface_prefix,
                naming.file_naming == start.file_naming,
                naming.comment_style == start.comment_style,
                naming.struct_suffix == start.struct_suffix,
            decreases caps.len() - i,
        {
            let c = &caps[i];
            let name = c.name.as_str();
            let text = c.text.as_str();
            proof {
                let t = caps@.take(i as int + 1);
                assert(t.drop_last() =~= caps@.take(i as int));
                assert(t.last() == caps@[i as int]);
                reveal_strlit("I");
                assert forall|k: int| 0 <= k < t.len() - 1 implies t[k] == caps@.take(i as int)[k] by {}
                if names_prefixed_interface(caps@.take(i as int)) {
                    let k = choose|k: int| 0 <= k < i && caps@.take(i as int)[k].name@ == "interface_name"@ && has_interface_prefix(caps@.take(i as int)[k].text@);
                    assert(t[k] == caps@.take(i as int)[k]);
                }
            }
            if str_eq(name, "func_name") || str_eq(name, "method_name") {
                settle(&mut naming.function_casing, text);
            }
            if str_eq(name, "type_name") {
                settle(&mut naming.class_struct_naming, text);
            }
            if str_eq(name, "var_name") {
                settle(&mut naming.variable_casing, text);
            }
            if str_eq(name, "interface_name") && interface_prefix(text) {
                naming.interface_prefix = Some(String::from_str("I"));
            }
            proof {
                let t = caps@.take(i as int + 1);
                if names_prefixed_interface(t) && !names_prefixed_interface(caps@.take(i as int)) {
                    let k = choose|k: int| 0 <= k < t.len() && t[k].name@ == "interface_name"@ && has_interface_prefix(t[k].text@);
                    if k < i {
                        assert(caps@.take(i as int)[k] == t[k]);
                    }
                }
                if names_prefixed_interface(caps@.take(i as int)) {
                    let k = choose|k: int| 0 <= k < i && caps@.take(i as int)[k].name@ == "interface_name"@ && has_interface_prefix(caps@.take(i as int)[k].text@);
                    assert(t[k] == caps@.take(i as int)[k]);
                }
            }
            i += 1;
        }
        assert(caps@.take(caps.len() as int) =~= caps@);
    }

    /// Adds the error-handling labels of the captures of the error query.
    pub fn error_handling_from_captures(caps: &Vec<Capture>, eh: &mut ErrorHandlingAnalysis)
        ensures
            strs(final(eh).failure_patterns@) == insert_all(strs(old(eh).failure_patterns@), collect_labels(caps@, |c: Capture| error_labels(c))),
            final(eh).logging_consistency == old(eh).logging_consistency,
    {
        let ghost start = strs(eh.failure_patterns@);
        let mut i: usize = 0;
        while i < caps.len()
            invariant
                i <= caps.len(),
                strs(eh.failure_patterns@) == insert_all(start, collect_labels(caps@.take(i as int), |c: Capture| error_labels(c))),
                eh.logging_consistency == old(eh).logging_consistency,
            decreases caps.len() - i,
        {
            let c = &caps[i];
            let ghost before = strs(eh.failure_patterns@);
            proof {
                lemma_collect_step(start, caps@, i as int, |c: Capture| error_labels(c));
            }
            let name = c.name.as_str();
            let guard = str_eq(name, "error_check");
            let panics = str_eq(name, "call_name") && str_contains(c.text.as_str(), "panic");
            push_label_if(&mut eh.failure_patterns, guard, "if err != nil");
            push_label_if(&mut eh.failure_patterns, panics, "panic()");
            proof {
                lemma_insert_all_append(before, label_if(guard, "if err != nil"@), label_if(panics, "panic()"@));
            }
            i += 1;
        }
        assert(caps@.take(caps.len() as int) =~= caps@);
    }

    /// Adds "Constructor Injection (NewXXX)" when a function's name is `New`
    /// followed by an uppercase letter.
    pub fn di_from_captures(caps: &Vec<Capture>, di: &mut DIAnalysis)
        ensures
            strs(final(di).injection_patterns@) == insert_all(strs(old(di).injection_patterns@), collect_labels(caps@, |c: Capture| di_labels(c))),
            final(di).abstraction_level == old(di).abstraction_level,
            final(di).global_state_usage == old(di).global_state_usage,
    {
        let ghost start = strs(di.injection_patterns@);
        let mut i: usize = 0;
        while i < caps.len()
            invariant
                i <= caps.len(),
                strs(di.injection_patterns@) == insert_all(start, collect_labels(caps@.take(i as int), |c: Capture| di_labels(c))),
                di.abstraction_level == old(di).abstraction_level,
                di.global_state_usage == old(di).global_state_usage,
            decreases caps.len() - i,
        {
            let c = &caps[i];
            proof {
                lemma_collect_step(start, caps@, i as int, |c: Capture| di_labels(c));
            }
            let ctor = str_eq(c.name.as_str(), "func_name") && constructor_name(c.text.as_str());
            push_label_if(&mut di.injection_patterns, ctor, "Constructor Injection (NewXXX)");
            i += 1;
        }
        assert(caps@.take(caps.len() as int) =~= caps@);
    }

    /// Adds the design-pattern labels: a factory for `NewX` functions, a
    /// potential singleton for `GetInstance`/`GetConfig`/`GetDB` getters, and
    /// a strategy for each interface type.
    pub fn design_patterns_from_captures(caps: &Vec<Capture>, dp: &mut DesignPatternAnalysis)
        ensures
            strs(final(dp).patterns@) == insert_all(strs(old(dp).patterns@), collect_labels(caps@, |c: Capture| pattern_labels(c))),
    {
        let ghost start = strs(dp.patterns@);
        let mut i: usize = 0;
        while i < caps.len()
            invariant
                i <= caps.len(),
                strs(dp.patterns@) == insert_all(start, collect_labels(caps@.take(i as int), |c: Capture| pattern_labels(c))),
            decreases caps.len() - i,
        {
            let c = &caps[i];
            let ghost before = strs(dp.patterns@);
            proof {
                lemma_collect_step(start, caps@, i as int, |c: Capture| pattern_labels(c));
            }
            let is_func = str_eq(c.name.as_str(), "func_name");
            let factory = is_func && constructor_name(c.text.as_str());
            let single = is_func && singleton_getter(c.text.as_str());
            let strategy = str_eq(c.name.as_str(), "interface");
            let ghost a = label_if(factory, "Factory Pattern (NewXXX)"@);
            let ghost b = label_if(single, "Potential Singleton (GetInstance)"@);
            let ghost d = label_if(strategy, "Strategy Pattern (via Interfaces)"@);
            push_label_if(&mut dp.patterns, factory, "Factory Pattern (NewXXX)");
            push_label_if(&mut dp.patterns, single, "Potential Singleton (GetInstance)");
            proof {
                lemma_insert_all_append(before, a, b);
            }
            push_label_if(&mut dp.patterns, strategy, "Strategy Pattern (via Interfaces)");
            proof {
                lemma_insert_all_append(before, a + b, d);
            }
            i += 1;
        }
        assert(caps@.take(caps.len() as int) =~= caps@);
    }

    /// Sets the mocking strategy to "gomock" when a capture mentions gomock
    /// and no strategy is set (empty or "N/A"), and the assertion style to
    /// "testify" when a capture mentions github.com/stretchr/testify.
    pub fn testing_from_captures(caps: &Vec<Capture>, testing: &mut TestingAnalysis)
        ensures
            final(testing).mocking_strategy@ == if mentions_gomock(caps@) && (old(testing).mocking_strategy@.len() == 0 || old(testing).mocking_strategy@ == "N/A"@) {
                "gomock"@
            } else {
                old(testing).mocking_strategy@
            },
            final(testing).assertion_style@ == if mentions_testify(caps@) { "testify"@ } else { old(testing).assertion_style@ },
            final(testing).test_location == old(testing).test_location,
            final(testing).naming_pattern == old(testing).naming_pattern,
    {
        let ghost start = *testing;
        let mut i: usize = 0;
        while i < caps.len()
            invariant
                i <= caps.len(),
                testing.mocking_strategy@ == if mentions_gomock(caps@.take(i as int)) && (start.mocking_strategy@.len() == 0 || start.mocking_strategy@ == "N/A"@) {
                    "gomock"@
                } else {
                    start.mocking_strategy@
                },
                testing.assertion_style@ == if mentions_testify(caps@.take(i as int)) { "testify"@ } else { start.assertion_style@ },
                testing.test_location == start.test_location,
                testing.naming_pattern == start.naming_pattern,
            decreases caps.len() - i,
        {
            let text = caps[i].text.as_str();
            let ghost t = caps@.take(i as int + 1);
            proof {
                reveal_strlit("gomock");
                reveal_strlit("N/A");
                assert(t.drop_last() =~= caps@.take(i as int));
                assert(t[i as int] == caps@[i as int]);
                assert forall|k: int| 0 <= k < i implies t[k] == caps@.take(i as int)[k] by {}
                assert(mentions_gomock(t) == (mentions_gomock(caps@.take(i as int)) || has_substring(caps@[i as int].text@, "gomock"@)));
                assert(mentions_testify(t) == (mentions_testify(caps@.take(i as int)) || has_substring(caps@[i as int].text@, "github.com/stretchr/testify"@)));
            }
            if str_contains(text, "gomock") && (testing.mocking_strategy.as_str().unicode_len() == 0 || str_eq(testing.mocking_strategy.as_str(), "N/A")) {
                testing.mocking_strategy = String::from_str("gomock");
            }
            if str_contains(text, "github.com/stretchr/testify") {
                testing.assertion_style = String::from_str("testify");
            }
            i += 1;
        }
        assert(caps@.take(caps.len() as int) =~= caps@);
    }

    /// Adds the technologies that the import paths name.
    pub fn tech_stack_from_captures(caps: &Vec<Capture>, stack: &mut TechStack)
        ensures
            strs(final(stack).frameworks@) == insert_all(strs(old(stack).frameworks@), tech_names(caps@, |c: Capture| tech_hits(c), TechCategory::Framework)),
            strs(final(stack).libraries@) == insert_all(strs(old(stack).libraries@), tech_names(caps@, |c: Capture| tech_hits(c), TechCategory::Library)),
            strs(final(stack).databases@) == insert_all(strs(old(stack).databases@), tech_names(caps@, |c: Capture| tech_hits(c), TechCategory::Database)),
            final(stack).build_tools == old(stack).build_tools,
    {
        let ghost start = *stack;
        let mut i: usize = 0;
        while i < caps.len()
            invariant
                i <= caps.len(),
                strs(stack.frameworks@) == insert_all(strs(start.frameworks@), tech_names(caps@.take(i as int), |c: Capture| tech_hits(c), TechCategory::Framework)),
                strs(stack.libraries@) == insert_all(strs(start.libraries@), tech_names(caps@.take(i as int), |c: Capture| tech_hits(c), TechCategory::Library)),
                strs(stack.databases@) == insert_all(strs(start.databases@), tech_names(caps@.take(i as int), |c: Capture| tech_hits(c), TechCategory::Database)),
                stack.build_tools == start.build_tools,
            decreases caps.len() - i,
        {
            let c = &caps[i];
            let hit = if str_eq(c.name.as_str(), "import_path") { import_tech_of(c.text.as_str()) } else { None };
            let h = TechHits::single(hit);
            let ghost now = *stack;
            record_hits(stack, &h);
            proof {
                lemma_tech_step(start, now, *stack, h, caps@, i as int, |c: Capture| tech_hits(c));
            }
            i += 1;
        }
        assert(caps@.take(caps.len() as int) =~= caps@);
    }

    /// Records each string literal longer than ten characters that occurs
    /// more than once among the captures, and adds one tenth to the score
    /// for each occurrence beyond the first (saturating).
    pub fn dry_from_captures(caps: &Vec<Capture>, dry: &mut DRYAnalysis)
        ensures
            strs(final(dry).duplicated_blocks@) == strs(old(dry).duplicated_blocks@) + dry_blocks(tally(long_literals(caps@, "string"@))),
            final(dry).duplication_score_tenths == if old(dry).duplication_score_tenths + extra_occurrences(tally(long_literals(caps@, "string"@))) > u64::MAX {
                u64::MAX as int
            } else {
                old(dry).duplication_score_tenths + extra_occurrences(tally(long_literals(caps@, "string"@)))
            },
    {
        record_duplicates(caps, "string", dry);
    }
}

/// What the Go analyzer does to a result: each pass applied to the captures
/// of its query on the tree of `source` in `language`.
pub open spec fn go_effect(language: SupportedLanguage, source: Seq<char>, old: AnalysisResult, new: AnalysisResult) -> bool {
    let names = found(language, source, NAMING_QUERY@);
    let errors = found(language, source, ERROR_QUERY@);
    let decls = found(language, source, DECLARATION_QUERY@);
    let testing = found(language, source, TESTING_QUERY@);
    let imports = found(language, source, IMPORT_QUERY@);
    let strings = found(language, source, STRING_QUERY@);
    let extra = extra_occurrences(tally(long_literals(strings, "string"@)));
    &&& new.naming.function_casing == settle_casing(old.naming.function_casing, names, |n: Seq<char>| is_function_capture(n))
    &&& new.naming.class_struct_naming == settle_casing(old.naming.class_struct_naming, names, |n: Seq<char>| n == "type_name"@)
    &&& new.naming.variable_casing == settle_casing(old.naming.variable_casing, names, |n: Seq<char>| n == "var_name"@)
    &&& names_prefixed_interface(names) ==> (new.naming.interface_prefix matches Some(p) && p@ == "I"@)
    &&& !names_prefixed_interface(names) ==> new.naming.interface_prefix == old.naming.interface_prefix
    &&& new.naming.file_naming == old.naming.file_naming
    &&& new.naming.comment_style == old.naming.comment_style
    &&& new.naming.struct_suffix == old.naming.struct_suffix
    &&& strs(new.error_handling.failure_patterns@) == insert_all(strs(old.error_handling.failure_patterns@), collect_labels(errors, |c: Capture| error_labels(c)))
    &&& new.error_handling.logging_consistency == old.error_handling.logging_consistency
    &&& strs(new.di.injection_patterns@) == insert_all(strs(old.di.injection_patterns@), collect_labels(decls, |c: Capture| di_labels(c)))
    &&& new.di.abstraction_level == old.di.abstraction_level
    &&& new.di.global_state_usage == old.di.global_state_usage
    &&& strs(new.design_patterns.patterns@) == insert_all(strs(old.design_patterns.patterns@), collect_labels(decls, |c: Capture| pattern_labels(c)))
    &&& new.testing.mocking_strategy@ == if mentions_gomock(testing) && (old.testing.mocking_strategy@.len() == 0 || old.testing.mocking_strategy@ == "N/A"@) {
        "gomock"@
    } else {
        old.testing.mocking_strategy@
    }
    &&& new.testing.assertion_style@ == if mentions_testify(testing) { "testify"@ } else { old.testing.assertion_style@ }
    &&& new.testing.test_location == old.testing.test_location
    &&& new.testing.naming_pattern == old.testing.naming_pattern
    &&& strs(new.tech_stack.frameworks@) == insert_all(strs(old.tech_stack.frameworks@), tech_names(imports, |c: Capture| tech_hits(c), TechCategory::Framework))
    &&& strs(new.tech_stack.libraries@) == insert_all(strs(old.tech_stack.libraries@), tech_names(imports, |c: Capture| tech_hits(c), TechCategory::Library))
    &&& strs(new.tech_stack.databases@) == insert_all(strs(old.tech_stack.databases@), tech_names(imports, |c: Capture| tech_hits(c), TechCategory::Database))
    &&& new.tech_stack.build_tools == old.tech_stack.build_tools
    &&& strs(new.dry.duplicated_blocks@) == strs(old.dry.duplicated_blocks@) + dry_blocks(tally(long_literals(strings, "string"@)))
    &&& new.dry.duplication_score_tenths == if old.dry.duplication_score_tenths + extra > u64::MAX {
        u64::MAX as int
    } else {
        old.dry.duplication_score_tenths + extra
    }
    &&& new.architecture == old.architecture
    &&& new.config == old.config
    &&& new.security == old.security
    &&& new.language_counts == old.language_counts
    &&& new.llm_summary == old.llm_summary
}

impl LanguageAnalyzer for GoAnalyzer {
    open spec fn effect(&self, language: SupportedLanguage, source: Seq<char>, old: AnalysisResult, new: AnalysisResult) -> bool {
        go_effect(language, source, old, new)
    }

    fn analyze(&self, tree: &SourceTree, result: &mut AnalysisResult) {
        let names = flatten(&query_matches(tree, NAMING_QUERY));
        Self::naming_from_captures(&names, &mut result.naming);
        let errors = flatten(&query_matches(tree, ERROR_QUERY));
        Self::error_handling_from_captures(&errors, &mut result.error_handling);
        let decls = flatten(&query_matches(tree, DECLARATION_QUERY));
        Self::di_from_captures(&decls, &mut result.di);
        Self::design_patterns_from_captures(&decls, &mut result.design_patterns);
        let testing = flatten(&query_matches(tree, TESTING_QUERY));
        Self::testing_from_captures(&testing, &mut result.testing);
        let imports = flatten(&query_matches(tree, IMPORT_QUERY));
        Self::tech_stack_from_captures(&imports, &mut result.tech_stack);
        let strings = flatten(&query_matches(tree, STRING_QUERY));
        Self::dry_from_captures(&strings, &mut result.dry);
        proof {
            lemma_settle_keeps(old(result).naming.function_casing, names@, |n: Seq<char>| is_function_capture(n));
            lemma_settle_keeps(old(result).naming.class_struct_naming, names@, |n: Seq<char>| n == "type_name"@);
            lemma_settle_keeps(old(result).naming.variable_casing, names@, |n: Seq<char>| n == "var_name"@);
            lemma_prefix_of_append(strs(old(result).dry.duplicated_blocks@), dry_blocks(tally(long_literals(strings@, "string"@))));
            lemma_insert_all(strs(old(result).error_handling.failure_patterns@), collect_labels(errors@, |c: Capture| error_labels(c)));
            lemma_insert_all(strs(old(result).di.injection_patterns@), collect_labels(decls@, |c: Capture| di_labels(c)));
            lemma_insert_all(strs(old(result).design_patterns.patterns@), collect_labels(decls@, |c: Capture| pattern_labels(c)));
            lemma_insert_all(strs(old(result).tech_stack.frameworks@), tech_names(imports@, |c: Capture| tech_hits(c), TechCategory::Framework));
            lemma_insert_all(strs(old(result).tech_stack.libraries@), tech_names(imports@, |c: Capture| tech_hits(c), TechCategory::Library));
            lemma_insert_all(strs(old(result).tech_stack.databases@), tech_names(imports@, |c: Capture| tech_hits(c), TechCategory::Database));
        }
    }
}

} // verus!

//! The aggregation engine: how each file's findings join the project-wide
//! result, and the per-file steps of an analysis run.
use vstd::prelude::*;
use crate::heuristics::{pre_parse_findings, PreParseFindings};
use crate::labels::{insert_all, label_if, lemma_insert_all, push_all_unique, push_label_if};
use crate::languages::{get_analyzer, language_effect, LanguageAnalyzer};
use crate::syntax::SourceTree;
use crate::parser::{language_of_path, CodeParser, SupportedLanguage};
use crate::paths::{file_stem, file_stem_of};
use crate::rules::AnalysisResult;
use crate::rules::naming::{casing_of, Casing, NamingConvention};
use crate::text::{str_eq, strs};

verus! {

/// First writer wins: the old value unless it is empty and the new one is not.
pub open spec fn merged_text(g: Seq<char>, l: Seq<char>) -> Seq<char> {
    if g.len() == 0 && l.len() > 0 {
        l
    } else {
        g
    }
}

/// As `merged_text`, with "N/A" counting as unset.
pub open spec fn merged_label(g: Seq<char>, l: Seq<char>) -> Seq<char> {
    if (g.len() == 0 || g == "N/A"@) && l.len() > 0 {
        l
    } else {
        g
    }
}

/// First writer wins on a naming axis: the old casing unless it is unknown.
pub open spec fn merged_casing(g: Casing, l: Casing) -> Casing {
    if g == Casing::Unknown {
        l
    } else {
        g
    }
}

pub open spec fn opt_label(o: Option<String>) -> Seq<Seq<char>> {
    match o {
        Some(s) => seq![s@],
        None => Seq::empty(),
    }
}

/// Adds `b` to `a`, stopping at the largest `u64`.
pub open spec fn sat_add(a: u64, b: u64) -> u64 {
    if a + b > u64::MAX {
        u64::MAX
    } else {
        (a + b) as u64
    }
}

/// `new` is `old` with the path-and-text findings `f` of one file merged in.
pub open spec fn pre_parse_merged(old: AnalysisResult, f: PreParseFindings, new: AnalysisResult) -> bool {
    &&& new.architecture.pattern@ == merged_text(old.architecture.pattern@, f.architecture_pattern@)
    &&& strs(new.architecture.layers@) == insert_all(strs(old.architecture.layers@), strs(f.layers@))
    &&& new.architecture.modules == old.architecture.modules
    &&& strs(new.config.config_sources@) == insert_all(strs(old.config.config_sources@), opt_label(f.config_source))
    &&& new.config.type_safety@ == if f.structured_config { "Structured (Properties)"@ } else { old.config.type_safety@ }
    &&& new.config.secret_handling == old.config.secret_handling
    &&& new.testing.test_location@ == merged_text(old.testing.test_location@, if f.test_file { "In-project/In-file"@ } else { Seq::empty() })
    &&& new.testing.naming_pattern@ == merged_text(old.testing.naming_pattern@, if f.test_file { "test_* or *_test"@ } else { Seq::empty() })
    &&& new.testing.mocking_strategy@ == merged_label(old.testing.mocking_strategy@, if f.mock_file { "gomock"@ } else { Seq::empty() })
    &&& new.testing.assertion_style == old.testing.assertion_style
    &&& strs(new.security.hardcoded_secrets@) == insert_all(strs(old.security.hardcoded_secrets@), opt_label(f.secret))
    &&& new.security.input_sanitization == old.security.input_sanitization
    &&& new.security.memory_safety == old.security.memory_safety
    &&& new.security.concurrency_safety == old.security.concurrency_safety
    &&& new.naming == old.naming
    &&& new.di == old.di
    &&& new.error_handling == old.error_handling
    &&& new.design_patterns == old.design_patterns
    &&& new.tech_stack == old.tech_stack
    &&& new.dry == old.dry
    &&& new.language_counts == old.language_counts
    &&& new.llm_summary == old.llm_summary
}

/// `new` is `old` with the findings `local` of one parsed file of language
/// `lang` merged in.
pub open spec fn file_merged(old: AnalysisResult, lang: SupportedLanguage, local: AnalysisResult, new: AnalysisResult) -> bool {
    &&& forall|k: SupportedLanguage| #[trigger] new.language_counts.spec_count(k) == old.language_counts.spec_count(k) + if k == lang { 1int } else { 0int }
    &&& new.naming.variable_casing == merged_casing(old.naming.variable_casing, local.naming.variable_casing)
    &&& new.naming.function_casing == merged_casing(old.naming.function_casing, local.naming.function_casing)
    &&& new.naming.class_struct_naming == merged_casing(old.naming.class_struct_naming, local.naming.class_struct_naming)
    &&& new.naming.file_naming == merged_casing(old.naming.file_naming, local.naming.file_naming)
    &&& new.naming.interface_prefix == if old.naming.interface_prefix is None { local.naming.interface_prefix } else { old.naming.interface_prefix }
    &&& new.naming.comment_style == old.naming.comment_style
    &&& new.naming.struct_suffix == old.naming.struct_suffix
    &&& new.testing.test_location@ == merged_text(old.testing.test_location@, local.testing.test_location@)
    &&& new.testing.naming_pattern@ == merged_text(old.testing.naming_pattern@, local.testing.naming_pattern@)
    &&& new.testing.mocking_strategy@ == merged_label(old.testing.mocking_strategy@, local.testing.mocking_strategy@)
    &&& new.testing.assertion_style@ == merged_text(old.testing.assertion_style@, local.testing.assertion_style@)
    &&& new.config.type_safety@ == merged_label(old.config.type_safety@, local.config.type_safety@)
    &&& new.config.secret_handling == old.config.secret_handling
    &&& new.architecture.pattern@ == merged_text(old.architecture.pattern@, local.architecture.pattern@)
    &&& strs(new.di.injection_patterns@) == insert_all(strs(old.di.injection_patterns@), strs(local.di.injection_patterns@))
    &&& new.di.abstraction_level == old.di.abstraction_level
    &&& strs(new.di.global_state_usage@) == insert_all(strs(old.di.global_state_usage@), strs(local.di.global_state_usage@))
    &&& strs(new.config.config_sources@) == insert_all(strs(old.config.config_sources@), strs(local.config.config_sources@))
    &&& strs(new.security.hardcoded_secrets@) == insert_all(strs(old.security.hardcoded_secrets@), strs(local.security.hardcoded_secrets@))
    &&& new.security.input_sanitization == old.security.input_sanitization
    &&& new.security.memory_safety == old.security.memory_safety
    &&& new.security.concurrency_safety == old.security.concurrency_safety
    &&& strs(new.error_handling.failure_patterns@) == insert_all(strs(old.error_handling.failure_patterns@), strs(local.error_handling.failure_patterns@))
    &&& new.error_handling.logging_consistency == old.error_handling.logging_consistency
    &&& strs(new.design_patterns.patterns@) == insert_all(strs(old.design_patterns.patterns@), strs(local.design_patterns.patterns@))
    &&& strs(new.architecture.layers@) == insert_all(strs(old.architecture.layers@), strs(local.architecture.layers@))
    &&& strs(new.architecture.modules@) == insert_all(strs(old.architecture.modules@), strs(local.architecture.modules@))
    &&& strs(new.tech_stack.frameworks@) == insert_all(strs(old.tech_stack.frameworks@), strs(local.tech_stack.frameworks@))
    &&& strs(new.tech_stack.libraries@) == insert_all(strs(old.tech_stack.libraries@), strs(local.tech_stack.libraries@))
    &&& strs(new.tech_stack.databases@) == insert_all(strs(old.tech_stack.databases@), strs(local.tech_stack.databases@))
    &&& strs(new.tech_stack.build_tools@) == insert_all(strs(old.tech_stack.build_tools@), strs(local.tech_stack.build_tools@))
    &&& strs(new.dry.duplicated_blocks@) == insert_all(strs(old.dry.duplicated_blocks@), strs(local.dry.duplicated_blocks@))
    &&& new.dry.duplication_score_tenths == sat_add(old.dry.duplication_score_tenths, local.dry.duplication_score_tenths)
    &&& new.llm_summary == old.llm_summary
}

/// Sets `g` to `l` when `g` is empty and `l` is not.
fn merge_text(g: &mut String, l: &String)
    ensures
        final(g)@ == merged_text(old(g)@, l@),
{
    if g.as_str().unicode_len() == 0 && l.as_str().unicode_len() > 0 {
        *g = l.clone();
    }
}

/// Sets `g` to `l` when `g` is empty or "N/A" and `l` is not empty.
fn merge_label(g: &mut String, l: &String)
    ensures
        final(g)@ == merged_label(old(g)@, l@),
{
    if (g.as_str().unicode_len() == 0 || str_eq(g.as_str(), "N/A")) && l.as_str().unicode_len() > 0 {
        *g = l.clone();
    }
}

fn merge_casing(g: &mut Casing, l: Casing)
    ensures
        *final(g) == merged_casing(*old(g), l),
{
    if *g == Casing::Unknown {
        *g = l;
    }
}

fn push_opt(v: &mut Vec<String>, o: &Option<String>)
    ensures
        strs(final(v)@) == insert_all(strs(old(v)@), opt_label(*o)),
{
    let ghost before = strs(v@);
    match o {
        Some(s) => {
            push_label_if(v, true, s.as_str());
            assert(label_if(true, s@) == opt_label(*o));
        },
        None => {
            assert(opt_label(*o) =~= Seq::<Seq<char>>::empty());
            assert(insert_all(before, opt_label(*o)) == before);
        },
    }
}

impl AnalysisResult {
    /// Merges the path-and-text findings of one file.
    pub fn merge_pre_parse(&mut self, f: &PreParseFindings)
        requires
            old(self).wf(),
        ensures
            final(self).wf(),
            pre_parse_merged(*old(self), *f, *final(self)),
    {
        let ghost start = *self;
        merge_text(&mut self.architecture.pattern, &f.architecture_pattern);
        push_all_unique(&mut self.architecture.layers, &f.layers);
        push_opt(&mut self.config.config_sources, &f.config_source);
        if f.structured_config {
            self.config.type_safety = String::from_str("Structured (Properties)");
        }
        let location = if f.test_file { String::from_str("In-project/In-file") } else { String::new() };
        merge_text(&mut self.testing.test_location, &location);
        let pattern = if f.test_file { String::from_str("test_* or *_test") } else { String::new() };
        merge_text(&mut self.testing.naming_pattern, &pattern);
        let mock = if f.mock_file { String::from_str("gomock") } else { String::new() };
        merge_label(&mut self.testing.mocking_strategy, &mock);
        push_opt(&mut self.security.hardcoded_secrets, &f.secret);
        proof {
            lemma_insert_all(strs(start.architecture.layers@), strs(f.layers@));
            lemma_insert_all(strs(start.config.config_sources@), opt_label(f.config_source));
            lemma_insert_all(strs(start.security.hardcoded_secrets@), opt_label(f.secret));
        }
    }

    /// Merges the findings of one parsed file of language `lang`: the file is
    /// counted, each resolved field keeps its first value, each label list
    /// gains the labels it lacks, and the duplication scores add up.
    pub fn merge_file(&mut self, lang: SupportedLanguage, local: &AnalysisResult)
        requires
            old(self).wf(),
            old(self).language_counts.spec_count(lang) < usize::MAX,
        ensures
            final(self).wf(),
            file_merged(*old(self), lang, *local, *final(self)),
    {
        let ghost start = *self;
        self.language_counts.increment(lang);
        merge_casing(&mut self.naming.variable_casing, local.naming.variable_casing);
        merge_casing(&mut self.naming.function_casing, local.naming.function_casing);
        merge_casing(&mut self.naming.class_struct_naming, local.naming.class_struct_naming);
        merge_casing(&mut self.naming.file_naming, local.naming.file_naming);
        if self.naming.interface_prefix.is_none() {
            self.naming.interface_prefix = local.naming.interface_prefix.clone();
        }
        merge_text(&mut self.testing.test_location, &local.testing.test_location);
        merge_text(&mut self.testing.naming_pattern, &local.testing.naming_pattern);
        merge_label(&mut self.testing.mocking_strategy, &local.testing.mocking_strategy);
        merge_text(&mut self.testing.assertion_style, &local.testing.assertion_style);
        merge_label(&mut self.config.type_safety, &local.config.type_safety);
        merge_text(&mut self.architecture.pattern, &local.architecture.pattern);
        push_all_unique(&mut self.di.injection_patterns, &local.di.injection_patterns);
        push_all_unique(&mut self.di.global_state_usage, &local.di.global_state_usage);
        push_all_unique(&mut self.config.config_sources, &local.config.config_sources);
        push_all_unique(&mut self.security.hardcoded_secrets, &local.security.hardcoded_secrets);
        push_all_unique(&mut self.error_handling.failure_patterns, &local.error_handling.failure_patterns);
        push_all_unique(&mut self.design_patterns.patterns, &local.design_patterns.patterns);
        push_all_unique(&mut self.architecture.layers, &local.architecture.layers);
        push_all_unique(&mut self.architecture.modules, &local.architecture.modules);
        push_all_unique(&mut self.tech_stack.frameworks, &local.tech_stack.frameworks);
        push_all_unique(&mut self.tech_stack.libraries, &local.tech_stack.libraries);
        push_all_unique(&mut self.tech_stack.databases, &local.tech_stack.databases);
        push_all_unique(&mut self.tech_stack.build_tools, &local.tech_stack.build_tools);
        push_all_unique(&mut self.dry.duplicated_blocks, &local.dry.duplicated_blocks);
        self.dry.duplication_score_tenths = self.dry.duplication_score_tenths.saturating_add(local.dry.duplication_score_tenths);
        proof {
            lemma_insert_all(strs(start.di.injection_patterns@), strs(local.di.injection_patterns@));
            lemma_insert_all(strs(start.di.global_state_usage@), strs(local.di.global_state_usage@));
            lemma_insert_all(strs(start.config.config_sources@), strs(local.config.config_sources@));
            lemma_insert_all(strs(start.security.hardcoded_secrets@), strs(local.security.hardcoded_secrets@));
            lemma_insert_all(strs(start.error_handling.failure_patterns@), strs(local.error_handling.failure_patterns@));
            lemma_insert_all(strs(start.design_patterns.patterns@), strs(local.design_patterns.patterns@));
            lemma_insert_all(strs(start.architecture.layers@), strs(local.architecture.layers@));
            lemma_insert_all(strs(start.architecture.modules@), strs(local.architecture.modules@));
            lemma_insert_all(strs(start.tech_stack.frameworks@), strs(local.tech_stack.frameworks@));
            lemma_insert_all(strs(start.tech_stack.libraries@), strs(local.tech_stack.libraries@));
            lemma_insert_all(strs(start.tech_stack.databases@), strs(local.tech_stack.databases@));
            lemma_insert_all(strs(start.tech_stack.build_tools@), strs(local.tech_stack.build_tools@));
        }
    }
}

/// The casing of a path's file stem; unknown when the path has no file name.
pub open spec fn file_casing_of(p: Seq<char>) -> Casing {
    match file_stem_of(p) {
        Some(s) => casing_of(s),
        None => Casing::Unknown,
    }
}

/// The analysis of one project directory.
pub struct ProjectAnalyzer {
    root_path: String,
}

impl ProjectAnalyzer {
    pub closed spec fn spec_root(&self) -> Seq<char> {
        self.root_path@
    }

    pub fn new(path: &str) -> (r: ProjectAnalyzer)
        ensures
            r.spec_root() == path@,
    {
        ProjectAnalyzer { root_path: String::from_str(path) }
    }

    /// The directory that this analysis covers.
    pub fn root_path(&self) -> (r: &str)
        ensures
            r@ == self.spec_root(),
    {
        self.root_path.as_str()
    }

    /// Applies the path-and-text rules to one file and merges what they find.
    pub fn analyze_file_pre_parser(&self, path: &str, content: &str, results: &mut AnalysisResult)
        requires
            old(results).wf(),
        ensures
            final(results).wf(),
            exists|f: PreParseFindings| f.describes(path@, content@) && pre_parse_merged(*old(results), f, *final(results)),
    {
        let f = pre_parse_findings(path, content);
        results.merge_pre_parse(&f);
    }

    /// The findings of one parsed file: what its language's analyzer finds,
    /// starting from an empty result, and the casing of its file stem.
    pub fn file_findings(&self, path: &str, tree: &SourceTree) -> (r: AnalysisResult)
        ensures
            r.wf(),
            file_result(tree.spec_language(), tree.spec_source(), path@, r),
    {
        let analyzer = get_analyzer(tree.language());
        let mut local = AnalysisResult::default();
        let ghost empty = local;
        analyzer.analyze(tree, &mut local);
        let ghost found = local;
        match file_stem(path) {
            Some(stem) => local.naming.file_naming = NamingConvention::detect_casing(stem),
            None => local.naming.file_naming = Casing::Unknown,
        }
        assert(local == with_file_naming(found, file_casing_of(path@)));
        local
    }

    /// Analyzes one parsed file and merges its findings.
    pub fn analyze_file(&self, path: &str, tree: &SourceTree, results: &mut AnalysisResult)
        requires
            old(results).wf(),
            old(results).language_counts.spec_count(tree.spec_language()) < usize::MAX,
        ensures
            final(results).wf(),
            exists|local: AnalysisResult|
                file_result(tree.spec_language(), tree.spec_source(), path@, local)
                    && file_merged(*old(results), tree.spec_language(), local, *final(results)),
    {
        let local = self.file_findings(path, tree);
        results.merge_file(tree.language(), &local);
    }

    /// Runs every step for one file: the path-and-text rules, then, when the
    /// extension names a language, the syntax-tree analysis. Returns whether
    /// the file was parsed; a file that is not parsed is not counted.
    pub fn process_file(&self, path: &str, content: &str, results: &mut AnalysisResult) -> (parsed: bool)
        requires
            old(results).wf(),
            forall|k: SupportedLanguage| #[trigger] old(results).language_counts.spec_count(k) < usize::MAX,
        ensures
            final(results).wf(),
            parsed == (language_of_path(path@) is Some),
            exists|f: PreParseFindings, mid: AnalysisResult|
                f.describes(path@, content@) && pre_parse_merged(*old(results), f, mid)
                    && (!parsed ==> *final(results) == mid)
                    && (parsed ==> exists|local: AnalysisResult|
                        file_result(language_of_path(path@)->Some_0, content@, path@, local)
                            && file_merged(mid, language_of_path(path@)->Some_0, local, *final(results))),
    {
        let f = pre_parse_findings(path, content);
        results.merge_pre_parse(&f);
        let ghost mid = *results;
        let parser = match CodeParser::new(path) {
            Some(p) => p,
            None => {
                assert(f.describes(path@, content@) && pre_parse_merged(*old(results), f, mid));
                return false;
            },
        };
        let tree = match parser.parse(content) {
            Some(t) => t,
            None => return false,
        };
        self.analyze_file(path, &tree, results);
        proof {
            let local = choose|local: AnalysisResult|
                file_result(tree.spec_language(), tree.spec_source(), path@, local)
                    && file_merged(mid, tree.spec_language(), local, *results);
            assert(language_of_path(path@)->Some_0 == tree.spec_language());
            assert(file_result(language_of_path(path@)->Some_0, content@, path@, local));
            assert(f.describes(path@, content@) && pre_parse_merged(*old(results), f, mid));
        }
        true
    }
}

/// `r` with the file-name casing `c`.
pub open spec fn with_file_naming(r: AnalysisResult, c: Casing) -> AnalysisResult {
    AnalysisResult { naming: NamingConvention { file_naming: c, ..r.naming }, ..r }
}

/// `r` is what one file of `source`, parsed in `language`, yields at `path`:
/// the effect of that language's analyzer on an empty result, with the
/// casing of the file stem.
pub open spec fn file_result(language: SupportedLanguage, source: Seq<char>, path: Seq<char>, r: AnalysisResult) -> bool {
    exists|empty: AnalysisResult, found: AnalysisResult|
        empty.is_empty() && language_effect(language, language, source, empty, found)
            && r == with_file_naming(found, file_casing_of(path))
}

} // verus!

//! The per-language analyzers and what they share.
use vstd::prelude::*;
use crate::labels::{insert_all, lemma_insert_all_append, push_all_unique};
use crate::parser::SupportedLanguage;
use crate::rules::AnalysisResult;
use crate::rules::naming::{casing_of, Casing, NamingConvention};
use crate::rules::tech_stack::TechStack;
use crate::syntax::{Capture, SourceTree};
use crate::text::{chars_of, str_eq, strs};

pub mod dry;
pub mod go;
pub mod javascript;
pub mod python;
pub mod rust;

verus! {

/// The labels that a run of captures yields, capture by capture.
pub open spec fn collect_labels(caps: Seq<Capture>, f: spec_fn(Capture) -> Seq<Seq<char>>) -> Seq<Seq<char>>
    decreases caps.len(),
{
    if caps.len() == 0 {
        Seq::empty()
    } else {
        collect_labels(caps.drop_last(), f) + f(caps.last())
    }
}

/// One step of a loop that adds, capture by capture, the labels of `f`.
pub proof fn lemma_collect_step(
    start: Seq<Seq<char>>,
    caps: Seq<Capture>,
    i: int,
    f: spec_fn(Capture) -> Seq<Seq<char>>,
)
    requires
        0 <= i < caps.len(),
    ensures
        insert_all(start, collect_labels(caps.take(i + 1), f)) == insert_all(
            insert_all(start, collect_labels(caps.take(i), f)),
            f(caps[i]),
        ),
{
    assert(caps.take(i + 1).drop_last() =~= caps.take(i));
    assert(caps.take(i + 1).last() == caps[i]);
    lemma_insert_all_append(start, collect_labels(caps.take(i), f), f(caps[i]));
}

/// First writer wins along one naming axis: the casing of the first capture
/// on the axis whose casing is known, unless the axis was already settled.
pub open spec fn settle_casing(start: Casing, caps: Seq<Capture>, on_axis: spec_fn(Seq<char>) -> bool) -> Casing
    decreases caps.len(),
{
    if caps.len() == 0 {
        start
    } else {
        let prev = settle_casing(start, caps.drop_last(), on_axis);
        if prev == Casing::Unknown && on_axis(caps.last().name@) {
            casing_of(caps.last().text@)
        } else {
            prev
        }
    }
}

/// The category under which a technology is recorded.
#[derive(Debug, Clone, Copy, PartialEq, Eq, Structural)]
pub enum TechCategory {
    Framework,
    Library,
    Database,
}

/// The names of the technologies of category `cat` among `hits`.
pub open spec fn names_in(hits: Seq<(TechCategory, Seq<char>)>, cat: TechCategory) -> Seq<Seq<char>>
    decreases hits.len(),
{
    if hits.len() == 0 {
        Seq::empty()
    } else {
        names_in(hits.drop_last(), cat) + if hits.last().0 == cat {
            seq![hits.last().1]
        } else {
            Seq::<Seq<char>>::empty()
        }
    }
}

/// The technology names of category `cat` that a run of captures yields.
pub open spec fn tech_names(
    caps: Seq<Capture>,
    hits: spec_fn(Capture) -> Seq<(TechCategory, Seq<char>)>,
    cat: TechCategory,
) -> Seq<Seq<char>> {
    collect_labels(caps, |c: Capture| names_in(hits(c), cat))
}

/// The technologies found, by category, in order.
pub struct TechHits {
    pub frameworks: Vec<String>,
    pub libraries: Vec<String>,
    pub databases: Vec<String>,
}

impl TechHits {
    pub open spec fn holds(&self, hits: Seq<(TechCategory, Seq<char>)>) -> bool {
        &&& strs(self.frameworks@) == names_in(hits, TechCategory::Framework)
        &&& strs(self.libraries@) == names_in(hits, TechCategory::Library)
        &&& strs(self.databases@) == names_in(hits, TechCategory::Database)
    }

    /// One technology, or none.
    pub fn single(hit: Option<(TechCategory, &str)>) -> (r: TechHits)
        ensures
            r.holds(match hit {
                None => Seq::empty(),
                Some(h) => seq![(h.0, h.1@)],
            }),
    {
        let mut r = TechHits { frameworks: Vec::new(), libraries: Vec::new(), databases: Vec::new() };
        let ghost hs: Seq<(TechCategory, Seq<char>)> = match hit {
            None => Seq::empty(),
            Some(h) => seq![(h.0, h.1@)],
        };
        if let Some((cat, name)) = hit {
            match cat {
                TechCategory::Framework => r.frameworks.push(String::from_str(name)),
                TechCategory::Library => r.libraries.push(String::from_str(name)),
                TechCategory::Database => r.databases.push(String::from_str(name)),
            }
            assert(hs.drop_last() =~= Seq::<(TechCategory, Seq<char>)>::empty());
            assert(names_in(hs.drop_last(), TechCategory::Framework) =~= Seq::empty());
            assert(names_in(hs.drop_last(), TechCategory::Library) =~= Seq::empty());
            assert(names_in(hs.drop_last(), TechCategory::Database) =~= Seq::empty());
        }
        assert(strs(r.frameworks@) =~= names_in(hs, TechCategory::Framework));
        assert(strs(r.libraries@) =~= names_in(hs, TechCategory::Library));
        assert(strs(r.databases@) =~= names_in(hs, TechCategory::Database));
        r
    }
}

/// Records, capture by capture, the technologies that `hits_of` finds.
pub proof fn lemma_tech_step(
    start: TechStack,
    now: TechStack,
    next: TechStack,
    h: TechHits,
    caps: Seq<Capture>,
    i: int,
    hits: spec_fn(Capture) -> Seq<(TechCategory, Seq<char>)>,
)
    requires
        0 <= i < caps.len(),
        h.holds(hits(caps[i])),
        strs(now.frameworks@) == insert_all(strs(start.frameworks@), tech_names(caps.take(i), hits, TechCategory::Framework)),
        strs(now.libraries@) == insert_all(strs(start.libraries@), tech_names(caps.take(i), hits, TechCategory::Library)),
        strs(now.databases@) == insert_all(strs(start.databases@), tech_names(caps.take(i), hits, TechCategory::Database)),
        strs(next.frameworks@) == insert_all(strs(now.frameworks@), strs(h.frameworks@)),
        strs(next.libraries@) == insert_all(strs(now.libraries@), strs(h.libraries@)),
        strs(next.databases@) == insert_all(strs(now.databases@), strs(h.databases@)),
    ensures
        strs(next.frameworks@) == insert_all(strs(start.frameworks@), tech_names(caps.take(i + 1), hits, TechCategory::Framework)),
        strs(next.libraries@) == insert_all(strs(start.libraries@), tech_names(caps.take(i + 1), hits, TechCategory::Library)),
        strs(next.databases@) == insert_all(strs(start.databases@), tech_names(caps.take(i + 1), hits, TechCategory::Database)),
{
    lemma_collect_step(strs(start.frameworks@), caps, i, |c: Capture| names_in(hits(c), TechCategory::Framework));
    lemma_collect_step(strs(start.libraries@), caps, i, |c: Capture| names_in(hits(c), TechCategory::Library));
    lemma_collect_step(strs(start.databases@), caps, i, |c: Capture| names_in(hits(c), TechCategory::Database));
}

/// Adds the technologies of `h` to the stack.
pub fn record_hits(stack: &mut TechStack, h: &TechHits)
    ensures
        strs(final(stack).frameworks@) == insert_all(strs(old(stack).frameworks@), strs(h.frameworks@)),
        strs(final(stack).libraries@) == insert_all(strs(old(stack).libraries@), strs(h.libraries@)),
        strs(final(stack).databases@) == insert_all(strs(old(stack).databases@), strs(h.databases@)),
        final(stack).build_tools == old(stack).build_tools,
{
    push_all_unique(&mut stack.frameworks, &h.frameworks);
    push_all_unique(&mut stack.libraries, &h.libraries);
    push_all_unique(&mut stack.databases, &h.databases);
}

impl TechHits {
    /// Adds one technology when `cond` holds.
    pub fn add_if(&mut self, cond: bool, cat: TechCategory, name: &str)
        ensures
            forall|h: Seq<(TechCategory, Seq<char>)>| old(self).holds(h) ==> final(self).holds(h + hit_if(cond, cat, name@)),
    {
        let ghost prev = *self;
        if cond {
            match cat {
                TechCategory::Framework => self.frameworks.push(String::from_str(name)),
                TechCategory::Library => self.libraries.push(String::from_str(name)),
                TechCategory::Database => self.databases.push(String::from_str(name)),
            }
        }
        assert forall|h: Seq<(TechCategory, Seq<char>)>| prev.holds(h) implies self.holds(h + hit_if(cond, cat, name@)) by {
            let hh = h + hit_if(cond, cat, name@);
            if cond {
                assert(hh.drop_last() =~= h);
                assert(strs(self.frameworks@) =~= names_in(hh, TechCategory::Framework));
                assert(strs(self.libraries@) =~= names_in(hh, TechCategory::Library));
                assert(strs(self.databases@) =~= names_in(hh, TechCategory::Database));
            } else {
                assert(hh =~= h);
            }
        }
    }

    /// No technology.
    pub fn none() -> (r: TechHits)
        ensures
            r.holds(Seq::empty()),
    {
        let r = TechHits { frameworks: Vec::new(), libraries: Vec::new(), databases: Vec::new() };
        assert(strs(r.frameworks@) =~= Seq::empty());
        assert(strs(r.libraries@) =~= Seq::empty());
        assert(strs(r.databases@) =~= Seq::empty());
        r
    }
}

/// The run that holds one technology when `cond` holds.
pub open spec fn hit_if(cond: bool, cat: TechCategory, name: Seq<char>) -> Seq<(TechCategory, Seq<char>)> {
    if cond {
        seq![(cat, name)]
    } else {
        Seq::empty()
    }
}

/// The import tables of the languages other than Go.
#[derive(Debug, Clone, Copy, PartialEq, Eq, Structural)]
pub enum TechTable {
    Python,
    JavaScript,
    Rust,
}

/// The technologies that one capture names, by the table of a language.
pub open spec fn table_hits(t: TechTable, c: Capture) -> Seq<(TechCategory, Seq<char>)> {
    match t {
        TechTable::Python => python::module_hits(c),
        TechTable::JavaScript => javascript::source_hits(c),
        TechTable::Rust => rust::use_hits(c),
    }
}

fn table_hits_of(t: TechTable, c: &Capture) -> (r: TechHits)
    ensures
        r.holds(table_hits(t, *c)),
{
    match t {
        TechTable::Python => python::module_hits_of(c),
        TechTable::JavaScript => javascript::source_hits_of(c),
        TechTable::Rust => rust::use_hits_of(c),
    }
}

/// Adds, capture by capture, the technologies that the table of a language
/// finds.
pub fn record_tech(t: TechTable, caps: &Vec<Capture>, stack: &mut TechStack)
    ensures
        strs(final(stack).frameworks@) == insert_all(strs(old(stack).frameworks@), tech_names(caps@, |c: Capture| table_hits(t, c), TechCategory::Framework)),
        strs(final(stack).libraries@) == insert_all(strs(old(stack).libraries@), tech_names(caps@, |c: Capture| table_hits(t, c), TechCategory::Library)),
        strs(final(stack).databases@) == insert_all(strs(old(stack).databases@), tech_names(caps@, |c: Capture| table_hits(t, c), TechCategory::Database)),
        final(stack).build_tools == old(stack).build_tools,
{
    let ghost start = *stack;
    let mut i: usize = 0;
    while i < caps.len()
        invariant
            i <= caps.len(),
            strs(stack.frameworks@) == insert_all(strs(start.frameworks@), tech_names(caps@.take(i as int), |c: Capture| table_hits(t, c), TechCategory::Framework)),
            strs(stack.libraries@) == insert_all(strs(start.libraries@), tech_names(caps@.take(i as int), |c: Capture| table_hits(t, c), TechCategory::Library)),
            strs(stack.databases@) == insert_all(strs(start.databases@), tech_names(caps@.take(i as int), |c: Capture| table_hits(t, c), TechCategory::Database)),
            stack.build_tools == start.build_tools,
        decreases caps.len() - i,
    {
        let h = table_hits_of(t, &caps[i]);
        let ghost now = *stack;
        record_hits(stack, &h);
        proof {
            lemma_tech_step(start, now, *stack, h, caps@, i as int, |c: Capture| table_hits(t, c));
        }
        i += 1;
    }
    assert(caps@.take(caps.len() as int) =~= caps@);
}

/// Settles the function, class and variable casings from captures named
/// `func_name`, `class_name` and `var_name`, first writer winning on each axis.
pub fn settle_naming(caps: &Vec<Capture>, naming: &mut NamingConvention)
    ensures
        final(naming).function_casing == settle_casing(old(naming).function_casing, caps@, |n: Seq<char>| n == "func_name"@),
        final(naming).class_struct_naming == settle_casing(old(naming).class_struct_naming, caps@, |n: Seq<char>| n == "class_name"@),
        final(naming).variable_casing == settle_casing(old(naming).variable_casing, caps@, |n: Seq<char>| n == "var_name"@),
        final(naming).interface_prefix == old(naming).interface_prefix,
        final(naming).file_naming == old(naming).file_naming,
        final(naming).comment_style == old(naming).comment_style,
        final(naming).struct_suffix == old(naming).struct_suffix,
{
    let ghost start = *naming;
    let mut i: usize = 0;
    while i < caps.len()
        invariant
            i <= caps.len(),
            naming.function_casing == settle_casing(start.function_casing, caps@.take(i as int), |n: Seq<char>| n == "func_name"@),
            naming.class_struct_naming == settle_casing(start.class_struct_naming, caps@.take(i as int), |n: Seq<char>| n == "class_name"@),
            naming.variable_casing == settle_casing(start.variable_casing, caps@.take(i as int), |n: Seq<char>| n == "var_name"@),
            naming.interface_prefix == start.interface_prefix,
            naming.file_naming == start.file_naming,
            naming.comment_style == start.comment_style,
            naming.struct_suffix == start.struct_suffix,
        decreases caps.len() - i,
    {
        let c = &caps[i];
        let name = c.name.as_str();
        let text = c.text.as_str();
        proof {
            let t = caps@.take(i as int + 1);
            assert(t.drop_last() =~= caps@.take(i as int));
            assert(t.last() == caps@[i as int]);
        }
        if str_eq(name, "func_name") {
            settle(&mut naming.function_casing, text);
        }
        if str_eq(name, "class_name") {
            settle(&mut naming.class_struct_naming, text);
        }
        if str_eq(name, "var_name") {
            settle(&mut naming.variable_casing, text);
        }
        i += 1;
    }
    assert(caps@.take(caps.len() as int) =~= caps@);
}

/// Settles one naming axis with the casing of `name`, unless it is settled.
pub fn settle(axis: &mut Casing, name: &str)
    ensures
        *final(axis) == if *old(axis) == Casing::Unknown { casing_of(name@) } else { *old(axis) },
{
    if *axis == Casing::Unknown {
        *axis = NamingConvention::detect_casing(name);
    }
}

/// The position after the quotes (`'` or `"`) that open `s` from index `i`.
pub open spec fn skip_open_quotes(s: Seq<char>, i: int) -> int
    decreases s.len() - i,
{
    if 0 <= i < s.len() && (s[i] == '\'' || s[i] == '"') {
        skip_open_quotes(s, i + 1)
    } else {
        i
    }
}

/// The position before the quotes that close `s` at `j`, not going below `lo`.
pub open spec fn skip_close_quotes(s: Seq<char>, lo: int, j: int) -> int
    decreases j - lo,
{
    if lo < j <= s.len() && (s[j - 1] == '\'' || s[j - 1] == '"') {
        skip_close_quotes(s, lo, j - 1)
    } else {
        j
    }
}

/// `s` without the quote characters at either end.
pub open spec fn trim_quotes(s: Seq<char>) -> Seq<char> {
    let a = skip_open_quotes(s, 0);
    s.subrange(a, skip_close_quotes(s, a, s.len() as int))
}

pub proof fn lemma_skip_open(s: Seq<char>, i: int)
    requires
        0 <= i <= s.len(),
    ensures
        i <= skip_open_quotes(s, i) <= s.len(),
    decreases s.len() - i,
{
    if i < s.len() && (s[i] == '\'' || s[i] == '"') {
        lemma_skip_open(s, i + 1);
    }
}

pub proof fn lemma_skip_close(s: Seq<char>, lo: int, j: int)
    requires
        0 <= lo <= j <= s.len(),
    ensures
        lo <= skip_close_quotes(s, lo, j) <= j,
    decreases j - lo,
{
    if lo < j && (s[j - 1] == '\'' || s[j - 1] == '"') {
        lemma_skip_close(s, lo, j - 1);
    }
}

/// `s` without the quote characters (`'` or `"`) at either end.
pub fn strip_quotes(s: &str) -> (r: &str)
    ensures
        r@ == trim_quotes(s@),
{
    let cs = chars_of(s);
    let n = cs.len();
    let mut a: usize = 0;
    while a < n && (cs[a] == '\'' || cs[a] == '"')
        invariant
            cs@ == s@,
            n == cs.len(),
            a <= n,
            skip_open_quotes(s@, a as int) == skip_open_quotes(s@, 0),
        decreases n - a,
    {
        a += 1;
    }
    let mut b: usize = n;
    while b > a && (cs[b - 1] == '\'' || cs[b - 1] == '"')
        invariant
            cs@ == s@,
            n == cs.len(),
            a <= b <= n,
            a == skip_open_quotes(s@, 0),
            skip_close_quotes(s@, a as int, b as int) == skip_close_quotes(s@, a as int, n as int),
        decreases b - a,
    {
        b -= 1;
    }
    s.substring_char(a, b)
}

/// What a run of string literals looks like once tallied: each distinct
/// literal with the number of its occurrences, in order of first occurrence.
pub open spec fn tally(texts: Seq<Seq<char>>) -> Seq<(Seq<char>, nat)>
    decreases texts.len(),
{
    if texts.len() == 0 {
        Seq::empty()
    } else {
        let prev = tally(texts.drop_last());
        let t = texts.last();
        if exists|k: int| 0 <= k < prev.len() && prev[k].0 == t {
            let k = choose|k: int| 0 <= k < prev.len() && prev[k].0 == t;
            prev.update(k, (t, prev[k].1 + 1))
        } else {
            prev.push((t, 1nat))
        }
    }
}

/// A tally never lists a literal twice.
pub open spec fn keys_distinct(t: Seq<(Seq<char>, nat)>) -> bool {
    forall|i: int, j: int| 0 <= i < t.len() && 0 <= j < t.len() && i != j ==> t[i].0 != t[j].0
}

pub proof fn lemma_tally_distinct(texts: Seq<Seq<char>>)
    ensures
        keys_distinct(tally(texts)),
    decreases texts.len(),
{
    if texts.len() > 0 {
        lemma_tally_distinct(texts.drop_last());
    }
}

/// The capture texts of a run of captures named `name` that are longer than
/// ten characters.
pub open spec fn long_literals(caps: Seq<Capture>, name: Seq<char>) -> Seq<Seq<char>>
    decreases caps.len(),
{
    if caps.len() == 0 {
        Seq::empty()
    } else {
        long_literals(caps.drop_last(), name) + if caps.last().name@ == name && caps.last().text@.len() > 10 {
            seq![caps.last().text@]
        } else {
            Seq::<Seq<char>>::empty()
        }
    }
}

/// The sum over a tally of the occurrences beyond the first.
pub open spec fn extra_occurrences(t: Seq<(Seq<char>, nat)>) -> nat
    decreases t.len(),
{
    if t.len() == 0 {
        0
    } else {
        extra_occurrences(t.drop_last()) + (t.last().1 - 1) as nat
    }
}

/// A naming axis, once settled, keeps its casing.
pub open spec fn axis_kept(old: Casing, new: Casing) -> bool {
    old != Casing::Unknown ==> new == old
}

/// `new` holds every finding of `old`: label lists only grow at their end,
/// settled naming axes keep their casing, the score does not drop, and what
/// comes from paths rather than syntax trees is untouched.
pub open spec fn keeps_findings(old: AnalysisResult, new: AnalysisResult) -> bool {
    &&& strs(old.di.injection_patterns@).is_prefix_of(strs(new.di.injection_patterns@))
    &&& strs(old.error_handling.failure_patterns@).is_prefix_of(strs(new.error_handling.failure_patterns@))
    &&& strs(old.design_patterns.patterns@).is_prefix_of(strs(new.design_patterns.patterns@))
    &&& strs(old.tech_stack.frameworks@).is_prefix_of(strs(new.tech_stack.frameworks@))
    &&& strs(old.tech_stack.libraries@).is_prefix_of(strs(new.tech_stack.libraries@))
    &&& strs(old.tech_stack.databases@).is_prefix_of(strs(new.tech_stack.databases@))
    &&& strs(old.dry.duplicated_blocks@).is_prefix_of(strs(new.dry.duplicated_blocks@))
    &&& old.dry.duplication_score_tenths <= new.dry.duplication_score_tenths
    &&& axis_kept(old.naming.function_casing, new.naming.function_casing)
    &&& axis_kept(old.naming.class_struct_naming, new.naming.class_struct_naming)
    &&& axis_kept(old.naming.variable_casing, new.naming.variable_casing)
    &&& new.naming.file_naming == old.naming.file_naming
    &&& new.architecture == old.architecture
    &&& new.config == old.config
    &&& new.security == old.security
    &&& new.language_counts == old.language_counts
    &&& new.llm_summary == old.llm_summary
}

pub proof fn lemma_prefix_of_self(s: Seq<Seq<char>>)
    ensures
        s.is_prefix_of(s),
{
    assert(s.subrange(0, s.len() as int) =~= s);
}

pub proof fn lemma_prefix_of_append(a: Seq<Seq<char>>, b: Seq<Seq<char>>)
    ensures
        a.is_prefix_of(a + b),
{
    assert((a + b).subrange(0, a.len() as int) =~= a);
}

/// A settled axis stays settled, whatever the captures.
pub proof fn lemma_settle_keeps(start: Casing, caps: Seq<Capture>, on_axis: spec_fn(Seq<char>) -> bool)
    ensures
        axis_kept(start, settle_casing(start, caps, on_axis)),
    decreases caps.len(),
{
    if caps.len() > 0 {
        lemma_settle_keeps(start, caps.drop_last(), on_axis);
    }
}

/// Capability shared by the language analyzers: given source text and its
/// syntax tree, add the findings of one file to a result.
pub trait LanguageAnalyzer {
    /// `new` is `old` with the findings that this analyzer reads from the
    /// captures of its queries on the tree of `source` in `language`.
    spec fn effect(&self, language: SupportedLanguage, source: Seq<char>, old: AnalysisResult, new: AnalysisResult) -> bool;

    fn analyze(&self, tree: &SourceTree, result: &mut AnalysisResult)
        requires
            old(result).wf(),
        ensures
            final(result).wf(),
            keeps_findings(*old(result), *final(result)),
            self.effect(tree.spec_language(), tree.spec_source(), *old(result), *final(result)),
    ;
}

/// The analyzer of each supported language.
pub enum Analyzer {
    Go(go::GoAnalyzer),
    Python(python::PythonAnalyzer),
    JavaScript(javascript::JavaScriptAnalyzer),
    Rust(rust::RustAnalyzer),
}

/// The effect of the analyzer that `get_analyzer` picks for `lang`.
pub open spec fn language_effect(
    lang: SupportedLanguage,
    language: SupportedLanguage,
    source: Seq<char>,
    old: AnalysisResult,
    new: AnalysisResult,
) -> bool {
    match lang {
        SupportedLanguage::Go => go::go_effect(language, source, old, new),
        SupportedLanguage::Python => python::python_effect(language, source, old, new),
        SupportedLanguage::TypeScript | SupportedLanguage::JavaScript => javascript::javascript_effect(language, source, old, new),
        SupportedLanguage::Rust => rust::rust_effect(language, source, old, new),
    }
}

impl LanguageAnalyzer for Analyzer {
    open spec fn effect(&self, language: SupportedLanguage, source: Seq<char>, old: AnalysisResult, new: AnalysisResult) -> bool {
        match self {
            Analyzer::Go(_) => go::go_effect(language, source, old, new),
            Analyzer::Python(_) => python::python_effect(language, source, old, new),
            Analyzer::JavaScript(_) => javascript::javascript_effect(language, source, old, new),
            Analyzer::Rust(_) => rust::rust_effect(language, source, old, new),
        }
    }

    fn analyze(&self, tree: &SourceTree, result: &mut AnalysisResult) {
        match self {
            Analyzer::Go(a) => a.analyze(tree, result),
            Analyzer::Python(a) => a.analyze(tree, result),
            Analyzer::JavaScript(a) => a.analyze(tree, result),
            Analyzer::Rust(a) => a.analyze(tree, result),
        }
    }
}

/// The analyzer for a language; TypeScript and JavaScript share one.
pub fn get_analyzer(lang: SupportedLanguage) -> (r: Analyzer)
    ensures
        match lang {
            SupportedLanguage::Go => r is Go,
            SupportedLanguage::Python => r is Python,
            SupportedLanguage::TypeScript | SupportedLanguage::JavaScript => r is JavaScript,
            SupportedLanguage::Rust => r is Rust,
        },
        forall|l: SupportedLanguage, s: Seq<char>, o: AnalysisResult, n: AnalysisResult|
            #[trigger] r.effect(l, s, o, n) == language_effect(lang, l, s, o, n),
{
    match lang {
        SupportedLanguage::Go => Analyzer::Go(go::GoAnalyzer),
        SupportedLanguage::Python => Analyzer::Python(python::PythonAnalyzer),
        SupportedLanguage::TypeScript | SupportedLanguage::JavaScript => Analyzer::JavaScript(javascript::JavaScriptAnalyzer),
        SupportedLanguage::Rust => Analyzer::Rust(rust::RustAnalyzer),
    }
}

} // verus!

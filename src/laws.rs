//! Properties of whole analysis runs, stated over the merge rules.
use vstd::prelude::*;
use crate::analyzer::{file_merged, opt_label, pre_parse_merged};
use crate::heuristics::PreParseFindings;
use crate::labels::{all_labels, insert_all, insert_each, lemma_insert_each};
use crate::parser::SupportedLanguage;
use crate::rules::AnalysisResult;
use crate::text::strs;

verus! {

broadcast use vstd::seq_lib::group_to_multiset_ensures;

/// The label lists of a result that are merged as sets.
#[derive(Debug, Clone, Copy, PartialEq, Eq, Structural)]
pub enum UnionField {
    InjectionPatterns,
    GlobalStateUsage,
    ConfigSources,
    HardcodedSecrets,
    FailurePatterns,
    DesignPatterns,
    Layers,
    Modules,
    Frameworks,
    Libraries,
    Databases,
    BuildTools,
    DuplicatedBlocks,
}

pub open spec fn union_field(r: AnalysisResult, w: UnionField) -> Seq<Seq<char>> {
    strs(
        match w {
            UnionField::InjectionPatterns => r.di.injection_patterns@,
            UnionField::GlobalStateUsage => r.di.global_state_usage@,
            UnionField::ConfigSources => r.config.config_sources@,
            UnionField::HardcodedSecrets => r.security.hardcoded_secrets@,
            UnionField::FailurePatterns => r.error_handling.failure_patterns@,
            UnionField::DesignPatterns => r.design_patterns.patterns@,
            UnionField::Layers => r.architecture.layers@,
            UnionField::Modules => r.architecture.modules@,
            UnionField::Frameworks => r.tech_stack.frameworks@,
            UnionField::Libraries => r.tech_stack.libraries@,
            UnionField::Databases => r.tech_stack.databases@,
            UnionField::BuildTools => r.tech_stack.build_tools@,
            UnionField::DuplicatedBlocks => r.dry.duplicated_blocks@,
        },
    )
}

/// One merge of an analysis run: the path-and-text findings of a file, or
/// the findings of a parsed file of some language.
pub enum Step {
    PreParse(PreParseFindings),
    Parsed(SupportedLanguage, AnalysisResult),
}

/// `new` is `old` after the merge `s`.
pub open spec fn step_merged(old: AnalysisResult, s: Step, new: AnalysisResult) -> bool {
    match s {
        Step::PreParse(f) => pre_parse_merged(old, f, new),
        Step::Parsed(l, local) => file_merged(old, l, local, new),
    }
}

/// The labels that the merge `s` contributes to one union field.
pub open spec fn step_labels(s: Step, w: UnionField) -> Seq<Seq<char>> {
    match s {
        Step::PreParse(f) => match w {
            UnionField::Layers => strs(f.layers@),
            UnionField::ConfigSources => opt_label(f.config_source),
            UnionField::HardcodedSecrets => opt_label(f.secret),
            _ => Seq::empty(),
        },
        Step::Parsed(_, local) => union_field(local, w),
    }
}

/// `states` is a run that applies the merges `steps` one after another.
pub open spec fn is_run(states: Seq<AnalysisResult>, steps: Seq<Step>) -> bool {
    &&& states.len() == steps.len() + 1
    &&& forall|i: int| 0 <= i < steps.len() ==> step_merged(states[i], steps[i], #[trigger] states[i + 1])
}

/// The labels that each merge contributes to one union field.
pub open spec fn contributions(steps: Seq<Step>, w: UnionField) -> Seq<Seq<Seq<char>>> {
    steps.map_values(|s: Step| step_labels(s, w))
}

/// How many of the merges are of a parsed file of language `k`.
pub open spec fn files_of(steps: Seq<Step>, k: SupportedLanguage) -> nat
    decreases steps.len(),
{
    if steps.len() == 0 {
        0
    } else {
        files_of(steps.drop_last(), k) + if steps.last() matches Step::Parsed(l, _) && l == k { 1nat } else { 0nat }
    }
}

/// One merge adds its contribution to each union field, and counts a parsed
/// file under its language.
proof fn lemma_step(old: AnalysisResult, s: Step, new: AnalysisResult, w: UnionField, k: SupportedLanguage)
    requires
        step_merged(old, s, new),
    ensures
        union_field(new, w) == insert_all(union_field(old, w), step_labels(s, w)),
        new.language_counts.spec_count(k) == old.language_counts.spec_count(k)
            + if s matches Step::Parsed(l, _) && l == k { 1int } else { 0int },
{
    if s is PreParse {
        assert(insert_all(union_field(old, w), Seq::<Seq<char>>::empty()) == union_field(old, w));
    }
}

proof fn lemma_run_prefix(states: Seq<AnalysisResult>, steps: Seq<Step>)
    requires
        is_run(states, steps),
        steps.len() > 0,
    ensures
        is_run(states.drop_last(), steps.drop_last()),
{
    assert forall|i: int| 0 <= i < steps.drop_last().len() implies step_merged(
        states.drop_last()[i],
        steps.drop_last()[i],
        #[trigger] states.drop_last()[i + 1],
    ) by {
        assert(step_merged(states[i], steps[i], states[i + 1]));
    }
}

/// A run leaves each union field holding the merge of every contribution.
pub proof fn lemma_run_unions(states: Seq<AnalysisResult>, steps: Seq<Step>, w: UnionField)
    requires
        is_run(states, steps),
    ensures
        union_field(states.last(), w) == insert_each(union_field(states[0], w), contributions(steps, w)),
    decreases steps.len(),
{
    if steps.len() > 0 {
        let n = steps.len() - 1;
        lemma_run_prefix(states, steps);
        lemma_run_unions(states.drop_last(), steps.drop_last(), w);
        assert(contributions(steps, w).drop_last() =~= contributions(steps.drop_last(), w));
        assert(step_merged(states[n], steps[n], states[n + 1]));
        lemma_step(states[n], steps[n], states[n + 1], w, SupportedLanguage::Go);
    }
}

/// A run counts each parsed file once, under its language.
pub proof fn lemma_run_counts(states: Seq<AnalysisResult>, steps: Seq<Step>, k: SupportedLanguage)
    requires
        is_run(states, steps),
    ensures
        states.last().language_counts.spec_count(k) == states[0].language_counts.spec_count(k) + files_of(steps, k),
    decreases steps.len(),
{
    if steps.len() > 0 {
        let n = steps.len() - 1;
        lemma_run_prefix(states, steps);
        lemma_run_counts(states.drop_last(), steps.drop_last(), k);
        assert(step_merged(states[n], steps[n], states[n + 1]));
        lemma_step(states[n], steps[n], states[n + 1], UnionField::Layers, k);
    }
}

proof fn lemma_all_labels_contains(parts: Seq<Seq<Seq<char>>>, x: Seq<char>)
    ensures
        all_labels(parts).contains(x) <==> exists|i: int| 0 <= i < parts.len() && parts[i].contains(x),
    decreases parts.len(),
{
    if parts.len() > 0 {
        lemma_all_labels_contains(parts.drop_last(), x);
        if exists|i: int| 0 <= i < parts.len() && parts[i].contains(x) {
            let i = choose|i: int| 0 <= i < parts.len() && parts[i].contains(x);
            if i < parts.len() - 1 {
                assert(parts.drop_last()[i] == parts[i]);
            }
        }
        if exists|i: int| 0 <= i < parts.drop_last().len() && parts.drop_last()[i].contains(x) {
            let i = choose|i: int| 0 <= i < parts.drop_last().len() && parts.drop_last()[i].contains(x);
            assert(parts[i] == parts.drop_last()[i]);
        }
    }
}

proof fn lemma_same_contributions(
    a: Seq<Step>,
    b: Seq<Step>,
    w: UnionField,
)
    requires
        a.to_multiset() == b.to_multiset(),
    ensures
        all_labels(contributions(a, w)) == all_labels(contributions(b, w)),
{
    assert forall|x: Seq<char>| all_labels(contributions(a, w)).contains(x) implies all_labels(contributions(b, w)).contains(x) by {
        lemma_all_labels_contains(contributions(a, w), x);
        lemma_all_labels_contains(contributions(b, w), x);
        let i = choose|i: int| 0 <= i < contributions(a, w).len() && contributions(a, w)[i].contains(x);
        assert(a.contains(a[i]));
        assert(a.to_multiset().count(a[i]) > 0);
        assert(b.to_multiset().count(a[i]) > 0);
        assert(b.contains(a[i]));
        let j = choose|j: int| 0 <= j < b.len() && b[j] == a[i];
        assert(contributions(b, w)[j].contains(x));
    }
    assert forall|x: Seq<char>| all_labels(contributions(b, w)).contains(x) implies all_labels(contributions(a, w)).contains(x) by {
        lemma_all_labels_contains(contributions(a, w), x);
        lemma_all_labels_contains(contributions(b, w), x);
        let i = choose|i: int| 0 <= i < contributions(b, w).len() && contributions(b, w)[i].contains(x);
        assert(b.contains(b[i]));
        assert(b.to_multiset().count(b[i]) > 0);
        assert(a.to_multiset().count(b[i]) > 0);
        assert(a.contains(b[i]));
        let j = choose|j: int| 0 <= j < a.len() && a[j] == b[i];
        assert(contributions(a, w)[j].contains(x));
    }
    assert(all_labels(contributions(a, w)) =~= all_labels(contributions(b, w)));
}

proof fn lemma_files_of_remove(f: Seq<Step>, j: int, k: SupportedLanguage)
    requires
        0 <= j < f.len(),
    ensures
        files_of(f, k) == files_of(f.remove(j), k) + if f[j] matches Step::Parsed(l, _) && l == k { 1nat } else { 0nat },
    decreases f.len(),
{
    if j < f.len() - 1 {
        lemma_files_of_remove(f.drop_last(), j, k);
        assert(f.remove(j).drop_last() =~= f.drop_last().remove(j));
        assert(f.remove(j).last() == f.last());
    } else {
        assert(f.remove(j) =~= f.drop_last());
    }
}

proof fn lemma_files_of_multiset(a: Seq<Step>, b: Seq<Step>, k: SupportedLanguage)
    requires
        a.to_multiset() == b.to_multiset(),
    ensures
        files_of(a, k) == files_of(b, k),
    decreases a.len(),
{
    if a.len() == 0 {
        assert(b.to_multiset().len() == 0);
        assert(b.len() == 0);
    } else {
        let x = a.last();
        assert(a =~= a.drop_last().push(x));
        assert(a.to_multiset() == a.drop_last().to_multiset().insert(x));
        assert(a.to_multiset().count(x) > 0);
        assert(b.contains(x));
        let j = choose|j: int| 0 <= j < b.len() && b[j] == x;
        assert(b.remove(j).to_multiset() == b.to_multiset().remove(x));
        assert(a.drop_last().to_multiset() =~= a.to_multiset().remove(x));
        lemma_files_of_multiset(a.drop_last(), b.remove(j), k);
        lemma_files_of_remove(b, j, k);
    }
}

/// Union fields never hold a label twice, however many files contribute it:
/// merged one after another from a list without duplicates, the contributions
/// leave a list without duplicates holding exactly the old and new labels.
pub proof fn lemma_unions_stay_distinct(start: Seq<Seq<char>>, parts: Seq<Seq<Seq<char>>>)
    requires
        start.no_duplicates(),
    ensures
        insert_each(start, parts).no_duplicates(),
        insert_each(start, parts).to_set() == start.to_set().union(all_labels(parts)),
{
    lemma_insert_each(start, parts);
}

/// Two runs from the same start over the same merges (the path-and-text
/// findings and the parsed-file findings of the same files), in any order,
/// end with the same set of labels in every union field, none of them twice,
/// and the same count for every language.
pub proof fn lemma_reruns_agree(
    s1: Seq<AnalysisResult>,
    f1: Seq<Step>,
    s2: Seq<AnalysisResult>,
    f2: Seq<Step>,
    w: UnionField,
    k: SupportedLanguage,
)
    requires
        is_run(s1, f1),
        is_run(s2, f2),
        s1[0] == s2[0],
        union_field(s1[0], w).no_duplicates(),
        f1.to_multiset() == f2.to_multiset(),
    ensures
        union_field(s1.last(), w).to_set() == union_field(s2.last(), w).to_set(),
        union_field(s1.last(), w).no_duplicates(),
        union_field(s2.last(), w).no_duplicates(),
        s1.last().language_counts.spec_count(k) == s2.last().language_counts.spec_count(k),
{
    lemma_run_unions(s1, f1, w);
    lemma_run_unions(s2, f2, w);
    lemma_insert_each(union_field(s1[0], w), contributions(f1, w));
    lemma_insert_each(union_field(s2[0], w), contributions(f2, w));
    lemma_same_contributions(f1, f2, w);
    lemma_run_counts(s1, f1, k);
    lemma_run_counts(s2, f2, k);
    lemma_files_of_multiset(f1, f2, k);
}

} // verus!

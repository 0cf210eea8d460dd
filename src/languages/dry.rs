//! Repeated string literals within one file.
use vstd::prelude::*;
use crate::languages::{extra_occurrences, keys_distinct, lemma_tally_distinct, long_literals, tally};
use crate::rules::dry::DRYAnalysis;
use crate::syntax::Capture;
use crate::text::{decimal, decimal_string, str_eq, strs};

verus! {

/// The description of a literal that occurs `n` times.
pub open spec fn block_text(t: Seq<char>, n: nat) -> Seq<char> {
    "String literal repeated "@ + decimal(n) + " times: "@ + t
}

/// A description for each tallied literal that occurs more than once.
pub open spec fn dry_blocks(t: Seq<(Seq<char>, nat)>) -> Seq<Seq<char>>
    decreases t.len(),
{
    if t.len() == 0 {
        Seq::empty()
    } else {
        dry_blocks(t.drop_last()) + if t.last().1 > 1 {
            seq![block_text(t.last().0, t.last().1)]
        } else {
            Seq::<Seq<char>>::empty()
        }
    }
}

pub open spec fn zip_tally(texts: Seq<String>, counts: Seq<usize>) -> Seq<(Seq<char>, nat)> {
    Seq::new(texts.len(), |k: int| (texts[k]@, counts[k] as nat))
}

/// Tallies the long literals among the captures named `name`.
fn tally_literals(caps: &Vec<Capture>, name: &str) -> (r: (Vec<String>, Vec<usize>))
    ensures
        r.0.len() == r.1.len(),
        zip_tally(r.0@, r.1@) == tally(long_literals(caps@, name@)),
        forall|k: int| 0 <= k < r.1.len() ==> r.1@[k] >= 1,
{
    let mut texts: Vec<String> = Vec::new();
    let mut counts: Vec<usize> = Vec::new();
    let mut i: usize = 0;
    while i < caps.len()
        invariant
            i <= caps.len(),
            texts.len() == counts.len(),
            zip_tally(texts@, counts@) == tally(long_literals(caps@.take(i as int), name@)),
            forall|k: int| 0 <= k < counts.len() ==> 1 <= #[trigger] counts@[k] <= i,
        decreases caps.len() - i,
    {
        let c = &caps[i];
        let ghost prev = long_literals(caps@.take(i as int), name@);
        proof {
            let t = caps@.take(i as int + 1);
            assert(t.drop_last() =~= caps@.take(i as int));
            assert(t.last() == caps@[i as int]);
            lemma_tally_distinct(prev);
        }
        if str_eq(c.name.as_str(), name) && c.text.as_str().unicode_len() > 10 {
            let ghost lits = prev + seq![c.text@];
            assert(lits.drop_last() =~= prev);
            assert(long_literals(caps@.take(i as int + 1), name@) == lits);
            let mut k: usize = 0;
            let mut found = false;
            while k < texts.len()
                invariant_except_break
                    !found,
                invariant
                    k <= texts.len(),
                    texts.len() == counts.len(),
                    forall|j: int| 0 <= j < k ==> texts@[j]@ != c.text@,
                ensures
                    found ==> k < texts.len() && texts@[k as int]@ == c.text@,
                    !found ==> k == texts.len(),
                decreases texts.len() - k,
            {
                if texts[k] == c.text {
                    found = true;
                    break;
                }
                k += 1;
            }
            let ghost z = zip_tally(texts@, counts@);
            if found {
                proof {
                    assert(z[k as int].0 == c.text@);
                    let kk = choose|kk: int| 0 <= kk < z.len() && z[kk].0 == c.text@;
                    assert(keys_distinct(z));
                    assert(kk == k);
                }
                let n = counts[k] + 1;
                counts.set(k, n);
                assert(zip_tally(texts@, counts@) =~= z.update(k as int, (c.text@, z[k as int].1 + 1)));
            } else {
                proof {
                    assert(!(exists|kk: int| 0 <= kk < z.len() && z[kk].0 == c.text@)) by {
                        if exists|kk: int| 0 <= kk < z.len() && z[kk].0 == c.text@ {
                            let kk = choose|kk: int| 0 <= kk < z.len() && z[kk].0 == c.text@;
                            assert(texts@[kk]@ == c.text@);
                        }
                    }
                }
                texts.push(c.text.clone());
                counts.push(1);
                assert(zip_tally(texts@, counts@) =~= z.push((c.text@, 1nat)));
            }
        } else {
            assert(long_literals(caps@.take(i as int + 1), name@) =~= prev);
        }
        i += 1;
    }
    assert(caps@.take(caps.len() as int) =~= caps@);
    (texts, counts)
}

/// Records each long literal named `name` that occurs more than once, and
/// adds one tenth to the score for each occurrence beyond the first.
pub fn record_duplicates(caps: &Vec<Capture>, name: &str, dry: &mut DRYAnalysis)
    ensures
        strs(final(dry).duplicated_blocks@) == strs(old(dry).duplicated_blocks@) + dry_blocks(tally(long_literals(caps@, name@))),
        final(dry).duplication_score_tenths == if old(dry).duplication_score_tenths + extra_occurrences(tally(long_literals(caps@, name@))) > u64::MAX {
            u64::MAX as int
        } else {
            old(dry).duplication_score_tenths + extra_occurrences(tally(long_literals(caps@, name@)))
        },
{
    let (texts, counts) = tally_literals(caps, name);
    let ghost z = zip_tally(texts@, counts@);
    assert(forall|k: int| 0 <= k < z.len() ==> z[k].1 >= 1);
    let ghost blocks0 = strs(dry.duplicated_blocks@);
    let ghost score0 = dry.duplication_score_tenths as int;
    let mut j: usize = 0;
    while j < texts.len()
        invariant
            j <= texts.len(),
            texts.len() == counts.len(),
            z == zip_tally(texts@, counts@),
            strs(dry.duplicated_blocks@) == blocks0 + dry_blocks(z.take(j as int)),
            dry.duplication_score_tenths == if score0 + extra_occurrences(z.take(j as int)) > u64::MAX {
                u64::MAX as int
            } else {
                score0 + extra_occurrences(z.take(j as int))
            },
            forall|k: int| 0 <= k < z.len() ==> z[k].1 >= 1,
        decreases texts.len() - j,
    {
        let n = counts[j];
        proof {
            let t = z.take(j as int + 1);
            assert(t.drop_last() =~= z.take(j as int));
            assert(t.last() == z[j as int]);
        }
        if n > 1 {
            let mut block = String::from_str("String literal repeated ");
            let digits = decimal_string(n);
            block.append(digits.as_str());
            block.append(" times: ");
            block.append(texts[j].as_str());
            let ghost before = dry.duplicated_blocks@;
            dry.duplicated_blocks.push(block);
            assert(strs(dry.duplicated_blocks@) =~= strs(before).push(block_text(z[j as int].0, z[j as int].1)));
            assert(strs(dry.duplicated_blocks@) =~= blocks0 + dry_blocks(z.take(j as int + 1)));
            dry.duplication_score_tenths = dry.duplication_score_tenths.saturating_add((n - 1) as u64);
        } else {
            assert(dry_blocks(z.take(j as int + 1)) =~= dry_blocks(z.take(j as int)));
        }
        j += 1;
    }
    assert(z.take(texts.len() as int) =~= z);
}

} // verus!

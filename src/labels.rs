//! Label lists that never hold the same label twice.
use vstd::prelude::*;
use crate::text::strs;

verus! {

/// Adds `l` at the end of `acc` unless `acc` already holds it.
pub open spec fn insert_label(acc: Seq<Seq<char>>, l: Seq<char>) -> Seq<Seq<char>> {
    if acc.contains(l) {
        acc
    } else {
        acc.push(l)
    }
}

/// Adds each label of `ls`, in order, as `insert_label` does.
pub open spec fn insert_all(acc: Seq<Seq<char>>, ls: Seq<Seq<char>>) -> Seq<Seq<char>>
    decreases ls.len(),
{
    if ls.len() == 0 {
        acc
    } else {
        insert_label(insert_all(acc, ls.drop_last()), ls.last())
    }
}

/// Merges the label lists of several contributions, one after another.
pub open spec fn insert_each(acc: Seq<Seq<char>>, parts: Seq<Seq<Seq<char>>>) -> Seq<Seq<char>>
    decreases parts.len(),
{
    if parts.len() == 0 {
        acc
    } else {
        insert_all(insert_each(acc, parts.drop_last()), parts.last())
    }
}

/// All labels of all contributions.
pub open spec fn all_labels(parts: Seq<Seq<Seq<char>>>) -> Set<Seq<char>>
    decreases parts.len(),
{
    if parts.len() == 0 {
        Set::empty()
    } else {
        all_labels(parts.drop_last()).union(parts.last().to_set())
    }
}

pub proof fn lemma_insert_label(acc: Seq<Seq<char>>, l: Seq<char>)
    ensures
        acc.no_duplicates() ==> insert_label(acc, l).no_duplicates(),
        insert_label(acc, l).to_set() == acc.to_set().insert(l),
        acc.is_prefix_of(insert_label(acc, l)),
{
    if !acc.contains(l) {
        assert(acc.push(l).to_set() =~= acc.to_set().insert(l)) by {
            assert forall|x: Seq<char>| acc.push(l).contains(x) <==> acc.contains(x) || x == l by {
                if acc.push(l).contains(x) {
                    let i = choose|i: int| 0 <= i < acc.push(l).len() && acc.push(l)[i] == x;
                    if i < acc.len() {
                        assert(acc[i] == x);
                    }
                }
                if acc.contains(x) {
                    let i = choose|i: int| 0 <= i < acc.len() && acc[i] == x;
                    assert(acc.push(l)[i] == x);
                }
                if x == l {
                    assert(acc.push(l)[acc.len() as int] == x);
                }
            }
        }
        assert(acc.is_prefix_of(acc.push(l))) by {
            assert(acc.push(l).subrange(0, acc.len() as int) =~= acc);
        }
        if acc.no_duplicates() {
            assert forall|i: int, j: int|
                0 <= i < acc.push(l).len() && 0 <= j < acc.push(l).len() && i != j implies
                acc.push(l)[i] != acc.push(l)[j] by {
                if i < acc.len() && j < acc.len() {
                } else if i < acc.len() {
                    assert(acc.contains(acc[i]));
                } else if j < acc.len() {
                    assert(acc.contains(acc[j]));
                }
            }
        }
    } else {
        assert(acc.to_set() =~= acc.to_set().insert(l));
        assert(acc.is_prefix_of(acc)) by {
            assert(acc.subrange(0, acc.len() as int) =~= acc);
        }
    }
}

/// Inserting labels keeps a list free of duplicates, keeps what it held in
/// front, and leaves it holding exactly the old labels and the new ones.
pub proof fn lemma_insert_all(acc: Seq<Seq<char>>, ls: Seq<Seq<char>>)
    ensures
        acc.no_duplicates() ==> insert_all(acc, ls).no_duplicates(),
        insert_all(acc, ls).to_set() == acc.to_set().union(ls.to_set()),
        acc.is_prefix_of(insert_all(acc, ls)),
    decreases ls.len(),
{
    if ls.len() == 0 {
        assert(ls.to_set() =~= Set::empty());
        assert(acc.to_set().union(ls.to_set()) =~= acc.to_set());
        assert(acc.subrange(0, acc.len() as int) =~= acc);
    } else {
        let prev = insert_all(acc, ls.drop_last());
        lemma_insert_all(acc, ls.drop_last());
        lemma_insert_label(prev, ls.last());
        assert(ls.to_set() =~= ls.drop_last().to_set().insert(ls.last())) by {
            assert(ls =~= ls.drop_last().push(ls.last()));
            assert forall|x: Seq<char>| ls.contains(x) <==> ls.drop_last().contains(x) || x == ls.last() by {
                if ls.contains(x) {
                    let i = choose|i: int| 0 <= i < ls.len() && ls[i] == x;
                    if i < ls.len() - 1 {
                        assert(ls.drop_last()[i] == x);
                    }
                }
                if ls.drop_last().contains(x) {
                    let i = choose|i: int| 0 <= i < ls.drop_last().len() && ls.drop_last()[i] == x;
                    assert(ls[i] == x);
                }
                if x == ls.last() {
                    assert(ls[ls.len() - 1] == x);
                }
            }
        }
        assert(insert_all(acc, ls).to_set() =~= acc.to_set().union(ls.to_set()));
        let fin = insert_all(acc, ls);
        assert(acc.is_prefix_of(fin)) by {
            assert(prev.is_prefix_of(fin));
            assert(acc.is_prefix_of(prev));
            assert forall|i: int| 0 <= i < acc.len() implies acc[i] == fin[i] by {
                assert(acc[i] == prev[i]);
                assert(prev[i] == fin[i]);
            }
        }
    }
}

/// Merging contributions one after another keeps a list free of duplicates
/// and leaves it holding exactly the old labels and all contributed ones.
pub proof fn lemma_insert_each(acc: Seq<Seq<char>>, parts: Seq<Seq<Seq<char>>>)
    ensures
        acc.no_duplicates() ==> insert_each(acc, parts).no_duplicates(),
        insert_each(acc, parts).to_set() == acc.to_set().union(all_labels(parts)),
    decreases parts.len(),
{
    if parts.len() == 0 {
        assert(acc.to_set().union(Set::empty()) =~= acc.to_set());
    } else {
        lemma_insert_each(acc, parts.drop_last());
        lemma_insert_all(insert_each(acc, parts.drop_last()), parts.last());
        assert(insert_each(acc, parts).to_set() =~= acc.to_set().union(all_labels(parts)));
    }
}

/// Inserting two runs of labels is inserting the first, then the second.
pub proof fn lemma_insert_all_append(acc: Seq<Seq<char>>, a: Seq<Seq<char>>, b: Seq<Seq<char>>)
    ensures
        insert_all(acc, a + b) == insert_all(insert_all(acc, a), b),
    decreases b.len(),
{
    if b.len() == 0 {
        assert(a + b =~= a);
    } else {
        lemma_insert_all_append(acc, a, b.drop_last());
        assert((a + b).drop_last() =~= a + b.drop_last());
        assert((a + b).last() == b.last());
    }
}

/// Adds `l` to the list unless it already holds it.
pub fn push_unique(v: &mut Vec<String>, l: String)
    ensures
        strs(final(v)@) == insert_label(strs(old(v)@), l@),
{
    let mut i: usize = 0;
    while i < v.len()
        invariant
            i <= v.len(),
            forall|k: int| 0 <= k < i ==> v@[k]@ != l@,
        decreases v.len() - i,
    {
        if v[i] == l {
            assert(strs(v@)[i as int] == l@);
            return;
        }
        i += 1;
    }
    proof {
        assert(!strs(v@).contains(l@)) by {
            if strs(v@).contains(l@) {
                let k = choose|k: int| 0 <= k < strs(v@).len() && strs(v@)[k] == l@;
                assert(v@[k]@ == l@);
            }
        }
    }
    let ghost before = v@;
    v.push(l);
    assert(strs(v@) =~= strs(before).push(l@));
}

/// The run that holds `l` when `cond` holds, and nothing otherwise.
pub open spec fn label_if(cond: bool, l: Seq<char>) -> Seq<Seq<char>> {
    if cond {
        seq![l]
    } else {
        Seq::empty()
    }
}

/// Adds `l` when `cond` holds, unless the list already holds it.
pub fn push_label_if(v: &mut Vec<String>, cond: bool, l: &str)
    ensures
        strs(final(v)@) == insert_all(strs(old(v)@), label_if(cond, l@)),
{
    let ghost acc = strs(v@);
    if cond {
        push_label(v, l);
        assert(label_if(cond, l@).drop_last() =~= Seq::<Seq<char>>::empty());
        assert(insert_all(acc, Seq::<Seq<char>>::empty()) == acc);
    } else {
        assert(insert_all(acc, label_if(cond, l@)) == acc);
    }
}

/// Adds the label `l` unless the list already holds it.
pub fn push_label(v: &mut Vec<String>, l: &str)
    ensures
        strs(final(v)@) == insert_label(strs(old(v)@), l@),
{
    push_unique(v, String::from_str(l));
}

/// Adds each label of `src`, in order, unless the list already holds it.
pub fn push_all_unique(v: &mut Vec<String>, src: &Vec<String>)
    ensures
        strs(final(v)@) == insert_all(strs(old(v)@), strs(src@)),
{
    let ghost start = strs(v@);
    let mut i: usize = 0;
    while i < src.len()
        invariant
            i <= src.len(),
            strs(v@) == insert_all(start, strs(src@).take(i as int)),
        decreases src.len() - i,
    {
        let ghost before = strs(v@);
        push_unique(v, src[i].clone());
        proof {
            let t = strs(src@).take(i as int + 1);
            assert(t.drop_last() =~= strs(src@).take(i as int));
            assert(t.last() == src@[i as int]@);
        }
        i += 1;
    }
    assert(strs(src@).take(src.len() as int) =~= strs(src@));
}

} // verus!

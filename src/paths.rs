//! File paths as `/`-separated strings: file name, parent, stem and extension.
use vstd::prelude::*;
use crate::text::{chars_of, str_eq};

verus! {

/// The index of the last `c` in `s`, or -1 when `s` holds none.
pub open spec fn last_index_of(s: Seq<char>, c: char) -> int
    decreases s.len(),
{
    if s.len() == 0 {
        -1
    } else if s.last() == c {
        s.len() - 1
    } else {
        last_index_of(s.drop_last(), c)
    }
}

pub proof fn lemma_last_index_of(s: Seq<char>, c: char)
    ensures
        -1 <= last_index_of(s, c) < s.len(),
        last_index_of(s, c) >= 0 ==> s[last_index_of(s, c)] == c,
        forall|k: int| last_index_of(s, c) < k < s.len() ==> s[k] != c,
    decreases s.len(),
{
    if s.len() > 0 && s.last() != c {
        lemma_last_index_of(s.drop_last(), c);
        assert forall|k: int| last_index_of(s, c) < k < s.len() implies s[k] != c by {
            if k < s.len() - 1 {
                assert(s.drop_last()[k] == s[k]);
            }
        }
    }
}

/// What follows the last `/` of the path (the whole path if it has none).
pub open spec fn last_component(p: Seq<char>) -> Seq<char> {
    p.subrange(last_index_of(p, '/') + 1, p.len() as int)
}

/// The file name: the last component, unless it is empty, `.` or `..`.
pub open spec fn file_name_of(p: Seq<char>) -> Option<Seq<char>> {
    let n = last_component(p);
    if n.len() == 0 || n == seq!['.'] || n == seq!['.', '.'] {
        None
    } else {
        Some(n)
    }
}

/// The directory part: what precedes the last `/` (empty if there is none).
pub open spec fn parent_of(p: Seq<char>) -> Seq<char> {
    if last_index_of(p, '/') < 0 {
        Seq::empty()
    } else {
        p.subrange(0, last_index_of(p, '/'))
    }
}

/// The extension: what follows the last `.` of the file name, unless that
/// `.` is its first character.
pub open spec fn extension_of(p: Seq<char>) -> Option<Seq<char>> {
    match file_name_of(p) {
        None => None,
        Some(n) => if last_index_of(n, '.') <= 0 {
            None
        } else {
            Some(n.subrange(last_index_of(n, '.') + 1, n.len() as int))
        },
    }
}

/// The file name without its extension.
pub open spec fn file_stem_of(p: Seq<char>) -> Option<Seq<char>> {
    match file_name_of(p) {
        None => None,
        Some(n) => if last_index_of(n, '.') <= 0 {
            Some(n)
        } else {
            Some(n.subrange(0, last_index_of(n, '.')))
        },
    }
}

/// The index of the last `c` in `s`.
fn last_index(s: &Vec<char>, c: char) -> (r: Option<usize>)
    ensures
        match r {
            None => last_index_of(s@, c) == -1,
            Some(i) => last_index_of(s@, c) == i,
        },
{
    let mut i: usize = s.len();
    while i > 0
        invariant
            i <= s.len(),
            forall|k: int| i <= k < s.len() ==> s@[k] != c,
        decreases i,
    {
        if s[i - 1] == c {
            proof {
                lemma_last_index_of(s@, c);
            }
            return Some(i - 1);
        }
        i -= 1;
    }
    proof {
        lemma_last_index_of(s@, c);
    }
    None
}

/// The last component of a path.
fn last_component_str(path: &str) -> (r: &str)
    ensures
        r@ == last_component(path@),
{
    let cs = chars_of(path);
    proof {
        lemma_last_index_of(path@, '/');
    }
    match last_index(&cs, '/') {
        None => path.substring_char(0, cs.len()),
        Some(i) => {
            assert(i < cs.len());
            path.substring_char(i + 1, cs.len())
        },
    }
}

/// The file name of a path.
pub fn file_name(path: &str) -> (r: Option<&str>)
    ensures
        match r {
            None => file_name_of(path@) is None,
            Some(n) => file_name_of(path@) == Some(n@),
        },
{
    let n = last_component_str(path);
    proof {
        reveal_strlit(".");
        reveal_strlit("..");
        assert(".."@ =~= seq!['.', '.']);
        assert("."@ =~= seq!['.']);
    }
    if n.unicode_len() == 0 || str_eq(n, ".") || str_eq(n, "..") {
        None
    } else {
        Some(n)
    }
}

/// The directory part of a path.
pub fn parent(path: &str) -> (r: &str)
    ensures
        r@ == parent_of(path@),
{
    let cs = chars_of(path);
    proof {
        lemma_last_index_of(path@, '/');
    }
    match last_index(&cs, '/') {
        None => path.substring_char(0, 0),
        Some(i) => path.substring_char(0, i),
    }
}

/// The extension of a path's file name.
pub fn extension(path: &str) -> (r: Option<&str>)
    ensures
        match r {
            None => extension_of(path@) is None,
            Some(e) => extension_of(path@) == Some(e@),
        },
{
    match file_name(path) {
        None => None,
        Some(n) => {
            let cs = chars_of(n);
            proof {
                lemma_last_index_of(n@, '.');
            }
            match last_index(&cs, '.') {
                None => None,
                Some(d) => if d == 0 {
                    None
                } else {
                    assert(d < cs.len());
                    Some(n.substring_char(d + 1, cs.len()))
                },
            }
        },
    }
}

/// The file name of a path without its extension.
pub fn file_stem(path: &str) -> (r: Option<&str>)
    ensures
        match r {
            None => file_stem_of(path@) is None,
            Some(e) => file_stem_of(path@) == Some(e@),
        },
{
    match file_name(path) {
        None => None,
        Some(n) => {
            let cs = chars_of(n);
            proof {
                lemma_last_index_of(n@, '.');
            }
            match last_index(&cs, '.') {
                None => Some(n),
                Some(d) => if d == 0 {
                    Some(n)
                } else {
                    Some(n.substring_char(0, d))
                },
            }
        },
    }
}

} // verus!

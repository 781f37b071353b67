//! Character-level helpers on string slices.
//!
//! A string is viewed as its sequence of characters; every position and
//! length in this module counts characters, not bytes.

use vstd::prelude::*;
use vstd::std_specs::iter::IteratorSpec;

verus! {

/// `i` is the position of the first `c` in `s`.
pub open spec fn is_first_index_of(s: Seq<char>, c: char, i: int) -> bool {
    &&& 0 <= i < s.len()
    &&& s[i] == c
    &&& forall|j: int| 0 <= j < i ==> s[j] != c
}

/// A position that satisfies `is_first_index_of` is the one that
/// `index_of_first` names, and where no character equals `c` it names none.
pub proof fn lemma_first_index_is_unique(s: Seq<char>, c: char)
    ensures
        forall|i: int| is_first_index_of(s, c, i) ==> s.index_of_first(c) == Some(i),
        (forall|j: int| 0 <= j < s.len() ==> s[j] != c) ==> s.index_of_first(c) is None,
        s.index_of_first(c) matches Some(k) ==> is_first_index_of(s, c, k),
{
    s.index_of_first_ensures(c);
    assert forall|i: int| is_first_index_of(s, c, i) implies s.index_of_first(c) == Some(i) by {
        assert(s.contains(c));
        let k = s.index_of_first(c)->0;
        if k < i {
            assert(s[k] != c);
        } else if i < k {
            assert(s[i] != c);
        }
    }
}

/// Finds the first occurrence of `c` in `s`.
pub fn first_index_of(s: &str, c: char) -> (r: Option<usize>)
    ensures
        r is Some <==> s@.contains(c),
        r matches Some(i) ==> s@.index_of_first(c) == Some(i as int) && is_first_index_of(
            s@,
            c,
            i as int,
        ),
        r is None ==> s@.index_of_first(c) is None,
{
    let n = s.unicode_len();
    let mut it = s.chars();
    let mut i: usize = 0;
    loop
        invariant
            n == s@.len(),
            it.obeys_prophetic_iter_laws(),
            i + it.remaining().len() == n,
            it.remaining() =~= s@.skip(i as int),
            forall|j: int| 0 <= j < i ==> s@[j] != c,
        decreases n - i,
    {
        match it.next() {
            Some(d) => {
                if d == c {
                    proof {
                        assert(s@.skip(i as int)[0] == c);
                        assert(is_first_index_of(s@, c, i as int));
                        lemma_first_index_is_unique(s@, c);
                    }
                    return Some(i);
                }
                i = i + 1;
            },
            None => {
                proof {
                    lemma_first_index_is_unique(s@, c);
                }
                return None;
            },
        }
    }
}

/// Whether `s` begins with `p`.
pub fn has_prefix(s: &str, p: &str) -> (r: bool)
    ensures
        r == p@.is_prefix_of(s@),
{
    let n = s.unicode_len();
    let m = p.unicode_len();
    if m > n {
        return false;
    }
    let mut si = s.chars();
    let mut pi = p.chars();
    let mut i: usize = 0;
    while i < m
        invariant
            n == s@.len(),
            m == p@.len(),
            m <= n,
            i <= m,
            si.obeys_prophetic_iter_laws(),
            pi.obeys_prophetic_iter_laws(),
            si.remaining() =~= s@.skip(i as int),
            pi.remaining() =~= p@.skip(i as int),
            forall|j: int| 0 <= j < i ==> s@[j] == p@[j],
        decreases m - i,
    {
        let a = si.next();
        let b = pi.next();
        if a != b {
            proof {
                assert(s@[i as int] != p@[i as int]);
                assert(s@.subrange(0, m as int)[i as int] == s@[i as int]);
            }
            return false;
        }
        i = i + 1;
    }
    true
}

/// Whether `s` ends with `p`.
pub fn has_suffix(s: &str, p: &str) -> (r: bool)
    ensures
        r == p@.is_suffix_of(s@),
{
    let n = s.unicode_len();
    let m = p.unicode_len();
    if m > n {
        return false;
    }
    let tail = s.substring_char(n - m, n);
    proof {
        assert(tail@ =~= s@.subrange((n - m) as int, n as int));
        assert(tail@.subrange(0, m as int) =~= tail@);
    }
    has_prefix(tail, p)
}

} // verus!

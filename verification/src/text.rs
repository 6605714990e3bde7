//! Small text helpers the selection policies share: suffix tests on
//! filenames and membership tests on lists of names (layers, extensions).

use vstd::prelude::*;
use vstd::string::StrSliceExecFns;

verus! {

/// Whether `s` ends in `suffix`.
pub open spec fn ends_with(s: Seq<char>, suffix: Seq<char>) -> bool {
    s.len() >= suffix.len() && s.subrange(s.len() - suffix.len(), s.len() as int) =~= suffix
}

/// Whether the string `s` ends in `suffix`, compared character by character.
pub fn has_suffix(s: &str, suffix: &str) -> (r: bool)
    ensures
        r == ends_with(s@, suffix@),
{
    let n: usize = s.unicode_len();
    let m: usize = suffix.unicode_len();
    if n < m {
        return false;
    }
    let mut i: usize = 0;
    while i < m
        invariant
            i <= m,
            m <= n,
            n == s@.len(),
            m == suffix@.len(),
            forall|j: int| 0 <= j < i ==> s@[n - m + j] == suffix@[j],
        decreases m - i,
    {
        let cs = s.get_char(n - m + i);
        let cf = suffix.get_char(i);
        if cs != cf {
            proof {
                assert(!ends_with(s@, suffix@)) by {
                    if s@.len() >= suffix@.len() && s@.subrange(
                        s@.len() - suffix@.len(),
                        s@.len() as int,
                    ) =~= suffix@ {
                        assert(s@.subrange(n - m, n as int)[i as int] == s@[n - m + i]);
                        assert(false);
                    }
                }
            }
            return false;
        }
        i += 1;
    }
    proof {
        assert(s@.subrange(n - m, n as int) =~= suffix@);
    }
    true
}

/// Whether `list` holds a string whose characters equal those of `wanted`.
pub fn name_list_has(list: &Vec<String>, wanted: &String) -> (r: bool)
    ensures
        r == list.deep_view().contains(wanted@),
{
    let mut i: usize = 0;
    while i < list.len()
        invariant
            i <= list@.len(),
            forall|j: int| 0 <= j < i ==> list.deep_view()[j] != wanted@,
        decreases list@.len() - i,
    {
        if list[i].eq(wanted) {
            proof {
                assert(list.deep_view()[i as int] == wanted@);
            }
            return true;
        }
        i += 1;
    }
    proof {
        assert(!list.deep_view().contains(wanted@)) by {
            if exists|j: int|
                0 <= j < list.deep_view().len() && list.deep_view()[j] == wanted@ {
                let j = choose|j: int|
                    0 <= j < list.deep_view().len() && list.deep_view()[j] == wanted@;
                assert(false);
            }
        }
    }
    false
}

} // verus!

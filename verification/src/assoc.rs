//! The list association resolver: the contact-list ids supplied with a
//! newsletter are deduplicated by identity equality before any association
//! row is persisted, so that re-submitting the same id twice in one request
//! never yields two rows nor a uniqueness violation.

use vstd::prelude::*;
use crate::strings::str_eq;

verus! {

/// `out` holds exactly the distinct elements of `src`: no duplicates, every
/// element drawn from `src`, and every element of `src` represented.
pub open spec fn deduplicates(src: Seq<Seq<char>>, out: Seq<Seq<char>>) -> bool {
    &&& out.no_duplicates()
    &&& forall|i: int| 0 <= i < out.len() ==> src.contains(#[trigger] out[i])
    &&& forall|i: int| 0 <= i < src.len() ==> out.contains(#[trigger] src[i])
}

/// Whether some element of `v` equals `s`, by character-level equality.
pub fn contains_str(v: &Vec<String>, s: &String) -> (r: bool)
    ensures
        r == v.deep_view().contains(s@),
{
    let n = v.len();
    let mut i: usize = 0;
    while i < n
        invariant
            0 <= i <= n,
            n == v@.len(),
            forall|j: int| 0 <= j < i ==> v.deep_view()[j] != s@,
        decreases n - i,
    {
        if str_eq(v[i].as_str(), s.as_str()) {
            proof {
                assert(v.deep_view()[i as int] == s@);
            }
            return true;
        }
        i += 1;
    }
    false
}

/// Deduplicates a collection of contact-list ids by identity equality,
/// keeping the first occurrence of each.
pub fn dedup_ids(ids: &Vec<String>) -> (r: Vec<String>)
    ensures
        deduplicates(ids.deep_view(), r.deep_view()),
{
    let n = ids.len();
    let mut r: Vec<String> = Vec::new();
    let mut i: usize = 0;
    while i < n
        invariant
            0 <= i <= n,
            n == ids@.len(),
            r.deep_view().no_duplicates(),
            forall|k: int| 0 <= k < r.deep_view().len() ==> ids.deep_view().contains(
                #[trigger] r.deep_view()[k],
            ),
            forall|k: int| 0 <= k < i ==> r.deep_view().contains(#[trigger] ids.deep_view()[k]),
        decreases n - i,
    {
        let ghost prev = r.deep_view();
        if !contains_str(&r, &ids[i]) {
            r.push(ids[i].clone());
            proof {
                assert(r.deep_view() =~= prev.push(ids@[i as int]@));
                assert(ids.deep_view().contains(ids.deep_view()[i as int]));
                assert forall|k: int| 0 <= k < r.deep_view().len() implies ids.deep_view().contains(
                    #[trigger] r.deep_view()[k],
                ) by {
                    if k < prev.len() {
                        assert(r.deep_view()[k] == prev[k]);
                    } else {
                        assert(r.deep_view()[k] == ids.deep_view()[i as int]);
                    }
                }
                assert forall|k: int| 0 <= k < i + 1 implies r.deep_view().contains(
                    #[trigger] ids.deep_view()[k],
                ) by {
                    if k < i {
                        let w = choose|w: int| 0 <= w < prev.len() && prev[w] == ids.deep_view()[k];
                        assert(r.deep_view()[w] == ids.deep_view()[k]);
                    } else {
                        assert(r.deep_view()[prev.len() as int] == ids.deep_view()[i as int]);
                    }
                }
            }
        }
        proof {
            assert(ids.deep_view().contains(ids.deep_view()[i as int]));
        }
        i += 1;
    }
    r
}

} // verus!

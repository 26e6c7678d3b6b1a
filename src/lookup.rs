//! Searches over lists of names.

use vstd::prelude::*;

verus! {

/// The character sequences that a list of strings holds.
pub open spec fn names(v: Seq<String>) -> Seq<Seq<char>> {
    v.map_values(|s: String| s@)
}

pub open spec fn all_distinct(s: Seq<Seq<char>>) -> bool {
    forall|i: int, j: int| 0 <= i < s.len() && 0 <= j < s.len() && i != j ==> s[i] != s[j]
}

/// The first position of `x` in `v`.
pub fn position_of(v: &Vec<String>, x: &String) -> (r: Option<usize>)
    ensures
        match r {
            Some(i) => i < v@.len() && v@[i as int]@ == x@ && forall|j: int|
                0 <= j < i ==> #[trigger] v@[j]@ != x@,
            None => forall|j: int| 0 <= j < v@.len() ==> #[trigger] v@[j]@ != x@,
        },
{
    let mut i: usize = 0;
    while i < v.len()
        invariant
            i <= v@.len(),
            forall|j: int| 0 <= j < i ==> #[trigger] v@[j]@ != x@,
        decreases v@.len() - i,
    {
        if v[i] == *x {
            return Some(i);
        }
        i = i + 1;
    }
    None
}

/// Whether `x` occurs in `v`.
pub fn contains_name(v: &Vec<String>, x: &String) -> (r: bool)
    ensures
        r == names(v@).contains(x@),
{
    let p = position_of(v, x);
    proof {
        if p is Some {
            assert(names(v@)[p->0 as int] == x@);
        } else if names(v@).contains(x@) {
            let j = choose|j: int| 0 <= j < names(v@).len() && names(v@)[j] == x@;
            assert(v@[j]@ == x@);
        }
    }
    p.is_some()
}

/// Whether no name occurs twice in `v`.
pub fn distinct_names(v: &Vec<String>) -> (r: bool)
    ensures
        r == all_distinct(names(v@)),
{
    let n = v.len();
    let mut i: usize = 0;
    while i < n
        invariant
            n == v@.len(),
            i <= n,
            forall|a: int, b: int| 0 <= a < i && 0 <= b < i && a != b ==> v@[a]@ != v@[b]@,
        decreases n - i,
    {
        let mut j: usize = 0;
        while j < i
            invariant
                n == v@.len(),
                i < n,
                j <= i,
                forall|b: int| 0 <= b < j ==> v@[b]@ != v@[i as int]@,
            decreases i - j,
        {
            if v[j] == v[i] {
                assert(names(v@)[j as int] == names(v@)[i as int]);
                return false;
            }
            j = j + 1;
        }
        i = i + 1;
    }
    assert forall|a: int, b: int|
        0 <= a < names(v@).len() && 0 <= b < names(v@).len() && a != b implies names(v@)[a]
        != names(v@)[b] by {
        assert(names(v@)[a] == v@[a]@);
        assert(names(v@)[b] == v@[b]@);
    }
    true
}

} // verus!

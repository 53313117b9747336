//! Character-level comparisons of names.

use vstd::prelude::*;

verus! {

/// Whether two names are the same character for character (case-sensitive).
pub fn same_text(a: &str, b: &str) -> (r: bool)
    ensures
        r == (a@ == b@),
{
    let n = a.unicode_len();
    if n != b.unicode_len() {
        return false;
    }
    let mut i: usize = 0;
    while i < n
        invariant
            i <= n,
            n == a@.len(),
            n == b@.len(),
            forall|j: int| 0 <= j < i ==> a@[j] == b@[j],
        decreases n - i,
    {
        if a.get_char(i) != b.get_char(i) {
            return false;
        }
        i += 1;
    }
    assert(a@ =~= b@);
    true
}

/// No two entries of `names` are equal.
pub open spec fn all_distinct(names: Seq<Seq<char>>) -> bool {
    forall|i: int, j: int| 0 <= i < names.len() && 0 <= j < names.len() && i != j ==> names[i] != names[j]
}

/// Whether `names` holds no name twice.
pub fn distinct_names(names: &Vec<&str>) -> (r: bool)
    ensures
        r == all_distinct(names@.map_values(|s: &str| s@)),
{
    let ghost view = names@.map_values(|s: &str| s@);
    let n = names.len();
    let mut i: usize = 0;
    while i < n
        invariant
            i <= n,
            n == names@.len(),
            view == names@.map_values(|s: &str| s@),
            forall|a: int, b: int| 0 <= a < i && 0 <= b < n && a != b ==> view[a] != view[b],
        decreases n - i,
    {
        let mut j: usize = 0;
        while j < n
            invariant
                i < n,
                j <= n,
                n == names@.len(),
                view == names@.map_values(|s: &str| s@),
                forall|b: int| 0 <= b < j && b != i ==> view[i as int] != view[b],
            decreases n - j,
        {
            if j != i && same_text(names[i], names[j]) {
                assert(view[i as int] == view[j as int]);
                return false;
            }
            j += 1;
        }
        i += 1;
    }
    true
}

/// Whether `names` holds `name` (case-sensitive).
pub fn contains_text(names: &Vec<&str>, name: &str) -> (r: bool)
    ensures
        r == names@.map_values(|s: &str| s@).contains(name@),
{
    let ghost view = names@.map_values(|s: &str| s@);
    let n = names.len();
    let mut i: usize = 0;
    while i < n
        invariant
            i <= n,
            n == names@.len(),
            view == names@.map_values(|s: &str| s@),
            forall|j: int| 0 <= j < i ==> view[j] != name@,
        decreases n - i,
    {
        if same_text(names[i], name) {
            assert(view[i as int] == name@);
            return true;
        }
        i += 1;
    }
    false
}

} // verus!

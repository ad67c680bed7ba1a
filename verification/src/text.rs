//! Substring search and removal on strings, specified over sequences of characters.

use vstd::prelude::*;
use vstd::string::*;

verus! {

/// `pat` occurs in `s` at index `i`.
pub open spec fn occurs_at(s: Seq<char>, pat: Seq<char>, i: int) -> bool {
    &&& 0 <= i
    &&& i + pat.len() <= s.len()
    &&& s.subrange(i, i + pat.len()) == pat
}

/// `s` begins with `pat`.
pub open spec fn has_prefix(s: Seq<char>, pat: Seq<char>) -> bool {
    occurs_at(s, pat, 0)
}

/// `s` ends with `pat`.
pub open spec fn has_suffix(s: Seq<char>, pat: Seq<char>) -> bool {
    occurs_at(s, pat, s.len() - pat.len())
}

/// `pat` occurs somewhere in `s`.
pub open spec fn occurs(s: Seq<char>, pat: Seq<char>) -> bool {
    exists|i: int| occurs_at(s, pat, i)
}

/// `i` is the leftmost index at which `pat` occurs in `s`.
pub open spec fn is_first_occurrence(s: Seq<char>, pat: Seq<char>, i: int) -> bool {
    &&& occurs_at(s, pat, i)
    &&& forall|j: int| 0 <= j < i ==> !occurs_at(s, pat, j)
}

/// The leftmost index at which `pat` occurs in `s` (meaningful when it occurs at all).
pub open spec fn first_occurrence(s: Seq<char>, pat: Seq<char>) -> int {
    choose|i: int| is_first_occurrence(s, pat, i)
}

/// `s` with the leftmost occurrence of `pat` cut out; `s` itself when `pat` does not occur.
pub open spec fn without_first(s: Seq<char>, pat: Seq<char>) -> Seq<char> {
    if occurs(s, pat) {
        let i = first_occurrence(s, pat);
        s.subrange(0, i) + s.subrange(i + pat.len(), s.len() as int)
    } else {
        s
    }
}

/// `s` with a leading `pat` cut off; `s` itself when it does not begin with `pat`.
pub open spec fn without_prefix(s: Seq<char>, pat: Seq<char>) -> Seq<char> {
    if has_prefix(s, pat) {
        s.subrange(pat.len() as int, s.len() as int)
    } else {
        s
    }
}

/// There is at most one leftmost occurrence.
pub proof fn lemma_first_occurrence_unique(s: Seq<char>, pat: Seq<char>, i: int, j: int)
    requires
        is_first_occurrence(s, pat, i),
        is_first_occurrence(s, pat, j),
    ensures
        i == j,
{
}

/// A known leftmost occurrence is the one `first_occurrence` names.
pub proof fn lemma_first_occurrence_is(s: Seq<char>, pat: Seq<char>, i: int)
    requires
        is_first_occurrence(s, pat, i),
    ensures
        occurs(s, pat),
        first_occurrence(s, pat) == i,
{
    lemma_first_occurrence_unique(s, pat, i, first_occurrence(s, pat));
}

/// Where `s` begins with `pat`, cutting out the leftmost occurrence cuts off that prefix.
pub proof fn lemma_prefix_is_first_occurrence(s: Seq<char>, pat: Seq<char>)
    requires
        has_prefix(s, pat),
    ensures
        without_first(s, pat) == without_prefix(s, pat),
{
    lemma_first_occurrence_is(s, pat, 0);
    assert(s.subrange(0, 0) + s.subrange(pat.len() as int, s.len() as int) =~= s.subrange(
        pat.len() as int,
        s.len() as int,
    ));
}

/// The characters of `s`, in order.
pub fn chars_of(s: &str) -> (v: Vec<char>)
    ensures
        v@ == s@,
{
    let mut v: Vec<char> = Vec::new();
    for c in it: s.chars()
        invariant
            it.seq() == s@,
            v@ == s@.subrange(0, it.index() as int),
    {
        v.push(c);
        assert(v@ =~= s@.subrange(0, it.index() + 1));
    }
    assert(s@.subrange(0, s@.len() as int) =~= s@);
    v
}

/// Whether `pat` occurs in `s` at index `i`.
pub fn matches_at(s: &Vec<char>, pat: &Vec<char>, i: usize) -> (b: bool)
    ensures
        b == occurs_at(s@, pat@, i as int),
{
    let n: usize = s.len();
    let m: usize = pat.len();
    if m > n || i > n - m {
        return false;
    }
    let mut k: usize = 0;
    while k < m
        invariant
            n == s@.len(),
            m == pat@.len(),
            i + m <= n,
            k <= m,
            forall|j: int| 0 <= j < k ==> s@[i + j] == pat@[j],
        decreases m - k,
    {
        if s[i + k] != pat[k] {
            assert(s@.subrange(i as int, i + m)[k as int] == s@[i + k]);
            return false;
        }
        k = k + 1;
    }
    assert(s@.subrange(i as int, i + m) =~= pat@);
    true
}

/// The leftmost index at which `pat` occurs in `s`, if it occurs.
pub fn find_first(s: &Vec<char>, pat: &Vec<char>) -> (r: Option<usize>)
    ensures
        match r {
            Some(i) => is_first_occurrence(s@, pat@, i as int),
            None => !occurs(s@, pat@),
        },
{
    let n: usize = s.len();
    let m: usize = pat.len();
    if m > n {
        return None;
    }
    let last: usize = n - m;
    let mut i: usize = 0;
    loop
        invariant
            n == s@.len(),
            m == pat@.len(),
            last == n - m,
            i <= last,
            forall|j: int| 0 <= j < i ==> !occurs_at(s@, pat@, j),
        decreases last - i,
    {
        if matches_at(s, pat, i) {
            return Some(i);
        }
        if i == last {
            return None;
        }
        i = i + 1;
    }
}

/// Whether `s` begins with `pat`.
pub fn starts_with(s: &str, pat: &str) -> (b: bool)
    ensures
        b == has_prefix(s@, pat@),
{
    let sv = chars_of(s);
    let pv = chars_of(pat);
    matches_at(&sv, &pv, 0)
}

/// `s` without the leftmost occurrence of `pat`.
pub fn remove_first(s: &str, pat: &str) -> (r: String)
    ensures
        r@ == without_first(s@, pat@),
{
    let sv = chars_of(s);
    let pv = chars_of(pat);
    match find_first(&sv, &pv) {
        Some(i) => {
            proof {
                lemma_first_occurrence_is(s@, pat@, i as int);
            }
            let n: usize = sv.len();
            let m: usize = pv.len();
            assert(occurs_at(sv@, pv@, i as int));
            let head = s.substring_char(0, i);
            let tail = s.substring_char(i + m, n);
            String::from_str(head).concat(tail)
        },
        None => String::from_str(s),
    }
}

/// `s` without a leading `pat`.
pub fn strip_prefix(s: &str, pat: &str) -> (r: String)
    ensures
        r@ == without_prefix(s@, pat@),
{
    let sv = chars_of(s);
    let pv = chars_of(pat);
    if matches_at(&sv, &pv, 0) {
        String::from_str(s.substring_char(pv.len(), sv.len()))
    } else {
        String::from_str(s)
    }
}

} // verus!

//! Searching and slicing text, as sequences of characters.

use vstd::prelude::*;

verus! {

broadcast use vstd::string::group_string_axioms;

/// `p` occurs in `s` at position `i`.
pub open spec fn occurs_at(s: Seq<char>, p: Seq<char>, i: int) -> bool {
    0 <= i && i + p.len() <= s.len() && s.subrange(i, i + p.len()) == p
}

/// The first position at or after `k` where `p` occurs in `s`.
pub open spec fn first_from(s: Seq<char>, p: Seq<char>, k: int) -> Option<int>
    decreases s.len() + 1 - k,
{
    if k < 0 || k > s.len() {
        None
    } else if occurs_at(s, p, k) {
        Some(k)
    } else {
        first_from(s, p, k + 1)
    }
}

/// The last position at or before `k` where `p` occurs in `s`.
pub open spec fn last_upto(s: Seq<char>, p: Seq<char>, k: int) -> Option<int>
    decreases k + 1,
{
    if k < 0 {
        None
    } else if occurs_at(s, p, k) {
        Some(k)
    } else {
        last_upto(s, p, k - 1)
    }
}

/// The first position where `p` occurs in `s`.
pub open spec fn first_occurrence(s: Seq<char>, p: Seq<char>) -> Option<int> {
    first_from(s, p, 0)
}

/// The last position where `p` occurs in `s`.
pub open spec fn last_occurrence(s: Seq<char>, p: Seq<char>) -> Option<int> {
    last_upto(s, p, s.len() - p.len())
}

/// `p` occurs somewhere in `s`.
pub open spec fn has_substring(s: Seq<char>, p: Seq<char>) -> bool {
    first_occurrence(s, p) is Some
}

/// `s` ends with `p`.
pub open spec fn has_suffix(s: Seq<char>, p: Seq<char>) -> bool {
    p.len() <= s.len() && s.subrange(s.len() - p.len(), s.len() as int) == p
}

/// The part of `s` before the first occurrence of `p`; all of `s` where `p` does not occur.
pub open spec fn prefix_before(s: Seq<char>, p: Seq<char>) -> Seq<char> {
    match first_occurrence(s, p) {
        Some(i) => s.take(i),
        None => s,
    }
}

/// The position, as an integer, that an optional index stands for.
pub open spec fn opt_index(r: Option<usize>) -> Option<int> {
    match r {
        Some(i) => Some(i as int),
        None => None,
    }
}

proof fn lemma_first_from_past_end(s: Seq<char>, p: Seq<char>, k: int)
    requires
        k + p.len() > s.len(),
    ensures
        first_from(s, p, k) is None,
    decreases s.len() + 1 - k,
{
    if k < 0 || k > s.len() {
    } else {
        lemma_first_from_past_end(s, p, k + 1);
    }
}

proof fn lemma_first_from_bounds(s: Seq<char>, p: Seq<char>, k: int)
    ensures
        first_from(s, p, k) matches Some(i) ==> k <= i && occurs_at(s, p, i)
            && forall|j: int| k <= j < i ==> !occurs_at(s, p, j),
    decreases s.len() + 1 - k,
{
    if k < 0 || k > s.len() {
    } else if occurs_at(s, p, k) {
    } else {
        lemma_first_from_bounds(s, p, k + 1);
    }
}

/// What `first_occurrence` gives: the least position where `p` occurs.
pub proof fn lemma_first_occurrence(s: Seq<char>, p: Seq<char>)
    ensures
        first_occurrence(s, p) matches Some(i) ==> occurs_at(s, p, i) && forall|j: int|
            0 <= j < i ==> !occurs_at(s, p, j),
        first_occurrence(s, p) is None ==> forall|j: int| !occurs_at(s, p, j),
{
    lemma_first_from_bounds(s, p, 0);
    if first_occurrence(s, p) is None {
        assert forall|j: int| !occurs_at(s, p, j) by {
            if occurs_at(s, p, j) {
                lemma_first_from_none_skips(s, p, 0, j);
            }
        }
    }
}

proof fn lemma_first_from_none_skips(s: Seq<char>, p: Seq<char>, k: int, j: int)
    requires
        0 <= k <= j,
        first_from(s, p, k) is None,
    ensures
        !occurs_at(s, p, j),
    decreases j - k,
{
    if k < j {
        lemma_first_from_none_skips(s, p, k + 1, j);
    }
}

proof fn lemma_last_upto(s: Seq<char>, p: Seq<char>, k: int)
    ensures
        last_upto(s, p, k) matches Some(i) ==> i <= k && occurs_at(s, p, i),
    decreases k + 1,
{
    if k >= 0 && !occurs_at(s, p, k) {
        lemma_last_upto(s, p, k - 1);
    }
}

/// What `last_occurrence` gives is a position where `p` occurs.
pub proof fn lemma_last_occurrence(s: Seq<char>, p: Seq<char>)
    ensures
        last_occurrence(s, p) matches Some(i) ==> occurs_at(s, p, i),
{
    lemma_last_upto(s, p, s.len() - p.len());
}

/// Whether `p` occurs in `s` at position `i`.
fn matches_at(s: &Vec<char>, p: &Vec<char>, i: usize) -> (r: bool)
    requires
        i + p.len() <= s.len(),
    ensures
        r == occurs_at(s@, p@, i as int),
{
    let mut j: usize = 0;
    while j < p.len()
        invariant
            i + p.len() <= s.len(),
            j <= p.len(),
            forall|t: int| 0 <= t < j ==> s@[i + t] == p@[t],
        decreases p.len() - j,
    {
        if s[i + j] != p[j] {
            assert(s@.subrange(i as int, i + p.len())[j as int] != p@[j as int]);
            return false;
        }
        j = j + 1;
    }
    assert(s@.subrange(i as int, i + p.len()) =~= p@);
    true
}

/// The first position (in characters) where `p` occurs in `s`.
pub fn find_chars(s: &Vec<char>, p: &Vec<char>) -> (r: Option<usize>)
    ensures
        opt_index(r) == first_occurrence(s@, p@),
{
    let n = s.len();
    let m = p.len();
    if m > n {
        proof {
            lemma_first_from_past_end(s@, p@, 0);
        }
        return None;
    }
    let mut i: usize = 0;
    loop
        invariant
            n == s.len(),
            m == p.len(),
            m <= n,
            i <= n - m,
            first_from(s@, p@, 0) == first_from(s@, p@, i as int),
        decreases n - m - i,
    {
        if matches_at(s, p, i) {
            return Some(i);
        }
        if i == n - m {
            proof {
                lemma_first_from_past_end(s@, p@, i + 1);
            }
            return None;
        }
        i = i + 1;
    }
}

/// The last position (in characters) where `p` occurs in `s`.
pub fn rfind_chars(s: &Vec<char>, p: &Vec<char>) -> (r: Option<usize>)
    ensures
        opt_index(r) == last_occurrence(s@, p@),
{
    let n = s.len();
    let m = p.len();
    if m > n {
        assert(last_upto(s@, p@, s@.len() - p@.len()) is None);
        return None;
    }
    let mut i: usize = n - m;
    loop
        invariant
            n == s.len(),
            m == p.len(),
            m <= n,
            i <= n - m,
            last_occurrence(s@, p@) == last_upto(s@, p@, i as int),
        decreases i,
    {
        if matches_at(s, p, i) {
            return Some(i);
        }
        if i == 0 {
            assert(last_upto(s@, p@, -1) is None);
            return None;
        }
        i = i - 1;
    }
}

/// Whether `s` ends with `p`.
pub fn ends_with_chars(s: &Vec<char>, p: &Vec<char>) -> (r: bool)
    ensures
        r == has_suffix(s@, p@),
{
    if p.len() > s.len() {
        return false;
    }
    let r = matches_at(s, p, s.len() - p.len());
    r
}

/// The first position (in characters) where `p` occurs in `s`.
pub fn find_str(s: &str, p: &str) -> (r: Option<usize>)
    ensures
        opt_index(r) == first_occurrence(s@, p@),
{
    let sc = chars_of(s);
    let pc = chars_of(p);
    find_chars(&sc, &pc)
}

/// The last position (in characters) where `p` occurs in `s`.
pub fn rfind_str(s: &str, p: &str) -> (r: Option<usize>)
    ensures
        opt_index(r) == last_occurrence(s@, p@),
{
    let sc = chars_of(s);
    let pc = chars_of(p);
    rfind_chars(&sc, &pc)
}

/// Whether `p` occurs in `s`.
pub fn contains_str(s: &str, p: &str) -> (r: bool)
    ensures
        r == has_substring(s@, p@),
{
    let f = find_str(s, p);
    f.is_some()
}

/// Whether `s` ends with `p`.
pub fn ends_with_str(s: &str, p: &str) -> (r: bool)
    ensures
        r == has_suffix(s@, p@),
{
    let sc = chars_of(s);
    let pc = chars_of(p);
    ends_with_chars(&sc, &pc)
}

/// The characters of `s`.
pub fn chars_of(s: &str) -> (v: Vec<char>)
    ensures
        v@ == s@,
{
    let mut v: Vec<char> = Vec::new();
    for c in it: s.chars()
        invariant
            it.seq() == s@,
            v@ == it.seq().take(it.index() as int),
    {
        v.push(c);
    }
    v
}

/// The first `n` characters of `s`, as a new string.
pub fn take_chars(s: &str, n: usize) -> (r: String)
    requires
        n <= s@.len(),
    ensures
        r@ == s@.take(n as int),
{
    let part = s.substring_char(0, n);
    String::from_str(part)
}

/// `a` followed by `b`, as a new string.
pub fn join2(a: &str, b: &str) -> (r: String)
    ensures
        r@ == a@ + b@,
{
    let mut r = String::from_str(a);
    r.append(b);
    r
}

/// `a`, `b` and `c` one after another, as a new string.
pub fn join3(a: &str, b: &str, c: &str) -> (r: String)
    ensures
        r@ == a@ + b@ + c@,
{
    let mut r = String::from_str(a);
    r.append(b);
    r.append(c);
    r
}

} // verus!

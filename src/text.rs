use vstd::prelude::*;
use vstd::string::StrSliceExecFns;

verus! {

/// `t` stands in `s` starting at index `i`.
pub open spec fn occurs_at(s: Seq<char>, t: Seq<char>, i: int) -> bool {
    0 <= i && i + t.len() <= s.len() && s.subrange(i, i + t.len()) == t
}

/// `i` is where `t` occurs first in `s`.
pub open spec fn is_first_occurrence(s: Seq<char>, t: Seq<char>, i: int) -> bool {
    occurs_at(s, t, i) && forall|j: int| 0 <= j < i ==> !occurs_at(s, t, j)
}

/// `i` is where `t` occurs last in `s`.
pub open spec fn is_last_occurrence(s: Seq<char>, t: Seq<char>, i: int) -> bool {
    occurs_at(s, t, i) && forall|j: int| i < j ==> !occurs_at(s, t, j)
}

/// Where `t` occurs first in `s`, if anywhere.
pub open spec fn first_occurrence(s: Seq<char>, t: Seq<char>) -> Option<int> {
    if exists|i: int| is_first_occurrence(s, t, i) {
        Some(choose|i: int| is_first_occurrence(s, t, i))
    } else {
        None
    }
}

/// Where `t` occurs last in `s`, if anywhere.
pub open spec fn last_occurrence(s: Seq<char>, t: Seq<char>) -> Option<int> {
    if exists|i: int| is_last_occurrence(s, t, i) {
        Some(choose|i: int| is_last_occurrence(s, t, i))
    } else {
        None
    }
}

/// `s` without `p` in front of it, where `s` starts with `p`; else `s` itself.
pub open spec fn strip_leading(s: Seq<char>, p: Seq<char>) -> Seq<char> {
    if p.is_prefix_of(s) {
        s.subrange(p.len() as int, s.len() as int)
    } else {
        s
    }
}

/// `s` with the first occurrence of `t` taken out; `s` itself where `t` does not occur.
pub open spec fn remove_first(s: Seq<char>, t: Seq<char>) -> Seq<char> {
    match first_occurrence(s, t) {
        Some(i) => s.subrange(0, i) + s.subrange(i + t.len(), s.len() as int),
        None => s,
    }
}

proof fn lemma_first_unique(s: Seq<char>, t: Seq<char>, i: int)
    requires
        is_first_occurrence(s, t, i),
    ensures
        first_occurrence(s, t) == Some(i),
{
    let c = choose|k: int| is_first_occurrence(s, t, k);
    assert(is_first_occurrence(s, t, c));
    if c < i {
        assert(!occurs_at(s, t, c));
    } else if c > i {
        assert(!occurs_at(s, t, i));
    }
}

proof fn lemma_last_unique(s: Seq<char>, t: Seq<char>, i: int)
    requires
        is_last_occurrence(s, t, i),
    ensures
        last_occurrence(s, t) == Some(i),
{
    let c = choose|k: int| is_last_occurrence(s, t, k);
    assert(is_last_occurrence(s, t, c));
    if c < i {
        assert(!occurs_at(s, t, i));
    } else if c > i {
        assert(!occurs_at(s, t, c));
    }
}

/// The characters of `s`, one per element.
pub fn chars_of(s: &str) -> (r: Vec<char>)
    ensures
        r@ == s@,
        r@.len() <= usize::MAX,
{
    let n = s.unicode_len();
    let mut r: Vec<char> = Vec::new();
    let mut i: usize = 0;
    while i < n
        invariant
            n == s@.len(),
            i <= n,
            r@ == s@.subrange(0, i as int),
        decreases n - i,
    {
        r.push(s.get_char(i));
        i = i + 1;
    }
    assert(r@ =~= s@);
    r
}

/// Whether `t` stands in `s` starting at index `i`.
pub fn occurs_at_index(s: &Vec<char>, t: &Vec<char>, i: usize) -> (r: bool)
    ensures
        r == occurs_at(s@, t@, i as int),
{
    if t.len() > s.len() || i > s.len() - t.len() {
        return false;
    }
    let mut k: usize = 0;
    while k < t.len()
        invariant
            i + t@.len() <= s@.len(),
            s@.len() <= usize::MAX,
            k <= t@.len(),
            forall|j: int| 0 <= j < k ==> s@[i + j] == t@[j],
        decreases t@.len() - k,
    {
        if s[i + k] != t[k] {
            assert(s@.subrange(i as int, i + t@.len())[k as int] != t@[k as int]);
            return false;
        }
        k = k + 1;
    }
    assert(s@.subrange(i as int, i + t@.len()) =~= t@);
    true
}

/// Where `t` occurs first in `s`.
pub fn find_first(s: &Vec<char>, t: &Vec<char>) -> (r: Option<usize>)
    ensures
        match r {
            Some(i) => first_occurrence(s@, t@) == Some(i as int) && i + t@.len() <= s@.len(),
            None => first_occurrence(s@, t@) is None,
        },
{
    if t.len() > s.len() {
        assert forall|k: int| !is_first_occurrence(s@, t@, k) by {}
        return None;
    }
    if t.len() == 0 {
        assert(s@.subrange(0, 0) =~= t@);
        proof {
            lemma_first_unique(s@, t@, 0);
        }
        return Some(0);
    }
    let last = s.len() - t.len();
    let mut i: usize = 0;
    while i <= last
        invariant
            last == s@.len() - t@.len(),
            t@.len() > 0,
            s@.len() <= usize::MAX,
            i <= last + 1,
            forall|j: int| 0 <= j < i ==> !occurs_at(s@, t@, j),
        decreases last + 1 - i,
    {
        if occurs_at_index(s, t, i) {
            proof {
                lemma_first_unique(s@, t@, i as int);
            }
            return Some(i);
        }
        i = i + 1;
    }
    assert forall|k: int| !is_first_occurrence(s@, t@, k) by {
        if 0 <= k < i {
        } else {
            assert(!occurs_at(s@, t@, k));
        }
    }
    None
}

/// Where `t` occurs last in `s`.
pub fn find_last(s: &Vec<char>, t: &Vec<char>) -> (r: Option<usize>)
    ensures
        match r {
            Some(i) => last_occurrence(s@, t@) == Some(i as int) && i + t@.len() <= s@.len(),
            None => last_occurrence(s@, t@) is None,
        },
{
    if t.len() > s.len() {
        assert forall|k: int| !is_last_occurrence(s@, t@, k) by {}
        return None;
    }
    if t.len() == 0 {
        assert(s@.subrange(s@.len() as int, s@.len() as int) =~= t@);
        proof {
            lemma_last_unique(s@, t@, s@.len() as int);
        }
        return Some(s.len());
    }
    let mut i: usize = s.len() - t.len() + 1;
    while i > 0
        invariant
            i <= s@.len() - t@.len() + 1,
            forall|j: int| i <= j ==> !occurs_at(s@, t@, j),
        decreases i,
    {
        if occurs_at_index(s, t, i - 1) {
            proof {
                lemma_last_unique(s@, t@, i - 1);
            }
            return Some(i - 1);
        }
        i = i - 1;
    }
    assert forall|k: int| !is_last_occurrence(s@, t@, k) by {
        if k >= 0 {
            assert(!occurs_at(s@, t@, k));
        }
    }
    None
}

} // verus!

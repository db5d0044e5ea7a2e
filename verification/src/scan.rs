//! Character scanning over borrowed text: first-occurrence searches and
//! string equality, with their specification-level counterparts.

use vstd::prelude::*;

verus! {

/// A request-line token ends at a space or a carriage return.
pub open spec fn is_delimiter(c: char) -> bool {
    c == ' ' || c == '\r'
}

/// Index of the first delimiter in `s`, or -1 when `s` holds none.
pub open spec fn first_delimiter(s: Seq<char>) -> int
    decreases s.len(),
{
    if s.len() == 0 {
        -1
    } else if is_delimiter(s[0]) {
        0
    } else if first_delimiter(s.skip(1)) == -1 {
        -1
    } else {
        1 + first_delimiter(s.skip(1))
    }
}

/// Index of the first occurrence of `c` in `s`, or -1 when `c` is absent.
pub open spec fn first_index_of(s: Seq<char>, c: char) -> int
    decreases s.len(),
{
    if s.len() == 0 {
        -1
    } else if s[0] == c {
        0
    } else if first_index_of(s.skip(1), c) == -1 {
        -1
    } else {
        1 + first_index_of(s.skip(1), c)
    }
}

/// `first_delimiter` returns -1 exactly when no delimiter occurs, and
/// otherwise the least index of one.
pub proof fn lemma_first_delimiter(s: Seq<char>)
    ensures
        first_delimiter(s) == -1 ==> forall|i: int| 0 <= i < s.len() ==> !is_delimiter(s[i]),
        first_delimiter(s) != -1 ==> {
            &&& 0 <= first_delimiter(s) < s.len()
            &&& is_delimiter(s[first_delimiter(s)])
            &&& forall|i: int| 0 <= i < first_delimiter(s) ==> !is_delimiter(s[i])
        },
    decreases s.len(),
{
    if s.len() != 0 && !is_delimiter(s[0]) {
        let t = s.skip(1);
        lemma_first_delimiter(t);
        assert(forall|i: int| 0 <= i < t.len() ==> t[i] == s[i + 1]);
        if first_delimiter(t) == -1 {
            assert forall|i: int| 0 <= i < s.len() implies !is_delimiter(s[i]) by {
                if i > 0 {
                    assert(!is_delimiter(t[i - 1]));
                }
            }
        } else {
            let k = first_delimiter(s);
            assert(s[k] == t[k - 1]);
            assert forall|i: int| 0 <= i < k implies !is_delimiter(s[i]) by {
                if i > 0 {
                    assert(!is_delimiter(t[i - 1]));
                }
            }
        }
    }
}

/// The least index holding a delimiter is what `first_delimiter` returns.
pub proof fn lemma_first_delimiter_at(s: Seq<char>, k: int)
    requires
        0 <= k < s.len(),
        is_delimiter(s[k]),
        forall|i: int| 0 <= i < k ==> !is_delimiter(s[i]),
    ensures
        first_delimiter(s) == k,
{
    lemma_first_delimiter(s);
}

/// `first_index_of` returns -1 exactly when `c` is absent, and otherwise
/// the least index of `c`.
pub proof fn lemma_first_index_of(s: Seq<char>, c: char)
    ensures
        first_index_of(s, c) == -1 ==> forall|i: int| 0 <= i < s.len() ==> s[i] != c,
        first_index_of(s, c) != -1 ==> {
            &&& 0 <= first_index_of(s, c) < s.len()
            &&& s[first_index_of(s, c)] == c
            &&& forall|i: int| 0 <= i < first_index_of(s, c) ==> s[i] != c
        },
    decreases s.len(),
{
    if s.len() != 0 && s[0] != c {
        let t = s.skip(1);
        lemma_first_index_of(t, c);
        assert(forall|i: int| 0 <= i < t.len() ==> t[i] == s[i + 1]);
        if first_index_of(t, c) == -1 {
            assert forall|i: int| 0 <= i < s.len() implies s[i] != c by {
                if i > 0 {
                    assert(t[i - 1] != c);
                }
            }
        } else {
            let k = first_index_of(s, c);
            assert(s[k] == t[k - 1]);
            assert forall|i: int| 0 <= i < k implies s[i] != c by {
                if i > 0 {
                    assert(t[i - 1] != c);
                }
            }
        }
    }
}

/// The least index holding `c` is what `first_index_of` returns.
pub proof fn lemma_first_index_of_at(s: Seq<char>, c: char, k: int)
    requires
        0 <= k < s.len(),
        s[k] == c,
        forall|i: int| 0 <= i < k ==> s[i] != c,
    ensures
        first_index_of(s, c) == k,
{
    lemma_first_index_of(s, c);
}

/// Position of the first space or carriage return in `s`, if any.
pub fn find_delimiter(s: &str) -> (r: Option<usize>)
    ensures
        match r {
            Some(i) => first_delimiter(s@) == i,
            None => first_delimiter(s@) == -1,
        },
{
    let n: usize = s.unicode_len();
    let mut i: usize = 0;
    while i < n
        invariant
            n == s@.len(),
            0 <= i <= n,
            forall|j: int| 0 <= j < i ==> !is_delimiter(s@[j]),
        decreases n - i,
    {
        let c: char = s.get_char(i);
        if c == ' ' || c == '\r' {
            proof {
                lemma_first_delimiter_at(s@, i as int);
            }
            return Some(i);
        }
        i = i + 1;
    }
    proof {
        lemma_first_delimiter(s@);
    }
    None
}

/// Position of the first occurrence of `c` in `s`, if any.
pub fn find_char(s: &str, c: char) -> (r: Option<usize>)
    ensures
        match r {
            Some(i) => first_index_of(s@, c) == i,
            None => first_index_of(s@, c) == -1,
        },
{
    let n: usize = s.unicode_len();
    let mut i: usize = 0;
    while i < n
        invariant
            n == s@.len(),
            0 <= i <= n,
            forall|j: int| 0 <= j < i ==> s@[j] != c,
        decreases n - i,
    {
        if s.get_char(i) == c {
            proof {
                lemma_first_index_of_at(s@, c, i as int);
            }
            return Some(i);
        }
        i = i + 1;
    }
    proof {
        lemma_first_index_of(s@, c);
    }
    None
}

/// Character-for-character equality of two borrowed strings.
pub fn str_eq(a: &str, b: &str) -> (r: bool)
    ensures
        r <==> a@ == b@,
{
    let na: usize = a.unicode_len();
    let nb: usize = b.unicode_len();
    if na != nb {
        return false;
    }
    let mut i: usize = 0;
    while i < na
        invariant
            na == a@.len(),
            na == b@.len(),
            0 <= i <= na,
            forall|j: int| 0 <= j < i ==> a@[j] == b@[j],
        decreases na - i,
    {
        if a.get_char(i) != b.get_char(i) {
            return false;
        }
        i = i + 1;
    }
    proof {
        assert(a@ =~= b@);
    }
    true
}

} // verus!

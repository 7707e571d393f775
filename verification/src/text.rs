//! Plain text utilities: moving between `String` and `Vec<char>`, appending
//! literal runs, and substring search.

use vstd::prelude::*;

verus! {

/// Collects the characters of a string slice into a vector, in order.
pub fn chars_of(s: &str) -> (v: Vec<char>)
    ensures
        v@ == s@,
{
    let n: usize = s.unicode_len();
    let mut v: Vec<char> = Vec::new();
    let mut i: usize = 0;
    while i < n
        invariant
            n == s@.len(),
            i <= n,
            v@ == s@.subrange(0, i as int),
        decreases n - i,
    {
        v.push(s.get_char(i));
        proof {
            assert(v@ =~= s@.subrange(0, i + 1));
        }
        i = i + 1;
    }
    proof {
        assert(v@ =~= s@);
    }
    v
}

/// Relies on `String`'s `FromIterator<&char>` impl: collecting the characters
/// of a vector yields the string made of exactly those characters, in order.
#[verifier::external_body]
pub fn string_of(v: &Vec<char>) -> (s: String)
    ensures
        s@ == v@,
{
    v.iter().collect()
}

/// Appends every character of `lit` to `out`, in order.
pub fn push_lit(out: &mut Vec<char>, lit: &str)
    ensures
        final(out)@ == old(out)@ + lit@,
{
    let n: usize = lit.unicode_len();
    let mut i: usize = 0;
    while i < n
        invariant
            n == lit@.len(),
            i <= n,
            out@ == old(out)@ + lit@.subrange(0, i as int),
        decreases n - i,
    {
        out.push(lit.get_char(i));
        proof {
            assert(out@ =~= old(out)@ + lit@.subrange(0, i + 1));
        }
        i = i + 1;
    }
    proof {
        assert(out@ =~= old(out)@ + lit@);
    }
}

/// `sub` occurs in `s` starting at position `i`.
pub open spec fn occurs_at(s: Seq<char>, sub: Seq<char>, i: int) -> bool {
    0 <= i && i + sub.len() <= s.len() && s.subrange(i, i + sub.len()) == sub
}

/// `sub` occurs somewhere in `s`.
pub open spec fn contains_seq(s: Seq<char>, sub: Seq<char>) -> bool {
    exists|i: int| occurs_at(s, sub, i)
}

/// Whether `sub` occurs in `s` starting exactly at position `i`.
fn window_eq(s: &Vec<char>, i: usize, sub: &str) -> (b: bool)
    requires
        i + sub@.len() <= s@.len(),
    ensures
        b == occurs_at(s@, sub@, i as int),
{
    let m: usize = sub.unicode_len();
    let n: usize = s.len();
    let mut j: usize = 0;
    while j < m
        invariant
            m == sub@.len(),
            n == s@.len(),
            i + m <= n,
            j <= m,
            forall|k: int| 0 <= k < j ==> s@[i + k] == sub@[k],
        decreases m - j,
    {
        if s[i + j] != sub.get_char(j) {
            proof {
                if occurs_at(s@, sub@, i as int) {
                    assert(s@.subrange(i as int, i + m)[j as int] == sub@[j as int]);
                }
            }
            return false;
        }
        j = j + 1;
    }
    proof {
        assert(s@.subrange(i as int, i + m) =~= sub@);
    }
    true
}

/// Whether `sub` occurs anywhere in `s`, by a scan of every window of `s`.
pub fn contains_str(s: &Vec<char>, sub: &str) -> (b: bool)
    ensures
        b == contains_seq(s@, sub@),
{
    let m: usize = sub.unicode_len();
    let n: usize = s.len();
    if m > n {
        proof {
            assert forall|k: int| !occurs_at(s@, sub@, k) by {}
        }
        return false;
    }
    if m == 0 {
        proof {
            assert(s@.subrange(0, 0) =~= sub@);
            assert(occurs_at(s@, sub@, 0));
        }
        return true;
    }
    let mut i: usize = 0;
    while i <= n - m
        invariant
            m == sub@.len(),
            n == s@.len(),
            1 <= m <= n,
            i <= n - m + 1,
            forall|k: int| 0 <= k < i ==> !occurs_at(s@, sub@, k),
        decreases n + 1 - m - i,
    {
        if window_eq(s, i, sub) {
            return true;
        }
        i = i + 1;
    }
    proof {
        assert forall|k: int| !occurs_at(s@, sub@, k) by {
            if occurs_at(s@, sub@, k) {
                assert(0 <= k < i);
            }
        }
    }
    false
}

} // verus!

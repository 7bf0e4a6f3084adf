//! Verified helpers over character sequences: conversions between `str`,
//! `String` and `Vec<char>`, prefix/suffix tests, and token replacement.

use vstd::prelude::*;

verus! {

use crate::ext::push_char;
use vstd::string::StrSliceExecFns;
use vstd::string::StringExecFns;

/// `s` with every occurrence of `token` replaced by `value`, scanning left to
/// right without overlap, as `str::replace` does. An empty `token` replaces
/// nothing.
pub open spec fn replaced(s: Seq<char>, token: Seq<char>, value: Seq<char>) -> Seq<char>
    decreases s.len(),
{
    if s.len() == 0 {
        Seq::empty()
    } else if 0 < token.len() <= s.len() && s.take(token.len() as int) == token {
        value + replaced(s.skip(token.len() as int), token, value)
    } else {
        seq![s[0]] + replaced(s.skip(1), token, value)
    }
}

/// The characters of `s`, as a vector.
pub fn chars_of(s: &str) -> (r: Vec<char>)
    ensures
        r@ == s@,
{
    let n: usize = s.unicode_len();
    let mut v: Vec<char> = Vec::new();
    let mut i: usize = 0;
    while i < n
        invariant
            i <= n,
            n == s@.len(),
            v@ =~= s@.take(i as int),
        decreases n - i,
    {
        v.push(s.get_char(i));
        i = i + 1;
    }
    assert(v@ =~= s@);
    v
}

/// A `String` holding exactly the characters of `v`.
pub fn chars_to_string(v: &Vec<char>) -> (r: String)
    ensures
        r@ == v@,
{
    let mut r = String::new();
    let mut i: usize = 0;
    while i < v.len()
        invariant
            i <= v.len(),
            r@ =~= v@.take(i as int),
        decreases v.len() - i,
    {
        push_char(&mut r, v[i]);
        i = i + 1;
    }
    assert(r@ =~= v@);
    r
}

/// Whether the two vectors hold the same characters.
pub fn eq_chars(a: &Vec<char>, b: &Vec<char>) -> (r: bool)
    ensures
        r <==> a@ == b@,
{
    if a.len() != b.len() {
        proof {
            if a@ == b@ {
                assert(a@.len() == b@.len());
            }
        }
        return false;
    }
    let mut i: usize = 0;
    while i < a.len()
        invariant
            i <= a.len(),
            a@.len() == b@.len(),
            forall|j: int| 0 <= j < i ==> a@[j] == b@[j],
        decreases a.len() - i,
    {
        if a[i] != b[i] {
            return false;
        }
        i = i + 1;
    }
    proof {
        assert(a@ =~= b@);
    }
    true
}

/// Whether `s` begins with `p`.
pub fn starts_with_chars(s: &Vec<char>, p: &Vec<char>) -> (r: bool)
    ensures
        r <==> p@.is_prefix_of(s@),
{
    if p.len() > s.len() {
        proof {
            if p@.is_prefix_of(s@) {
                assert(p@.len() <= s@.len());
            }
        }
        return false;
    }
    let mut i: usize = 0;
    while i < p.len()
        invariant
            i <= p.len(),
            p@.len() <= s@.len(),
            forall|j: int| 0 <= j < i ==> p@[j] == s@[j],
        decreases p.len() - i,
    {
        if p[i] != s[i] {
            proof {
                if p@.is_prefix_of(s@) {
                    assert(p@[i as int] == s@.take(p@.len() as int)[i as int]);
                }
            }
            return false;
        }
        i = i + 1;
    }
    proof {
        assert(p@ =~= s@.take(p@.len() as int));
    }
    true
}

/// Whether `s` ends with `p`.
pub fn ends_with_chars(s: &Vec<char>, p: &Vec<char>) -> (r: bool)
    ensures
        r <==> p@.is_suffix_of(s@),
{
    if p.len() > s.len() {
        proof {
            if p@.is_suffix_of(s@) {
                assert(p@.len() <= s@.len());
            }
        }
        return false;
    }
    let off: usize = s.len() - p.len();
    let mut i: usize = 0;
    while i < p.len()
        invariant
            i <= p.len(),
            p@.len() <= s@.len(),
            s@.len() <= usize::MAX,
            off == s@.len() - p@.len(),
            forall|j: int| 0 <= j < i ==> p@[j] == s@[off + j],
        decreases p.len() - i,
    {
        if p[i] != s[off + i] {
            proof {
                if p@.is_suffix_of(s@) {
                    assert(p@[i as int] == s@.skip(off as int)[i as int]);
                }
            }
            return false;
        }
        i = i + 1;
    }
    proof {
        assert(p@ =~= s@.skip(off as int));
    }
    true
}

/// Whether `tok` occurs in `s` at position `at`.
fn match_at(s: &Vec<char>, at: usize, tok: &Vec<char>) -> (r: bool)
    requires
        at <= s@.len(),
    ensures
        r <==> (at + tok@.len() <= s@.len() && s@.subrange(at as int, at + tok@.len()) == tok@),
{
    if tok.len() > s.len() - at {
        proof {
            if at + tok@.len() <= s@.len() {
                assert(false);
            }
        }
        return false;
    }
    let mut i: usize = 0;
    while i < tok.len()
        invariant
            i <= tok.len(),
            at + tok@.len() <= s@.len(),
            s@.len() <= usize::MAX,
            forall|j: int| 0 <= j < i ==> tok@[j] == s@[at + j],
        decreases tok.len() - i,
    {
        if tok[i] != s[at + i] {
            proof {
                if s@.subrange(at as int, at + tok@.len()) == tok@ {
                    assert(s@.subrange(at as int, at + tok@.len())[i as int] == tok@[i as int]);
                }
            }
            return false;
        }
        i = i + 1;
    }
    proof {
        assert(s@.subrange(at as int, at + tok@.len()) =~= tok@);
    }
    true
}

/// `s` with every occurrence of `tok` replaced by `value`.
pub fn replace_all(s: &Vec<char>, tok: &Vec<char>, value: &Vec<char>) -> (r: Vec<char>)
    ensures
        r@ == replaced(s@, tok@, value@),
{
    let mut out: Vec<char> = Vec::new();
    let mut i: usize = 0;
    proof {
        assert(s@.skip(0) =~= s@);
        assert(Seq::<char>::empty() + replaced(s@, tok@, value@) =~= replaced(s@, tok@, value@));
    }
    while i < s.len()
        invariant
            i <= s.len(),
            replaced(s@, tok@, value@) == out@ + replaced(s@.skip(i as int), tok@, value@),
        decreases s.len() - i,
    {
        let ghost rest = s@.skip(i as int);
        if tok.len() > 0 && match_at(s, i, tok) {
            proof {
                assert(rest.take(tok@.len() as int) =~= s@.subrange(
                    i as int,
                    i + tok@.len(),
                ));
                assert(rest.skip(tok@.len() as int) =~= s@.skip(i + tok@.len()));
            }
            let mut j: usize = 0;
            let ghost out_before = out@;
            while j < value.len()
                invariant
                    j <= value.len(),
                    out@ =~= out_before + value@.take(j as int),
                decreases value.len() - j,
            {
                out.push(value[j]);
                j = j + 1;
            }
            proof {
                assert(out@ =~= out_before + value@);
                assert(out_before + (value@ + replaced(s@.skip(i + tok@.len()), tok@, value@))
                    =~= out@ + replaced(s@.skip(i + tok@.len()), tok@, value@));
            }
            i = i + tok.len();
        } else {
            proof {
                // the token does not occur at `i`, so one character is copied
                if 0 < tok@.len() <= rest.len() && rest.take(tok@.len() as int) == tok@ {
                    assert(s@.subrange(i as int, i + tok@.len()) =~= rest.take(
                        tok@.len() as int,
                    ));
                }
                assert(rest.skip(1) =~= s@.skip(i + 1));
                assert(seq![s@[i as int]] =~= rest.take(1));
            }
            out.push(s[i]);
            proof {
                assert(out@ + replaced(s@.skip(i + 1), tok@, value@) =~= (out@.drop_last()
                    + seq![s@[i as int]]) + replaced(s@.skip(i + 1), tok@, value@));
            }
            i = i + 1;
        }
    }
    proof {
        assert(s@.skip(s@.len() as int) =~= Seq::<char>::empty());
        assert(out@ + replaced(s@.skip(s@.len() as int), tok@, value@) =~= out@);
    }
    out
}

/// `a` followed by `b`.
pub fn concat_str(a: &str, b: &str) -> (r: String)
    ensures
        r@ == a@ + b@,
{
    let mut r = String::from_str(a);
    r.append(b);
    r
}

} // verus!

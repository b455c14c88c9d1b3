//! Small verified string utilities shared by the router, the path
//! derivations and the escaping code.

use vstd::prelude::*;

verus! {

/// `pre` is an initial segment of `s`.
pub open spec fn has_prefix(s: Seq<char>, pre: Seq<char>) -> bool {
    pre.len() <= s.len() && s.subrange(0, pre.len() as int) == pre
}

/// `suf` is a final segment of `s`.
pub open spec fn has_suffix(s: Seq<char>, suf: Seq<char>) -> bool {
    suf.len() <= s.len() && s.subrange(s.len() - suf.len(), s.len() as int) == suf
}

/// Character-for-character equality of two string slices.
pub fn str_eq(a: &str, b: &str) -> (r: bool)
    ensures
        r == (a@ == b@),
{
    let na = a.unicode_len();
    let nb = b.unicode_len();
    if na != nb {
        return false;
    }
    let mut i: usize = 0;
    while i < na
        invariant
            na == a@.len(),
            na == b@.len(),
            i <= na,
            forall|j: int| 0 <= j < i ==> a@[j] == b@[j],
        decreases na - i,
    {
        if a.get_char(i) != b.get_char(i) {
            return false;
        }
        i += 1;
    }
    proof {
        assert(a@ =~= b@);
    }
    true
}

/// Whether `s` begins with `prefix`.
pub fn str_starts_with(s: &str, prefix: &str) -> (r: bool)
    ensures
        r == has_prefix(s@, prefix@),
{
    let np = prefix.unicode_len();
    let ns = s.unicode_len();
    if np > ns {
        return false;
    }
    let mut i: usize = 0;
    while i < np
        invariant
            np == prefix@.len(),
            ns == s@.len(),
            np <= ns,
            i <= np,
            forall|j: int| 0 <= j < i ==> s@[j] == prefix@[j],
        decreases np - i,
    {
        if s.get_char(i) != prefix.get_char(i) {
            proof {
                assert(s@.subrange(0, np as int)[i as int] != prefix@[i as int]);
            }
            return false;
        }
        i += 1;
    }
    proof {
        assert(s@.subrange(0, np as int) =~= prefix@);
    }
    true
}

/// Whether `s` ends with `suffix`.
pub fn str_ends_with(s: &str, suffix: &str) -> (r: bool)
    ensures
        r == has_suffix(s@, suffix@),
{
    let np = suffix.unicode_len();
    let ns = s.unicode_len();
    if np > ns {
        return false;
    }
    let base = ns - np;
    let mut i: usize = 0;
    while i < np
        invariant
            np == suffix@.len(),
            ns == s@.len(),
            np <= ns,
            base == ns - np,
            i <= np,
            forall|j: int| 0 <= j < i ==> s@[base + j] == suffix@[j],
        decreases np - i,
    {
        if s.get_char(base + i) != suffix.get_char(i) {
            proof {
                assert(s@.subrange(s@.len() - np, s@.len() as int)[i as int] != suffix@[i as int]);
            }
            return false;
        }
        i += 1;
    }
    proof {
        assert(s@.subrange(s@.len() - np, s@.len() as int) =~= suffix@);
    }
    true
}

/// Relies on `String::push` from std: appends the given character to the
/// end of the string.
#[verifier::external_body]
pub(crate) fn push_char(s: &mut String, c: char)
    ensures
        final(s)@ == old(s)@.push(c),
{
    s.push(c)
}

/// `s` with every non-overlapping occurrence of `pat` replaced by `rep`,
/// scanning left to right; `s` itself when `pat` is empty.
pub open spec fn spec_replace_all(s: Seq<char>, pat: Seq<char>, rep: Seq<char>) -> Seq<char>
    decreases s.len(),
{
    if pat.len() == 0 || s.len() < pat.len() {
        s
    } else if s.take(pat.len() as int) == pat {
        rep + spec_replace_all(s.skip(pat.len() as int), pat, rep)
    } else {
        seq![s[0]] + spec_replace_all(s.drop_first(), pat, rep)
    }
}

/// Whether `pat` occurs in `s` at position `i`.
pub fn match_at(s: &str, i: usize, pat: &str) -> (r: bool)
    requires
        i <= s@.len(),
    ensures
        r == (i + pat@.len() <= s@.len() && s@.subrange(i as int, i + pat@.len()) == pat@),
{
    let ns = s.unicode_len();
    let np = pat.unicode_len();
    if np > ns - i {
        return false;
    }
    let mut j: usize = 0;
    while j < np
        invariant
            ns == s@.len(),
            np == pat@.len(),
            i + np <= ns,
            j <= np,
            forall|k: int| 0 <= k < j ==> s@[i + k] == pat@[k],
        decreases np - j,
    {
        if s.get_char(i + j) != pat.get_char(j) {
            proof {
                assert(s@.subrange(i as int, i + pat@.len())[j as int] != pat@[j as int]);
            }
            return false;
        }
        j += 1;
    }
    proof {
        assert(s@.subrange(i as int, i + pat@.len()) =~= pat@);
    }
    true
}

/// `s` with every non-overlapping occurrence of `pat` replaced by `rep`,
/// scanning left to right.
pub fn replace_all(s: &str, pat: &str, rep: &str) -> (r: String)
    ensures
        r@ == spec_replace_all(s@, pat@, rep@),
{
    let ns = s.unicode_len();
    let np = pat.unicode_len();
    if np == 0 {
        return String::from_str(s);
    }
    let mut out = String::new();
    let mut i: usize = 0;
    proof {
        assert(s@.skip(0) =~= s@);
    }
    while i < ns
        invariant
            ns == s@.len(),
            np == pat@.len(),
            np > 0,
            i <= ns,
            out@ + spec_replace_all(s@.skip(i as int), pat@, rep@) == spec_replace_all(
                s@,
                pat@,
                rep@,
            ),
        decreases ns - i,
    {
        let ghost t = s@.skip(i as int);
        if match_at(s, i, pat) {
            proof {
                assert(t.take(np as int) =~= s@.subrange(i as int, i + np));
                assert(t.skip(np as int) =~= s@.skip(i + np));
                assert((out@ + rep@) + spec_replace_all(s@.skip(i + np), pat@, rep@) =~= out@ + (
                rep@ + spec_replace_all(t.skip(np as int), pat@, rep@)));
            }
            out.append(rep);
            i += np;
        } else {
            let c = s.get_char(i);
            proof {
                assert(t[0] == s@[i as int]);
                if t.len() >= np {
                    assert(t.take(np as int) =~= s@.subrange(i as int, i + np));
                    assert(spec_replace_all(t, pat@, rep@) == seq![t[0]] + spec_replace_all(
                        t.drop_first(),
                        pat@,
                        rep@,
                    ));
                } else {
                    assert(spec_replace_all(t, pat@, rep@) == t);
                    assert(t.drop_first().len() < np);
                    assert(spec_replace_all(t.drop_first(), pat@, rep@) == t.drop_first());
                    assert(seq![t[0]] + t.drop_first() =~= t);
                }
                assert(t.drop_first() =~= s@.skip(i + 1));
                assert(out@.push(c) + spec_replace_all(s@.skip(i + 1), pat@, rep@) =~= out@ + (
                seq![t[0]] + spec_replace_all(t.drop_first(), pat@, rep@)));
            }
            push_char(&mut out, c);
            i += 1;
        }
    }
    proof {
        assert(s@.skip(ns as int) =~= Seq::<char>::empty());
        assert(spec_replace_all(s@.skip(ns as int), pat@, rep@) == Seq::<char>::empty());
        assert(out@ + Seq::<char>::empty() =~= out@);
    }
    out
}

/// The characters of `s` from position `from` to the end, as an owned string.
pub fn str_tail(s: &str, from: usize) -> (r: String)
    requires
        from <= s@.len(),
    ensures
        r@ == s@.subrange(from as int, s@.len() as int),
{
    let n = s.unicode_len();
    let t = s.substring_char(from, n);
    String::from_str(t)
}

} // verus!

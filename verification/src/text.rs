//! Byte-string helpers: concatenation, suffix tests, and literal
//! substring replacement, the workhorse of template expansion.

use vstd::prelude::*;

verus! {

/// The byte `'.'`.
pub const DOT: u8 = 46;
/// The byte `'/'`.
pub const SLASH: u8 = 47;
/// The byte `'@'`.
pub const AT: u8 = 64;

/// Appends every byte of `more` to `out`.
pub fn push_bytes(out: &mut Vec<u8>, more: &[u8])
    ensures
        final(out)@ == old(out)@ + more@,
{
    let mut i: usize = 0;
    while i < more.len()
        invariant
            i <= more@.len(),
            out@ == old(out)@ + more@.subrange(0, i as int),
        decreases more@.len() - i,
    {
        out.push(more[i]);
        proof {
            assert(out@ =~= old(out)@ + more@.subrange(0, i + 1));
        }
        i = i + 1;
    }
    proof {
        assert(out@ =~= old(out)@ + more@);
    }
}

/// Concatenation of two byte strings.
pub fn concat_bytes(a: &[u8], b: &[u8]) -> (r: Vec<u8>)
    ensures
        r@ == a@ + b@,
{
    let mut out: Vec<u8> = Vec::new();
    push_bytes(&mut out, a);
    push_bytes(&mut out, b);
    proof {
        assert(out@ =~= a@ + b@);
    }
    out
}

/// Whether `s` ends with the byte string `suffix`.
pub open spec fn ends_with(s: Seq<u8>, suffix: Seq<u8>) -> bool {
    s.len() >= suffix.len() && s.skip(s.len() - suffix.len()) == suffix
}

/// Tests whether `s` ends with `suffix`.
pub fn ends_with_bytes(s: &[u8], suffix: &[u8]) -> (r: bool)
    ensures
        r == ends_with(s@, suffix@),
{
    let slen = s.len();
    let plen = suffix.len();
    if slen < plen {
        proof {
            assert(!ends_with(s@, suffix@));
        }
        return false;
    }
    let off: usize = slen - plen;
    let mut i: usize = 0;
    while i < plen
        invariant
            0 <= i <= plen,
            plen == suffix@.len(),
            slen == s@.len(),
            off == s@.len() - suffix@.len(),
            s@.len() >= suffix@.len(),
            forall|j: int| 0 <= j < i ==> s@[off + j] == suffix@[j],
        decreases plen - i,
    {
        if s[off + i] != suffix[i] {
            proof {
                assert(s@.skip(off as int)[i as int] != suffix@[i as int]);
            }
            return false;
        }
        i = i + 1;
    }
    proof {
        assert(s@.skip(off as int) =~= suffix@);
    }
    true
}

/// Tests two byte strings for equality.
pub fn eq_bytes(a: &[u8], b: &[u8]) -> (r: bool)
    ensures
        r == (a@ == b@),
{
    let n = a.len();
    if n != b.len() {
        return false;
    }
    let mut i: usize = 0;
    while i < n
        invariant
            n == a@.len(),
            n == b@.len(),
            0 <= i <= n,
            forall|j: int| 0 <= j < i ==> a@[j] == b@[j],
        decreases n - i,
    {
        if a[i] != b[i] {
            return false;
        }
        i = i + 1;
    }
    proof {
        assert(a@ =~= b@);
    }
    true
}

/// Whether `pat` occurs in `s` starting at index `i`.
pub open spec fn occurs_at(s: Seq<u8>, pat: Seq<u8>, i: int) -> bool {
    0 <= i && i + pat.len() <= s.len() && s.subrange(i, i + pat.len()) == pat
}

/// Whether `pat` occurs anywhere in `s`.
pub open spec fn occurs_in(s: Seq<u8>, pat: Seq<u8>) -> bool {
    exists|i: int| occurs_at(s, pat, i)
}

/// Whether `p` is a prefix of `s`.
pub open spec fn has_prefix(s: Seq<u8>, p: Seq<u8>) -> bool {
    p.len() <= s.len() && s.subrange(0, p.len() as int) == p
}

/// Left-to-right replacement of every non-overlapping occurrence of `pat`
/// in `s` by `rep`, the way `str::replace` works on matching byte strings.
pub open spec fn replace_all(s: Seq<u8>, pat: Seq<u8>, rep: Seq<u8>) -> Seq<u8>
    decreases s.len(),
{
    if pat.len() == 0 || s.len() < pat.len() {
        s
    } else if s.subrange(0, pat.len() as int) == pat {
        rep + replace_all(s.skip(pat.len() as int), pat, rep)
    } else {
        seq![s[0]] + replace_all(s.skip(1), pat, rep)
    }
}

/// Tests whether `pat` occurs in `s` at index `i`.
fn occurs_at_bytes(s: &[u8], pat: &[u8], i: usize) -> (r: bool)
    requires
        i + pat@.len() <= s@.len(),
    ensures
        r == occurs_at(s@, pat@, i as int),
{
    let slen = s.len();
    let plen = pat.len();
    let mut j: usize = 0;
    while j < plen
        invariant
            0 <= j <= plen,
            plen == pat@.len(),
            slen == s@.len(),
            i + pat@.len() <= s@.len(),
            forall|k: int| 0 <= k < j ==> s@[i + k] == pat@[k],
        decreases plen - j,
    {
        if s[i + j] != pat[j] {
            proof {
                assert(s@.subrange(i as int, i + pat@.len())[j as int] != pat@[j as int]);
            }
            return false;
        }
        j = j + 1;
    }
    proof {
        assert(s@.subrange(i as int, i + pat@.len()) =~= pat@);
    }
    true
}

/// Replaces every occurrence of `pat` in `s` by `rep`.
pub fn replace_bytes(s: &[u8], pat: &[u8], rep: &[u8]) -> (r: Vec<u8>)
    requires
        pat@.len() > 0,
    ensures
        r@ == replace_all(s@, pat@, rep@),
{
    let mut out: Vec<u8> = Vec::new();
    let mut i: usize = 0;
    proof {
        assert(s@.skip(0) =~= s@);
        assert(out@ + replace_all(s@, pat@, rep@) =~= replace_all(s@, pat@, rep@));
    }
    while s.len() - i >= pat.len()
        invariant
            pat@.len() > 0,
            i <= s@.len(),
            replace_all(s@, pat@, rep@) == out@ + replace_all(s@.skip(i as int), pat@, rep@),
        decreases s@.len() - i,
    {
        let ghost rest = s@.skip(i as int);
        if occurs_at_bytes(s, pat, i) {
            proof {
                assert(rest.subrange(0, pat@.len() as int) =~= s@.subrange(
                    i as int,
                    i + pat@.len(),
                ));
                assert(rest.skip(pat@.len() as int) =~= s@.skip(i + pat@.len()));
            }
            push_bytes(&mut out, rep);
            i = i + pat.len();
        } else {
            proof {
                assert(rest.subrange(0, pat@.len() as int) =~= s@.subrange(
                    i as int,
                    i + pat@.len(),
                ));
                assert(rest.skip(1) =~= s@.skip(i + 1));
                assert(seq![rest[0]] =~= seq![s@[i as int]]);
            }
            let b = s[i];
            out.push(b);
            i = i + 1;
        }
    }
    proof {
        assert(replace_all(s@.skip(i as int), pat@, rep@) == s@.skip(i as int));
    }
    push_bytes(&mut out, slice_drop(s, i));
    out
}

/// An occurrence inside a tail of `s` is an occurrence in `s`.
proof fn lemma_occurs_in_skip(s: Seq<u8>, q: Seq<u8>, k: int)
    requires
        0 <= k <= s.len(),
        occurs_in(s.skip(k), q),
    ensures
        occurs_in(s, q),
{
    let i = choose|i: int| occurs_at(s.skip(k), q, i);
    assert(s.subrange(k + i, k + i + q.len()) =~= s.skip(k).subrange(i, i + q.len()));
    assert(occurs_at(s, q, k + i));
}

/// When `q` is written entirely in the alphabet `alpha` and closed by
/// the `mark` byte, while the replacement text is free of `mark` and
/// holds a byte outside `alpha`, a suffix of `q` standing at the front
/// of the replaced text must already stand at the front of the
/// original text: the replacement can contribute nothing to it.
proof fn lemma_prefix_traces_back(
    x: Seq<u8>,
    pat: Seq<u8>,
    rep: Seq<u8>,
    q: Seq<u8>,
    j: int,
    alpha: spec_fn(u8) -> bool,
    mark: u8,
)
    requires
        pat.len() > 0,
        rep.len() > 0,
        forall|i: int| 0 <= i < q.len() ==> alpha(#[trigger] q[i]),
        q[q.len() - 1] == mark,
        forall|i: int| 0 <= i < rep.len() ==> #[trigger] rep[i] != mark,
        exists|i: int| 0 <= i < rep.len() && !alpha(#[trigger] rep[i]),
        1 <= j < q.len(),
        has_prefix(replace_all(x, pat, rep), q.skip(j)),
    ensures
        has_prefix(x, q.skip(j)),
    decreases x.len(),
{
    let r = replace_all(x, pat, rep);
    let u = q.skip(j);
    assert(u.len() == q.len() - j);
    assert(r.subrange(0, u.len() as int) == u);
    assert(u[0] == q[j]);
    if x.len() < pat.len() {
        // nothing was replaced
    } else if x.subrange(0, pat.len() as int) == pat {
        // the replaced text starts with `rep`, which can neither hold
        // the closing mark nor spell a prefix of `q`
        if u.len() <= rep.len() {
            assert(r[u.len() - 1] == rep[u.len() - 1]);
            assert(r[u.len() - 1] == u[u.len() - 1]);
            assert(u[u.len() - 1] == q[q.len() - 1]);
            assert(false);
        } else {
            let i0 = choose|i: int| 0 <= i < rep.len() && !alpha(#[trigger] rep[i]);
            assert(r[i0] == rep[i0]);
            assert(r[i0] == u[i0]);
            assert(u[i0] == q[j + i0]);
            assert(alpha(q[j + i0]));
            assert(false);
        }
    } else {
        assert(r == seq![x[0]] + replace_all(x.skip(1), pat, rep));
        assert(r[0] == x[0]);
        assert(x[0] == u[0]);
        if u.len() == 1 {
            assert(x.subrange(0, 1) =~= u);
        } else {
            let r1 = replace_all(x.skip(1), pat, rep);
            assert(r1.subrange(0, u.len() - 1) =~= r.subrange(0, u.len() as int).skip(1));
            assert(u.skip(1) =~= q.skip(j + 1));
            assert(has_prefix(r1, q.skip(j + 1)));
            lemma_prefix_traces_back(x.skip(1), pat, rep, q, j + 1, alpha, mark);
            assert(x.skip(1).subrange(0, u.len() - 1) == q.skip(j + 1));
            assert(x.subrange(0, u.len() as int) =~= seq![x[0]] + x.skip(1).subrange(
                0,
                u.len() - 1,
            ));
            assert(x.subrange(0, u.len() as int) =~= u);
        }
    }
}

/// Replacing `pat` introduces no occurrence of `q`, when `q` is written
/// entirely in the alphabet `alpha` and opened and closed by the `mark`
/// byte, while the replacement text is nonempty, free of `mark`, and
/// holds at least one byte outside `alpha`.  Afterwards `q` is absent,
/// both when `q` is the replaced pattern itself and when `q` is another
/// such pattern that was already absent.
pub proof fn lemma_replace_all_excludes(
    x: Seq<u8>,
    pat: Seq<u8>,
    rep: Seq<u8>,
    q: Seq<u8>,
    alpha: spec_fn(u8) -> bool,
    mark: u8,
)
    requires
        pat.len() > 0,
        q.len() > 0,
        rep.len() > 0,
        forall|i: int| 0 <= i < q.len() ==> alpha(#[trigger] q[i]),
        q[0] == mark,
        q[q.len() - 1] == mark,
        forall|i: int| 0 <= i < rep.len() ==> #[trigger] rep[i] != mark,
        exists|i: int| 0 <= i < rep.len() && !alpha(#[trigger] rep[i]),
        q == pat || !occurs_in(x, q),
    ensures
        !occurs_in(replace_all(x, pat, rep), q),
    decreases x.len(),
{
    let r = replace_all(x, pat, rep);
    if occurs_in(r, q) {
        let a = choose|a: int| occurs_at(r, q, a);
        assert(r.subrange(a, a + q.len()) == q);
        if x.len() < pat.len() {
            // nothing was replaced: r == x
            assert(q == pat ==> a + q.len() > x.len());
            assert(occurs_at(x, q, a));
            assert(false);
        } else if x.subrange(0, pat.len() as int) == pat {
            let x1 = x.skip(pat.len() as int);
            let r1 = replace_all(x1, pat, rep);
            assert(r == rep + r1);
            if !(q == pat) && occurs_in(x1, q) {
                lemma_occurs_in_skip(x, q, pat.len() as int);
            }
            lemma_replace_all_excludes(x1, pat, rep, q, alpha, mark);
            if a < rep.len() {
                // an occurrence cannot open inside the mark-free `rep`
                assert(r[a] == rep[a]);
                assert(r[a] == q[0]);
                assert(false);
            } else {
                assert(r1.subrange(a - rep.len(), a - rep.len() + q.len()) =~= r.subrange(
                    a,
                    a + q.len(),
                ));
                assert(occurs_at(r1, q, a - rep.len()));
                assert(false);
            }
        } else {
            let x1 = x.skip(1);
            let r1 = replace_all(x1, pat, rep);
            assert(r == seq![x[0]] + r1);
            if !(q == pat) && occurs_in(x1, q) {
                lemma_occurs_in_skip(x, q, 1);
            }
            lemma_replace_all_excludes(x1, pat, rep, q, alpha, mark);
            if a >= 1 {
                assert(r1.subrange(a - 1, a - 1 + q.len()) =~= r.subrange(a, a + q.len()));
                assert(occurs_at(r1, q, a - 1));
                assert(false);
            } else {
                assert(r[0] == x[0]);
                assert(r[0] == q[0]);
                if q.len() == 1 {
                    assert(x.subrange(0, 1) =~= q);
                    assert(occurs_at(x, q, 0));
                } else {
                    assert(r1.subrange(0, q.len() - 1) =~= r.subrange(0, q.len() as int).skip(
                        1,
                    ));
                    assert(q.skip(1).len() == q.len() - 1);
                    assert(has_prefix(r1, q.skip(1)));
                    lemma_prefix_traces_back(x1, pat, rep, q, 1, alpha, mark);
                    assert(x.subrange(0, q.len() as int) =~= seq![x[0]] + x1.subrange(
                        0,
                        q.len() - 1,
                    ));
                    assert(x.subrange(0, q.len() as int) =~= q);
                    assert(occurs_at(x, q, 0));
                }
                // either `q` was the pattern, which would have matched
                // here, or `q` was absent from `x`
                assert(false);
            }
        }
    }
}

/// The tail of a slice from index `i` on.
pub fn slice_drop<'a>(s: &'a [u8], i: usize) -> (r: &'a [u8])
    requires
        i <= s@.len(),
    ensures
        r@ == s@.skip(i as int),
{
    let r = vstd::slice::slice_subrange(s, i, s.len());
    proof {
        assert(r@ =~= s@.skip(i as int));
    }
    r
}

} // verus!

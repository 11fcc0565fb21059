//! Path construction over byte strings: joining with slashes, the final
//! component of a path, and its extension.

use vstd::prelude::*;

verus! {

use crate::text::DOT;
use crate::text::SLASH;
use crate::text::push_bytes;

/// `a` and `b` joined with a slash between them.
pub open spec fn joined(a: Seq<u8>, b: Seq<u8>) -> Seq<u8> {
    a + seq![SLASH] + b
}

/// Joins two path fragments with a slash.
pub fn path_join(a: &[u8], b: &[u8]) -> (r: Vec<u8>)
    ensures
        r@ == joined(a@, b@),
{
    let mut out: Vec<u8> = Vec::new();
    push_bytes(&mut out, a);
    out.push(SLASH);
    push_bytes(&mut out, b);
    proof {
        assert(out@ =~= joined(a@, b@));
    }
    out
}

/// The final component of a path: the bytes after the last slash, or the
/// whole path when it has none.
pub open spec fn base_name(p: Seq<u8>) -> Seq<u8>
    decreases p.len(),
{
    if p.len() == 0 {
        p
    } else if p.contains(SLASH) {
        base_name(p.skip(1))
    } else {
        p
    }
}

/// The bytes after the last dot of `s`; meaningful when `s` holds a dot.
pub open spec fn after_last_dot(s: Seq<u8>) -> Seq<u8>
    decreases s.len(),
{
    if s.len() == 0 {
        s
    } else if s.skip(1).contains(DOT) {
        after_last_dot(s.skip(1))
    } else if s[0] == DOT {
        s.skip(1)
    } else {
        after_last_dot(s.skip(1))
    }
}

/// The extension of a file name: the bytes after its last dot, when that
/// dot stands after at least one other byte; `None` for a name without a
/// dot, or whose only dot opens the name.
pub open spec fn name_extension(b: Seq<u8>) -> Option<Seq<u8>> {
    if b.len() >= 2 && b.skip(1).contains(DOT) {
        Some(after_last_dot(b.skip(1)))
    } else {
        None
    }
}

/// The extension of the final component of a path.
pub open spec fn extension_of(p: Seq<u8>) -> Option<Seq<u8>> {
    name_extension(base_name(p))
}

/// When the last slash of `p` stands at `k`, the base name is what
/// follows it.
proof fn lemma_base_name_split(p: Seq<u8>, k: int)
    requires
        0 <= k < p.len(),
        p[k] == SLASH,
        forall|j: int| k < j < p.len() ==> p[j] != SLASH,
    ensures
        base_name(p) == p.skip(k + 1),
    decreases p.len(),
{
    assert(p.contains(SLASH));
    let t = p.skip(1);
    assert(base_name(p) == base_name(t));
    if k == 0 {
        if t.contains(SLASH) {
            let i = choose|i: int| 0 <= i < t.len() && t[i] == SLASH;
            assert(p[i + 1] == SLASH);
            assert(false);
        }
        assert(base_name(t) == t);
    } else {
        assert(t[k - 1] == SLASH);
        assert(forall|j: int| k - 1 < j < t.len() ==> t[j] == p[j + 1]);
        lemma_base_name_split(t, k - 1);
        assert(t.skip(k) =~= p.skip(k + 1));
    }
}

/// A path without a slash is its own base name.
proof fn lemma_base_name_plain(p: Seq<u8>)
    requires
        forall|j: int| 0 <= j < p.len() ==> p[j] != SLASH,
    ensures
        base_name(p) == p,
{
    if p.contains(SLASH) {
        let i = choose|i: int| 0 <= i < p.len() && p[i] == SLASH;
        assert(false);
    }
}

/// When the last dot of `s` stands at `d`, `after_last_dot` is what
/// follows it.
proof fn lemma_after_last_dot_split(s: Seq<u8>, d: int)
    requires
        0 <= d < s.len(),
        s[d] == DOT,
        forall|j: int| d < j < s.len() ==> s[j] != DOT,
    ensures
        after_last_dot(s) == s.skip(d + 1),
    decreases s.len(),
{
    let t = s.skip(1);
    if d == 0 {
        if t.contains(DOT) {
            let i = choose|i: int| 0 <= i < t.len() && t[i] == DOT;
            assert(s[i + 1] == DOT);
            assert(false);
        }
    } else {
        assert(t[d - 1] == DOT);
        assert(t.contains(DOT));
        assert(forall|j: int| d - 1 < j < t.len() ==> t[j] == s[j + 1]);
        lemma_after_last_dot_split(t, d - 1);
        assert(t.skip(d) =~= s.skip(d + 1));
    }
}

/// The final component of a path.
pub fn base_name_bytes(p: &[u8]) -> (r: Vec<u8>)
    ensures
        r@ == base_name(p@),
{
    let n = p.len();
    let mut j: usize = n;
    while j > 0
        invariant
            n == p@.len(),
            0 <= j <= n,
            forall|l: int| j <= l < n ==> p@[l] != SLASH,
        decreases j,
    {
        if p[j - 1] == SLASH {
            proof {
                lemma_base_name_split(p@, j - 1);
            }
            let r = vstd::slice::slice_to_vec(vstd::slice::slice_subrange(p, j, n));
            proof {
                assert(r@ =~= p@.skip(j as int));
            }
            return r;
        }
        j = j - 1;
    }
    proof {
        lemma_base_name_plain(p@);
    }
    vstd::slice::slice_to_vec(p)
}

/// The extension of the final component of a path.
pub fn extension_of_bytes(p: &[u8]) -> (r: Option<Vec<u8>>)
    ensures
        r is Some <==> extension_of(p@) is Some,
        r matches Some(e) ==> extension_of(p@) == Some(e@),
{
    let b = base_name_bytes(p);
    let n = b.len();
    let mut j: usize = n;
    while j > 1
        invariant
            n == b@.len(),
            b@ == base_name(p@),
            0 <= j <= n,
            forall|l: int| j <= l < n ==> b@[l] != DOT,
        decreases j,
    {
        if b[j - 1] == DOT {
            proof {
                let t = b@.skip(1);
                assert(t[j - 2] == DOT);
                assert(t.contains(DOT));
                assert(forall|l: int| j - 2 < l < t.len() ==> t[l] == b@[l + 1]);
                lemma_after_last_dot_split(t, j - 2);
                assert(t.skip(j - 1) =~= b@.skip(j as int));
            }
            let r = vstd::slice::slice_to_vec(vstd::slice::slice_subrange(b.as_slice(), j, n));
            proof {
                assert(r@ =~= b@.skip(j as int));
            }
            return Some(r);
        }
        j = j - 1;
    }
    proof {
        if name_extension(b@) is Some {
            let t = b@.skip(1);
            assert(t.contains(DOT));
            let i = choose|i: int| 0 <= i < t.len() && t[i] == DOT;
            assert(b@[i + 1] == DOT);
            assert(false);
        }
    }
    None
}

} // verus!

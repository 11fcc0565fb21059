//! Placeholder tokens, the per-build variable map, and template expansion.
//!
//! A template is a byte text in which fixed tokens of the shape `@NAME@`
//! stand for values resolved from the project metadata.  Expansion replaces
//! every occurrence of every token by its value.

use vstd::prelude::*;

verus! {

use vstd::string::StrSliceExecFns;
use vstd::utf8::is_ascii_chars;
use vstd::utf8::is_ascii_chars_encode_utf8;
use crate::text::AT;
use crate::text::DOT;
use crate::text::SLASH;
use crate::text::lemma_replace_all_excludes;
use crate::text::occurs_in;
use crate::text::replace_all;
use crate::text::replace_bytes;

/// The placeholder token `@APP_ID@`.
pub open spec fn token_app_id() -> Seq<u8> {
    seq![AT, 65u8, 80u8, 80u8, 95u8, 73u8, 68u8, AT]
}

/// The placeholder token `@APP_BINARY@`.
pub open spec fn token_app_binary() -> Seq<u8> {
    seq![AT, 65u8, 80u8, 80u8, 95u8, 66u8, 73u8, 78u8, 65u8, 82u8, 89u8, AT]
}

/// The placeholder token `@APP_NAME@`.
pub open spec fn token_app_name() -> Seq<u8> {
    seq![AT, 65u8, 80u8, 80u8, 95u8, 78u8, 65u8, 77u8, 69u8, AT]
}

/// The placeholder token `@APP_VERSION@`.
pub open spec fn token_app_version() -> Seq<u8> {
    seq![AT, 65u8, 80u8, 80u8, 95u8, 86u8, 69u8, 82u8, 83u8, 73u8, 79u8, 78u8, AT]
}

/// The placeholder token `@GRESOURCE_ID@`.
pub open spec fn token_gresource_id() -> Seq<u8> {
    seq![AT, 71u8, 82u8, 69u8, 83u8, 79u8, 85u8, 82u8, 67u8, 69u8, 95u8, 73u8, 68u8, AT]
}

/// The placeholder token `@GETTEXT_DOMAIN@`.
pub open spec fn token_gettext_domain() -> Seq<u8> {
    seq![
        AT,
        71u8,
        69u8,
        84u8,
        84u8,
        69u8,
        88u8,
        84u8,
        95u8,
        68u8,
        79u8,
        77u8,
        65u8,
        73u8,
        78u8,
        AT,
    ]
}

/// The token text `@APP_ID@` as bytes.
fn token_app_id_bytes() -> (r: Vec<u8>)
    ensures
        r@ == token_app_id(),
{
    let r = "@APP_ID@".as_bytes_vec();
    proof {
        reveal_strlit("@APP_ID@");
        let s = "@APP_ID@"@;
        assert(s =~= seq!['@', 'A', 'P', 'P', '_', 'I', 'D', '@']);
        assert(is_ascii_chars(s)) by {
            assert forall|i: int| 0 <= i < s.len() implies '\0' <= #[trigger] s[i]
                <= '\u{7f}' by {
                assert(s[i] == seq!['@', 'A', 'P', 'P', '_', 'I', 'D', '@'][i]);
            }
        }
        is_ascii_chars_encode_utf8(s);
        assert(r@ =~= token_app_id());
    }
    r
}

/// The token text `@APP_BINARY@` as bytes.
fn token_app_binary_bytes() -> (r: Vec<u8>)
    ensures
        r@ == token_app_binary(),
{
    let r = "@APP_BINARY@".as_bytes_vec();
    proof {
        reveal_strlit("@APP_BINARY@");
        let s = "@APP_BINARY@"@;
        assert(s =~= seq!['@', 'A', 'P', 'P', '_', 'B', 'I', 'N', 'A', 'R', 'Y', '@']);
        assert(is_ascii_chars(s)) by {
            assert forall|i: int| 0 <= i < s.len() implies '\0' <= #[trigger] s[i]
                <= '\u{7f}' by {
                assert(s[i] == seq!['@', 'A', 'P', 'P', '_', 'B', 'I', 'N', 'A', 'R', 'Y', '@'][i]);
            }
        }
        is_ascii_chars_encode_utf8(s);
        assert(r@ =~= token_app_binary());
    }
    r
}

/// The token text `@APP_NAME@` as bytes.
fn token_app_name_bytes() -> (r: Vec<u8>)
    ensures
        r@ == token_app_name(),
{
    let r = "@APP_NAME@".as_bytes_vec();
    proof {
        reveal_strlit("@APP_NAME@");
        let s = "@APP_NAME@"@;
        assert(s =~= seq!['@', 'A', 'P', 'P', '_', 'N', 'A', 'M', 'E', '@']);
        assert(is_ascii_chars(s)) by {
            assert forall|i: int| 0 <= i < s.len() implies '\0' <= #[trigger] s[i]
                <= '\u{7f}' by {
                assert(s[i] == seq!['@', 'A', 'P', 'P', '_', 'N', 'A', 'M', 'E', '@'][i]);
            }
        }
        is_ascii_chars_encode_utf8(s);
        assert(r@ =~= token_app_name());
    }
    r
}

/// The token text `@APP_VERSION@` as bytes.
fn token_app_version_bytes() -> (r: Vec<u8>)
    ensures
        r@ == token_app_version(),
{
    let r = "@APP_VERSION@".as_bytes_vec();
    proof {
        reveal_strlit("@APP_VERSION@");
        let s = "@APP_VERSION@"@;
        assert(s =~= seq!['@', 'A', 'P', 'P', '_', 'V', 'E', 'R', 'S', 'I', 'O', 'N', '@']);
        assert(is_ascii_chars(s)) by {
            assert forall|i: int| 0 <= i < s.len() implies '\0' <= #[trigger] s[i]
                <= '\u{7f}' by {
                assert(s[i] == seq![
                    '@',
                    'A',
                    'P',
                    'P',
                    '_',
                    'V',
                    'E',
                    'R',
                    'S',
                    'I',
                    'O',
                    'N',
                    '@',
                ][i]);
            }
        }
        is_ascii_chars_encode_utf8(s);
        assert(r@ =~= token_app_version());
    }
    r
}

/// The token text `@GRESOURCE_ID@` as bytes.
fn token_gresource_id_bytes() -> (r: Vec<u8>)
    ensures
        r@ == token_gresource_id(),
{
    let r = "@GRESOURCE_ID@".as_bytes_vec();
    proof {
        reveal_strlit("@GRESOURCE_ID@");
        let s = "@GRESOURCE_ID@"@;
        assert(s =~= seq!['@', 'G', 'R', 'E', 'S', 'O', 'U', 'R', 'C', 'E', '_', 'I', 'D', '@']);
        assert(is_ascii_chars(s)) by {
            assert forall|i: int| 0 <= i < s.len() implies '\0' <= #[trigger] s[i]
                <= '\u{7f}' by {
                assert(s[i] == seq![
                    '@',
                    'G',
                    'R',
                    'E',
                    'S',
                    'O',
                    'U',
                    'R',
                    'C',
                    'E',
                    '_',
                    'I',
                    'D',
                    '@',
                ][i]);
            }
        }
        is_ascii_chars_encode_utf8(s);
        assert(r@ =~= token_gresource_id());
    }
    r
}

/// The token text `@GETTEXT_DOMAIN@` as bytes.
fn token_gettext_domain_bytes() -> (r: Vec<u8>)
    ensures
        r@ == token_gettext_domain(),
{
    let r = "@GETTEXT_DOMAIN@".as_bytes_vec();
    proof {
        reveal_strlit("@GETTEXT_DOMAIN@");
        let s = "@GETTEXT_DOMAIN@"@;
        assert(s =~= seq![
            '@',
            'G',
            'E',
            'T',
            'T',
            'E',
            'X',
            'T',
            '_',
            'D',
            'O',
            'M',
            'A',
            'I',
            'N',
            '@',
        ]);
        assert(is_ascii_chars(s)) by {
            assert forall|i: int| 0 <= i < s.len() implies '\0' <= #[trigger] s[i]
                <= '\u{7f}' by {
                assert(s[i] == seq![
                    '@',
                    'G',
                    'E',
                    'T',
                    'T',
                    'E',
                    'X',
                    'T',
                    '_',
                    'D',
                    'O',
                    'M',
                    'A',
                    'I',
                    'N',
                    '@',
                ][i]);
            }
        }
        is_ascii_chars_encode_utf8(s);
        assert(r@ =~= token_gettext_domain());
    }
    r
}

/// The bytes placeholder tokens are written in: `@`, `A`-`Z` and `_`.
pub open spec fn placeholder_byte(b: u8) -> bool {
    b == AT || (65 <= b <= 90) || b == 95
}

/// A token: a nonempty text written entirely in the placeholder alphabet.
pub open spec fn all_placeholder_bytes(t: Seq<u8>) -> bool {
    t.len() > 0 && forall|i: int| 0 <= i < t.len() ==> placeholder_byte(#[trigger] t[i])
}

/// A value that can never complete a token when substituted: it holds
/// no `@`, and at least one of its bytes lies outside the token
/// alphabet.  Realistic identity values — reverse-DNS ids, display
/// names, versions, binary names — satisfy this: any lowercase letter,
/// digit, dot, space or slash is such a byte.
pub open spec fn token_safe(v: Seq<u8>) -> bool {
    (forall|i: int| 0 <= i < v.len() ==> #[trigger] v[i] != AT) && (exists|i: int|
        0 <= i < v.len() && !placeholder_byte(#[trigger] v[i]))
}

/// Whether `t` is one of the six placeholder tokens.
pub open spec fn is_token(t: Seq<u8>) -> bool {
    ||| t == token_app_id()
    ||| t == token_app_binary()
    ||| t == token_app_name()
    ||| t == token_app_version()
    ||| t == token_gresource_id()
    ||| t == token_gettext_domain()
}

/// No placeholder token occurs in `s`.
pub open spec fn token_free(s: Seq<u8>) -> bool {
    forall|t: Seq<u8>| is_token(t) ==> !#[trigger] occurs_in(s, t)
}

/// Every token is written in the placeholder alphabet and is opened and
/// closed by `@`.
pub proof fn lemma_tokens_all_placeholder()
    ensures
        all_placeholder_bytes(token_app_id()),
        all_placeholder_bytes(token_app_binary()),
        all_placeholder_bytes(token_app_name()),
        all_placeholder_bytes(token_app_version()),
        all_placeholder_bytes(token_gresource_id()),
        all_placeholder_bytes(token_gettext_domain()),
        token_app_id().first() == AT && token_app_id().last() == AT,
        token_app_binary().first() == AT && token_app_binary().last() == AT,
        token_app_name().first() == AT && token_app_name().last() == AT,
        token_app_version().first() == AT && token_app_version().last() == AT,
        token_gresource_id().first() == AT && token_gresource_id().last() == AT,
        token_gettext_domain().first() == AT && token_gettext_domain().last() == AT,
{
}

/// The values that one build substitutes for the placeholder tokens,
/// resolved once from the project metadata.
pub struct TemplateVariableMap {
    /// Value of `@APP_ID@`: the application id.
    pub id: Vec<u8>,
    /// Value of `@APP_BINARY@`: the binary name.
    pub binary: Vec<u8>,
    /// Value of `@APP_NAME@`: the display name.
    pub name: Vec<u8>,
    /// Value of `@APP_VERSION@`: the version string.
    pub version: Vec<u8>,
    /// Value of `@GRESOURCE_ID@`: the app id with dots turned into slashes.
    pub gresource_id: Vec<u8>,
    /// Value of `@GETTEXT_DOMAIN@`: the translation domain, the binary name.
    pub gettext_domain: Vec<u8>,
}

impl TemplateVariableMap {
    /// Builds the map for one build from the resolved identity values.
    pub fn new(id: &[u8], binary: &[u8], name: &[u8], version: &[u8]) -> (r: TemplateVariableMap)
        ensures
            r.id@ == id@,
            r.binary@ == binary@,
            r.name@ == name@,
            r.version@ == version@,
            r.gresource_id@ == replace_all(id@, seq![DOT], seq![SLASH]),
            r.gettext_domain@ == binary@,
    {
        let mut dot: Vec<u8> = Vec::new();
        dot.push(DOT);
        let mut slash: Vec<u8> = Vec::new();
        slash.push(SLASH);
        proof {
            assert(dot@ =~= seq![DOT]);
            assert(slash@ =~= seq![SLASH]);
        }
        let gresource_id = replace_bytes(id, dot.as_slice(), slash.as_slice());
        TemplateVariableMap {
            id: vstd::slice::slice_to_vec(id),
            binary: vstd::slice::slice_to_vec(binary),
            name: vstd::slice::slice_to_vec(name),
            version: vstd::slice::slice_to_vec(version),
            gresource_id,
            gettext_domain: vstd::slice::slice_to_vec(binary),
        }
    }
}

/// The expansion of `s` with the values that the identity fields
/// resolve to: the resource path is the id with dots turned into
/// slashes, and the gettext domain is the binary name.
pub open spec fn expand_with(
    s: Seq<u8>,
    id: Seq<u8>,
    binary: Seq<u8>,
    name: Seq<u8>,
    version: Seq<u8>,
) -> Seq<u8> {
    replace_all(
        replace_all(
            replace_all(
                replace_all(
                    replace_all(replace_all(s, token_app_id(), id), token_app_binary(), binary),
                    token_app_name(),
                    name,
                ),
                token_app_version(),
                version,
            ),
            token_gresource_id(),
            replace_all(id, seq![DOT], seq![SLASH]),
        ),
        token_gettext_domain(),
        binary,
    )
}

/// The expansion of `s`: every token replaced by its value from `m`.
pub open spec fn expand(s: Seq<u8>, m: TemplateVariableMap) -> Seq<u8> {
    replace_all(
        replace_all(
            replace_all(
                replace_all(
                    replace_all(replace_all(s, token_app_id(), m.id@), token_app_binary(), m.binary@),
                    token_app_name(),
                    m.name@,
                ),
                token_app_version(),
                m.version@,
            ),
            token_gresource_id(),
            m.gresource_id@,
        ),
        token_gettext_domain(),
        m.gettext_domain@,
    )
}

/// Expands the template `s` with the variable map `m`.
pub fn expand_template(s: &[u8], m: &TemplateVariableMap) -> (r: Vec<u8>)
    ensures
        r@ == expand(s@, *m),
{
    let t1 = token_app_id_bytes();
    let t2 = token_app_binary_bytes();
    let t3 = token_app_name_bytes();
    let t4 = token_app_version_bytes();
    let t5 = token_gresource_id_bytes();
    let t6 = token_gettext_domain_bytes();
    let s1 = replace_bytes(s, t1.as_slice(), m.id.as_slice());
    let s2 = replace_bytes(s1.as_slice(), t2.as_slice(), m.binary.as_slice());
    let s3 = replace_bytes(s2.as_slice(), t3.as_slice(), m.name.as_slice());
    let s4 = replace_bytes(s3.as_slice(), t4.as_slice(), m.version.as_slice());
    let s5 = replace_bytes(s4.as_slice(), t5.as_slice(), m.gresource_id.as_slice());
    let s6 = replace_bytes(s5.as_slice(), t6.as_slice(), m.gettext_domain.as_slice());
    s6
}

/// Law: template expansion is deterministic.  Two expansions of the same
/// text with the same variable values give the same output, so running
/// the expander twice over an unchanged input tree writes identical files.
pub proof fn lemma_expand_deterministic(
    s1: Seq<u8>,
    s2: Seq<u8>,
    m1: TemplateVariableMap,
    m2: TemplateVariableMap,
)
    requires
        s1 == s2,
        m1.id@ == m2.id@,
        m1.binary@ == m2.binary@,
        m1.name@ == m2.name@,
        m1.version@ == m2.version@,
        m1.gresource_id@ == m2.gresource_id@,
        m1.gettext_domain@ == m2.gettext_domain@,
    ensures
        expand(s1, m1) == expand(s2, m2),
{
}

/// Law: no residual tokens.  When every substituted value is
/// token-safe — free of `@` and holding at least one byte outside the
/// token alphabet, as every realistic identity value is — the expanded
/// text holds no occurrence of any placeholder token.
pub proof fn lemma_expand_leaves_no_token(s: Seq<u8>, m: TemplateVariableMap)
    requires
        token_safe(m.id@),
        token_safe(m.binary@),
        token_safe(m.name@),
        token_safe(m.version@),
        token_safe(m.gresource_id@),
        token_safe(m.gettext_domain@),
    ensures
        token_free(expand(s, m)),
{
    lemma_tokens_all_placeholder();
    let alpha = |b: u8| placeholder_byte(b);
    let s1 = replace_all(s, token_app_id(), m.id@);
    let s2 = replace_all(s1, token_app_binary(), m.binary@);
    let s3 = replace_all(s2, token_app_name(), m.name@);
    let s4 = replace_all(s3, token_app_version(), m.version@);
    let s5 = replace_all(s4, token_gresource_id(), m.gresource_id@);
    let s6 = replace_all(s5, token_gettext_domain(), m.gettext_domain@);
    assert(expand(s, m) == s6);

    lemma_replace_all_excludes(s, token_app_id(), m.id@, token_app_id(), alpha, AT);
    lemma_replace_all_excludes(s1, token_app_binary(), m.binary@, token_app_id(), alpha, AT);
    lemma_replace_all_excludes(s2, token_app_name(), m.name@, token_app_id(), alpha, AT);
    lemma_replace_all_excludes(s3, token_app_version(), m.version@, token_app_id(), alpha, AT);
    lemma_replace_all_excludes(s4, token_gresource_id(), m.gresource_id@, token_app_id(), alpha, AT);
    lemma_replace_all_excludes(
        s5,
        token_gettext_domain(),
        m.gettext_domain@,
        token_app_id(),
        alpha,
        AT,
    );

    lemma_replace_all_excludes(s1, token_app_binary(), m.binary@, token_app_binary(), alpha, AT);
    lemma_replace_all_excludes(s2, token_app_name(), m.name@, token_app_binary(), alpha, AT);
    lemma_replace_all_excludes(s3, token_app_version(), m.version@, token_app_binary(), alpha, AT);
    lemma_replace_all_excludes(
        s4,
        token_gresource_id(),
        m.gresource_id@,
        token_app_binary(),
        alpha,
        AT,
    );
    lemma_replace_all_excludes(
        s5,
        token_gettext_domain(),
        m.gettext_domain@,
        token_app_binary(),
        alpha,
        AT,
    );

    lemma_replace_all_excludes(s2, token_app_name(), m.name@, token_app_name(), alpha, AT);
    lemma_replace_all_excludes(s3, token_app_version(), m.version@, token_app_name(), alpha, AT);
    lemma_replace_all_excludes(
        s4,
        token_gresource_id(),
        m.gresource_id@,
        token_app_name(),
        alpha,
        AT,
    );
    lemma_replace_all_excludes(
        s5,
        token_gettext_domain(),
        m.gettext_domain@,
        token_app_name(),
        alpha,
        AT,
    );

    lemma_replace_all_excludes(s3, token_app_version(), m.version@, token_app_version(), alpha, AT);
    lemma_replace_all_excludes(
        s4,
        token_gresource_id(),
        m.gresource_id@,
        token_app_version(),
        alpha,
        AT,
    );
    lemma_replace_all_excludes(
        s5,
        token_gettext_domain(),
        m.gettext_domain@,
        token_app_version(),
        alpha,
        AT,
    );

    lemma_replace_all_excludes(
        s4,
        token_gresource_id(),
        m.gresource_id@,
        token_gresource_id(),
        alpha,
        AT,
    );
    lemma_replace_all_excludes(
        s5,
        token_gettext_domain(),
        m.gettext_domain@,
        token_gresource_id(),
        alpha,
        AT,
    );

    lemma_replace_all_excludes(
        s5,
        token_gettext_domain(),
        m.gettext_domain@,
        token_gettext_domain(),
        alpha,
        AT,
    );

    assert forall|t: Seq<u8>| is_token(t) implies !occurs_in(s6, t) by {}
}

} // verus!

//! The project identity record, resolved once from the project manifest,
//! and the application-id validity rule.

use vstd::prelude::*;

verus! {

use vstd::string::StrSliceExecFns;
use vstd::string::StringSliceAdditionalSpecFns;
use crate::text::DOT;

/// The identity of the project being packaged: application id, binary
/// name, display name, version, and build output directory.
pub struct Metadata {
    /// The application id, reverse-DNS style, such as `io.foo.Bar`.
    pub id: Vec<u8>,
    /// The binary name, the manifest's package name.
    pub bin: Vec<u8>,
    /// The human-readable display name.
    pub name: Vec<u8>,
    /// The version string, the manifest's package version.
    pub version: Vec<u8>,
    /// The build output directory.
    pub targetdir: Vec<u8>,
}

/// Count of `'.'` bytes in `s`.
pub open spec fn dot_count(s: Seq<u8>) -> int
    decreases s.len(),
{
    if s.len() == 0 {
        0
    } else {
        dot_count(s.drop_last()) + if s.last() == DOT {
            1int
        } else {
            0int
        }
    }
}

/// A well-formed application id: exactly two dots and not ending in one,
/// the pattern `segment.segment.Segment`.
pub open spec fn valid_app_id(s: Seq<u8>) -> bool {
    s.len() > 0 && dot_count(s) == 2 && s.last() != DOT
}

/// Tests whether `id` is a well-formed application id.
pub fn is_valid_app_id(id: &[u8]) -> (r: bool)
    ensures
        r == valid_app_id(id@),
{
    let n = id.len();
    let mut count: usize = 0;
    let mut i: usize = 0;
    proof {
        assert(id@.subrange(0, 0) =~= Seq::<u8>::empty());
    }
    while i < n
        invariant
            n == id@.len(),
            0 <= i <= n,
            count <= i,
            count == dot_count(id@.subrange(0, i as int)),
        decreases n - i,
    {
        proof {
            assert(id@.subrange(0, i + 1).drop_last() =~= id@.subrange(0, i as int));
            assert(id@.subrange(0, i + 1).last() == id@[i as int]);
        }
        if id[i] == DOT {
            count = count + 1;
        }
        i = i + 1;
    }
    proof {
        assert(id@.subrange(0, n as int) =~= id@);
    }
    if n == 0 {
        false
    } else {
        count == 2 && id[n - 1] != DOT
    }
}

/// The default build output directory, `./target`.
pub open spec fn default_target_dir() -> Seq<u8> {
    "./target".spec_bytes()
}

/// The default build output directory as bytes.
pub fn default_target_dir_bytes() -> (r: Vec<u8>)
    ensures
        r@ == default_target_dir(),
{
    "./target".as_bytes_vec()
}

#[verifier::external_type_specification]
#[verifier::external_body]
pub struct ExTomlValue(toml::Value);

/// The value tree a TOML text parses to, or nothing when the text is
/// not well-formed TOML; parsing depends on the text alone.
pub uninterp spec fn toml_doc_of(s: Seq<char>) -> Option<toml::Value>;

/// The entry a key names in a TOML table, or nothing when the value is
/// not a table or the table has no such entry.
pub uninterp spec fn toml_get_of(v: toml::Value, key: Seq<char>) -> Option<toml::Value>;

/// The content of a TOML string value as bytes, or nothing for any
/// other kind of value.
pub uninterp spec fn toml_str_of(v: toml::Value) -> Option<Seq<u8>>;

/// Relies on `toml::from_str`: parses a TOML document into its value
/// tree; `None` when the text is not well-formed TOML.
#[verifier::external_body]
fn parse_toml(s: &str) -> (r: Option<toml::Value>)
    ensures
        r == toml_doc_of(s@),
{
    toml::from_str::<toml::Value>(s).ok()
}

/// Relies on `toml::Value::get`: looks a key up in a TOML table; `None`
/// when the value is not a table or the table has no such entry.
#[verifier::external_body]
fn toml_get<'a>(v: &'a toml::Value, key: &str) -> (r: Option<&'a toml::Value>)
    ensures
        r is Some <==> toml_get_of(*v, key@) is Some,
        r matches Some(x) ==> toml_get_of(*v, key@) == Some(*x),
{
    v.get(key)
}

/// Relies on `toml::Value::as_str`: the content of a TOML string value as
/// bytes; `None` for any other kind of value.
#[verifier::external_body]
fn toml_str_bytes(v: &toml::Value) -> (r: Option<Vec<u8>>)
    ensures
        r is Some <==> toml_str_of(*v) is Some,
        r matches Some(b) ==> toml_str_of(*v) == Some(b@),
{
    v.as_str().map(|s| s.as_bytes().to_vec())
}

/// The string standing at `key` of the table `v`: the named lookup
/// followed by the named string content.
pub open spec fn toml_str_at(v: toml::Value, key: Seq<char>) -> Option<Seq<u8>> {
    match toml_get_of(v, key) {
        Option::Some(x) => toml_str_of(x),
        Option::None => Option::None,
    }
}

/// What the resolver reads out of a manifest text: the package name and
/// version, the id and display name of the packaging table, and the
/// build target directory, defaulted when the manifest does not name
/// one.  Nothing when the text does not parse, a required field is
/// missing or not a string, or a named target directory is not a
/// string.
pub open spec fn resolved_metadata(s: Seq<char>) -> Option<
    (Seq<u8>, Seq<u8>, Seq<u8>, Seq<u8>, Seq<u8>),
> {
    match toml_doc_of(s) {
        Option::None => Option::None,
        Option::Some(doc) => match toml_get_of(doc, "package"@) {
            Option::None => Option::None,
            Option::Some(package) => match toml_get_of(package, "metadata"@) {
                Option::None => Option::None,
                Option::Some(meta) => {
                    let bin = toml_str_at(package, "name"@);
                    let version = toml_str_at(package, "version"@);
                    let id = match toml_get_of(meta, "pkg"@) {
                        Option::Some(p) => toml_str_at(p, "id"@),
                        Option::None => Option::None,
                    };
                    let name = match toml_get_of(meta, "pkg"@) {
                        Option::Some(p) => toml_str_at(p, "name"@),
                        Option::None => Option::None,
                    };
                    let target = match toml_get_of(doc, "build"@) {
                        Option::None => Option::Some(default_target_dir()),
                        Option::Some(b) => match toml_get_of(b, "target-dir"@) {
                            Option::None => Option::Some(default_target_dir()),
                            Option::Some(v) => toml_str_of(v),
                        },
                    };
                    match (bin, version, id, name, target) {
                        (
                            Option::Some(b),
                            Option::Some(ver),
                            Option::Some(i),
                            Option::Some(n),
                            Option::Some(t),
                        ) => Option::Some((b, ver, i, n, t)),
                        _ => Option::None,
                    }
                },
            },
        },
    }
}

/// How the manifest answered the lookup of the build target directory.
pub enum TargetDirLookup {
    /// The manifest has no `build` table, or the table has no
    /// `target-dir` entry: the default applies.
    Absent,
    /// A `target-dir` entry exists but is not a string: the manifest is
    /// rejected.
    NotAString,
    /// A string `target-dir` entry with the given content.
    Found(Vec<u8>),
}

impl Metadata {
    /// Assembles the identity record from the values looked up in the
    /// manifest: the package name and version, the id and display name of
    /// the packaging table, and the target-directory lookup.  Every
    /// missing field rejects the manifest; a missing target directory
    /// falls back to the default.
    pub fn assemble(
        bin: Option<Vec<u8>>,
        version: Option<Vec<u8>>,
        id: Option<Vec<u8>>,
        name: Option<Vec<u8>>,
        target: TargetDirLookup,
    ) -> (r: Option<Metadata>)
        ensures
            r is Some <==> (bin is Some && version is Some && id is Some && name is Some && !(
            target is NotAString)),
            r matches Some(m) ==> {
                &&& m.bin@ == bin->0@
                &&& m.version@ == version->0@
                &&& m.id@ == id->0@
                &&& m.name@ == name->0@
                &&& m.targetdir@ == (if target is Found {
                    target->Found_0@
                } else {
                    default_target_dir()
                })
            },
    {
        match (bin, version, id, name) {
            (Some(bin), Some(version), Some(id), Some(name)) => {
                let targetdir = match target {
                    TargetDirLookup::Absent => default_target_dir_bytes(),
                    TargetDirLookup::NotAString => {
                        return None;
                    },
                    TargetDirLookup::Found(t) => t,
                };
                Some(Metadata { id, bin, name, version, targetdir })
            },
            _ => None,
        }
    }

    /// Resolves the identity record from the text of the project
    /// manifest.  The binary name and version come from the package
    /// table, the application id and display name from the packaging
    /// metadata table, and the build output directory from the build
    /// table when one names it, `./target` otherwise.  `None` exactly
    /// when the manifest does not parse or a required field is missing
    /// or not a string, as [`resolved_metadata`] lays out.
    pub fn from(manifest: &str) -> (r: Option<Metadata>)
        ensures
            r is Some <==> resolved_metadata(manifest@) is Some,
            r matches Some(m) ==> resolved_metadata(manifest@) == Some(
                (m.bin@, m.version@, m.id@, m.name@, m.targetdir@),
            ),
    {
        let meta = parse_toml(manifest)?;
        let package = toml_get(&meta, "package")?;
        let pkg_meta = toml_get(package, "metadata")?;

        let bin = match toml_get(package, "name") {
            Some(v) => toml_str_bytes(v),
            None => None,
        };
        let version = match toml_get(package, "version") {
            Some(v) => toml_str_bytes(v),
            None => None,
        };
        let id = match toml_get(pkg_meta, "pkg") {
            Some(p) => match toml_get(p, "id") {
                Some(v) => toml_str_bytes(v),
                None => None,
            },
            None => None,
        };
        let name = match toml_get(pkg_meta, "pkg") {
            Some(p) => match toml_get(p, "name") {
                Some(v) => toml_str_bytes(v),
                None => None,
            },
            None => None,
        };
        let target = match toml_get(&meta, "build") {
            Some(build) => match toml_get(build, "target-dir") {
                Some(v) => match toml_str_bytes(v) {
                    Some(t) => TargetDirLookup::Found(t),
                    None => TargetDirLookup::NotAString,
                },
                None => TargetDirLookup::Absent,
            },
            None => TargetDirLookup::Absent,
        };
        Metadata::assemble(bin, version, id, name, target)
    }
}

} // verus!

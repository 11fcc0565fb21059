//! The install-pipeline steps.  Each step of a build is planned here as a
//! pure computation from the project identity and the facts the caller
//! observed on disk; the caller carries the plan out: it creates the
//! named directories, writes the named files, and runs the external
//! compilers with the named inputs, aborting on the first failure.

use vstd::prelude::*;

verus! {

use vstd::string::StrSliceExecFns;
use vstd::string::StringSliceAdditionalSpecFns;
use crate::metadata::Metadata;
use crate::paths::base_name;
use crate::paths::base_name_bytes;
use crate::paths::extension_of;
use crate::paths::extension_of_bytes;
use crate::paths::joined;
use crate::paths::path_join;
use crate::template::TemplateVariableMap;
use crate::template::expand;
use crate::template::expand_with;
use crate::template::expand_template;
use crate::text::concat_bytes;
use crate::text::ends_with;
use crate::text::ends_with_bytes;
use crate::text::eq_bytes;
use crate::text::push_bytes;

/// The planner of one build: the fixed project directories, the resolved
/// identity, and the profile name that picks the output subdirectory.
pub struct Commands {
    /// The data directory of the project.
    pub datadir: Vec<u8>,
    /// The translations directory of the project.
    pub podir: Vec<u8>,
    /// The resolved project identity.
    pub metadata: Metadata,
    /// The profile name, `debug` or `release`.
    pub profile: Vec<u8>,
}

/// One entry of the data directory, as the caller found it: the file
/// name and, for a regular file, its content.
pub struct DataEntry {
    /// The entry's file name, without its directory.
    pub name: Vec<u8>,
    /// The file content; meaningful only when `is_file` holds.
    pub content: Vec<u8>,
    /// Whether the entry is a regular file.
    pub is_file: bool,
}

/// One planned output file.
pub struct OutFile {
    /// Where to write it.
    pub path: Vec<u8>,
    /// What to write.
    pub content: Vec<u8>,
}

/// The template marker suffix, `.in`.
pub open spec fn in_suffix() -> Seq<u8> {
    ".in".spec_bytes()
}

/// The translation source suffix, `.po`.
pub open spec fn po_suffix() -> Seq<u8> {
    ".po".spec_bytes()
}

/// The compiled catalog suffix, `.mo`.
pub open spec fn mo_suffix() -> Seq<u8> {
    ".mo".spec_bytes()
}

/// A template name: a file name carrying the marker suffix after at
/// least one other byte.
pub open spec fn is_template_name(name: Seq<u8>) -> bool {
    name.len() > in_suffix().len() && ends_with(name, in_suffix())
}

/// A translation source name, `<lang>.po`.
pub open spec fn is_po_name(name: Seq<u8>) -> bool {
    name.len() > po_suffix().len() && ends_with(name, po_suffix())
}

/// The planned output for one data entry: a template is expanded and
/// loses its marker suffix, a plain file is copied byte for byte under
/// its own name, and any other entry is passed over.
pub open spec fn entry_output(
    e: DataEntry,
    outdir: Seq<u8>,
    id: Seq<u8>,
    binary: Seq<u8>,
    name: Seq<u8>,
    version: Seq<u8>,
) -> Seq<(Seq<u8>, Seq<u8>)> {
    if is_template_name(e.name@) {
        seq![
            (
                joined(outdir, e.name@.take(e.name@.len() - in_suffix().len())),
                expand_with(e.content@, id, binary, name, version),
            ),
        ]
    } else if e.is_file {
        seq![(joined(outdir, e.name@), e.content@)]
    } else {
        Seq::empty()
    }
}

/// The planned outputs for a run over the data directory, in the order
/// the entries were handed in.
pub open spec fn config_outputs(
    entries: Seq<DataEntry>,
    outdir: Seq<u8>,
    id: Seq<u8>,
    binary: Seq<u8>,
    name: Seq<u8>,
    version: Seq<u8>,
) -> Seq<(Seq<u8>, Seq<u8>)>
    decreases entries.len(),
{
    if entries.len() == 0 {
        Seq::empty()
    } else {
        config_outputs(entries.drop_last(), outdir, id, binary, name, version) + entry_output(
            entries.last(),
            outdir,
            id,
            binary,
            name,
            version,
        )
    }
}

/// The paths and contents of a sequence of output files.
pub open spec fn out_views(s: Seq<OutFile>) -> Seq<(Seq<u8>, Seq<u8>)> {
    Seq::new(s.len(), |i: int| (s[i].path@, s[i].content@))
}

/// A data entry that dooms the run: a template entry that is not a
/// regular file cannot be read and expanded.
pub open spec fn bad_entry(e: DataEntry) -> bool {
    is_template_name(e.name@) && !e.is_file
}

/// Law: a file without the template marker is copied byte for byte —
/// its planned output carries exactly the input content, under the
/// input's own name.
pub proof fn lemma_plain_file_copied(
    e: DataEntry,
    outdir: Seq<u8>,
    id: Seq<u8>,
    binary: Seq<u8>,
    name: Seq<u8>,
    version: Seq<u8>,
)
    requires
        !is_template_name(e.name@),
        e.is_file,
    ensures
        entry_output(e, outdir, id, binary, name, version) == seq![
            (joined(outdir, e.name@), e.content@),
        ],
{
}

/// The locale tree under the prefix.
pub open spec fn share_locale() -> Seq<u8> {
    "share/locale".spec_bytes()
}

/// The messages directory of one language.
pub open spec fn lc_messages() -> Seq<u8> {
    "LC_MESSAGES".spec_bytes()
}

/// One translation catalog to compile: the language, its source file,
/// the messages directory to create, and the binary catalog to produce
/// there.
pub struct CatalogEntry {
    /// The language code, the stem of the source file name.
    pub lang: Vec<u8>,
    /// The translation source, `<podir>/<lang>.po`.
    pub source: Vec<u8>,
    /// The directory to create, `<locale root>/<lang>/LC_MESSAGES`.
    pub messages_dir: Vec<u8>,
    /// The catalog to produce, `<messages dir>/<lang>.mo`.
    pub catalog: Vec<u8>,
}

/// The planned locale-compilation step: the locale root to create, when
/// there are translations at all, and one catalog per translation
/// source.
pub struct LocalePlan {
    /// `<prefix>/share/locale`; absent when the translations directory
    /// does not exist, which makes the whole step a no-op.
    pub locale_root: Option<Vec<u8>>,
    /// The catalogs to compile, in the order their sources were found.
    pub entries: Vec<CatalogEntry>,
}

/// The catalog planned for one translation source name.
pub open spec fn catalog_for(name: Seq<u8>, podir: Seq<u8>, prefix: Seq<u8>) -> (
    Seq<u8>,
    Seq<u8>,
    Seq<u8>,
    Seq<u8>,
) {
    let lang = name.take(name.len() - po_suffix().len());
    let mdir = joined(joined(joined(prefix, share_locale()), lang), lc_messages());
    (lang, joined(podir, name), mdir, joined(mdir, lang + mo_suffix()))
}

/// The catalogs planned for the names found in the translations
/// directory: one per `.po` file, other entries passed over.
pub open spec fn locale_catalogs(names: Seq<Vec<u8>>, podir: Seq<u8>, prefix: Seq<u8>) -> Seq<
    (Seq<u8>, Seq<u8>, Seq<u8>, Seq<u8>),
>
    decreases names.len(),
{
    if names.len() == 0 {
        Seq::empty()
    } else {
        locale_catalogs(names.drop_last(), podir, prefix) + if is_po_name(names.last()@) {
            seq![catalog_for(names.last()@, podir, prefix)]
        } else {
            Seq::empty()
        }
    }
}

/// The fields of a sequence of catalog entries.
pub open spec fn catalog_views(s: Seq<CatalogEntry>) -> Seq<(Seq<u8>, Seq<u8>, Seq<u8>, Seq<u8>)> {
    Seq::new(s.len(), |i: int| (s[i].lang@, s[i].source@, s[i].messages_dir@, s[i].catalog@))
}

/// The applications directory name under `share`.
pub open spec fn applications_dir() -> Seq<u8> {
    "applications".spec_bytes()
}

/// The appdata directory name under `share`.
pub open spec fn appdata_dir() -> Seq<u8> {
    "appdata".spec_bytes()
}

/// The desktop-entry extension, which routes a file to `applications`.
pub open spec fn desktop_ext() -> Seq<u8> {
    "desktop".spec_bytes()
}

/// One localizable metadata file to install: translated through the
/// message formatter when translations exist, copied verbatim when they
/// do not.
pub struct MetaInstall {
    /// The source file, an expanded template in the build output.
    pub src: Vec<u8>,
    /// The directory to create under the prefix.
    pub dest_dir: Vec<u8>,
    /// The installed file, the source's name under `dest_dir`.
    pub dest: Vec<u8>,
    /// For translation, the mode flag handed to the formatter: `--`
    /// followed by the file's extension.  Absent to copy verbatim.
    pub translate_flag: Option<Vec<u8>>,
}

/// The install planned for one metadata file: its destination directory
/// is `applications` for a desktop entry and `appdata` for anything
/// else, and it is translated exactly when translations exist.  `None`
/// when the file has no extension, which aborts the build.
pub open spec fn meta_install_for(path: Seq<u8>, podir_exists: bool, prefix: Seq<u8>) -> Option<
    (Seq<u8>, Seq<u8>, Seq<u8>, Option<Seq<u8>>),
> {
    match extension_of(path) {
        Option::None => Option::None,
        Option::Some(ext) => {
            let dir = joined(
                joined(prefix, "share".spec_bytes()),
                if ext == desktop_ext() {
                    applications_dir()
                } else {
                    appdata_dir()
                },
            );
            Option::Some(
                (
                    path,
                    dir,
                    joined(dir, base_name(path)),
                    if podir_exists {
                        Option::Some("--".spec_bytes() + ext)
                    } else {
                        Option::None
                    },
                ),
            )
        },
    }
}

/// The fields of a sequence of metadata installs.
pub open spec fn meta_views(s: Seq<MetaInstall>) -> Seq<
    (Seq<u8>, Seq<u8>, Seq<u8>, Option<Seq<u8>>),
> {
    Seq::new(
        s.len(),
        |i: int|
            (
                s[i].src@,
                s[i].dest_dir@,
                s[i].dest@,
                match s[i].translate_flag {
                    Option::Some(f) => Option::Some(f@),
                    Option::None => Option::None,
                },
            ),
    )
}

/// The planned resource-compilation step.
pub struct ResourcePlan {
    /// The directory to create, `<prefix>/share/<app id>`.
    pub install_dir: Vec<u8>,
    /// The resource manifest handed to the compiler.
    pub manifest: Vec<u8>,
    /// The compiler's source root, `<datadir>/resources`.
    pub source_dir: Vec<u8>,
    /// The packed bundle to produce, `<install dir>/<app id>.gresource`.
    pub target: Vec<u8>,
}

/// The planned icon-installation step: both fixed-name icons, copied
/// into their themed destinations.
pub struct IconPlan {
    /// The scalable icon, `<datadir>/icons/<app id>.svg`.
    pub scalable_src: Vec<u8>,
    /// The directory to create for it.
    pub scalable_dest_dir: Vec<u8>,
    /// Where the scalable icon is copied to.
    pub scalable_dest: Vec<u8>,
    /// The symbolic icon, `<datadir>/icons/<app id>-symbolic.svg`.
    pub symbolic_src: Vec<u8>,
    /// The directory to create for it.
    pub symbolic_dest_dir: Vec<u8>,
    /// Where the symbolic icon is copied to.
    pub symbolic_dest: Vec<u8>,
}

/// The themed destination of the scalable icon.
pub open spec fn scalable_apps_dir() -> Seq<u8> {
    "share/icons/hicolor/scalable/apps".spec_bytes()
}

/// The themed destination of the symbolic icon.
pub open spec fn symbolic_apps_dir() -> Seq<u8> {
    "share/icons/hicolor/symbolic/apps".spec_bytes()
}

/// The source path of the scalable icon.
pub open spec fn scalable_icon_src(datadir: Seq<u8>, id: Seq<u8>) -> Seq<u8> {
    joined(joined(datadir, "icons".spec_bytes()), id + ".svg".spec_bytes())
}

/// The source path of the symbolic icon.
pub open spec fn symbolic_icon_src(datadir: Seq<u8>, id: Seq<u8>) -> Seq<u8> {
    joined(joined(datadir, "icons".spec_bytes()), id + "-symbolic.svg".spec_bytes())
}

/// The planned schema-installation step.
pub struct SchemaPlan {
    /// The schema directory to create and recompile,
    /// `<prefix>/share/glib-2.0/schemas`.  Recompiling it touches every
    /// schema other packages installed there too.
    pub schemas_dir: Vec<u8>,
    /// The installed copy of the schema file, under its own name.
    pub dest: Vec<u8>,
}

/// The emitted configuration file.
pub struct ConfigFile {
    /// Where to write it, `<outdir>/config.rs`.
    pub path: Vec<u8>,
    /// What to write.
    pub content: Vec<u8>,
}

/// One emitted constant: `pub static <name>: &str = "<value>";` on a
/// line of its own.
pub open spec fn config_line(cname: Seq<u8>, value: Seq<u8>) -> Seq<u8> {
    "pub static ".spec_bytes() + cname + ": &str = \"".spec_bytes() + value + "\";\n".spec_bytes()
}

/// The five constants every build emits: id, display name, profile,
/// version, and the gettext domain.
pub open spec fn config_base(
    id: Seq<u8>,
    name: Seq<u8>,
    profile: Seq<u8>,
    version: Seq<u8>,
    bin: Seq<u8>,
) -> Seq<u8> {
    config_line("APP_ID".spec_bytes(), id) + config_line("APP_NAME".spec_bytes(), name)
        + config_line("PROFILE".spec_bytes(), profile) + config_line(
        "VERSION".spec_bytes(),
        version,
    ) + config_line("GETTEXT_PACKAGE".spec_bytes(), bin)
}

/// The whole emitted configuration text: the five fixed constants, then
/// the data and locale path constants exactly when the corresponding
/// install directory was found on disk.
pub open spec fn config_content(
    id: Seq<u8>,
    name: Seq<u8>,
    profile: Seq<u8>,
    version: Seq<u8>,
    bin: Seq<u8>,
    data_path: Option<Seq<u8>>,
    locale_path: Option<Seq<u8>>,
) -> Seq<u8> {
    config_base(id, name, profile, version, bin) + (match data_path {
        Option::Some(p) => config_line("PKGDATADIR".spec_bytes(), p),
        Option::None => Seq::empty(),
    }) + (match locale_path {
        Option::Some(p) => config_line("LOCALEDIR".spec_bytes(), p),
        Option::None => Seq::empty(),
    })
}

/// Law: config emission includes the data and locale path constants
/// exactly when the corresponding install directory exists, and omits
/// them, leaving the base text alone, when it does not.
pub proof fn lemma_config_paths_conditional(
    id: Seq<u8>,
    name: Seq<u8>,
    profile: Seq<u8>,
    version: Seq<u8>,
    bin: Seq<u8>,
    d: Seq<u8>,
    l: Seq<u8>,
)
    ensures
        config_content(id, name, profile, version, bin, Option::None, Option::None) == config_base(
            id,
            name,
            profile,
            version,
            bin,
        ),
        config_content(id, name, profile, version, bin, Option::Some(d), Option::Some(l))
            == config_base(id, name, profile, version, bin) + config_line(
            "PKGDATADIR".spec_bytes(),
            d,
        ) + config_line("LOCALEDIR".spec_bytes(), l),
{
    assert(config_content(id, name, profile, version, bin, Option::None, Option::None)
        =~= config_base(id, name, profile, version, bin));
}

/// The planned binary-installation step.
pub struct BinaryPlan {
    /// The arguments for the toolchain's force-install command.
    pub args: Vec<Vec<u8>>,
    /// Bookkeeping files the toolchain leaves in the prefix, deleted
    /// afterwards on a best-effort basis.
    pub cleanup: Vec<Vec<u8>>,
}

/// The views of a sequence of byte strings.
pub open spec fn byte_views(s: Seq<Vec<u8>>) -> Seq<Seq<u8>> {
    Seq::new(s.len(), |i: int| s[i]@)
}

/// The argument list of the force-install command: the fixed install
/// switches, the caller's build flags passed through verbatim, and the
/// prefix as the install root.
pub open spec fn install_args(flags: Seq<Vec<u8>>, prefix: Seq<u8>) -> Seq<Seq<u8>> {
    seq!["install".spec_bytes(), "--force".spec_bytes()] + byte_views(flags) + seq![
        "--path".spec_bytes(),
        ".".spec_bytes(),
        "--root".spec_bytes(),
        prefix,
    ]
}

impl Commands {
    /// Plans the template-expansion step over the entries of the data
    /// directory.  A missing data directory makes the whole step a
    /// no-op.  Otherwise every `.in` entry is expanded with the
    /// project's variable map and dropped of its marker; every other
    /// regular file is copied unchanged; subdirectories are passed
    /// over, not recursed into.  `None` when a template entry is not a
    /// regular file, which aborts the build.
    pub fn process_config_files(
        &self,
        outdir: &[u8],
        datadir_exists: bool,
        entries: &Vec<DataEntry>,
    ) -> (r: Option<Vec<OutFile>>)
        ensures
            r is None <==> (datadir_exists && exists|i: int|
                0 <= i < entries@.len() && bad_entry(#[trigger] entries@[i])),
            r matches Some(outs) ==> out_views(outs@) == (if datadir_exists {
                config_outputs(
                    entries@,
                    outdir@,
                    self.metadata.id@,
                    self.metadata.bin@,
                    self.metadata.name@,
                    self.metadata.version@,
                )
            } else {
                Seq::<(Seq<u8>, Seq<u8>)>::empty()
            }),
    {
        if !datadir_exists {
            let empty: Vec<OutFile> = Vec::new();
            proof {
                assert(out_views(empty@) =~= Seq::<(Seq<u8>, Seq<u8>)>::empty());
            }
            return Some(empty);
        }
        let vars = TemplateVariableMap::new(
            self.metadata.id.as_slice(),
            self.metadata.bin.as_slice(),
            self.metadata.name.as_slice(),
            self.metadata.version.as_slice(),
        );
        let marker = ".in".as_bytes_vec();
        let mut outs: Vec<OutFile> = Vec::new();
        let mut i: usize = 0;
        let n = entries.len();
        while i < n
            invariant
                datadir_exists,
                n == entries@.len(),
                0 <= i <= n,
                marker@ == in_suffix(),
                vars.id@ == self.metadata.id@,
                vars.binary@ == self.metadata.bin@,
                vars.name@ == self.metadata.name@,
                vars.version@ == self.metadata.version@,
                vars.gresource_id@ == crate::text::replace_all(
                    self.metadata.id@,
                    seq![crate::text::DOT],
                    seq![crate::text::SLASH],
                ),
                vars.gettext_domain@ == self.metadata.bin@,
                forall|j: int| 0 <= j < i ==> !bad_entry(#[trigger] entries@[j]),
                out_views(outs@) == config_outputs(
                    entries@.subrange(0, i as int),
                    outdir@,
                    self.metadata.id@,
                    self.metadata.bin@,
                    self.metadata.name@,
                    self.metadata.version@,
                ),
            decreases n - i,
        {
            let ghost prefix = entries@.subrange(0, i as int);
            let ghost prefix1 = entries@.subrange(0, i + 1);
            proof {
                assert(prefix1.drop_last() =~= prefix);
                assert(prefix1.last() == entries@[i as int]);
            }
            let e = &entries[i];
            let is_template = e.name.len() > marker.len() && ends_with_bytes(
                e.name.as_slice(),
                marker.as_slice(),
            );
            if is_template {
                if !e.is_file {
                    proof {
                        assert(bad_entry(entries@[i as int]));
                    }
                    return None;
                }
                let stem = vstd::slice::slice_subrange(
                    e.name.as_slice(),
                    0,
                    e.name.len() - marker.len(),
                );
                let path = path_join(outdir, stem);
                let content = expand_template(e.content.as_slice(), &vars);
                proof {
                    assert(stem@ =~= e.name@.take(e.name@.len() - in_suffix().len()));
                    assert(expand(e.content@, vars) == expand_with(
                        e.content@,
                        self.metadata.id@,
                        self.metadata.bin@,
                        self.metadata.name@,
                        self.metadata.version@,
                    ));
                }
                let ghost before = outs@;
                outs.push(OutFile { path, content });
                proof {
                    assert(outs@.drop_last() =~= before);
                    assert(out_views(outs@) =~= config_outputs(
                        prefix1,
                        outdir@,
                        self.metadata.id@,
                        self.metadata.bin@,
                        self.metadata.name@,
                        self.metadata.version@,
                    ));
                }
            } else if e.is_file {
                let path = path_join(outdir, e.name.as_slice());
                let content = vstd::slice::slice_to_vec(e.content.as_slice());
                let ghost before = outs@;
                outs.push(OutFile { path, content });
                proof {
                    assert(outs@.drop_last() =~= before);
                    assert(out_views(outs@) =~= config_outputs(
                        prefix1,
                        outdir@,
                        self.metadata.id@,
                        self.metadata.bin@,
                        self.metadata.name@,
                        self.metadata.version@,
                    ));
                }
            } else {
                proof {
                    assert(out_views(outs@) =~= config_outputs(
                        prefix1,
                        outdir@,
                        self.metadata.id@,
                        self.metadata.bin@,
                        self.metadata.name@,
                        self.metadata.version@,
                    ));
                }
            }
            i = i + 1;
        }
        proof {
            assert(entries@.subrange(0, n as int) =~= entries@);
        }
        Some(outs)
    }

    /// Plans the locale-compilation step.  When the translations
    /// directory exists, the locale root is created and every `.po`
    /// source in the directory gets a catalog compiled into its
    /// language's messages directory; when it does not, nothing is to
    /// be done.  The caller aborts the build when any single
    /// compilation fails.
    pub fn install_langauge_files(
        &self,
        prefix: &[u8],
        podir_exists: bool,
        po_names: &Vec<Vec<u8>>,
    ) -> (r: LocalePlan)
        ensures
            r.locale_root is Some <==> podir_exists,
            r.locale_root matches Some(root) ==> root@ == joined(prefix@, share_locale()),
            podir_exists ==> catalog_views(r.entries@) == locale_catalogs(
                po_names@,
                self.podir@,
                prefix@,
            ),
            !podir_exists ==> r.entries@.len() == 0,
    {
        if !podir_exists {
            return LocalePlan { locale_root: None, entries: Vec::new() };
        }
        let root = path_join(prefix, "share/locale".as_bytes_vec().as_slice());
        let marker = ".po".as_bytes_vec();
        let mo = ".mo".as_bytes_vec();
        let lcdir = "LC_MESSAGES".as_bytes_vec();
        let mut entries: Vec<CatalogEntry> = Vec::new();
        let mut i: usize = 0;
        let n = po_names.len();
        while i < n
            invariant
                n == po_names@.len(),
                0 <= i <= n,
                marker@ == po_suffix(),
                mo@ == mo_suffix(),
                lcdir@ == lc_messages(),
                root@ == joined(prefix@, share_locale()),
                catalog_views(entries@) == locale_catalogs(
                    po_names@.subrange(0, i as int),
                    self.podir@,
                    prefix@,
                ),
            decreases n - i,
        {
            let ghost prefix0 = po_names@.subrange(0, i as int);
            let ghost prefix1 = po_names@.subrange(0, i + 1);
            proof {
                assert(prefix1.drop_last() =~= prefix0);
                assert(prefix1.last() == po_names@[i as int]);
            }
            let name = &po_names[i];
            if name.len() > marker.len() && ends_with_bytes(name.as_slice(), marker.as_slice()) {
                let lang = vstd::slice::slice_to_vec(
                    vstd::slice::slice_subrange(name.as_slice(), 0, name.len() - marker.len()),
                );
                let messages_dir = path_join(
                    path_join(root.as_slice(), lang.as_slice()).as_slice(),
                    lcdir.as_slice(),
                );
                let source = path_join(self.podir.as_slice(), name.as_slice());
                let catalog = path_join(
                    messages_dir.as_slice(),
                    concat_bytes(lang.as_slice(), mo.as_slice()).as_slice(),
                );
                let ghost before = entries@;
                entries.push(CatalogEntry { lang, source, messages_dir, catalog });
                proof {
                    assert(entries@.drop_last() =~= before);
                    assert(lang@ =~= name@.take(name@.len() - po_suffix().len()));
                    assert(catalog_views(entries@) =~= locale_catalogs(
                        prefix1,
                        self.podir@,
                        prefix@,
                    ));
                }
            } else {
                proof {
                    assert(catalog_views(entries@) =~= locale_catalogs(
                        prefix1,
                        self.podir@,
                        prefix@,
                    ));
                }
            }
            i = i + 1;
        }
        proof {
            assert(po_names@.subrange(0, n as int) =~= po_names@);
        }
        LocalePlan { locale_root: Some(root), entries }
    }

    /// The expanded application-description file of a build,
    /// `<outdir>/<app id>.appdata.xml`.
    pub fn appdata_path(&self, outdir: &[u8]) -> (r: Vec<u8>)
        ensures
            r@ == joined(outdir@, self.metadata.id@ + ".appdata.xml".spec_bytes()),
    {
        path_join(
            outdir,
            concat_bytes(self.metadata.id.as_slice(), ".appdata.xml".as_bytes_vec().as_slice())
                .as_slice(),
        )
    }

    /// The expanded desktop entry of a build, `<outdir>/<app id>.desktop`.
    pub fn desktop_path(&self, outdir: &[u8]) -> (r: Vec<u8>)
        ensures
            r@ == joined(outdir@, self.metadata.id@ + ".desktop".spec_bytes()),
    {
        path_join(
            outdir,
            concat_bytes(self.metadata.id.as_slice(), ".desktop".as_bytes_vec().as_slice())
                .as_slice(),
        )
    }

    /// The expanded resource manifest of a build,
    /// `<outdir>/<app id>.gresource.xml`.
    pub fn gresource_manifest_path(&self, outdir: &[u8]) -> (r: Vec<u8>)
        ensures
            r@ == joined(outdir@, self.metadata.id@ + ".gresource.xml".spec_bytes()),
    {
        path_join(
            outdir,
            concat_bytes(self.metadata.id.as_slice(), ".gresource.xml".as_bytes_vec().as_slice())
                .as_slice(),
        )
    }

    /// The resources subdirectory of the data directory.
    pub fn resources_dir(&self) -> (r: Vec<u8>)
        ensures
            r@ == joined(self.datadir@, "resources".spec_bytes()),
    {
        path_join(self.datadir.as_slice(), "resources".as_bytes_vec().as_slice())
    }

    /// The settings-schema file of the project,
    /// `<datadir>/<app id>.gschema.xml`.
    pub fn gschema_path(&self) -> (r: Vec<u8>)
        ensures
            r@ == joined(self.datadir@, self.metadata.id@ + ".gschema.xml".spec_bytes()),
    {
        path_join(
            self.datadir.as_slice(),
            concat_bytes(self.metadata.id.as_slice(), ".gschema.xml".as_bytes_vec().as_slice())
                .as_slice(),
        )
    }

    /// The scalable icon of the project.
    pub fn scalable_icon_path(&self) -> (r: Vec<u8>)
        ensures
            r@ == scalable_icon_src(self.datadir@, self.metadata.id@),
    {
        path_join(
            path_join(self.datadir.as_slice(), "icons".as_bytes_vec().as_slice()).as_slice(),
            concat_bytes(self.metadata.id.as_slice(), ".svg".as_bytes_vec().as_slice()).as_slice(),
        )
    }

    /// The symbolic icon of the project.
    pub fn symbolic_icon_path(&self) -> (r: Vec<u8>)
        ensures
            r@ == symbolic_icon_src(self.datadir@, self.metadata.id@),
    {
        path_join(
            path_join(self.datadir.as_slice(), "icons".as_bytes_vec().as_slice()).as_slice(),
            concat_bytes(self.metadata.id.as_slice(), "-symbolic.svg".as_bytes_vec().as_slice())
                .as_slice(),
        )
    }

    /// Plans the install of one metadata file, `None` when it has no
    /// extension.
    fn meta_install_one(&self, path: &[u8], podir_exists: bool, prefix: &[u8]) -> (r: Option<
        MetaInstall,
    >)
        ensures
            r is Some <==> meta_install_for(path@, podir_exists, prefix@) is Some,
            r matches Some(m) ==> meta_install_for(path@, podir_exists, prefix@) == Some(
                (
                    m.src@,
                    m.dest_dir@,
                    m.dest@,
                    match m.translate_flag {
                        Option::Some(f) => Option::Some(f@),
                        Option::None => Option::None::<Seq<u8>>,
                    },
                ),
            ),
    {
        let ext = match extension_of_bytes(path) {
            Some(e) => e,
            None => {
                return None;
            },
        };
        let subdir = if eq_bytes(ext.as_slice(), "desktop".as_bytes_vec().as_slice()) {
            "applications".as_bytes_vec()
        } else {
            "appdata".as_bytes_vec()
        };
        let dest_dir = path_join(
            path_join(prefix, "share".as_bytes_vec().as_slice()).as_slice(),
            subdir.as_slice(),
        );
        let dest = path_join(dest_dir.as_slice(), base_name_bytes(path).as_slice());
        let translate_flag = if podir_exists {
            Some(concat_bytes("--".as_bytes_vec().as_slice(), ext.as_slice()))
        } else {
            None
        };
        Some(
            MetaInstall {
                src: vstd::slice::slice_to_vec(path),
                dest_dir,
                dest,
                translate_flag,
            },
        )
    }

    /// Plans the install of the application-description file and the
    /// desktop entry: each existing one goes to its fixed directory
    /// under the prefix, merged with the translations when a
    /// translations directory exists and copied verbatim otherwise.
    /// `None` when an existing file has no extension, which aborts the
    /// build.
    pub fn install_appdata_and_desktop(
        &self,
        appdata: &[u8],
        desktop: &[u8],
        prefix: &[u8],
        appdata_exists: bool,
        desktop_exists: bool,
        podir_exists: bool,
    ) -> (r: Option<Vec<MetaInstall>>)
        ensures
            r is None <==> ((appdata_exists && extension_of(appdata@) is None) || (desktop_exists
                && extension_of(desktop@) is None)),
            r matches Some(v) ==> meta_views(v@) == (if appdata_exists {
                seq![meta_install_for(appdata@, podir_exists, prefix@)->0]
            } else {
                Seq::empty()
            }) + (if desktop_exists {
                seq![meta_install_for(desktop@, podir_exists, prefix@)->0]
            } else {
                Seq::empty()
            }),
    {
        let ghost goal_first: Seq<(Seq<u8>, Seq<u8>, Seq<u8>, Option<Seq<u8>>)> = if appdata_exists {
            seq![meta_install_for(appdata@, podir_exists, prefix@)->0]
        } else {
            Seq::empty()
        };
        let ghost goal_second: Seq<(Seq<u8>, Seq<u8>, Seq<u8>, Option<Seq<u8>>)> = if desktop_exists {
            seq![meta_install_for(desktop@, podir_exists, prefix@)->0]
        } else {
            Seq::empty()
        };
        let mut v: Vec<MetaInstall> = Vec::new();
        if appdata_exists {
            match self.meta_install_one(appdata, podir_exists, prefix) {
                Some(m) => {
                    v.push(m);
                    proof {
                        assert(v@.drop_last() =~= Seq::<MetaInstall>::empty());
                        assert(meta_views(Seq::<MetaInstall>::empty()) =~= Seq::<
                            (Seq<u8>, Seq<u8>, Seq<u8>, Option<Seq<u8>>),
                        >::empty());
                    }
                },
                None => {
                    return None;
                },
            }
        }
        proof {
            assert(meta_views(v@) =~= goal_first);
        }
        let ghost first = v@;
        if desktop_exists {
            match self.meta_install_one(desktop, podir_exists, prefix) {
                Some(m) => {
                    v.push(m);
                    proof {
                        assert(v@.drop_last() =~= first);
                    }
                },
                None => {
                    return None;
                },
            }
        }
        proof {
            assert(meta_views(v@) =~= goal_first + goal_second);
        }
        Some(v)
    }

    /// Plans the resource-compilation step: when both the resource
    /// manifest and the resources subdirectory exist, the external
    /// compiler packs them into a single bundle under the application's
    /// own share directory; otherwise nothing is to be done.
    pub fn install_glib_resources(
        &self,
        glibresource: &[u8],
        prefix: &[u8],
        manifest_exists: bool,
        resourcedir_exists: bool,
    ) -> (r: Option<ResourcePlan>)
        ensures
            r is Some <==> (manifest_exists && resourcedir_exists),
            r matches Some(p) ==> {
                &&& p.install_dir@ == joined(
                    joined(prefix@, "share".spec_bytes()),
                    self.metadata.id@,
                )
                &&& p.manifest@ == glibresource@
                &&& p.source_dir@ == joined(self.datadir@, "resources".spec_bytes())
                &&& p.target@ == joined(
                    joined(joined(prefix@, "share".spec_bytes()), self.metadata.id@),
                    self.metadata.id@ + ".gresource".spec_bytes(),
                )
            },
    {
        if !(manifest_exists && resourcedir_exists) {
            return None;
        }
        let install_dir = path_join(
            path_join(prefix, "share".as_bytes_vec().as_slice()).as_slice(),
            self.metadata.id.as_slice(),
        );
        let target = path_join(
            install_dir.as_slice(),
            concat_bytes(self.metadata.id.as_slice(), ".gresource".as_bytes_vec().as_slice())
                .as_slice(),
        );
        Some(
            ResourcePlan {
                install_dir,
                manifest: vstd::slice::slice_to_vec(glibresource),
                source_dir: path_join(
                    self.datadir.as_slice(),
                    "resources".as_bytes_vec().as_slice(),
                ),
                target,
            },
        )
    }

    /// Plans the icon-installation step.  Both fixed-name icons must
    /// exist for anything to happen: with either one missing the step
    /// installs neither.
    pub fn install_icon_files(&self, prefix: &[u8], scalable_exists: bool, symbolic_exists: bool) -> (r:
        Option<IconPlan>)
        ensures
            r is Some <==> (scalable_exists && symbolic_exists),
            r matches Some(p) ==> {
                &&& p.scalable_src@ == scalable_icon_src(self.datadir@, self.metadata.id@)
                &&& p.scalable_dest_dir@ == joined(prefix@, scalable_apps_dir())
                &&& p.scalable_dest@ == joined(
                    joined(prefix@, scalable_apps_dir()),
                    base_name(scalable_icon_src(self.datadir@, self.metadata.id@)),
                )
                &&& p.symbolic_src@ == symbolic_icon_src(self.datadir@, self.metadata.id@)
                &&& p.symbolic_dest_dir@ == joined(prefix@, symbolic_apps_dir())
                &&& p.symbolic_dest@ == joined(
                    joined(prefix@, symbolic_apps_dir()),
                    base_name(symbolic_icon_src(self.datadir@, self.metadata.id@)),
                )
            },
    {
        if !(scalable_exists && symbolic_exists) {
            return None;
        }
        let icons = path_join(self.datadir.as_slice(), "icons".as_bytes_vec().as_slice());
        let scalable_src = path_join(
            icons.as_slice(),
            concat_bytes(self.metadata.id.as_slice(), ".svg".as_bytes_vec().as_slice()).as_slice(),
        );
        let symbolic_src = path_join(
            icons.as_slice(),
            concat_bytes(self.metadata.id.as_slice(), "-symbolic.svg".as_bytes_vec().as_slice())
                .as_slice(),
        );
        let scalable_dest_dir = path_join(
            prefix,
            "share/icons/hicolor/scalable/apps".as_bytes_vec().as_slice(),
        );
        let symbolic_dest_dir = path_join(
            prefix,
            "share/icons/hicolor/symbolic/apps".as_bytes_vec().as_slice(),
        );
        let scalable_dest = path_join(
            scalable_dest_dir.as_slice(),
            base_name_bytes(scalable_src.as_slice()).as_slice(),
        );
        let symbolic_dest = path_join(
            symbolic_dest_dir.as_slice(),
            base_name_bytes(symbolic_src.as_slice()).as_slice(),
        );
        Some(
            IconPlan {
                scalable_src,
                scalable_dest_dir,
                scalable_dest,
                symbolic_src,
                symbolic_dest_dir,
                symbolic_dest,
            },
        )
    }

    /// Plans the schema-installation step: an existing settings-schema
    /// file is copied into the shared schema directory of the prefix,
    /// which is then recompiled in place; with no schema file nothing
    /// is to be done.
    pub fn install_glib_schemas(&self, gschema: &[u8], prefix: &[u8], gschema_exists: bool) -> (r:
        Option<SchemaPlan>)
        ensures
            r is Some <==> gschema_exists,
            r matches Some(p) ==> {
                &&& p.schemas_dir@ == joined(prefix@, "share/glib-2.0/schemas".spec_bytes())
                &&& p.dest@ == joined(
                    joined(prefix@, "share/glib-2.0/schemas".spec_bytes()),
                    base_name(gschema@),
                )
            },
    {
        if !gschema_exists {
            return None;
        }
        let schemas_dir = path_join(prefix, "share/glib-2.0/schemas".as_bytes_vec().as_slice());
        let dest = path_join(schemas_dir.as_slice(), base_name_bytes(gschema).as_slice());
        Some(SchemaPlan { schemas_dir, dest })
    }

    /// Emits one configuration constant onto `out`.
    fn push_config_line(out: &mut Vec<u8>, cname: &[u8], value: &[u8])
        ensures
            final(out)@ == old(out)@ + config_line(cname@, value@),
    {
        push_bytes(out, "pub static ".as_bytes_vec().as_slice());
        push_bytes(out, cname);
        push_bytes(out, ": &str = \"".as_bytes_vec().as_slice());
        push_bytes(out, value);
        push_bytes(out, "\";\n".as_bytes_vec().as_slice());
        proof {
            assert(out@ =~= old(out)@ + config_line(cname@, value@));
        }
    }

    /// Plans the config-emission step: the generated source text that
    /// exposes the resolved identity constants, written into the build
    /// output directory.  The data and locale path constants appear
    /// exactly when the caller found the corresponding install
    /// directory and handed in its canonical path; this is why the
    /// step runs only after the install directories were created.
    pub fn generate_config_rs(
        &self,
        outdir: &[u8],
        pkgdatadir: &Option<Vec<u8>>,
        localedir: &Option<Vec<u8>>,
    ) -> (r: ConfigFile)
        ensures
            r.path@ == joined(outdir@, "config.rs".spec_bytes()),
            r.content@ == config_content(
                self.metadata.id@,
                self.metadata.name@,
                self.profile@,
                self.metadata.version@,
                self.metadata.bin@,
                match pkgdatadir {
                    Option::Some(p) => Option::Some(p@),
                    Option::None => Option::None,
                },
                match localedir {
                    Option::Some(p) => Option::Some(p@),
                    Option::None => Option::None,
                },
            ),
    {
        let mut content: Vec<u8> = Vec::new();
        Commands::push_config_line(&mut content, "APP_ID".as_bytes_vec().as_slice(), self.metadata.id.as_slice());
        Commands::push_config_line(&mut content, "APP_NAME".as_bytes_vec().as_slice(), self.metadata.name.as_slice());
        Commands::push_config_line(&mut content, "PROFILE".as_bytes_vec().as_slice(), self.profile.as_slice());
        Commands::push_config_line(&mut content, "VERSION".as_bytes_vec().as_slice(), self.metadata.version.as_slice());
        Commands::push_config_line(&mut content, "GETTEXT_PACKAGE".as_bytes_vec().as_slice(), self.metadata.bin.as_slice());
        let ghost base = content@;
        proof {
            assert(base =~= config_base(
                self.metadata.id@,
                self.metadata.name@,
                self.profile@,
                self.metadata.version@,
                self.metadata.bin@,
            ));
        }
        match pkgdatadir {
            Some(p) => {
                Commands::push_config_line(&mut content, "PKGDATADIR".as_bytes_vec().as_slice(), p.as_slice());
            },
            None => {},
        }
        match localedir {
            Some(p) => {
                Commands::push_config_line(&mut content, "LOCALEDIR".as_bytes_vec().as_slice(), p.as_slice());
            },
            None => {},
        }
        let path = path_join(outdir, "config.rs".as_bytes_vec().as_slice());
        proof {
            assert(content@ =~= config_content(
                self.metadata.id@,
                self.metadata.name@,
                self.profile@,
                self.metadata.version@,
                self.metadata.bin@,
                match pkgdatadir {
                    Option::Some(p) => Option::Some(p@),
                    Option::None => Option::None,
                },
                match localedir {
                    Option::Some(p) => Option::Some(p@),
                    Option::None => Option::None,
                },
            ));
        }
        ConfigFile { path, content }
    }

    /// Plans the binary-installation step: the toolchain's force-install
    /// command with the caller's build flags passed through verbatim and
    /// the prefix as install root, and the bookkeeping files to delete
    /// from the prefix afterwards.
    pub fn install_binary(&self, buildflags: &Vec<Vec<u8>>, prefix: &[u8]) -> (r: BinaryPlan)
        ensures
            byte_views(r.args@) == install_args(buildflags@, prefix@),
            byte_views(r.cleanup@) == seq![
                joined(prefix@, ".crates2.json".spec_bytes()),
                joined(prefix@, ".crates.toml".spec_bytes()),
            ],
    {
        let mut args: Vec<Vec<u8>> = Vec::new();
        args.push("install".as_bytes_vec());
        args.push("--force".as_bytes_vec());
        let mut i: usize = 0;
        let n = buildflags.len();
        while i < n
            invariant
                n == buildflags@.len(),
                0 <= i <= n,
                args@.len() == i + 2,
                args@[0]@ == "install".spec_bytes(),
                args@[1]@ == "--force".spec_bytes(),
                forall|j: int| 0 <= j < i ==> args@[j + 2]@ == buildflags@[j]@,
            decreases n - i,
        {
            args.push(vstd::slice::slice_to_vec(buildflags[i].as_slice()));
            i = i + 1;
        }
        args.push("--path".as_bytes_vec());
        args.push(".".as_bytes_vec());
        args.push("--root".as_bytes_vec());
        args.push(vstd::slice::slice_to_vec(prefix));
        proof {
            let goal = install_args(buildflags@, prefix@);
            assert(goal.len() == n + 6);
            assert forall|j: int| 0 <= j < args@.len() implies byte_views(args@)[j] == goal[j] by {
                if 2 <= j < n + 2 {
                    assert(goal[j] == byte_views(buildflags@)[j - 2]);
                    assert(args@[j]@ == buildflags@[j - 2]@);
                }
            }
            assert(byte_views(args@) =~= goal);
        }
        let mut cleanup: Vec<Vec<u8>> = Vec::new();
        cleanup.push(path_join(prefix, ".crates2.json".as_bytes_vec().as_slice()));
        cleanup.push(path_join(prefix, ".crates.toml".as_bytes_vec().as_slice()));
        proof {
            assert(byte_views(cleanup@) =~= seq![
                joined(prefix@, ".crates2.json".spec_bytes()),
                joined(prefix@, ".crates.toml".spec_bytes()),
            ]);
        }
        BinaryPlan { args, cleanup }
    }
}

} // verus!

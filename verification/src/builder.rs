//! The build pipeline: its fixed order of steps, the fail-fast rule that
//! a failed step aborts everything after it, and the scaffolding of a
//! new project.

use vstd::prelude::*;

verus! {

use vstd::string::StrSliceExecFns;
use vstd::string::StringSliceAdditionalSpecFns;
use crate::commands::OutFile;
use crate::metadata::valid_app_id;
use crate::metadata::is_valid_app_id;
use crate::metadata::Metadata;
use crate::paths::joined;
use crate::paths::path_join;
use crate::scaffold::appdata_template;
use crate::scaffold::appdata_template_bytes;
use crate::scaffold::desktop_template;
use crate::scaffold::desktop_template_bytes;
use crate::scaffold::gresource_template;
use crate::scaffold::gresource_template_bytes;
use crate::scaffold::gschema_template;
use crate::scaffold::gschema_template_bytes;
use crate::scaffold::manifest_deps_head;
use crate::scaffold::manifest_deps_head_bytes;
use crate::scaffold::manifest_deps_mid;
use crate::scaffold::manifest_deps_tail;
use crate::scaffold::potfiles_text;
use crate::scaffold::potfiles_text_bytes;
use crate::scaffold::style_css;
use crate::scaffold::style_css_bytes;
use crate::scaffold::window_ui;
use crate::scaffold::window_ui_bytes;
use crate::text::concat_bytes;
use crate::text::push_bytes;

/// The build profile, fixed for the process lifetime.  The one toggle
/// the tool recognizes is the debug flag; with the flag absent the
/// build is a release build, because the flags pass through to the
/// toolchain's install command, which builds optimized unless that same
/// flag asks otherwise — any other default would label the output
/// directory and the emitted configuration with a profile the installed
/// binary was not built under.
pub enum BuildProfile {
    /// An unoptimized build, asked for by the debug flag.
    Debug,
    /// An optimized build, chosen when the debug flag is absent.
    Release,
}

/// The profile's name, which picks the output subdirectory under the
/// target directory and is embedded into the emitted configuration.
pub open spec fn profile_name(p: BuildProfile) -> Seq<u8> {
    match p {
        BuildProfile::Debug => "debug".spec_bytes(),
        BuildProfile::Release => "release".spec_bytes(),
    }
}

impl BuildProfile {
    /// The profile's name as bytes.
    pub fn name(&self) -> (r: Vec<u8>)
        ensures
            r@ == profile_name(*self),
    {
        match self {
            BuildProfile::Debug => "debug".as_bytes_vec(),
            BuildProfile::Release => "release".as_bytes_vec(),
        }
    }
}

/// The steps of one build, in their fixed order, and the two final
/// states.
pub enum BuildStep {
    /// Template expansion into the build output directory.
    ProcessConfig,
    /// Locale compilation.
    InstallLanguages,
    /// Appdata and desktop-entry installation.
    InstallMetaFiles,
    /// Resource compilation.
    InstallResources,
    /// Icon installation.
    InstallIcons,
    /// Schema installation.
    InstallSchemas,
    /// Config emission, which must come after every install step above
    /// so that the install directories already exist.
    GenerateConfig,
    /// Binary installation.
    InstallBinary,
    /// Every step succeeded.
    Done,
    /// A step failed; the build is aborted.
    Failed,
}

/// The position of each step in the fixed order; the two final states
/// come after every step.
pub open spec fn step_index(s: BuildStep) -> int {
    match s {
        BuildStep::ProcessConfig => 0,
        BuildStep::InstallLanguages => 1,
        BuildStep::InstallMetaFiles => 2,
        BuildStep::InstallResources => 3,
        BuildStep::InstallIcons => 4,
        BuildStep::InstallSchemas => 5,
        BuildStep::GenerateConfig => 6,
        BuildStep::InstallBinary => 7,
        BuildStep::Done => 8,
        BuildStep::Failed => 9,
    }
}

/// The step standing at position `k` of the order.
pub open spec fn step_at(k: int) -> BuildStep {
    if k == 0 {
        BuildStep::ProcessConfig
    } else if k == 1 {
        BuildStep::InstallLanguages
    } else if k == 2 {
        BuildStep::InstallMetaFiles
    } else if k == 3 {
        BuildStep::InstallResources
    } else if k == 4 {
        BuildStep::InstallIcons
    } else if k == 5 {
        BuildStep::InstallSchemas
    } else if k == 6 {
        BuildStep::GenerateConfig
    } else if k == 7 {
        BuildStep::InstallBinary
    } else {
        BuildStep::Done
    }
}

impl BuildStep {
    /// The state after this one: the next step in order when the
    /// current step succeeded, the aborted state when it failed; the
    /// two final states stay as they are.
    pub open spec fn spec_next(self, ok: bool) -> BuildStep {
        match self {
            BuildStep::Done => BuildStep::Done,
            BuildStep::Failed => BuildStep::Failed,
            _ => if ok {
                step_at(step_index(self) + 1)
            } else {
                BuildStep::Failed
            },
        }
    }

    /// The first step of a build.
    pub fn first() -> (r: BuildStep)
        ensures
            r == BuildStep::ProcessConfig,
    {
        BuildStep::ProcessConfig
    }

    /// Advances the pipeline by the outcome of the current step.
    pub fn next(self, ok: bool) -> (r: BuildStep)
        ensures
            r == self.spec_next(ok),
    {
        match self {
            BuildStep::ProcessConfig => if ok {
                BuildStep::InstallLanguages
            } else {
                BuildStep::Failed
            },
            BuildStep::InstallLanguages => if ok {
                BuildStep::InstallMetaFiles
            } else {
                BuildStep::Failed
            },
            BuildStep::InstallMetaFiles => if ok {
                BuildStep::InstallResources
            } else {
                BuildStep::Failed
            },
            BuildStep::InstallResources => if ok {
                BuildStep::InstallIcons
            } else {
                BuildStep::Failed
            },
            BuildStep::InstallIcons => if ok {
                BuildStep::InstallSchemas
            } else {
                BuildStep::Failed
            },
            BuildStep::InstallSchemas => if ok {
                BuildStep::GenerateConfig
            } else {
                BuildStep::Failed
            },
            BuildStep::GenerateConfig => if ok {
                BuildStep::InstallBinary
            } else {
                BuildStep::Failed
            },
            BuildStep::InstallBinary => if ok {
                BuildStep::Done
            } else {
                BuildStep::Failed
            },
            BuildStep::Done => BuildStep::Done,
            BuildStep::Failed => BuildStep::Failed,
        }
    }
}

/// The pipeline state after a sequence of step outcomes, starting at
/// the first step.
pub open spec fn pipeline_state(events: Seq<bool>) -> BuildStep
    decreases events.len(),
{
    if events.len() == 0 {
        BuildStep::ProcessConfig
    } else {
        pipeline_state(events.drop_last()).spec_next(events.last())
    }
}

/// A pipeline that has not failed has consumed at least as many
/// outcomes as its state's position.
proof fn lemma_state_progress(events: Seq<bool>)
    ensures
        pipeline_state(events) != BuildStep::Failed ==> events.len() >= step_index(
            pipeline_state(events),
        ),
    decreases events.len(),
{
    if events.len() > 0 {
        lemma_state_progress(events.drop_last());
    }
}

/// A step of the pipeline is reached in exactly one way: by every
/// earlier step succeeding, one outcome per step.
proof fn lemma_step_reached(events: Seq<bool>, s: BuildStep)
    requires
        pipeline_state(events) == s,
        0 <= step_index(s) <= 7,
    ensures
        events.len() == step_index(s),
        forall|j: int| 0 <= j < events.len() ==> events[j] == true,
    decreases events.len(),
{
    if events.len() == 0 {
    } else {
        let prev = pipeline_state(events.drop_last());
        let b = events.last();
        assert(s == prev.spec_next(b));
        assert(prev != BuildStep::Done && prev != BuildStep::Failed);
        assert(b == true);
        assert(step_index(s) == step_index(prev) + 1);
        lemma_step_reached(events.drop_last(), prev);
        assert forall|j: int| 0 <= j < events.len() implies events[j] == true by {
            if j < events.len() - 1 {
                assert(events.drop_last()[j] == events[j]);
            }
        }
    }
}

/// Law: fail-fast.  One failed step leaves the pipeline aborted for
/// good: whatever outcomes follow, the state stays aborted and no later
/// step, config emission included, is ever reached.
pub proof fn lemma_failure_aborts(events: Seq<bool>, i: int)
    requires
        0 <= i < events.len(),
        events.len() <= 8,
        events[i] == false,
    ensures
        pipeline_state(events) == BuildStep::Failed,
    decreases events.len(),
{
    if i == events.len() - 1 {
        let prev = pipeline_state(events.drop_last());
        lemma_state_progress(events.drop_last());
        if prev == BuildStep::Done {
            lemma_step_reached(events.drop_last(), prev);
        }
    } else {
        lemma_failure_aborts(events.drop_last(), i);
    }
}

/// Law: the config-emission step is reached exactly when every install
/// step before it — template expansion, locale compilation, the
/// metadata, resource, icon and schema installs — succeeded.  In
/// particular a locale-compilation failure means the configuration file
/// is never emitted.
pub proof fn lemma_config_needs_all_successes(events: Seq<bool>)
    ensures
        pipeline_state(events) == BuildStep::GenerateConfig <==> (events.len() == 6 && forall|
            j: int,
        | 0 <= j < events.len() ==> events[j] == true),
    decreases events.len(),
{
    if pipeline_state(events) == BuildStep::GenerateConfig {
        lemma_step_reached(events, BuildStep::GenerateConfig);
    } else {
        if events.len() == 6 && (forall|j: int| 0 <= j < events.len() ==> events[j] == true) {
            lemma_all_successes(events);
            assert(step_at(6) == BuildStep::GenerateConfig);
        }
    }
}

/// After `k <= 8` successes the pipeline stands at step `k`.
proof fn lemma_all_successes(events: Seq<bool>)
    requires
        events.len() <= 8,
        forall|j: int| 0 <= j < events.len() ==> events[j] == true,
    ensures
        pipeline_state(events) == step_at(events.len() as int),
    decreases events.len(),
{
    if events.len() > 0 {
        lemma_all_successes(events.drop_last());
    }
}

/// Whether the toolchain's install command succeeded: it ran and exited
/// with status zero.  Any other exit status, and a command that could
/// not run at all, fails the build.
pub fn install_succeeded(code: Option<i32>) -> (r: bool)
    ensures
        r == (code == Some(0i32)),
{
    match code {
        Some(c) => c == 0,
        None => false,
    }
}

/// One build run: the profile name and the flags passed through to the
/// binary-installation step.
pub struct Builder {
    /// The profile name, `debug` or `release`.
    pub profile: Vec<u8>,
    /// Build flags forwarded verbatim to the toolchain install command.
    pub buildflags: Vec<Vec<u8>>,
}

/// One generated project: the directories to create and the files to
/// write, the rewritten manifest among them.
pub struct ScaffoldPlan {
    /// Directories to create, parents first.
    pub dirs: Vec<Vec<u8>>,
    /// Files to write.
    pub files: Vec<OutFile>,
}

/// The number of bytes a freshly generated manifest ends with — its
/// empty dependency table — which the rewrite strips before appending
/// its own.
pub const MANIFEST_TAIL_LEN: usize = 15;

/// The generated manifest rewritten: its empty dependency table
/// replaced by the framework dependencies and the packaging metadata
/// table carrying the application id and display name.
pub open spec fn rewritten_manifest(manifest: Seq<u8>, id: Seq<u8>, name: Seq<u8>) -> Seq<u8> {
    manifest.take(manifest.len() - MANIFEST_TAIL_LEN) + manifest_deps_head() + id
        + manifest_deps_mid() + name + manifest_deps_tail()
}

impl Builder {
    /// A builder for one run.
    pub fn new(buildflags: Vec<Vec<u8>>, profile: Vec<u8>) -> (r: Builder)
        ensures
            r.buildflags == buildflags,
            r.profile == profile,
    {
        Builder { buildflags, profile }
    }

    /// The data output directory of this build,
    /// `<target dir>/<profile>/data`.
    pub fn outdir(&self, metadata: &Metadata) -> (r: Vec<u8>)
        ensures
            r@ == joined(joined(metadata.targetdir@, self.profile@), "data".spec_bytes()),
    {
        path_join(
            path_join(metadata.targetdir.as_slice(), self.profile.as_slice()).as_slice(),
            "data".as_bytes_vec().as_slice(),
        )
    }

    /// Plans a new project: the directories and files of the skeleton,
    /// including the manifest rewritten around the text the toolchain's
    /// project-init command generated, and the entry-point source stub,
    /// whose text the caller supplies.  A malformed application id —
    /// anything but exactly two dots with none at the end — rejects the
    /// whole request and nothing is planned.
    pub fn create_project(
        id: &[u8],
        name: &[u8],
        bin: &[u8],
        manifest: &[u8],
        main_stub: &[u8],
    ) -> (r: Option<ScaffoldPlan>)
        requires
            manifest@.len() >= MANIFEST_TAIL_LEN,
        ensures
            r is Some <==> valid_app_id(id@),
            r matches Some(p) ==> {
                let datadir = joined(bin@, "data".spec_bytes());
                let resources = joined(datadir, "resources".spec_bytes());
                let podir = joined(bin@, "po".spec_bytes());
                &&& p.dirs@.len() == 3
                &&& p.dirs@[0]@ == resources
                &&& p.dirs@[1]@ == joined(datadir, "icons".spec_bytes())
                &&& p.dirs@[2]@ == podir
                &&& p.files@.len() == 10
                &&& p.files@[0].path@ == joined(bin@, "Cargo.toml".spec_bytes())
                &&& p.files@[0].content@ == rewritten_manifest(manifest@, id@, name@)
                &&& p.files@[1].path@ == joined(
                    joined(bin@, "src".spec_bytes()),
                    "main.rs".spec_bytes(),
                )
                &&& p.files@[1].content@ == main_stub@
                &&& p.files@[2].path@ == joined(datadir, id@ + ".gschema.xml.in".spec_bytes())
                &&& p.files@[2].content@ == gschema_template()
                &&& p.files@[3].path@ == joined(datadir, id@ + ".desktop.in".spec_bytes())
                &&& p.files@[3].content@ == desktop_template()
                &&& p.files@[4].path@ == joined(datadir, id@ + ".appdata.xml.in".spec_bytes())
                &&& p.files@[4].content@ == appdata_template()
                &&& p.files@[5].path@ == joined(datadir, id@ + ".gresource.xml.in".spec_bytes())
                &&& p.files@[5].content@ == gresource_template()
                &&& p.files@[6].path@ == joined(resources, "window.ui".spec_bytes())
                &&& p.files@[6].content@ == window_ui()
                &&& p.files@[7].path@ == joined(resources, "style.css".spec_bytes())
                &&& p.files@[7].content@ == style_css()
                &&& p.files@[8].path@ == joined(podir, "LINGUAS".spec_bytes())
                &&& p.files@[8].content@ == Seq::<u8>::empty()
                &&& p.files@[9].path@ == joined(podir, "POTFILES.in".spec_bytes())
                &&& p.files@[9].content@ == potfiles_text()
            },
    {
        if !is_valid_app_id(id) {
            return None;
        }
        let datadir = path_join(bin, "data".as_bytes_vec().as_slice());
        let resources = path_join(datadir.as_slice(), "resources".as_bytes_vec().as_slice());
        let podir = path_join(bin, "po".as_bytes_vec().as_slice());

        let mut dirs: Vec<Vec<u8>> = Vec::new();
        dirs.push(vstd::slice::slice_to_vec(resources.as_slice()));
        dirs.push(path_join(datadir.as_slice(), "icons".as_bytes_vec().as_slice()));
        dirs.push(vstd::slice::slice_to_vec(podir.as_slice()));

        let mut rewritten: Vec<u8> = vstd::slice::slice_to_vec(
            vstd::slice::slice_subrange(manifest, 0, manifest.len() - MANIFEST_TAIL_LEN),
        );
        push_bytes(&mut rewritten, manifest_deps_head_bytes().as_slice());
        push_bytes(&mut rewritten, id);
        push_bytes(&mut rewritten, "\"\nname = \"".as_bytes_vec().as_slice());
        push_bytes(&mut rewritten, name);
        push_bytes(&mut rewritten, "\"".as_bytes_vec().as_slice());
        proof {
            assert(rewritten@ =~= rewritten_manifest(manifest@, id@, name@));
        }

        let mut files: Vec<OutFile> = Vec::new();
        files.push(OutFile { path: path_join(bin, "Cargo.toml".as_bytes_vec().as_slice()), content: rewritten });
        files.push(
            OutFile {
                path: path_join(
                    path_join(bin, "src".as_bytes_vec().as_slice()).as_slice(),
                    "main.rs".as_bytes_vec().as_slice(),
                ),
                content: vstd::slice::slice_to_vec(main_stub),
            },
        );
        files.push(
            OutFile {
                path: path_join(
                    datadir.as_slice(),
                    concat_bytes(id, ".gschema.xml.in".as_bytes_vec().as_slice()).as_slice(),
                ),
                content: gschema_template_bytes(),
            },
        );
        files.push(
            OutFile {
                path: path_join(
                    datadir.as_slice(),
                    concat_bytes(id, ".desktop.in".as_bytes_vec().as_slice()).as_slice(),
                ),
                content: desktop_template_bytes(),
            },
        );
        files.push(
            OutFile {
                path: path_join(
                    datadir.as_slice(),
                    concat_bytes(id, ".appdata.xml.in".as_bytes_vec().as_slice()).as_slice(),
                ),
                content: appdata_template_bytes(),
            },
        );
        files.push(
            OutFile {
                path: path_join(
                    datadir.as_slice(),
                    concat_bytes(id, ".gresource.xml.in".as_bytes_vec().as_slice()).as_slice(),
                ),
                content: gresource_template_bytes(),
            },
        );
        files.push(
            OutFile {
                path: path_join(resources.as_slice(), "window.ui".as_bytes_vec().as_slice()),
                content: window_ui_bytes(),
            },
        );
        files.push(
            OutFile {
                path: path_join(resources.as_slice(), "style.css".as_bytes_vec().as_slice()),
                content: style_css_bytes(),
            },
        );
        files.push(
            OutFile {
                path: path_join(podir.as_slice(), "LINGUAS".as_bytes_vec().as_slice()),
                content: Vec::new(),
            },
        );
        files.push(
            OutFile {
                path: path_join(podir.as_slice(), "POTFILES.in".as_bytes_vec().as_slice()),
                content: potfiles_text_bytes(),
            },
        );
        Some(ScaffoldPlan { dirs, files })
    }
}

} // verus!

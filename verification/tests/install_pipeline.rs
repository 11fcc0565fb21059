//! The install-step planners and the fail-fast pipeline order.

use cargo_pkg::builder::{install_succeeded, BuildProfile, Builder, BuildStep};
use cargo_pkg::commands::Commands;
use cargo_pkg::metadata::Metadata;

fn sample_commands() -> Commands {
    Commands {
        datadir: b"data".to_vec(),
        podir: b"po".to_vec(),
        metadata: Metadata {
            id: b"io.foo.Bar".to_vec(),
            bin: b"foobar".to_vec(),
            name: b"Foo Bar".to_vec(),
            version: b"1.0.0".to_vec(),
            targetdir: b"./target".to_vec(),
        },
        profile: b"release".to_vec(),
    }
}

#[test]
fn locale_plan_compiles_each_po_file() {
    let c = sample_commands();
    let names = vec![b"de.po".to_vec(), b"README".to_vec(), b"fr.po".to_vec()];
    let plan = c.install_langauge_files(b"/usr/local", true, &names);
    assert_eq!(plan.locale_root.unwrap(), b"/usr/local/share/locale".to_vec());
    assert_eq!(plan.entries.len(), 2);
    assert_eq!(plan.entries[0].lang, b"de".to_vec());
    assert_eq!(plan.entries[0].source, b"po/de.po".to_vec());
    assert_eq!(
        plan.entries[0].messages_dir,
        b"/usr/local/share/locale/de/LC_MESSAGES".to_vec()
    );
    assert_eq!(
        plan.entries[0].catalog,
        b"/usr/local/share/locale/de/LC_MESSAGES/de.mo".to_vec()
    );
    assert_eq!(plan.entries[1].lang, b"fr".to_vec());
}

#[test]
fn absent_translations_directory_is_a_noop() {
    let c = sample_commands();
    let plan = c.install_langauge_files(b"/usr/local", false, &vec![b"de.po".to_vec()]);
    assert!(plan.locale_root.is_none());
    assert!(plan.entries.is_empty());
}

#[test]
fn desktop_entry_routes_to_applications() {
    let c = sample_commands();
    let v = c
        .install_appdata_and_desktop(
            b"out/io.foo.Bar.appdata.xml",
            b"out/io.foo.Bar.desktop",
            b"/usr/local",
            true,
            true,
            true,
        )
        .unwrap();
    assert_eq!(v.len(), 2);
    assert_eq!(v[0].src, b"out/io.foo.Bar.appdata.xml".to_vec());
    assert_eq!(v[0].dest_dir, b"/usr/local/share/appdata".to_vec());
    assert_eq!(v[0].dest, b"/usr/local/share/appdata/io.foo.Bar.appdata.xml".to_vec());
    assert_eq!(v[0].translate_flag.as_ref().unwrap(), &b"--xml".to_vec());
    assert_eq!(v[1].dest_dir, b"/usr/local/share/applications".to_vec());
    assert_eq!(v[1].dest, b"/usr/local/share/applications/io.foo.Bar.desktop".to_vec());
    assert_eq!(v[1].translate_flag.as_ref().unwrap(), &b"--desktop".to_vec());
}

#[test]
fn without_translations_metadata_files_are_copied() {
    let c = sample_commands();
    let v = c
        .install_appdata_and_desktop(
            b"out/io.foo.Bar.appdata.xml",
            b"out/io.foo.Bar.desktop",
            b"/p",
            true,
            false,
            false,
        )
        .unwrap();
    assert_eq!(v.len(), 1);
    assert!(v[0].translate_flag.is_none());
}

#[test]
fn extensionless_metadata_file_aborts() {
    let c = sample_commands();
    assert!(c
        .install_appdata_and_desktop(b"out/appdata", b"out/x.desktop", b"/p", true, true, false)
        .is_none());
}

#[test]
fn resources_need_manifest_and_directory() {
    let c = sample_commands();
    assert!(c.install_glib_resources(b"out/r.gresource.xml", b"/p", true, false).is_none());
    assert!(c.install_glib_resources(b"out/r.gresource.xml", b"/p", false, true).is_none());
    let p = c.install_glib_resources(b"out/r.gresource.xml", b"/p", true, true).unwrap();
    assert_eq!(p.install_dir, b"/p/share/io.foo.Bar".to_vec());
    assert_eq!(p.manifest, b"out/r.gresource.xml".to_vec());
    assert_eq!(p.source_dir, b"data/resources".to_vec());
    assert_eq!(p.target, b"/p/share/io.foo.Bar/io.foo.Bar.gresource".to_vec());
}

#[test]
fn icons_install_all_or_nothing() {
    let c = sample_commands();
    assert!(c.install_icon_files(b"/p", true, false).is_none());
    assert!(c.install_icon_files(b"/p", false, true).is_none());
    assert!(c.install_icon_files(b"/p", false, false).is_none());
    let p = c.install_icon_files(b"/p", true, true).unwrap();
    assert_eq!(p.scalable_src, b"data/icons/io.foo.Bar.svg".to_vec());
    assert_eq!(p.scalable_dest_dir, b"/p/share/icons/hicolor/scalable/apps".to_vec());
    assert_eq!(
        p.scalable_dest,
        b"/p/share/icons/hicolor/scalable/apps/io.foo.Bar.svg".to_vec()
    );
    assert_eq!(p.symbolic_src, b"data/icons/io.foo.Bar-symbolic.svg".to_vec());
    assert_eq!(
        p.symbolic_dest,
        b"/p/share/icons/hicolor/symbolic/apps/io.foo.Bar-symbolic.svg".to_vec()
    );
}

#[test]
fn schema_plan_copies_into_shared_directory() {
    let c = sample_commands();
    assert!(c.install_glib_schemas(b"data/io.foo.Bar.gschema.xml", b"/p", false).is_none());
    let p = c.install_glib_schemas(b"data/io.foo.Bar.gschema.xml", b"/p", true).unwrap();
    assert_eq!(p.schemas_dir, b"/p/share/glib-2.0/schemas".to_vec());
    assert_eq!(p.dest, b"/p/share/glib-2.0/schemas/io.foo.Bar.gschema.xml".to_vec());
}

#[test]
fn config_emission_includes_paths_only_when_found() {
    let c = sample_commands();
    let without = c.generate_config_rs(b"out", &None, &None);
    assert_eq!(without.path, b"out/config.rs".to_vec());
    let text = String::from_utf8(without.content).unwrap();
    let expected = "pub static APP_ID: &str = \"io.foo.Bar\";\n\
pub static APP_NAME: &str = \"Foo Bar\";\n\
pub static PROFILE: &str = \"release\";\n\
pub static VERSION: &str = \"1.0.0\";\n\
pub static GETTEXT_PACKAGE: &str = \"foobar\";\n";
    assert_eq!(text, expected);
    assert!(!text.contains("PKGDATADIR"));
    assert!(!text.contains("LOCALEDIR"));

    let with = c.generate_config_rs(
        b"out",
        &Some(b"/p/share/appdata".to_vec()),
        &Some(b"/p/share/locale".to_vec()),
    );
    let text = String::from_utf8(with.content).unwrap();
    assert!(text.contains("pub static PKGDATADIR: &str = \"/p/share/appdata\";\n"));
    assert!(text.contains("pub static LOCALEDIR: &str = \"/p/share/locale\";\n"));
}

#[test]
fn binary_install_passes_flags_through() {
    let c = sample_commands();
    let flags = vec![b"--debug".to_vec(), b"--offline".to_vec()];
    let p = c.install_binary(&flags, b"/usr/local");
    let args: Vec<&[u8]> = p.args.iter().map(|a| a.as_slice()).collect();
    assert_eq!(
        args,
        vec![
            b"install".as_slice(),
            b"--force",
            b"--debug",
            b"--offline",
            b"--path",
            b".",
            b"--root",
            b"/usr/local",
        ]
    );
    assert_eq!(p.cleanup.len(), 2);
    assert_eq!(p.cleanup[0], b"/usr/local/.crates2.json".to_vec());
    assert_eq!(p.cleanup[1], b"/usr/local/.crates.toml".to_vec());
}

#[test]
fn install_success_means_exit_zero() {
    assert!(install_succeeded(Some(0)));
    assert!(!install_succeeded(Some(101)));
    assert!(!install_succeeded(Some(1)));
    assert!(!install_succeeded(None));
}

#[test]
fn pipeline_visits_steps_in_order() {
    let mut s = BuildStep::first();
    assert!(matches!(s, BuildStep::ProcessConfig));
    s = s.next(true);
    assert!(matches!(s, BuildStep::InstallLanguages));
    s = s.next(true);
    assert!(matches!(s, BuildStep::InstallMetaFiles));
    s = s.next(true);
    assert!(matches!(s, BuildStep::InstallResources));
    s = s.next(true);
    assert!(matches!(s, BuildStep::InstallIcons));
    s = s.next(true);
    assert!(matches!(s, BuildStep::InstallSchemas));
    s = s.next(true);
    assert!(matches!(s, BuildStep::GenerateConfig));
    s = s.next(true);
    assert!(matches!(s, BuildStep::InstallBinary));
    s = s.next(true);
    assert!(matches!(s, BuildStep::Done));
}

#[test]
fn locale_failure_aborts_before_config_emission() {
    // template expansion succeeds, locale compilation fails: the
    // pipeline is aborted and never reaches config emission
    let mut s = BuildStep::first();
    s = s.next(true);
    assert!(matches!(s, BuildStep::InstallLanguages));
    s = s.next(false);
    assert!(matches!(s, BuildStep::Failed));
    // whatever outcomes follow, it stays aborted
    s = s.next(true);
    assert!(matches!(s, BuildStep::Failed));
    s = s.next(false);
    assert!(matches!(s, BuildStep::Failed));
}

#[test]
fn profile_names_pick_the_output_subdirectory() {
    assert_eq!(BuildProfile::Debug.name(), b"debug".to_vec());
    assert_eq!(BuildProfile::Release.name(), b"release".to_vec());
}

#[test]
fn builder_keeps_profile_and_flags() {
    let b = Builder::new(vec![b"--debug".to_vec()], b"debug".to_vec());
    assert_eq!(b.profile, b"debug".to_vec());
    assert_eq!(b.buildflags.len(), 1);
    let m = Metadata {
        id: b"io.foo.Bar".to_vec(),
        bin: b"foobar".to_vec(),
        name: b"Foo Bar".to_vec(),
        version: b"1.0.0".to_vec(),
        targetdir: b"./target".to_vec(),
    };
    assert_eq!(b.outdir(&m), b"./target/debug/data".to_vec());
}

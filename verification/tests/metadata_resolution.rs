//! Metadata resolution from manifest text, application-id validation,
//! and project scaffolding.

use cargo_pkg::builder::Builder;
use cargo_pkg::metadata::{is_valid_app_id, Metadata};

const MANIFEST: &str = r#"
[package]
name = "foobar"
version = "1.0.0"

[package.metadata.pkg]
id = "io.foo.Bar"
name = "Foo Bar"
"#;

#[test]
fn resolves_identity_fields() {
    let m = Metadata::from(MANIFEST).unwrap();
    assert_eq!(m.bin, b"foobar".to_vec());
    assert_eq!(m.version, b"1.0.0".to_vec());
    assert_eq!(m.id, b"io.foo.Bar".to_vec());
    assert_eq!(m.name, b"Foo Bar".to_vec());
    assert_eq!(m.targetdir, b"./target".to_vec());
}

#[test]
fn target_dir_from_build_table() {
    let text = format!("{}\n[build]\ntarget-dir = \"elsewhere\"\n", MANIFEST);
    let m = Metadata::from(&text).unwrap();
    assert_eq!(m.targetdir, b"elsewhere".to_vec());
}

#[test]
fn non_string_target_dir_is_rejected() {
    let text = format!("{}\n[build]\ntarget-dir = 5\n", MANIFEST);
    assert!(Metadata::from(&text).is_none());
}

#[test]
fn missing_packaging_table_is_rejected() {
    let text = "[package]\nname = \"foobar\"\nversion = \"1.0.0\"\n";
    assert!(Metadata::from(text).is_none());
}

#[test]
fn missing_id_is_rejected() {
    let text = "[package]\nname = \"x\"\nversion = \"1\"\n[package.metadata.pkg]\nname = \"X\"\n";
    assert!(Metadata::from(text).is_none());
}

#[test]
fn unparsable_manifest_is_rejected() {
    assert!(Metadata::from("this is = not [ toml").is_none());
}

#[test]
fn app_id_needs_exactly_two_dots() {
    assert!(is_valid_app_id(b"io.foo.Bar"));
    assert!(!is_valid_app_id(b"iofoobar"));
    assert!(!is_valid_app_id(b"io.foobar"));
    assert!(!is_valid_app_id(b"io.foo.bar.baz"));
    assert!(!is_valid_app_id(b""));
}

#[test]
fn app_id_must_not_end_in_a_dot() {
    assert!(!is_valid_app_id(b"io.foo."));
    assert!(!is_valid_app_id(b"..."));
    assert!(is_valid_app_id(b"a.b.c"));
}

#[test]
fn scaffolder_rejects_malformed_ids() {
    let manifest = b"[package]\nname = \"x\"\n\n[dependencies]\n";
    assert!(Builder::create_project(b"io.foo", b"Foo", b"foo", manifest, b"fn main() {}").is_none());
    assert!(Builder::create_project(b"io.foo.Bar.", b"Foo", b"foo", manifest, b"fn main() {}").is_none());
    assert!(Builder::create_project(b"io.foo.Bar", b"Foo", b"foo", manifest, b"fn main() {}").is_some());
}

#[test]
fn scaffold_rewrites_manifest_and_lays_out_skeleton() {
    let manifest = b"[package]\nname = \"foo\"\n\n[dependencies]\n";
    let plan = Builder::create_project(b"io.foo.Bar", b"Foo Bar", b"foo", manifest, b"fn main() {}").unwrap();

    assert_eq!(plan.dirs.len(), 3);
    assert_eq!(plan.dirs[0], b"foo/data/resources".to_vec());
    assert_eq!(plan.dirs[1], b"foo/data/icons".to_vec());
    assert_eq!(plan.dirs[2], b"foo/po".to_vec());

    assert_eq!(plan.files.len(), 10);
    assert_eq!(plan.files[0].path, b"foo/Cargo.toml".to_vec());
    let rewritten = String::from_utf8(plan.files[0].content.clone()).unwrap();
    // the generated tail is stripped and the dependency block spliced in
    assert!(rewritten.starts_with("[package]\nname = \"foo\"\n\n[dependencies]\nlog = \"0.4\""));
    assert!(rewritten.contains("[package.metadata.pkg]\nid = \"io.foo.Bar\"\nname = \"Foo Bar\""));

    assert_eq!(plan.files[1].path, b"foo/src/main.rs".to_vec());
    assert_eq!(plan.files[1].content, b"fn main() {}".to_vec());
    assert_eq!(plan.files[2].path, b"foo/data/io.foo.Bar.gschema.xml.in".to_vec());
    let gschema = String::from_utf8(plan.files[2].content.clone()).unwrap();
    assert!(gschema.contains("@GETTEXT_DOMAIN@"));
    assert_eq!(plan.files[3].path, b"foo/data/io.foo.Bar.desktop.in".to_vec());
    let desktop = String::from_utf8(plan.files[3].content.clone()).unwrap();
    assert!(desktop.starts_with("[Desktop Entry]\nName=@APP_NAME@"));
    assert_eq!(plan.files[4].path, b"foo/data/io.foo.Bar.appdata.xml.in".to_vec());
    assert_eq!(plan.files[5].path, b"foo/data/io.foo.Bar.gresource.xml.in".to_vec());
    assert_eq!(plan.files[6].path, b"foo/data/resources/window.ui".to_vec());
    assert_eq!(plan.files[7].path, b"foo/data/resources/style.css".to_vec());
    assert_eq!(plan.files[7].content, b".title-header { font-size: 40px }".to_vec());
    assert_eq!(plan.files[8].path, b"foo/po/LINGUAS".to_vec());
    assert!(plan.files[8].content.is_empty());
    assert_eq!(plan.files[9].path, b"foo/po/POTFILES.in".to_vec());
    assert_eq!(plan.files[9].content, b"src/main.rs".to_vec());
}

//! Template expansion: token replacement, idempotence, byte-for-byte
//! copies, and the end-to-end desktop-entry scenario.

use cargo_pkg::commands::{Commands, DataEntry};
use cargo_pkg::metadata::Metadata;
use cargo_pkg::template::{expand_template, TemplateVariableMap};

fn sample_metadata() -> Metadata {
    Metadata {
        id: b"io.foo.Bar".to_vec(),
        bin: b"foobar".to_vec(),
        name: b"Foo Bar".to_vec(),
        version: b"1.0.0".to_vec(),
        targetdir: b"./target".to_vec(),
    }
}

fn sample_commands() -> Commands {
    Commands {
        datadir: b"data".to_vec(),
        podir: b"po".to_vec(),
        metadata: sample_metadata(),
        profile: b"release".to_vec(),
    }
}

fn sample_map() -> TemplateVariableMap {
    TemplateVariableMap::new(b"io.foo.Bar", b"foobar", b"Foo Bar", b"1.0.0")
}

#[test]
fn every_token_is_replaced() {
    let m = sample_map();
    let text = b"id=@APP_ID@ bin=@APP_BINARY@ name=@APP_NAME@ \
version=@APP_VERSION@ res=@GRESOURCE_ID@ domain=@GETTEXT_DOMAIN@";
    let out = expand_template(text, &m);
    assert_eq!(
        out,
        b"id=io.foo.Bar bin=foobar name=Foo Bar version=1.0.0 res=io/foo/Bar domain=foobar"
            .to_vec()
    );
}

#[test]
fn no_residual_token_text() {
    let m = sample_map();
    let text = b"a @APP_ID@ b @APP_ID@@APP_NAME@ c @GETTEXT_DOMAIN@";
    let out = expand_template(text, &m);
    let out_str = String::from_utf8(out).unwrap();
    for token in [
        "@APP_ID@",
        "@APP_BINARY@",
        "@APP_NAME@",
        "@APP_VERSION@",
        "@GRESOURCE_ID@",
        "@GETTEXT_DOMAIN@",
    ] {
        assert!(!out_str.contains(token), "token {} survived: {}", token, out_str);
    }
}

#[test]
fn gresource_id_turns_dots_into_slashes() {
    let m = sample_map();
    assert_eq!(m.gresource_id, b"io/foo/Bar".to_vec());
    assert_eq!(m.gettext_domain, b"foobar".to_vec());
}

#[test]
fn expansion_is_deterministic() {
    let m = sample_map();
    let text = b"<id>@APP_ID@</id><name>@APP_NAME@</name> plain text";
    let first = expand_template(text, &m);
    let second = expand_template(text, &m);
    assert_eq!(first, second);
}

#[test]
fn untouched_text_passes_through() {
    let m = sample_map();
    let text = b"no tokens here, not even an at sign";
    assert_eq!(expand_template(text, &m), text.to_vec());
}

#[test]
fn generated_templates_expand_cleanly() {
    let m = sample_map();
    let desktop = expand_template(&cargo_pkg::scaffold::desktop_template_bytes(), &m);
    let desktop = String::from_utf8(desktop).unwrap();
    assert!(desktop.contains("Name=Foo Bar"));
    assert!(desktop.contains("Exec=foobar"));
    assert!(!desktop.contains('@'));
    let gschema = expand_template(&cargo_pkg::scaffold::gschema_template_bytes(), &m);
    let gschema = String::from_utf8(gschema).unwrap();
    assert!(gschema.contains("path=\"/io/foo/Bar/\""));
    assert!(!gschema.contains('@'));
    let appdata = expand_template(&cargo_pkg::scaffold::appdata_template_bytes(), &m);
    let appdata = String::from_utf8(appdata).unwrap();
    assert!(appdata.contains("<release version=\"1.0.0\"/>"));
    assert!(!appdata.contains('@'));
    let gresource = expand_template(&cargo_pkg::scaffold::gresource_template_bytes(), &m);
    let gresource = String::from_utf8(gresource).unwrap();
    assert!(gresource.contains("prefix=\"/io/foo/Bar/\""));
    assert!(!gresource.contains('@'));
}

#[test]
fn process_renames_template_and_expands() {
    let c = sample_commands();
    let entries = vec![DataEntry {
        name: b"app.desktop.in".to_vec(),
        content: b"Name=@APP_NAME@".to_vec(),
        is_file: true,
    }];
    let outs = c.process_config_files(b"target/release/data", true, &entries).unwrap();
    assert_eq!(outs.len(), 1);
    assert_eq!(outs[0].path, b"target/release/data/app.desktop".to_vec());
    assert_eq!(outs[0].content, b"Name=Foo Bar".to_vec());
}

#[test]
fn plain_files_are_copied_byte_for_byte() {
    let c = sample_commands();
    let payload: Vec<u8> = (0u8..=255).collect();
    let entries = vec![DataEntry {
        name: b"icon.png".to_vec(),
        content: payload.clone(),
        is_file: true,
    }];
    let outs = c.process_config_files(b"out", true, &entries).unwrap();
    assert_eq!(outs.len(), 1);
    assert_eq!(outs[0].path, b"out/icon.png".to_vec());
    assert_eq!(outs[0].content, payload);
}

#[test]
fn subdirectories_are_not_recursed_into() {
    let c = sample_commands();
    let entries = vec![
        DataEntry { name: b"icons".to_vec(), content: Vec::new(), is_file: false },
        DataEntry { name: b"a.in".to_vec(), content: b"@APP_ID@".to_vec(), is_file: true },
    ];
    let outs = c.process_config_files(b"out", true, &entries).unwrap();
    assert_eq!(outs.len(), 1);
    assert_eq!(outs[0].path, b"out/a".to_vec());
    assert_eq!(outs[0].content, b"io.foo.Bar".to_vec());
}

#[test]
fn missing_data_directory_is_a_noop() {
    let c = sample_commands();
    let entries = vec![DataEntry {
        name: b"a.in".to_vec(),
        content: b"@APP_ID@".to_vec(),
        is_file: true,
    }];
    let outs = c.process_config_files(b"out", false, &entries).unwrap();
    assert!(outs.is_empty());
}

#[test]
fn template_directory_aborts_processing() {
    let c = sample_commands();
    let entries = vec![
        DataEntry { name: b"weird.in".to_vec(), content: Vec::new(), is_file: false },
    ];
    assert!(c.process_config_files(b"out", true, &entries).is_none());
}

#[test]
fn bare_marker_name_is_a_plain_file() {
    // a file named exactly ".in" has no stem and is copied, not expanded
    let c = sample_commands();
    let entries = vec![DataEntry {
        name: b".in".to_vec(),
        content: b"@APP_ID@".to_vec(),
        is_file: true,
    }];
    let outs = c.process_config_files(b"out", true, &entries).unwrap();
    assert_eq!(outs.len(), 1);
    assert_eq!(outs[0].path, b"out/.in".to_vec());
    assert_eq!(outs[0].content, b"@APP_ID@".to_vec());
}

#[test]
fn expansion_of_whole_tree_twice_is_identical() {
    let c = sample_commands();
    let entries = vec![
        DataEntry {
            name: b"io.foo.Bar.appdata.xml.in".to_vec(),
            content: b"<id>@APP_ID@</id><release version=\"@APP_VERSION@\"/>".to_vec(),
            is_file: true,
        },
        DataEntry { name: b"style.css".to_vec(), content: b"a { b }".to_vec(), is_file: true },
    ];
    let first = c.process_config_files(b"out", true, &entries).unwrap();
    let second = c.process_config_files(b"out", true, &entries).unwrap();
    assert_eq!(first.len(), second.len());
    for (a, b) in first.iter().zip(second.iter()) {
        assert_eq!(a.path, b.path);
        assert_eq!(a.content, b.content);
    }
    assert_eq!(first[0].path, b"out/io.foo.Bar.appdata.xml".to_vec());
    assert_eq!(
        first[0].content,
        b"<id>io.foo.Bar</id><release version=\"1.0.0\"/>".to_vec()
    );
}

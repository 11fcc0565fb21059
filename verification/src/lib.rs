//! A verified core for a desktop-application packaging helper.
//!
//! The crate scaffolds a new project, resolves project metadata from a
//! manifest, expands placeholder tokens in data templates, and plans the
//! installation of translation catalogs, resources, schemas, icons and the
//! built binary into a filesystem prefix.  Every decision the tool makes is
//! computed here, over plain byte strings, with contracts; the thin shell
//! that touches the filesystem and spawns the external compilers lives
//! outside this library.

pub mod builder;
pub mod commands;
pub mod metadata;
pub mod paths;
pub mod scaffold;
pub mod template;
pub mod text;

//! A library for managing locally installed game-modification archives.
//!
//! The library discovers mod archives in a directory, extracts and normalizes
//! the metadata embedded in them across two manifest dialects, computes the
//! file-name changes that enable or disable a mod, validates local installs,
//! and builds the requests sent to a remote mod registry. All of the logic is
//! verified; the calls into the archive and document parsers of outside crates
//! stand behind a small set of trusted declarations.

pub mod strutil;
pub mod models;
pub mod doc;
pub mod decode;
pub mod archive;
pub mod normalize;
pub mod scanner;
pub mod file_ops;
pub mod launcher;
pub mod modrinth;

//! Turns the help text that a program prints about itself into a manual page
//! in groff markup.
//!
//! The section extractor (`extract`) finds the parts of a help text; the
//! markup renderer (`render`) puts them into a page, which `document` holds
//! as a value and writes out; `session` says what to ask the binary and in
//! which order; `links` reads the addresses for the SEE ALSO section; `text`
//! holds the model of text and the routines on it that the others build on.

pub mod document;
pub mod extract;
pub mod links;
pub mod render;
pub mod session;
pub mod text;

pub use document::{ManpageDocument, Section, SectionKind};
pub use extract::{
    extract_options, format_description, get_short_description, get_subcommands, get_usage,
};
pub use links::{extract_git_repo_url, extract_homepage, homepage_in};
pub use render::{
    build_document, convert_subcommand_help, default_title, generate_manpage_content,
    is_valid_section, resolve_version, Metadata, SubcommandEntry,
};
pub use session::{Action, Session, Stage};

//! treemd — a structural viewer's core library.
//!
//! The heart of the crate is `query`: a small pipe-based query language
//! ("tql") for selecting and extracting structural elements (headings,
//! links, tables, code blocks, text runs) from a parsed document tree.
//! Around it stand the document model the queries walk, the input
//! normalisation step, the configuration data, and the keybinding tables
//! of the interactive viewer.

pub mod config;
pub mod document;
pub mod input;
pub mod keybindings;
pub mod layout;
pub mod query;
pub mod strutil;

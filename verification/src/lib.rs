//! A verified compiler front end for an indentation-structured "smart
//! service" description language.
//!
//! Raw text is tokenized into logical lines, arranged into an indentation
//! tree, and walked by record parsers that assemble a typed `SmartService`
//! document: service metadata, data sources, application layout and
//! deployment targets. A parse either yields the complete document or a
//! non-empty list of structured errors; every stage carries a contract that
//! pins its result down to a specification-level parsing function.

pub mod errors;
pub mod strutil;
pub mod scalars;
pub mod enums;
pub mod collections;
pub mod records;
pub mod lines;
pub mod tree;
pub mod parse;
pub mod document;
pub mod laws;

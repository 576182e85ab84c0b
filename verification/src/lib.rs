//! Conversion of a delimited table of CPU instruction encodings into a
//! structured textual data-interchange document.
//!
//! The library parses delimited text with a header row, keeps the rows whose
//! 64-bit validity column reads exactly `Valid`, maps each kept row to a
//! six-position tuple node, and renders the tuples as one array node of the
//! destination format. File handling around the conversion lives outside the
//! library.

pub mod convert;
pub mod errors;
pub mod nodes;
pub mod records;

//! Reads the JSON Lines logs of a chat tool into typed records, groups them
//! by project, and searches their text.
//!
//! - `json`: the JSON value model and the one call into the JSON parser.
//! - `types`: the record types, their mathematical values, and the text,
//!   kind and timestamp of a record.
//! - `decode`: which JSON values are records, and the decoder.
//! - `wire`: the wire form of each record, and the laws that decoding gives a
//!   written record back.
//! - `text`: white space, lowercasing, substring search, project names.
//! - `parser`: lines to records, files to projects, selection of the newest
//!   files, and search.
use vstd::prelude::*;

pub mod json;
pub mod types;
pub mod wire;
pub mod decode;
pub mod parser;
pub mod text;

verus! {

} // verus!

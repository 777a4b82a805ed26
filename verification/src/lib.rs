//! Errors of a compiler from a regex-description language to the regular
//! expression syntax of several regex flavors: what can go wrong after
//! parsing, where in the source it went wrong, and how it is worded.

pub mod decimal;
pub mod options;
pub mod span;
pub mod text;
pub mod error;

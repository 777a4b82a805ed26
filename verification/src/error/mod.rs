//! What can go wrong while a program is compiled, and how it is reported.

mod compile;
mod diagnostic;
pub mod lemmas;
mod parse;

pub use compile::{location_line, CompileError, CompileErrorKind, Feature};
pub use diagnostic::Diagnostic;
pub use parse::{ParseError, ParseErrorKind};

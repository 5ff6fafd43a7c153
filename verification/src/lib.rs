//! Renders an error together with the chain of errors that caused it, either
//! on a single line or as an indented block with one cause per line.

pub mod failure;
pub mod indent;
pub mod laws;
pub mod layout;
pub mod numeral;
pub mod report;
pub mod source;
pub mod std_specs;

pub use failure::Failure;
pub use report::Report;
pub use source::Source;

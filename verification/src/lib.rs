//! Rule-driven formatting of JSON records.
//!
//! A record is a JSON document. A rule set names, for each kind of document, a
//! template, the pointers of the values that fill it, and the pointer at which
//! the rendered string is written into the document. The first rule that
//! applies to a document decides; a default applies when none does.

pub mod config;
pub mod engine;
pub mod error;
pub mod formatter;
pub mod json;
pub mod template;
pub mod text;

pub use config::{DefaultRule, Format, Match, Params};
pub use engine::{process_record, select_format};
pub use error::{FormatError, RecordError};
pub use formatter::{make_formatted_string, process_format};

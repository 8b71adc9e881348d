//! A guarded front end for reading one markdown file: resolving the
//! command-line arguments, checking the path's syntax, and deciding, from what
//! the filesystem reports, whether the file may be printed.
use vstd::prelude::*;

pub mod argument_parser;
pub mod error;
pub mod help;
pub mod reader;
pub mod text;

pub use argument_parser::{is_valid_path, parse_arguments, ParseError, ParseResult};
pub use error::{MarkdownError, MarkdownResult, MAX_FILE_SIZE};
pub use help::{usage_error_text, HELP_TEXT};
pub use reader::{check_content, check_target, is_markdown_extension, is_markdown_file, path_extension};

verus! {

/// The process exit code for success (content printed or help shown).
pub const EXIT_SUCCESS: i32 = 0;

/// The process exit code for any argument or file error.
pub const EXIT_ERROR: i32 = 1;

} // verus!

//! The texts shown to the user: the help text and the framing of a usage error.
use vstd::prelude::*;

verus! {

/// The help text for `-h` / `--help`.
pub const HELP_TEXT: &'static str = r#"AI Coding Agent - Markdown Reader v0.1.0

USAGE:
    ai_coding_agent <markdown_file>

ARGUMENTS:
    <markdown_file>    Path to the markdown file to read
                       Must have a .md or .markdown extension

OPTIONS:
    -h, --help         Display this help message

EXAMPLES:
    Read a markdown file:
        $ ai_coding_agent README.md

    Read a file in a subdirectory:
        $ ai_coding_agent docs/guide.md

    Show help:
        $ ai_coding_agent --help
"#;

/// The text reported for a usage error: the message, a blank line, and a
/// pointer to the help text.
pub fn usage_error_text(message: &str) -> (r: String)
    ensures
        r@ == "Error: "@ + message@ + "\n\nUse 'ai_coding_agent --help' for more information."@,
{
    let mut r = String::from_str("Error: ");
    r.append(message);
    r.append("\n\nUse 'ai_coding_agent --help' for more information.");
    r
}

} // verus!

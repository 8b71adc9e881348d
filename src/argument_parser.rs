//! Resolving the invocation arguments (without the program name) into a
//! request: show the help text, or read the file at a syntactically valid path.
use vstd::prelude::*;

use crate::text::{all_white_space, is_whitespace_char, to_chars};

verus! {

/// Why the invocation arguments could not be resolved into a request.
#[derive(Debug, PartialEq)]
pub enum ParseError {
    /// No argument was given.
    NoArguments,
    /// The path argument is empty or only whitespace.
    EmptyPath,
    /// The path argument holds a character that filesystems reject.
    InvalidPath(String),
    /// The first argument looks like a flag but is not `-h` or `--help`.
    UnknownFlag(String),
}

impl ParseError {
    /// The message for this error.
    pub open spec fn message_spec(&self) -> Seq<char> {
        match *self {
            ParseError::NoArguments => "No arguments provided"@,
            ParseError::EmptyPath => "File path cannot be empty"@,
            ParseError::InvalidPath(p) => "Invalid file path: '"@ + p@ + "'"@,
            ParseError::UnknownFlag(f) => "Unknown flag: '"@ + f@ + "'"@,
        }
    }

    /// The message shown for this error.
    pub fn message(&self) -> (r: String)
        ensures
            r@ == self.message_spec(),
    {
        match self {
            ParseError::NoArguments => String::from_str("No arguments provided"),
            ParseError::EmptyPath => String::from_str("File path cannot be empty"),
            ParseError::InvalidPath(p) => {
                let mut r = String::from_str("Invalid file path: '");
                r.append(p.as_str());
                r.append("'");
                r
            },
            ParseError::UnknownFlag(f) => {
                let mut r = String::from_str("Unknown flag: '");
                r.append(f.as_str());
                r.append("'");
                r
            },
        }
    }
}

/// `Ok(None)`: the help text was asked for; `Ok(Some(path))`: read `path`.
pub type ParseResult = Result<Option<String>, ParseError>;

/// The characters that common filesystems reject in a path.
pub open spec fn is_forbidden_char(c: char) -> bool {
    c == '\0' || c == '<' || c == '>' || c == ':' || c == '"' || c == '|' || c == '?' || c == '*'
}

/// A path is syntactically valid when it is not empty, not whitespace only,
/// and holds no forbidden character.
pub open spec fn valid_path(s: Seq<char>) -> bool {
    &&& s.len() > 0
    &&& !all_white_space(s)
    &&& forall|i: int| 0 <= i < s.len() ==> !is_forbidden_char(#[trigger] s[i])
}

/// `-h` or `--help`.
pub open spec fn is_help_flag(s: Seq<char>) -> bool {
    s == seq!['-', 'h'] || s == seq!['-', '-', 'h', 'e', 'l', 'p']
}

/// Anything else that starts with a dash is taken for a flag.
pub open spec fn looks_like_flag(s: Seq<char>) -> bool {
    s.len() > 0 && s[0] == '-'
}

/// What the arguments resolve to: only the first one is looked at.
pub open spec fn resolve(args: Seq<String>) -> ParseResult {
    if args.len() == 0 {
        Err(ParseError::NoArguments)
    } else {
        let a = args[0];
        if is_help_flag(a@) {
            Ok(None)
        } else if looks_like_flag(a@) {
            Err(ParseError::UnknownFlag(a))
        } else if all_white_space(a@) {
            Err(ParseError::EmptyPath)
        } else if !valid_path(a@) {
            Err(ParseError::InvalidPath(a))
        } else {
            Ok(Some(a))
        }
    }
}

fn is_forbidden(c: char) -> (r: bool)
    ensures
        r == is_forbidden_char(c),
{
    c == '\0' || c == '<' || c == '>' || c == ':' || c == '"' || c == '|' || c == '?' || c == '*'
}

fn only_white_space(cs: &Vec<char>) -> (r: bool)
    ensures
        r == all_white_space(cs@),
{
    let mut i: usize = 0;
    while i < cs.len()
        invariant
            i <= cs.len(),
            all_white_space(cs@.take(i as int)),
        decreases cs.len() - i,
    {
        if !is_whitespace_char(cs[i]) {
            return false;
        }
        i = i + 1;
        assert(all_white_space(cs@.take(i as int))) by {
            assert forall|j: int| 0 <= j < i implies crate::text::is_white_space(
                #[trigger] cs@.take(i as int)[j],
            ) by {
                if j < i - 1 {
                    assert(cs@.take(i as int)[j] == cs@.take(i - 1)[j]);
                }
            }
        }
    }
    assert(cs@.take(i as int) == cs@);
    true
}

/// Whether `path` is a syntactically valid file path: not empty, not only
/// whitespace, and free of `\0 < > : " | ? *`. The filesystem is not asked.
pub fn is_valid_path(path: &str) -> (r: bool)
    ensures
        r == valid_path(path@),
{
    let cs = to_chars(path);
    if cs.len() == 0 {
        return false;
    }
    if only_white_space(&cs) {
        return false;
    }
    let mut i: usize = 0;
    while i < cs.len()
        invariant
            i <= cs.len(),
            cs@ == path@,
            forall|j: int| 0 <= j < i ==> !is_forbidden_char(#[trigger] cs@[j]),
        decreases cs.len() - i,
    {
        if is_forbidden(cs[i]) {
            return false;
        }
        i = i + 1;
    }
    true
}

fn is_help(cs: &Vec<char>) -> (r: bool)
    ensures
        r == is_help_flag(cs@),
{
    let short = cs.len() == 2 && cs[0] == '-' && cs[1] == 'h';
    let long = cs.len() == 6 && cs[0] == '-' && cs[1] == '-' && cs[2] == 'h' && cs[3] == 'e'
        && cs[4] == 'l' && cs[5] == 'p';
    if short {
        assert(cs@ =~= seq!['-', 'h']);
    }
    if long {
        assert(cs@ =~= seq!['-', '-', 'h', 'e', 'l', 'p']);
    }
    short || long
}

/// Resolves the invocation arguments, the program name left out.
///
/// Only the first argument is looked at: `-h` or `--help` asks for the help
/// text, any other argument starting with `-` is an unknown flag, and anything
/// else must be a valid path (empty or whitespace-only gives `EmptyPath`).
pub fn parse_arguments(args: &Vec<String>) -> (r: ParseResult)
    ensures
        r == resolve(args@),
        r matches Ok(Some(p)) ==> valid_path(p@),
{
    if args.len() == 0 {
        return Err(ParseError::NoArguments);
    }
    let first = &args[0];
    let cs = to_chars(first.as_str());
    if is_help(&cs) {
        return Ok(None);
    }
    if cs.len() > 0 && cs[0] == '-' {
        return Err(ParseError::UnknownFlag(first.clone()));
    }
    if only_white_space(&cs) {
        return Err(ParseError::EmptyPath);
    }
    if !is_valid_path(first.as_str()) {
        return Err(ParseError::InvalidPath(first.clone()));
    }
    Ok(Some(first.clone()))
}

} // verus!

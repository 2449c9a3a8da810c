//! Control-command interpreter: a trimmed input line is either the exit
//! command, a document-load command with a path argument, or an ordinary
//! prompt.
use crate::text::starts_with_seq;
use crate::text::str_eq;
use vstd::prelude::*;
use vstd::string::StrSliceExecFns;

verus! {

/// The line that ends the session.
pub open spec fn exit_token() -> Seq<char> {
    ":exit"@
}

/// The load command's token.
pub open spec fn load_token() -> Seq<char> {
    ":use"@
}

/// The load command's token followed by its required single space.
pub open spec fn load_prefix() -> Seq<char> {
    ":use "@
}

/// Whether a trimmed line is a load command: the bare token (a malformed
/// load command, missing its argument), or the token followed by a single
/// space and the rest of the line. A line that merely shares the token as a
/// prefix of a longer word is no load command but an ordinary prompt.
pub open spec fn is_load_command(t: Seq<char>) -> bool {
    t == load_token() || starts_with_seq(t, load_prefix())
}

/// The exit-command literal.
pub fn exit_token_str() -> (r: &'static str)
    ensures
        r@ == exit_token(),
{
    ":exit"
}

/// The load-command literal.
pub fn load_token_str() -> (r: &'static str)
    ensures
        r@ == load_token(),
{
    ":use"
}

/// The load-command literal with its required trailing space.
pub fn load_prefix_str() -> (r: &'static str)
    ensures
        r@ == load_prefix(),
        r@.len() == 5,
{
    proof {
        reveal_strlit(":use ");
    }
    ":use "
}

/// Why a load command could not be parsed.
#[derive(Clone, Copy, Debug, PartialEq, Eq, Structural)]
pub enum CommandError {
    /// The load command has no path argument after its space.
    MissingPath,
}

/// The usage hint shown when a load command has no path argument.
pub open spec fn missing_path_message() -> Seq<char> {
    ":use <path>."@
}

impl CommandError {
    /// The user-facing text of this error.
    pub fn message(&self) -> (m: &'static str)
        ensures
            m@ == missing_path_message(),
    {
        ":use <path>."
    }
}

/// The path argument of a load command: everything after the token's single
/// space, required to be non-empty.
pub open spec fn parse_use_spec(s: Seq<char>) -> Option<Seq<char>> {
    if starts_with_seq(s, load_prefix()) && s.len() > load_prefix().len() {
        Some(s.skip(load_prefix().len() as int))
    } else {
        None
    }
}

/// Splits a load command into its path argument: the token, a single space,
/// then the path, which must be non-empty and is taken verbatim.
pub fn parse_use_command(line: &str) -> (res: Result<String, CommandError>)
    ensures
        res matches Ok(path) ==> (parse_use_spec(line@) matches Some(p) && path@ == p),
        res is Err <==> parse_use_spec(line@) is None,
        res matches Err(e) ==> e == CommandError::MissingPath,
{
    let prefix = load_prefix_str();
    let n = line.unicode_len();
    if starts_with_str(line, prefix) && n > 5 {
        let path = line.substring_char(5, n);
        proof {
            assert(path@ =~= line@.skip(load_prefix().len() as int));
        }
        Ok(path.to_owned())
    } else {
        Err(CommandError::MissingPath)
    }
}

/// What a trimmed input line asks the session to do.
#[derive(Debug)]
pub enum Command {
    /// End the session.
    Exit,
    /// Load the document at `path` into the session.
    Load { path: String },
    /// Send an ordinary prompt to the model.
    Prompt { text: String },
}

/// Classifies a trimmed input line. Control commands are recognized before
/// any placeholder substitution: the exit token by exact match, the load
/// command by its token alone or its token followed by a space; every other
/// line is an ordinary prompt, passed through verbatim. An empty line is an
/// ordinary prompt too, and still starts a generation turn.
pub fn classify(line: &str) -> (res: Result<Command, CommandError>)
    ensures
        line@ == exit_token() ==> (res matches Ok(c) && c is Exit),
        line@ != exit_token() && is_load_command(line@) ==> (match parse_use_spec(line@) {
            Some(p) => res matches Ok(c) && c matches Command::Load { path } && path@ == p,
            None => res matches Err(e) && e == CommandError::MissingPath,
        }),
        line@ != exit_token() && !is_load_command(line@) ==> (res matches Ok(c)
            && c matches Command::Prompt { text } && text@ == line@),
{
    if str_eq(line, exit_token_str()) {
        return Ok(Command::Exit);
    }
    if str_eq(line, load_token_str()) || starts_with_str(line, load_prefix_str()) {
        return match parse_use_command(line) {
            Ok(path) => Ok(Command::Load { path }),
            Err(e) => Err(e),
        };
    }
    Ok(Command::Prompt { text: line.to_owned() })
}

/// Whether `s` begins with `p`.
fn starts_with_str(s: &str, p: &str) -> (r: bool)
    ensures
        r == starts_with_seq(s@, p@),
{
    let n = s.unicode_len();
    let m = p.unicode_len();
    if m > n {
        return false;
    }
    let head = s.substring_char(0, m);
    proof {
        assert(head@ =~= s@.subrange(0, p@.len() as int));
    }
    str_eq(head, p)
}

} // verus!

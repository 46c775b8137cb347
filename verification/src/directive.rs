//! The directive engine: parsing of in-band `@` command lines and the
//! expansion of `@source` into a fenced code block appended to the body.

use vstd::prelude::*;
use vstd::string::*;

use crate::text::{
    first_token_of, has_two_tokens, second_token_of, skip_ws_from_idx, starts_with_text, str_eq,
    str_starts_with, token_end_from,
};

verus! {

/// A parsed command line.
#[derive(Debug, PartialEq, Eq)]
pub enum Directive {
    /// `@source <path>`: inline the named file as a fenced code block.
    Source { path: String },
}

/// Why a command line was rejected. Every variant is recovered locally:
/// the session goes on and the body is left untouched.
#[derive(Debug, PartialEq, Eq)]
pub enum CommandError {
    /// The line has fewer than two whitespace-separated tokens.
    MalformedCommand,
    /// The first token names no known command.
    UnknownCommand,
    /// The `@source` argument names no existing path (the path is carried).
    PathNotFound(String),
    /// Opening or reading the file failed after the existence check passed
    /// (the underlying diagnostic text is carried).
    ReadFailure(String),
}

/// What an attempt to read the file named by an `@source` directive yielded.
/// The read itself happens outside this crate; the engine only interprets
/// its outcome.
#[derive(Debug, PartialEq, Eq)]
pub enum ReadOutcome {
    /// The file's full text.
    Content(String),
    /// The path did not exist when checked.
    Missing,
    /// Opening or reading failed after the existence check (diagnostic text).
    Failure(String),
}

/// Whether `command` is a well-formed `@source` directive: at least two
/// tokens, the first being `@source`.
pub open spec fn is_source_command(s: Seq<char>) -> bool {
    has_two_tokens(s) && first_token_of(s) == "@source"@
}

/// The block an `@source` expansion appends: the file's text wrapped between
/// fence marker lines, with one newline on each side.
pub open spec fn fenced_block(contents: Seq<char>) -> Seq<char> {
    "\n```\n"@ + contents + "\n```\n"@
}

impl CommandError {
    /// The user-facing diagnostic for this error.
    pub open spec fn message_text(&self) -> Seq<char> {
        match self {
            CommandError::MalformedCommand => "Invalid command format."@,
            CommandError::UnknownCommand => "Unknown command."@,
            CommandError::PathNotFound(p) => "File not found: "@ + p@,
            CommandError::ReadFailure(m) => m@,
        }
    }

    /// Renders the user-facing diagnostic for this error.
    pub fn message(&self) -> (m: String)
        ensures
            m@ == self.message_text(),
    {
        match self {
            CommandError::MalformedCommand => String::from_str("Invalid command format."),
            CommandError::UnknownCommand => String::from_str("Unknown command."),
            CommandError::PathNotFound(p) => {
                let mut m = String::from_str("File not found: ");
                m.append(p.as_str());
                m
            },
            CommandError::ReadFailure(m) => m.clone(),
        }
    }
}

/// Splits a command line on whitespace and classifies it: fewer than two
/// tokens is malformed, a first token other than `@source` is unknown, and a
/// well-formed `@source` line yields the second token as the path (any
/// further tokens are ignored).
pub fn parse_directive(command: &str) -> (r: Result<Directive, CommandError>)
    ensures
        !has_two_tokens(command@) ==> r == Err::<Directive, CommandError>(
            CommandError::MalformedCommand,
        ),
        has_two_tokens(command@) && first_token_of(command@) != "@source"@ ==> r == Err::<
            Directive,
            CommandError,
        >(CommandError::UnknownCommand),
        is_source_command(command@) ==> (r matches Ok(Directive::Source { path }) && path@
            == second_token_of(command@)),
{
    let n = command.unicode_len();
    let a1 = skip_ws_from_idx(command, 0);
    if a1 == n {
        return Err(CommandError::MalformedCommand);
    }
    let b1 = token_end_from(command, a1);
    let a2 = skip_ws_from_idx(command, b1);
    if a2 == n {
        return Err(CommandError::MalformedCommand);
    }
    let b2 = token_end_from(command, a2);
    let first = command.substring_char(a1, b1);
    if !str_eq(first, "@source") {
        return Err(CommandError::UnknownCommand);
    }
    let path = command.substring_char(a2, b2).to_owned();
    Ok(Directive::Source { path })
}

/// Appends the fenced-block expansion of `contents` to `input`.
fn append_fenced(input: &mut String, contents: &str)
    ensures
        final(input)@ == old(input)@ + fenced_block(contents@),
{
    input.append("\n```\n");
    input.append(contents);
    input.append("\n```\n");
    assert(input@ =~= old(input)@ + fenced_block(contents@));
}

/// Interprets one command line against the outcome of reading the file it
/// names, appending the fenced expansion to `input` on success and leaving
/// `input` untouched on any failure. The file itself is read outside this
/// crate; `source` is what that read yielded for the line's path.
pub fn handle_command(command: &str, source: &ReadOutcome, input: &mut String) -> (r: Result<
    (),
    CommandError,
>)
    ensures
        r is Ok <==> is_source_command(command@) && source is Content,
        r is Ok ==> final(input)@ == old(input)@ + fenced_block(source->Content_0@),
        r is Err ==> final(input)@ == old(input)@,
        !has_two_tokens(command@) ==> r == Err::<(), CommandError>(CommandError::MalformedCommand),
        has_two_tokens(command@) && first_token_of(command@) != "@source"@ ==> r == Err::<
            (),
            CommandError,
        >(CommandError::UnknownCommand),
        is_source_command(command@) && source is Missing ==> (r matches Err(
            CommandError::PathNotFound(p),
        ) && p@ == second_token_of(command@)),
        is_source_command(command@) && source is Failure ==> (r matches Err(
            CommandError::ReadFailure(m),
        ) && m@ == source->Failure_0@),
{
    match parse_directive(command) {
        Err(e) => Err(e),
        Ok(Directive::Source { path }) => match source {
            ReadOutcome::Content(c) => {
                append_fenced(input, c.as_str());
                Ok(())
            },
            ReadOutcome::Missing => Err(CommandError::PathNotFound(path)),
            ReadOutcome::Failure(m) => Err(CommandError::ReadFailure(m.clone())),
        },
    }
}

/// Whether an editing aid should offer file-path completion for the line
/// being typed: exactly when it starts with the text `@source `.
pub fn wants_path_completion(line: &str) -> (r: bool)
    ensures
        r == starts_with_text(line@, "@source "@),
{
    str_starts_with(line, "@source ")
}

} // verus!

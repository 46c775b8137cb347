//! The session loop's state: one document under construction, and the step
//! function that classifies each incoming line or end-of-input signal.

use vstd::prelude::*;
use vstd::string::*;

use crate::directive::{handle_command, fenced_block, is_source_command, CommandError, ReadOutcome};
use crate::document::document_text;
use crate::text::{trim_str, trimmed};

verus! {

/// One thing the line source can yield: a line of input, the end of the
/// stream, or an explicit interrupt from the user.
#[derive(Debug, PartialEq, Eq)]
pub enum Event {
    Line(String),
    EndOfStream,
    Interrupt,
}

/// What one step of the session loop decided.
#[derive(Debug, PartialEq, Eq)]
pub enum StepResult {
    /// The line was appended to the body verbatim; the loop goes on.
    Appended,
    /// The line is a command; the carried text is the trimmed line, to be fed
    /// to the directive engine. The loop goes on whether or not it succeeds.
    Directive(String),
    /// The session ended normally: the document is to be saved.
    Save,
    /// The session was interrupted: nothing is to be saved.
    Abort,
}

/// A line that terminates the session normally: a single dot once trimmed.
pub open spec fn is_terminator_line(l: Seq<char>) -> bool {
    trimmed(l) == seq!['.']
}

/// A line routed to the directive engine: its first non-whitespace
/// character is `@`.
pub open spec fn is_directive_line(l: Seq<char>) -> bool {
    trimmed(l).len() > 0 && trimmed(l)[0] == '@'
}

/// A body after a plain line has been taken in: the line plus exactly one
/// newline, appended at the end.
pub open spec fn appended_line(body: Seq<char>, l: Seq<char>) -> Seq<char> {
    body + l + "\n"@
}

/// The Markdown-style title line the body starts with.
pub open spec fn title_line(title: Seq<char>) -> Seq<char> {
    "# "@ + title + "\n"@
}

/// The body after one step of the loop: unchanged for terminators, directive
/// lines (the engine appends separately, and only on success) and end-of-input
/// signals; grown by the line plus one newline otherwise.
pub open spec fn step_body(body: Seq<char>, event: Event) -> Seq<char> {
    match event {
        Event::Line(l) => if is_terminator_line(l@) || is_directive_line(l@) {
            body
        } else {
            appended_line(body, l@)
        },
        Event::EndOfStream => body,
        Event::Interrupt => body,
    }
}

/// Whether an event puts the session on the save path: a lone-dot line and
/// the end of the stream do, an interrupt never does.
pub open spec fn step_saves(event: Event) -> bool {
    match event {
        Event::Line(l) => is_terminator_line(l@),
        Event::EndOfStream => true,
        Event::Interrupt => false,
    }
}

/// The document under construction: a trimmed title and the body text,
/// which grows append-only while the session runs.
#[derive(Debug, PartialEq, Eq)]
pub struct Session {
    pub title: String,
    pub body: String,
}

impl Session {
    /// Starts a session from the title line: the title is the line trimmed,
    /// and the body opens with the Markdown title line.
    pub fn new(first_line: &str) -> (s: Session)
        ensures
            s.title@ == trimmed(first_line@),
            s.body@ == title_line(trimmed(first_line@)),
    {
        let title = trim_str(first_line);
        let mut body = String::from_str("# ");
        body.append(title.as_str());
        body.append("\n");
        Session { title, body }
    }

    /// Takes one event: a lone-dot line or the end of the stream asks for a
    /// save, an interrupt aborts, a line whose first non-whitespace character
    /// is `@` is handed back trimmed for the directive engine, and any other
    /// line joins the body verbatim with exactly one newline. The title never
    /// changes.
    pub fn step(&mut self, event: Event) -> (r: StepResult)
        ensures
            final(self).title@ == old(self).title@,
            final(self).body@ == step_body(old(self).body@, event),
            (r is Save) == step_saves(event),
            (r is Abort) == (event is Interrupt),
            (r is Directive) == (event is Line && !is_terminator_line(event->Line_0@)
                && is_directive_line(event->Line_0@)),
            r is Directive ==> r->Directive_0@ == trimmed(event->Line_0@),
            (r is Appended) == (event is Line && !is_terminator_line(event->Line_0@)
                && !is_directive_line(event->Line_0@)),
    {
        match event {
            Event::EndOfStream => StepResult::Save,
            Event::Interrupt => StepResult::Abort,
            Event::Line(l) => {
                let t = trim_str(l.as_str());
                let tn = t.as_str().unicode_len();
                if tn == 1 && t.as_str().get_char(0) == '.' {
                    assert(t@ =~= seq!['.']);
                    StepResult::Save
                } else if tn > 0 && t.as_str().get_char(0) == '@' {
                    assert(!is_terminator_line(l@)) by {
                        if trimmed(l@) == seq!['.'] {
                            assert(trimmed(l@)[0] == '.');
                        }
                    }
                    StepResult::Directive(t)
                } else {
                    assert(!is_terminator_line(l@)) by {
                        if trimmed(l@) == seq!['.'] {
                            assert(trimmed(l@).len() == 1 && trimmed(l@)[0] == '.');
                        }
                    }
                    self.body.append(l.as_str());
                    self.body.append("\n");
                    StepResult::Appended
                }
            },
        }
    }

    /// Runs the directive engine over this session's body: `command` is the
    /// trimmed line a step handed back, `source` the outcome of reading the
    /// file it names. On any failure the body is untouched and the error is
    /// returned for reporting; the session itself goes on either way.
    pub fn apply_directive(&mut self, command: &str, source: &ReadOutcome) -> (r: Result<
        (),
        CommandError,
    >)
        ensures
            final(self).title@ == old(self).title@,
            r is Ok <==> is_source_command(command@) && source is Content,
            r is Ok ==> final(self).body@ == old(self).body@ + fenced_block(source->Content_0@),
            r is Err ==> final(self).body@ == old(self).body@,
    {
        handle_command(command, source, &mut self.body)
    }
}

/// Appending the same literal line twice grows the body by that line's text
/// twice, each occurrence followed by exactly one newline: nothing is
/// deduplicated.
pub proof fn lemma_no_line_dedup(body: Seq<char>, l: String)
    requires
        !is_terminator_line(l@),
        !is_directive_line(l@),
    ensures
        step_body(step_body(body, Event::Line(l)), Event::Line(l)) == body + l@ + "\n"@ + l@
            + "\n"@,
{
}

/// Reaching the end of the stream and reaching a lone-dot line put the
/// session on the same save path: both save, both leave the body as it
/// stands, and the document assembled from a given title, timestamp and
/// author is the same text either way.
pub proof fn lemma_termination_equivalence(
    body: Seq<char>,
    title: Seq<char>,
    date: Seq<char>,
    author: Seq<char>,
    l: String,
)
    requires
        is_terminator_line(l@),
    ensures
        step_saves(Event::Line(l)) && step_saves(Event::EndOfStream),
        step_body(body, Event::Line(l)) == step_body(body, Event::EndOfStream),
        document_text(title, date, author, step_body(body, Event::Line(l))) == document_text(
            title,
            date,
            author,
            step_body(body, Event::EndOfStream),
        ),
{
}

/// An interrupt never puts the session on the save path, and discards
/// nothing into the body: what is dropped is dropped by not saving.
pub proof fn lemma_interrupt_skips_save(body: Seq<char>)
    ensures
        !step_saves(Event::Interrupt),
        step_body(body, Event::Interrupt) == body,
{
}

} // verus!

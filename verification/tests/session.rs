use note::directive::ReadOutcome;
use note::document::{assemble_document, file_name};
use note::session::{Event, Session, StepResult};

#[test]
fn new_session_trims_title_and_opens_body() {
    let s = Session::new("  Hello World  ");
    assert_eq!(s.title, "Hello World");
    assert_eq!(s.body, "# Hello World\n");
}

#[test]
fn empty_title_is_degenerate_but_allowed() {
    let s = Session::new("");
    assert_eq!(s.title, "");
    assert_eq!(s.body, "# \n");
}

#[test]
fn plain_lines_append_verbatim_in_order() {
    let mut s = Session::new("t");
    assert_eq!(s.step(Event::Line(String::from("first line"))), StepResult::Appended);
    assert_eq!(s.step(Event::Line(String::from("  second, indented"))), StepResult::Appended);
    assert_eq!(s.body, "# t\nfirst line\n  second, indented\n");
}

#[test]
fn same_line_twice_is_kept_twice() {
    let mut s = Session::new("t");
    s.step(Event::Line(String::from("again")));
    s.step(Event::Line(String::from("again")));
    assert_eq!(s.body, "# t\nagain\nagain\n");
}

#[test]
fn lone_dot_saves() {
    let mut s = Session::new("t");
    assert_eq!(s.step(Event::Line(String::from("."))), StepResult::Save);
    assert_eq!(s.body, "# t\n");
}

#[test]
fn padded_dot_still_saves() {
    let mut s = Session::new("t");
    assert_eq!(s.step(Event::Line(String::from("  .  "))), StepResult::Save);
    assert_eq!(s.body, "# t\n");
}

#[test]
fn dotted_text_is_not_a_terminator() {
    let mut s = Session::new("t");
    assert_eq!(s.step(Event::Line(String::from(".."))), StepResult::Appended);
    assert_eq!(s.step(Event::Line(String::from(". "))), StepResult::Save);
}

#[test]
fn end_of_stream_saves() {
    let mut s = Session::new("t");
    assert_eq!(s.step(Event::EndOfStream), StepResult::Save);
    assert_eq!(s.body, "# t\n");
}

#[test]
fn interrupt_aborts_without_touching_body() {
    let mut s = Session::new("t");
    s.step(Event::Line(String::from("kept line")));
    assert_eq!(s.step(Event::Interrupt), StepResult::Abort);
    assert_eq!(s.body, "# t\nkept line\n");
}

#[test]
fn directive_lines_are_handed_back_trimmed() {
    let mut s = Session::new("t");
    let r = s.step(Event::Line(String::from("  @source /tmp/x.txt  ")));
    assert_eq!(r, StepResult::Directive(String::from("@source /tmp/x.txt")));
    assert_eq!(s.body, "# t\n");
}

#[test]
fn termination_paths_build_the_same_document() {
    let mut by_dot = Session::new("t");
    by_dot.step(Event::Line(String::from("one line")));
    assert_eq!(by_dot.step(Event::Line(String::from("."))), StepResult::Save);

    let mut by_eof = Session::new("t");
    by_eof.step(Event::Line(String::from("one line")));
    assert_eq!(by_eof.step(Event::EndOfStream), StepResult::Save);

    let date = "2024-05-01T12:00:00+00:00";
    let doc_dot = assemble_document(&by_dot.title, date, "alice", &by_dot.body);
    let doc_eof = assemble_document(&by_eof.title, date, "alice", &by_eof.body);
    assert_eq!(doc_dot, doc_eof);
}

#[test]
fn full_session_produces_expected_file() {
    let mut s = Session::new("Hello World");
    assert_eq!(s.step(Event::Line(String::from("line one"))), StepResult::Appended);
    assert_eq!(s.step(Event::Line(String::from("."))), StepResult::Save);
    let doc = assemble_document(&s.title, "2024-05-01T12:00:00+00:00", "alice", &s.body);
    assert_eq!(
        doc,
        "---\ntitle: Hello World\ndate: 2024-05-01T12:00:00+00:00\nauthor: alice\n---\n\n# Hello World\nline one\n"
    );
    assert_eq!(file_name(&s.title), "Hello_World.md");
}

#[test]
fn session_with_sourced_file_inlines_fenced_block() {
    let mut s = Session::new("notes");
    let r = s.step(Event::Line(String::from("@source /tmp/x.txt")));
    assert_eq!(r, StepResult::Directive(String::from("@source /tmp/x.txt")));
    let outcome = ReadOutcome::Content(String::from("print(\"hi\")"));
    assert_eq!(s.apply_directive("@source /tmp/x.txt", &outcome), Ok(()));
    assert_eq!(s.step(Event::Line(String::from("."))), StepResult::Save);
    assert_eq!(s.body, "# notes\n\n```\nprint(\"hi\")\n```\n");
}

#[test]
fn failed_directive_reports_and_session_goes_on() {
    let mut s = Session::new("notes");
    let r = s.step(Event::Line(String::from("@source /does/not/exist")));
    assert_eq!(r, StepResult::Directive(String::from("@source /does/not/exist")));
    let err = s.apply_directive("@source /does/not/exist", &ReadOutcome::Missing);
    assert!(err.is_err());
    assert_eq!(err.unwrap_err().message(), "File not found: /does/not/exist");
    assert_eq!(s.body, "# notes\n");
    assert_eq!(s.step(Event::Line(String::from("still here"))), StepResult::Appended);
    assert_eq!(s.step(Event::Line(String::from("."))), StepResult::Save);
    let doc = assemble_document(&s.title, "2024-05-01T12:00:00+00:00", "bob", &s.body);
    assert_eq!(
        doc,
        "---\ntitle: notes\ndate: 2024-05-01T12:00:00+00:00\nauthor: bob\n---\n\n# notes\nstill here\n"
    );
}

#[test]
fn malformed_directive_line_reaches_the_engine() {
    let mut s = Session::new("notes");
    let r = s.step(Event::Line(String::from("@")));
    assert_eq!(r, StepResult::Directive(String::from("@")));
    let err = s.apply_directive("@", &ReadOutcome::Missing);
    assert_eq!(err.unwrap_err().message(), "Invalid command format.");
    assert_eq!(s.body, "# notes\n");
}

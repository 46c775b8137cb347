use note::document::{
    assemble_document, assemble_header, assemble_header_now, author_or_default, file_name,
};
use note::text::trim_str;

#[test]
fn header_has_exact_shape() {
    let h = assemble_header("Hello World", "2024-05-01T12:00:00+00:00", "alice");
    assert_eq!(h, "---\ntitle: Hello World\ndate: 2024-05-01T12:00:00+00:00\nauthor: alice\n---\n\n");
}

#[test]
fn title_is_embedded_verbatim() {
    let h = assemble_header("a: b --- c", "d", "e");
    assert_eq!(h, "---\ntitle: a: b --- c\ndate: d\nauthor: e\n---\n\n");
}

#[test]
fn document_is_header_then_body() {
    let doc = assemble_document("t", "d", "a", "# t\nbody\n");
    assert_eq!(doc, "---\ntitle: t\ndate: d\nauthor: a\n---\n\n# t\nbody\n");
}

#[test]
fn author_defaults_to_unknown() {
    assert_eq!(author_or_default(None), "unknown");
    assert_eq!(author_or_default(Some(String::from("alice"))), "alice");
}

#[test]
fn file_name_replaces_whitespace() {
    assert_eq!(file_name("Hello World"), "Hello_World.md");
    assert_eq!(file_name("a\tb c"), "a_b_c.md");
    assert_eq!(file_name("plain"), "plain.md");
    assert_eq!(file_name(""), ".md");
}

#[test]
fn header_now_carries_title_and_author() {
    let h = assemble_header_now("t", "alice");
    assert!(h.starts_with("---\ntitle: t\ndate: "));
    assert!(h.ends_with("\nauthor: alice\n---\n\n"));
    let date_line = h.lines().nth(2).unwrap();
    let date = date_line.strip_prefix("date: ").unwrap();
    assert!(date.contains('T'));
    assert!(date.len() >= 19);
}

#[test]
fn trim_removes_surrounding_whitespace_only() {
    assert_eq!(trim_str("  a b  "), "a b");
    assert_eq!(trim_str("\t x \n"), "x");
    assert_eq!(trim_str("   "), "");
    assert_eq!(trim_str(""), "");
    assert_eq!(trim_str("solid"), "solid");
}

//! The document assembler: the front-matter header, the saved file's full
//! text, the author fallback and the file name derived from the title.

use vstd::prelude::*;
use vstd::string::*;

use crate::text::{is_whitespace_char, is_ws};

verus! {

/// The front-matter header: title, timestamp and author between `---` fence
/// lines, with one blank line after the closing fence.
pub open spec fn header_text(title: Seq<char>, date: Seq<char>, author: Seq<char>) -> Seq<char> {
    "---\ntitle: "@ + title + "\ndate: "@ + date + "\nauthor: "@ + author + "\n---\n\n"@
}

/// The saved file's full text: the header followed immediately by the body.
pub open spec fn document_text(
    title: Seq<char>,
    date: Seq<char>,
    author: Seq<char>,
    body: Seq<char>,
) -> Seq<char> {
    header_text(title, date, author) + body
}

/// The title with every whitespace character replaced by an underscore.
pub open spec fn underscored(title: Seq<char>) -> Seq<char> {
    title.map_values(
        |c: char|
            if is_ws(c) {
                '_'
            } else {
                c
            },
    )
}

/// The name of the saved file: the underscored title with the `.md` suffix.
pub open spec fn file_name_text(title: Seq<char>) -> Seq<char> {
    underscored(title) + ".md"@
}

/// Renders the front-matter header for the given title, timestamp and author.
/// All three are embedded verbatim.
pub fn assemble_header(title: &str, date: &str, author: &str) -> (h: String)
    ensures
        h@ == header_text(title@, date@, author@),
{
    let mut h = String::from_str("---\ntitle: ");
    h.append(title);
    h.append("\ndate: ");
    h.append(date);
    h.append("\nauthor: ");
    h.append(author);
    h.append("\n---\n\n");
    h
}

/// Renders the saved file's full text: header, then body.
pub fn assemble_document(title: &str, date: &str, author: &str, body: &str) -> (doc: String)
    ensures
        doc@ == document_text(title@, date@, author@, body@),
{
    let mut doc = assemble_header(title, date, author);
    doc.append(body);
    doc
}

/// The resolved author identity, or the literal `unknown` when the external
/// identity source had none to offer.
pub fn author_or_default(user: Option<String>) -> (a: String)
    ensures
        a@ == match user {
            Option::Some(u) => u@,
            Option::None => "unknown"@,
        },
{
    match user {
        Option::Some(u) => u,
        Option::None => String::from_str("unknown"),
    }
}

/// Derives the saved file's name from the (already trimmed) title: whitespace
/// becomes underscores and the `.md` suffix is appended.
pub fn file_name(title: &str) -> (f: String)
    ensures
        f@ == file_name_text(title@),
{
    let n = title.unicode_len();
    let mut out = String::new();
    let mut i: usize = 0;
    while i < n
        invariant
            i <= n,
            n == title@.len(),
            out@ == underscored(title@).subrange(0, i as int),
        decreases n - i,
    {
        let c = title.get_char(i);
        if is_whitespace_char(c) {
            out.append("_");
            proof {
                reveal_strlit("_");
                assert(out@ =~= underscored(title@).subrange(0, i as int + 1));
            }
        } else {
            let piece = title.substring_char(i, i + 1);
            out.append(piece);
            proof {
                assert(out@ =~= underscored(title@).subrange(0, i as int + 1));
            }
        }
        i += 1;
    }
    proof {
        assert(underscored(title@).subrange(0, n as int) =~= underscored(title@));
    }
    out.append(".md");
    out
}

/// Relies on `chrono::Utc::now` and `chrono::DateTime::to_rfc3339`: the
/// current instant rendered in RFC 3339 form. The text depends on the wall
/// clock at the moment of the call, so nothing is promised of its value.
#[verifier::external_body]
fn current_timestamp_rfc3339() -> String {
    chrono::Utc::now().to_rfc3339()
}

/// Renders the front-matter header with the timestamp captured now: the
/// result is the header for the given title and author and some timestamp
/// text taken from the clock at the moment of the call.
pub fn assemble_header_now(title: &str, author: &str) -> (h: String)
    ensures
        exists|date: Seq<char>| h@ == header_text(title@, date, author@),
{
    let date = current_timestamp_rfc3339();
    let h = assemble_header(title, date.as_str(), author);
    proof {
        assert(h@ == header_text(title@, date@, author@));
    }
    h
}

} // verus!

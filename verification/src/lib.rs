//! An interactive note-taking core: a session loop that collects body lines,
//! a directive engine for in-band `@source` commands, and a document assembler
//! that produces a Markdown file with a front-matter header.

pub mod directive;
pub mod document;
pub mod session;
pub mod text;

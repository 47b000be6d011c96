//! The transformer: given a file's (or standard input's) full text, produce
//! the substituted text and say what is to be done with it. Reading and
//! writing happen outside; this module fixes, for every input, exactly what
//! text comes out and whether the source file may be touched.
use vstd::prelude::*;
use crate::pattern::{Matcher, replaced};

verus! {

/// What is to be done with one file's transformed text.
pub enum Output {
    /// Print the text to standard output (the caller appends one line
    /// break); the source file is left untouched.
    Print(String),
    /// Write the text back over the file it was read from.
    Write(String),
}

impl Output {
    /// The transformed text the action carries.
    pub open spec fn text(&self) -> Seq<char> {
        match self {
            Output::Print(s) => s@,
            Output::Write(s) => s@,
        }
    }

    /// Whether carrying the action out mutates the source file.
    pub open spec fn mutates_file(&self) -> bool {
        self is Write
    }
}

/// The file transformer's compute step: substitute every match of the
/// matcher's pattern in `content` with `replacement`, and direct the result
/// to standard output or back to the file according to `to_stdout`. In
/// stdout mode the source file is never written.
pub fn transform_content(m: &Matcher, replacement: &str, content: &str, to_stdout: bool) -> (out:
    Output)
    ensures
        out.text() == replaced(m.pattern(), replacement@, content@),
        out.mutates_file() <==> !to_stdout,
{
    let text = m.replace_all(content, replacement);
    if to_stdout {
        Output::Print(text)
    } else {
        Output::Write(text)
    }
}

/// The stream transformer: substitute over all of standard input's text; the
/// result goes to standard output exactly as returned, with nothing added.
pub fn transform_stream(m: &Matcher, replacement: &str, content: &str) -> (out: String)
    ensures
        out@ == replaced(m.pattern(), replacement@, content@),
{
    m.replace_all(content, replacement)
}

} // verus!

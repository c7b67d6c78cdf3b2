//! The end-of-line pattern element.
use vstd::prelude::*;

use crate::record::Record;
use crate::Error;

verus! {

/// A line terminator. Which one a platform uses is fixed by its build target:
/// `Lf` on POSIX-family targets, `CrLf` on Windows-family ones.
#[derive(Clone, Copy, Debug, Default, PartialEq, Eq, Structural)]
pub enum LineEnding {
    /// `\n`
    #[default]
    Lf,
    /// `\r\n`
    CrLf,
}

/// The text of a line terminator.
pub open spec fn line_ending_text(ending: LineEnding) -> Seq<char> {
    match ending {
        LineEnding::Lf => seq!['\n'],
        LineEnding::CrLf => seq!['\r', '\n'],
    }
}

impl LineEnding {
    /// The text of the terminator.
    pub fn as_str(&self) -> (r: &'static str)
        ensures
            r@ == line_ending_text(*self),
    {
        proof {
            reveal_strlit("\n");
            reveal_strlit("\r\n");
        }
        match self {
            LineEnding::Lf => "\n",
            LineEnding::CrLf => "\r\n",
        }
    }
}

/// Scratch state shared by the pattern elements of one format call.
#[derive(Clone, Debug, PartialEq, Eq)]
pub struct PatternContext {
    /// The byte range of the output that is to be styled, once an element has set it.
    pub style_range: Option<core::ops::Range<usize>>,
}

impl PatternContext {
    /// A context with no style range.
    pub fn new() -> (r: PatternContext)
        ensures
            r.style_range is None,
    {
        PatternContext { style_range: None }
    }
}

/// A pattern element that writes a line terminator.
#[derive(Clone, Copy, Debug, Default, PartialEq, Eq, Structural)]
pub struct Eol {
    pub ending: LineEnding,
}

impl Eol {
    /// An end-of-line element that writes `\n`, the terminator of POSIX-family
    /// targets; `with_line_ending` takes the terminator of another target.
    pub fn new() -> (r: Eol)
        ensures
            r == (Eol { ending: LineEnding::Lf }),
    {
        Eol { ending: LineEnding::Lf }
    }

    /// An end-of-line element that writes `ending`.
    pub fn with_line_ending(ending: LineEnding) -> (r: Eol)
        ensures
            r == (Eol { ending }),
    {
        Eol { ending }
    }

    /// Appends the line terminator to `dest`, whatever the record holds, and
    /// leaves the context alone.
    pub fn format(&self, record: &Record, dest: &mut String, ctx: &mut PatternContext) -> (r: Result<(), Error>)
        ensures
            r is Ok,
            final(dest)@ == old(dest)@ + line_ending_text(self.ending),
            *final(ctx) == *old(ctx),
    {
        dest.append(self.ending.as_str());
        Ok(())
    }
}

} // verus!

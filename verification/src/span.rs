//! Source locations. A `Span` records where a syntax-tree node came from:
//! a start and end position (line, column, both 1-based), the text of the
//! first source line the range touches, and the name of the source file.
//! Its rendering is purely presentational: a `file:line:col` header, the
//! recorded source line, and a caret line underlining the flagged range.

use vstd::prelude::*;

use crate::text::{char_repeat, dec_chars, push_char, push_repeated, u64_to_string};

verus! {

/// A source-location range together with the first line of the spanned
/// text and the name of the file it came from.
///
/// The intended invariant is `start <= end` in lexicographic (line, column)
/// order; producers in this crate maintain it, and the renderer is total
/// regardless. When a range covers several lines, only the first line is
/// recorded and underlined: a known rendering limitation.
#[derive(Debug, PartialEq, Eq)]
pub struct Span {
    /// Start position as (line, column), 1-based.
    pub start: (usize, usize),
    /// End position as (line, column), 1-based, exclusive in the column.
    pub end: (usize, usize),
    /// The text of the source line the range starts on.
    pub string: String,
    /// The name of the source file.
    pub file: String,
}

/// `start <= end` in lexicographic (line, column) order.
pub open spec fn span_ordered(s: &Span) -> bool {
    s.start.0 < s.end.0 || (s.start.0 == s.end.0 && s.start.1 <= s.end.1)
}

impl Span {
    /// Builds a span from its four components.
    pub fn new(start: (usize, usize), end: (usize, usize), code: String, file: String) -> (s: Self)
        ensures
            s.start == start && s.end == end && s.string == code && s.file == file,
    {
        Span { start, end, string: code, file }
    }

    /// An exact copy of this span.
    pub fn dup(&self) -> (s: Self)
        ensures
            s == *self,
    {
        Span {
            start: self.start,
            end: self.end,
            string: self.string.clone(),
            file: self.file.clone(),
        }
    }

    /// A span from the start of `self` to the end of `other`, keeping the
    /// line text and file of `self`.
    pub fn to(&self, other: &Span) -> (s: Self)
        ensures
            s.start == self.start && s.end == other.end && s.string == self.string && s.file
                == self.file,
    {
        Span {
            start: self.start,
            end: other.end,
            string: self.string.clone(),
            file: self.file.clone(),
        }
    }

    /// Renders the span as a diagnostic: a `file:line:col` header line,
    /// the recorded source line, and a caret line with one caret per
    /// column of the flagged range.
    pub fn render(&self) -> (out: String)
        ensures
            out@ == render_chars(self),
    {
        let mut out = self.file.clone();
        push_char(&mut out, ':');
        let line = u64_to_string(self.start.0 as u64);
        out.append(line.as_str());
        push_char(&mut out, ':');
        let col = u64_to_string(self.start.1 as u64);
        out.append(col.as_str());
        push_char(&mut out, '\n');
        out.append(self.string.as_str());
        push_char(&mut out, '\n');
        let pad: usize = if self.start.1 >= 1 {
            self.start.1 - 1
        } else {
            0
        };
        push_repeated(&mut out, ' ', pad);
        let carets: usize = if self.end.1 >= self.start.1 {
            self.end.1 - self.start.1
        } else {
            0
        };
        push_repeated(&mut out, '^', carets);
        push_char(&mut out, '\n');
        proof {
            assert(out@ =~= render_chars(self));
        }
        out
    }
}

/// The exact text `Span::render` produces.
pub open spec fn render_chars(s: &Span) -> Seq<char> {
    s.file@ + seq![':'] + dec_chars(s.start.0 as nat) + seq![':'] + dec_chars(s.start.1 as nat)
        + seq!['\n'] + s.string@ + seq!['\n'] + char_repeat(' ', pad_width(s)) + char_repeat(
        '^',
        caret_width(s),
    ) + seq!['\n']
}

/// How many blanks precede the carets: the start column is 1-based.
pub open spec fn pad_width(s: &Span) -> nat {
    if s.start.1 >= 1 {
        (s.start.1 - 1) as nat
    } else {
        0
    }
}

/// How many carets are drawn: one per column between start and end.
pub open spec fn caret_width(s: &Span) -> nat {
    if s.end.1 >= s.start.1 {
        (s.end.1 - s.start.1) as nat
    } else {
        0
    }
}

} // verus!

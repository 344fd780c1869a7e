//! The ways a conversion can be refused or stopped.
use crate::text::{debug_quoted, debug_text, decimal, push_decimal, push_quote};
use vstd::prelude::*;

verus! {

/// A line whose delimiter count differs from the header's.
#[derive(Debug, Clone, Copy, PartialEq, Eq, Structural)]
pub struct CountError {
    delimiters_at_header: usize,
    delimiters_at_line: usize,
    line_number: usize,
}

impl CountError {
    pub closed spec fn header_count(&self) -> nat {
        self.delimiters_at_header as nat
    }

    pub closed spec fn line_count(&self) -> nat {
        self.delimiters_at_line as nat
    }

    pub closed spec fn at_line(&self) -> nat {
        self.line_number as nat
    }

    pub fn new(
        delimiters_at_header: usize,
        delimiters_at_line: usize,
        line_number: usize,
    ) -> (r: CountError)
        ensures
            r.header_count() == delimiters_at_header,
            r.line_count() == delimiters_at_line,
            r.at_line() == line_number,
    {
        CountError { delimiters_at_header, delimiters_at_line, line_number }
    }

    /// Delimiters counted on the first line.
    pub fn delimiters_at_header(&self) -> (r: usize)
        ensures
            r == self.header_count(),
    {
        self.delimiters_at_header
    }

    /// Delimiters counted on the offending line.
    pub fn delimiters_at_line(&self) -> (r: usize)
        ensures
            r == self.line_count(),
    {
        self.delimiters_at_line
    }

    /// The offending line, counted from 1.
    pub fn line_number(&self) -> (r: usize)
        ensures
            r == self.at_line(),
    {
        self.line_number
    }

    /// The sentence "H delimiters at header, while L at line N." in double
    /// quotes, as `Debug` writes it: it holds no character that needs escaping.
    pub fn message(&self) -> (r: String)
        ensures
            r@ == seq!['"'] + decimal(self.header_count()) + " delimiters at header, while "@
                + decimal(self.line_count()) + " at line "@ + decimal(self.at_line()) + "."@
                + seq!['"'],
    {
        let mut r = String::new();
        push_quote(&mut r);
        push_decimal(&mut r, self.delimiters_at_header);
        r.append(" delimiters at header, while ");
        push_decimal(&mut r, self.delimiters_at_line);
        r.append(" at line ");
        push_decimal(&mut r, self.line_number);
        r.append(".");
        push_quote(&mut r);
        r
    }
}

/// A new delimiter that is not a single grapheme cluster.
#[derive(Debug, Clone, PartialEq, Eq)]
pub struct DelimiterError {
    invalid_delimiter: String,
}

impl DelimiterError {
    pub closed spec fn delimiter(&self) -> Seq<char> {
        self.invalid_delimiter@
    }

    pub fn new(invalid_delimiter: String) -> (r: DelimiterError)
        ensures
            r.delimiter() == invalid_delimiter@,
    {
        DelimiterError { invalid_delimiter }
    }

    /// The delimiter that was refused.
    pub fn invalid_delimiter(&self) -> (r: &str)
        ensures
            r@ == self.delimiter(),
    {
        self.invalid_delimiter.as_str()
    }

    /// "D is not a valid delimiter. Please select a one-character delimiter"
    pub fn sentence(&self) -> (r: String)
        ensures
            r@ == self.delimiter()
                + " is not a valid delimiter. Please select a one-character delimiter"@,
    {
        let mut r = self.invalid_delimiter.clone();
        r.append(" is not a valid delimiter. Please select a one-character delimiter");
        r
    }

    /// The sentence as `Debug` writes it: in double quotes, escaped.
    pub fn message(&self) -> (r: String)
        ensures
            r@ == debug_text(
                self.delimiter()
                    + " is not a valid delimiter. Please select a one-character delimiter"@,
            ),
    {
        let s = self.sentence();
        debug_quoted(s.as_str())
    }
}

/// A directory walk was asked of a path that is not a directory.
#[derive(Debug, Clone, Copy, PartialEq, Eq, Structural)]
pub struct FileIsDirectoryError {}

impl FileIsDirectoryError {
    pub fn new() -> FileIsDirectoryError {
        FileIsDirectoryError {  }
    }

    /// An empty text as `Debug` writes it: two double quotes.
    pub fn message(&self) -> (r: String)
        ensures
            r@ == seq!['"', '"'],
    {
        let mut r = String::new();
        push_quote(&mut r);
        push_quote(&mut r);
        r
    }
}

/// The output would be written over the input.
#[derive(Debug, Clone, Copy, PartialEq, Eq, Structural)]
pub struct OutputWithSameNameError {}

impl OutputWithSameNameError {
    pub fn new() -> OutputWithSameNameError {
        OutputWithSameNameError {  }
    }

    /// An empty text as `Debug` writes it: two double quotes.
    pub fn message(&self) -> (r: String)
        ensures
            r@ == seq!['"', '"'],
    {
        let mut r = String::new();
        push_quote(&mut r);
        push_quote(&mut r);
        r
    }
}

} // verus!

//! Converting a file line by line. The caller reads each line, hands it to
//! a `FileConverter`, and performs the `LineAction` it gets back.
use crate::errors::{CountError, DelimiterError};
use crate::graphemes::{
    delimiter_count, get_number_of_delimiters, is_single_grapheme, is_valid_delimiter,
};
use crate::text::{replaced, replace_all};
use vstd::prelude::*;

verus! {

/// What one line told about the delimiter count.
#[derive(Debug, Clone, Copy, PartialEq, Eq, Structural)]
pub enum LineProcessingResult {
    /// The line holds this many delimiters.
    Count(usize),
    /// The line was converted without counting.
    Any,
    /// There was no line left.
    EndOfFile,
}

/// Converts one line read from the input, or the end of the input (`None`):
/// the text to write, and, when `check_consistency` is set, the number of
/// delimiters the line holds.
pub fn process_line(
    line: Option<&str>,
    original_sep: &str,
    new_sep: &str,
    check_consistency: bool,
) -> (r: (String, LineProcessingResult))
    requires
        line matches Some(l) ==> (check_consistency && l@.len() > 0 ==> original_sep@.len() > 0),
    ensures
        match line {
            None => r.0@.len() == 0 && r.1 == LineProcessingResult::EndOfFile,
            Some(l) => {
                &&& r.0@ == replaced(l@, original_sep@, new_sep@)
                &&& check_consistency ==> (r.1 matches LineProcessingResult::Count(n) && n
                    == delimiter_count(l@, original_sep@))
                &&& !check_consistency ==> r.1 == LineProcessingResult::Any
            },
        },
{
    match line {
        None => (String::new(), LineProcessingResult::EndOfFile),
        Some(l) => {
            if check_consistency {
                let n = get_number_of_delimiters(l, original_sep);
                (replace_all(l, original_sep, new_sep), LineProcessingResult::Count(n))
            } else {
                (replace_all(l, original_sep, new_sep), LineProcessingResult::Any)
            }
        },
    }
}

/// The characters of a line, if there is one.
pub open spec fn line_view(line: Option<&str>) -> Option<Seq<char>> {
    match line {
        Some(l) => Some(l@),
        None => None,
    }
}

/// How far a file's conversion has come.
#[derive(Debug, Clone, Copy, PartialEq, Eq, Structural)]
pub enum Phase {
    /// No line has been read yet.
    Header,
    /// Lines are converted without counting delimiters.
    Unchecked,
    /// Every line must hold `expected` delimiters; the next one is line
    /// `line_number`.
    Checked { expected: usize, line_number: usize },
    /// The conversion has ended.
    Finished,
}

/// How a conversion that reached the end of the input is shown as ended.
#[derive(Debug, Clone, Copy, PartialEq, Eq, Structural)]
pub enum Ending {
    /// Announce that the file is done.
    Done,
    /// Clear the progress display without a message.
    Cleared,
}

/// What the caller does after handing a line (or the end) to the converter.
#[derive(Debug, Clone, PartialEq, Eq)]
pub enum LineAction {
    /// Write the converted line and read the next one.
    Write(String),
    /// Write the converted line, then stop: its delimiter count differs
    /// from the header's.
    WriteAndStop(String, CountError),
    /// The input has ended.
    Finish(Ending),
}

/// The decisions of a file's conversion, from its first line to its end.
pub struct FileConverter {
    original_sep: String,
    new_sep: String,
    check: bool,
    phase: Phase,
}

impl FileConverter {
    pub closed spec fn original_sep_view(&self) -> Seq<char> {
        self.original_sep@
    }

    pub closed spec fn new_sep_view(&self) -> Seq<char> {
        self.new_sep@
    }

    pub closed spec fn checks(&self) -> bool {
        self.check
    }

    pub closed spec fn phase_view(&self) -> Phase {
        self.phase
    }

    /// The new delimiter is a single grapheme cluster, and the phase agrees
    /// with whether lines are checked.
    pub open spec fn wf(&self) -> bool {
        &&& is_single_grapheme(self.new_sep_view())
        &&& self.phase_view() is Unchecked ==> !self.checks()
        &&& self.phase_view() is Checked ==> self.checks()
    }

    /// Whether `feed` may be called next with `line` (`None` for the end of
    /// the input): the conversion has not ended, a non-empty line is counted
    /// only with a non-empty separator, and the line number stays in range.
    pub open spec fn ready_for(&self, line: Option<Seq<char>>) -> bool {
        &&& !(self.phase_view() is Finished)
        &&& line matches Some(l) ==> (self.checks() && l.len() > 0
            ==> self.original_sep_view().len() > 0)
        &&& line is Some && self.phase_view() is Checked ==> self.phase_view()->line_number
            < usize::MAX
    }

    /// Starts a conversion from `original_sep` to `new_sep`; refused when
    /// `new_sep` is not a single grapheme cluster.
    pub fn new(
        original_sep: String,
        new_sep: String,
        check: bool,
    ) -> (r: Result<FileConverter, DelimiterError>)
        ensures
            is_single_grapheme(new_sep@) <==> r is Ok,
            new_sep@.len() == 0 ==> r is Err,
            new_sep@.len() == 1 ==> r is Ok,
            r matches Ok(c) ==> {
                &&& c.wf()
                &&& c.original_sep_view() == original_sep@
                &&& c.new_sep_view() == new_sep@
                &&& c.checks() == check
                &&& c.phase_view() == Phase::Header
            },
            r matches Err(e) ==> e.delimiter() == new_sep@,
    {
        if !is_valid_delimiter(new_sep.as_str()) {
            return Err(DelimiterError::new(new_sep));
        }
        Ok(FileConverter { original_sep, new_sep, check, phase: Phase::Header })
    }

    pub fn phase(&self) -> (r: Phase)
        ensures
            r == self.phase_view(),
    {
        self.phase
    }

    /// Whether `feed` may be called next with `line`.
    pub fn ready(&self, line: Option<&str>) -> (r: bool)
        ensures
            r == self.ready_for(line_view(line)),
    {
        if self.phase == Phase::Finished {
            return false;
        }
        match line {
            None => true,
            Some(l) => {
                let sep_ok = !self.check || l.is_empty()
                    || !self.original_sep.as_str().is_empty();
                match self.phase {
                    Phase::Checked { line_number, .. } => sep_ok && line_number < usize::MAX,
                    _ => sep_ok,
                }
            },
        }
    }

    /// Takes the next line read from the input, or its end (`None`).
    pub fn feed(&mut self, line: Option<&str>) -> (r: LineAction)
        requires
            old(self).wf(),
            old(self).ready_for(line_view(line)),
        ensures
            final(self).wf(),
            final(self).original_sep_view() == old(self).original_sep_view(),
            final(self).new_sep_view() == old(self).new_sep_view(),
            final(self).checks() == old(self).checks(),
            line is None ==> {
                &&& final(self).phase_view() == Phase::Finished
                &&& r == LineAction::Finish(
                    if old(self).phase_view() is Unchecked {
                        Ending::Cleared
                    } else {
                        Ending::Done
                    },
                )
            },
            line matches Some(l) ==> old(self).converts(l@, final(self).phase_view(), r),
    {
        match line {
            None => {
                let ending = if self.phase == Phase::Unchecked {
                    Ending::Cleared
                } else {
                    Ending::Done
                };
                self.phase = Phase::Finished;
                LineAction::Finish(ending)
            },
            Some(l) => {
                let (text, result) = process_line(
                    Some(l),
                    self.original_sep.as_str(),
                    self.new_sep.as_str(),
                    self.check,
                );
                match self.phase {
                    Phase::Checked { expected, line_number } => {
                        let n = match result {
                            LineProcessingResult::Count(n) => n,
                            _ => 0,
                        };
                        if n != expected {
                            self.phase = Phase::Finished;
                            LineAction::WriteAndStop(text, CountError::new(expected, n, line_number))
                        } else {
                            self.phase = Phase::Checked { expected, line_number: line_number + 1 };
                            LineAction::Write(text)
                        }
                    },
                    _ => {
                        if let LineProcessingResult::Count(n) = result {
                            self.phase = Phase::Checked { expected: n, line_number: 2 };
                        } else {
                            self.phase = Phase::Unchecked;
                        }
                        LineAction::Write(text)
                    },
                }
            },
        }
    }

    /// What handing the line `l` to this converter does: the phase it moves
    /// to and the action it asks for.
    pub open spec fn converts(&self, l: Seq<char>, next: Phase, r: LineAction) -> bool {
        let out = replaced(l, self.original_sep_view(), self.new_sep_view());
        let n = delimiter_count(l, self.original_sep_view());
        match self.phase_view() {
            Phase::Checked { expected, line_number } => if n == expected {
                &&& next == Phase::Checked { expected, line_number: (line_number + 1) as usize }
                &&& r matches LineAction::Write(t) && t@ == out
            } else {
                &&& next == Phase::Finished
                &&& r matches LineAction::WriteAndStop(t, e) && t@ == out && e.header_count()
                    == expected && e.line_count() == n && e.at_line() == line_number
            },
            _ => {
                &&& r matches LineAction::Write(t) && t@ == out
                &&& if self.checks() {
                    next matches Phase::Checked { expected, line_number } && expected == n
                        && line_number == 2
                } else {
                    next == Phase::Unchecked
                }
            },
        }
    }
}

} // verus!

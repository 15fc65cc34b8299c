//! The scan of a text for characters that should be written in ASCII.

use vstd::prelude::*;
use vstd::string::{StrSliceExecFns, StringExecFns};

verus! {

/// Whether a character is one of the four arrows, for which `->`, `<-`, `^`
/// and `v` should be written.
pub open spec fn is_prohibited(c: char) -> bool {
    c == '\u{2192}' || c == '\u{2190}' || c == '\u{2191}' || c == '\u{2193}'
}

/// Tells whether a character is prohibited.
pub fn prohibited(c: char) -> (yes: bool)
    ensures
        yes == is_prohibited(c),
{
    c == '\u{2192}' || c == '\u{2190}' || c == '\u{2191}' || c == '\u{2193}'
}

/// The violations of one line, left to right: for each prohibited character
/// the number of the line, the column of the character, counted in
/// characters from 1, and the character itself.
pub open spec fn line_violations(line: Seq<char>, line_no: usize) -> Seq<(usize, usize, char)>
    decreases line.len(),
{
    if line.len() == 0 {
        Seq::empty()
    } else {
        let before = line_violations(line.drop_last(), line_no);
        if is_prohibited(line.last()) {
            before.push((line_no, line.len() as usize, line.last()))
        } else {
            before
        }
    }
}

/// Every violation reported for a line stands for a prohibited character of
/// that line: it carries the line's number, and its column, counted from 1,
/// is where the character stands.
pub proof fn lemma_violations_are_real(line: Seq<char>, line_no: usize, k: int)
    requires
        line.len() <= usize::MAX,
        0 <= k < line_violations(line, line_no).len(),
    ensures
        ({
            let v = line_violations(line, line_no)[k];
            &&& v.0 == line_no
            &&& 1 <= v.1 <= line.len()
            &&& line[v.1 - 1] == v.2
            &&& is_prohibited(v.2)
        }),
    decreases line.len(),
{
    if line.len() > 0 {
        let before = line_violations(line.drop_last(), line_no);
        if k < before.len() {
            lemma_violations_are_real(line.drop_last(), line_no, k);
        }
    }
}

/// Every prohibited character of a line is reported, with its column.
pub proof fn lemma_every_violation_found(line: Seq<char>, line_no: usize, i: int) -> (k: int)
    requires
        line.len() <= usize::MAX,
        0 <= i < line.len(),
        is_prohibited(line[i]),
    ensures
        0 <= k < line_violations(line, line_no).len(),
        line_violations(line, line_no)[k] == (line_no, (i + 1) as usize, line[i]),
    decreases line.len(),
{
    let before = line_violations(line.drop_last(), line_no);
    if i == line.len() - 1 {
        before.len() as int
    } else {
        lemma_every_violation_found(line.drop_last(), line_no, i)
    }
}

/// The violations of a line come in strictly increasing order of column.
pub proof fn lemma_columns_increase(line: Seq<char>, line_no: usize, j: int, k: int)
    requires
        line.len() <= usize::MAX,
        0 <= j < k < line_violations(line, line_no).len(),
    ensures
        line_violations(line, line_no)[j].1 < line_violations(line, line_no)[k].1,
    decreases line.len(),
{
    if line.len() > 0 {
        let before = line_violations(line.drop_last(), line_no);
        if k < before.len() {
            lemma_columns_increase(line.drop_last(), line_no, j, k);
        } else {
            lemma_violations_are_real(line.drop_last(), line_no, j);
        }
    }
}

/// Scans one line.
pub fn scan_line(line: &str, line_no: usize) -> (found: Vec<(usize, usize, char)>)
    ensures
        found@ == line_violations(line@, line_no),
{
    let mut found: Vec<(usize, usize, char)> = Vec::new();
    let length: usize = line.unicode_len();
    let mut column: usize = 0;
    for c in iter: line.chars()
        invariant
            iter.seq() == line@,
            length == line@.len(),
            column == iter.index(),
            found@ == line_violations(line@.take(iter.index() as int), line_no),
    {
        proof {
            let upto = line@.take(iter.index() + 1);
            assert(upto.drop_last() =~= line@.take(iter.index() as int));
            assert(upto.last() == c);
        }
        column = column + 1;
        if prohibited(c) {
            found.push((line_no, column, c));
        }
    }
    proof {
        assert(line@.take(line@.len() as int) =~= line@);
    }
    found
}

/// Why an input could not be checked.
#[derive(Debug)]
pub enum CheckError {
    /// The file could not be opened
    OpenFile {
        /// Path to the file that could not be opened
        path: std::path::PathBuf,
        /// The underlying I/O error
        source: std::io::Error,
    },
    /// A line could not be read from an input that was open
    ReadLine {
        /// The underlying I/O error
        source: std::io::Error,
    },
}

/// Calls `Path::display` and writes out what it shows: the path, with
/// replacement characters where it is no valid Unicode.
#[verifier::external_body]
fn path_text(path: &std::path::PathBuf) -> (text: String) {
    path.display().to_string()
}

impl CheckError {
    /// Whether `text` is what this error says: what the I/O error shows,
    /// after the path and a colon where a file could not be opened.
    pub open spec fn says(self, text: String) -> bool {
        match self {
            CheckError::OpenFile { path, source } => exists|inner: String| #[trigger]
                vstd::string::to_string_from_display_ensures::<std::io::Error>(&source, inner) && (
                ": "@ + inner@).is_suffix_of(text@),
            CheckError::ReadLine { source } => vstd::string::to_string_from_display_ensures::<
                std::io::Error,
            >(&source, text),
        }
    }

    /// What the error says, for a reader.
    pub fn message(&self) -> (text: String)
        ensures
            self.says(text),
    {
        match self {
            CheckError::OpenFile { path, source } => {
                let shown = path_text(path);
                let inner = source.to_string();
                let mut text = String::from_str(shown.as_str());
                text.append(": ");
                text.append(inner.as_str());
                proof {
                    let tail = ": "@ + inner@;
                    assert(text@ =~= shown@ + tail);
                    assert(tail =~= text@.subrange(text@.len() - tail.len(), text@.len() as int));
                }
                text
            },
            CheckError::ReadLine { source } => source.to_string(),
        }
    }
}

/// An input to check.
#[derive(Debug, PartialEq, Clone)]
pub enum InputSource {
    /// Read from a file
    File(std::path::PathBuf),
}

impl InputSource {
    /// The path of this input.
    pub fn path(&self) -> (path: &std::path::PathBuf)
        ensures
            *self == InputSource::File(*path),
    {
        match self {
            InputSource::File(path) => path,
        }
    }
}

/// Whether an error says that reading a line failed with `source`.
pub open spec fn is_read_failure(e: CheckError, source: std::io::Error) -> bool {
    e == (CheckError::ReadLine { source })
}

/// How many lines of an input were read before reading failed: all of
/// them, where it did not fail.
pub open spec fn lines_read(lines: Seq<Result<String, std::io::Error>>) -> nat
    decreases lines.len(),
{
    if lines.len() == 0 || lines[0] is Err {
        0
    } else {
        1 + lines_read(lines.drop_first())
    }
}

/// The violations of the first `count` lines, in the order of the lines,
/// which are numbered from 1.
pub open spec fn violations_in(lines: Seq<Result<String, std::io::Error>>, count: nat) -> Seq<
    (usize, usize, char),
>
    decreases count,
{
    if count == 0 {
        Seq::empty()
    } else {
        violations_in(lines, (count - 1) as nat) + line_violations(
            lines[count - 1]->Ok_0@,
            count as usize,
        )
    }
}

/// The lines before the first failure are as many as there are lines that
/// were read without one.
proof fn lemma_lines_read(lines: Seq<Result<String, std::io::Error>>, count: nat)
    requires
        count <= lines.len(),
        forall|i: int| 0 <= i < count ==> (#[trigger] lines[i]) is Ok,
        count == lines.len() || lines[count as int] is Err,
    ensures
        lines_read(lines) == count,
    decreases count,
{
    if count > 0 {
        assert(lines[0] is Ok);
        let rest = lines.drop_first();
        assert forall|i: int| 0 <= i < count - 1 implies (#[trigger] rest[i]) is Ok by {
            assert(rest[i] == lines[i + 1]);
        }
        assert(count - 1 < rest.len() ==> rest[count - 1] == lines[count as int]);
        lemma_lines_read(rest, (count - 1) as nat);
    }
}

/// Checks the lines of an input, given as they were read: each is the text
/// of a line, or the failure to read it. Returns the violations of the
/// lines before the first failure, in increasing order of line and column,
/// and says how the scan ended: whether there was any violation, or the
/// failure.
pub fn check_reader(lines: Vec<Result<String, std::io::Error>>) -> (report: (
    Vec<(usize, usize, char)>,
    Result<bool, CheckError>,
))
    ensures
        report.0@ == violations_in(lines@, lines_read(lines@)),
        match report.1 {
            Ok(any) => lines_read(lines@) == lines@.len() && any == (report.0@.len() > 0),
            Err(e) => lines_read(lines@) < lines@.len() && is_read_failure(
                e,
                lines@[lines_read(lines@) as int]->Err_0,
            ),
        },
{
    let ghost all = lines@;
    let total: usize = lines.len();
    let mut found: Vec<(usize, usize, char)> = Vec::new();
    let mut line_no: usize = 0;
    for line in iter: lines
        invariant
            iter.seq() == all,
            all.len() == total,
            line_no == iter.index(),
            forall|i: int| 0 <= i < iter.index() ==> (#[trigger] all[i]) is Ok,
            found@ == violations_in(all, iter.index() as nat),
    {
        match line {
            Err(source) => {
                proof {
                    lemma_lines_read(all, line_no as nat);
                }
                return (found, Err(CheckError::ReadLine { source }));
            },
            Ok(text) => {
                line_no = line_no + 1;
                let mut in_line = scan_line(text.as_str(), line_no);
                found.append(&mut in_line);
            },
        }
    }
    proof {
        lemma_lines_read(all, all.len());
    }
    let any = found.len() > 0;
    (found, Ok(any))
}

} // verus!

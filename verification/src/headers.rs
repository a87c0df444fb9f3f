//! The header block: the lines between the request line and the first blank
//! line. Reading stops at the first line that is blank or could not be read,
//! and that line belongs to no header.

use crate::text::{is_blank, is_blank_line};
use vstd::prelude::*;

verus! {

/// What an attempt to read one line from the peer gave.
#[derive(Debug)]
pub enum LineRead {
    /// A line, without its line ending.
    Line(String),
    /// The read failed.
    Failed,
}

/// Whether `read` ends the header block: a blank line does, and so does a
/// read that failed.
pub open spec fn ends_headers(read: LineRead) -> bool {
    match read {
        LineRead::Line(line) => is_blank(line@),
        LineRead::Failed => true,
    }
}

/// Whether `headers` is the header block at the head of `reads`: the lines
/// of `reads` up to the first read that ends the block, or all of them if
/// none does.
pub open spec fn is_header_block(reads: Seq<LineRead>, headers: Seq<String>) -> bool {
    &&& headers.len() <= reads.len()
    &&& forall|k: int|
        0 <= k < headers.len() ==> #[trigger] reads[k] == LineRead::Line(headers[k])
            && !ends_headers(reads[k])
    &&& headers.len() < reads.len() ==> ends_headers(reads[headers.len() as int])
}

/// Collects a header block line by line, for a caller that reads the lines
/// one at a time and must not read past the end of the block.
pub struct HeaderReader {
    lines: Vec<String>,
    done: bool,
}

impl HeaderReader {
    /// The header lines collected so far.
    pub closed spec fn lines(&self) -> Seq<String> {
        self.lines@
    }

    /// Whether the end of the block has been seen.
    pub closed spec fn done(&self) -> bool {
        self.done
    }

    /// A reader that has seen nothing.
    pub fn new() -> (reader: HeaderReader)
        ensures
            reader.lines() == Seq::<String>::empty(),
            !reader.done(),
    {
        HeaderReader { lines: Vec::new(), done: false }
    }

    /// Takes the next read and says whether another line is wanted. A line
    /// that is not blank joins the block; a blank line or a failed read ends
    /// it. Once the block has ended, nothing is taken any more.
    pub fn feed(&mut self, read: LineRead) -> (more: bool)
        ensures
            more == (!old(self).done() && !ends_headers(read)),
            final(self).done() == !more,
            final(self).lines() == if more {
                old(self).lines().push(read->Line_0)
            } else {
                old(self).lines()
            },
    {
        if self.done {
            return false;
        }
        match read {
            LineRead::Line(line) => {
                if is_blank_line(line.as_str()) {
                    self.done = true;
                    false
                } else {
                    self.lines.push(line);
                    true
                }
            },
            LineRead::Failed => {
                self.done = true;
                false
            },
        }
    }

    /// Whether the end of the block has been seen.
    pub fn is_done(&self) -> (b: bool)
        ensures
            b == self.done(),
    {
        self.done
    }

    /// Hands out the header lines collected.
    pub fn into_lines(self) -> (lines: Vec<String>)
        ensures
            lines@ == self.lines(),
    {
        self.lines
    }
}

/// Reads the header block at the head of `reads`: the lines before the
/// first blank line or failed read, in order. What follows that read is not
/// looked at.
pub fn read_headers(reads: &Vec<LineRead>) -> (headers: Vec<String>)
    ensures
        is_header_block(reads@, headers@),
{
    let mut reader = HeaderReader::new();
    let mut i: usize = 0;
    while i < reads.len()
        invariant
            i <= reads@.len(),
            !reader.done(),
            reader.lines().len() == i,
            forall|k: int|
                0 <= k < i ==> #[trigger] reads@[k] == LineRead::Line(reader.lines()[k])
                    && !ends_headers(reads@[k]),
        decreases reads@.len() - i,
    {
        let read = match &reads[i] {
            LineRead::Line(line) => LineRead::Line(line.clone()),
            LineRead::Failed => LineRead::Failed,
        };
        if !reader.feed(read) {
            return reader.into_lines();
        }
        i += 1;
    }
    reader.into_lines()
}

} // verus!

//! The line source's durable cursor: an index into the log file's lines that
//! only ever moves forward, so content that was already seen is never
//! processed again.

use vstd::prelude::*;

verus! {

/// Where the log lives and how far into it the session has read.
///
/// `next_line_index` never decreases; a poll advances it by exactly one when
/// a new line exists and leaves it alone otherwise.
pub struct LogCursor {
    pub file_path: String,
    pub next_line_index: usize,
}

impl LogCursor {
    /// A cursor positioned at the tail of a file that currently has
    /// `total_lines` lines: only the last existing line and fresh growth
    /// will be seen, history before the session start is skipped.
    pub fn new(file_path: String, total_lines: usize) -> (c: LogCursor)
        ensures
            c.file_path == file_path,
            total_lines > 0 ==> c.next_line_index == total_lines - 1,
            total_lines == 0 ==> c.next_line_index == 0,
    {
        let start: usize = if total_lines > 0 {
            total_lines - 1
        } else {
            0
        };
        LogCursor { file_path, next_line_index: start }
    }

    /// One poll over the file's current lines: if a line at the cursor
    /// exists, return a copy of it and advance by one; otherwise change
    /// nothing. The cursor is non-decreasing and advances by at most one
    /// per poll.
    pub fn poll(&mut self, lines: &Vec<String>) -> (r: Option<String>)
        ensures
            final(self).file_path == old(self).file_path,
            final(self).next_line_index >= old(self).next_line_index,
            lines@.len() <= old(self).next_line_index ==> {
                &&& r is None
                &&& *final(self) == *old(self)
            },
            lines@.len() > old(self).next_line_index ==> {
                &&& final(self).next_line_index == old(self).next_line_index + 1
                &&& r == Some(lines@[old(self).next_line_index as int])
            },
    {
        if lines.len() <= self.next_line_index {
            return None;
        }
        let line = lines[self.next_line_index].clone();
        self.next_line_index = self.next_line_index + 1;
        Some(line)
    }
}

} // verus!

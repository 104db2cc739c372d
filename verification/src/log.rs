//! Bounded chunks of a job's console output, and their sanitized API
//! projection.

use vstd::prelude::*;

use crate::sanitize::{strip_line, strip_seq};

verus! {

/// One chunk of a job's console output: the line window it covers, the
/// lines themselves, and whether this chunk is the tail of a finished
/// job.  The raw stored content may hold terminal control codes; they
/// are stripped before any external projection.
#[derive(Debug, Clone)]
pub struct JobLog {
    pub start: u64,
    pub stop: u64,
    pub content: Vec<String>,
    pub is_complete: bool,
}

impl JobLog {
    /// Strips terminal control sequences from every line of this chunk,
    /// in place.  Line order and count are preserved; the window and
    /// completeness flag are untouched.
    pub fn strip_ansi(&mut self)
        ensures
            final(self).start == old(self).start,
            final(self).stop == old(self).stop,
            final(self).is_complete == old(self).is_complete,
            final(self).content@.len() == old(self).content@.len(),
            forall|i: int|
                0 <= i < old(self).content@.len() ==> (#[trigger] final(self).content@[i])@
                    == strip_seq(old(self).content@[i]@),
    {
        let mut stripped: Vec<String> = Vec::new();
        let n = self.content.len();
        let mut i: usize = 0;
        while i < n
            invariant
                n == self.content@.len(),
                i <= n,
                stripped@.len() == i,
                forall|j: int|
                    0 <= j < i ==> (#[trigger] stripped@[j])@ == strip_seq(self.content@[j]@),
            decreases n - i,
        {
            stripped.push(strip_line(self.content[i].as_str()));
            i += 1;
        }
        self.content = stripped;
    }

    /// Renders this chunk in its canonical external form: window and
    /// completeness flag as they are, and every line sanitized.
    pub fn to_api(&self) -> (r: JobLogApi)
        ensures
            r.start == self.start,
            r.stop == self.stop,
            r.is_complete == self.is_complete,
            r.content@.len() == self.content@.len(),
            forall|i: int|
                0 <= i < self.content@.len() ==> (#[trigger] r.content@[i])@ == strip_seq(
                    self.content@[i]@,
                ),
    {
        let mut content: Vec<String> = Vec::new();
        let n = self.content.len();
        let mut i: usize = 0;
        while i < n
            invariant
                n == self.content@.len(),
                i <= n,
                content@.len() == i,
                forall|j: int|
                    0 <= j < i ==> (#[trigger] content@[j])@ == strip_seq(self.content@[j]@),
            decreases n - i,
        {
            content.push(strip_line(self.content[i].as_str()));
            i += 1;
        }
        JobLogApi { start: self.start, stop: self.stop, content, is_complete: self.is_complete }
    }
}

/// The canonical external rendering of a log chunk: start, stop,
/// sanitized content and completeness flag, all always present.
#[derive(Debug, Clone)]
pub struct JobLogApi {
    pub start: u64,
    pub stop: u64,
    pub content: Vec<String>,
    pub is_complete: bool,
}

} // verus!

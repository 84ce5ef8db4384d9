//! A stopwatch that counts up once per second.
use vstd::prelude::*;
use crate::format::{span, span_text};
use crate::printer::{erase_spec, ops_view, Printer, TermOp};

verus! {

pub struct Stopwatch {
    elapsed: i64,
    printer: Printer,
}

impl Stopwatch {
    pub closed spec fn elapsed_spec(&self) -> int {
        self.elapsed as int
    }

    pub closed spec fn transient(&self) -> bool {
        self.printer.transient
    }

    pub fn new() -> (r: Stopwatch)
        ensures
            r.elapsed_spec() == 0,
            !r.transient(),
    {
        Stopwatch { elapsed: 0, printer: Printer::new() }
    }

    pub fn elapsed(&self) -> (r: i64)
        ensures
            r == self.elapsed_spec(),
    {
        self.elapsed
    }

    /// One second more, shown in place of the previous count; the count
    /// stops at `i64::MAX`.
    pub fn tick(&mut self) -> (r: Vec<TermOp>)
        ensures
            final(self).elapsed_spec() == if old(self).elapsed_spec() < i64::MAX {
                old(self).elapsed_spec() + 1
            } else {
                old(self).elapsed_spec()
            },
            final(self).transient(),
            ops_view(r@) == erase_spec(old(self).transient(), span_text(final(self).elapsed_spec())),
    {
        if self.elapsed < i64::MAX {
            self.elapsed = self.elapsed + 1;
        }
        let line = span(self.elapsed);
        self.printer.erase(line)
    }
}

} // verus!

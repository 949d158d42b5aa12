//! The running total over the sources of a run.
use vstd::prelude::*;
use crate::counter::{FileInfo, MetricTuple};
use crate::format::{fields, push_fields};
use crate::selection::{Cli, DisplaySelection};

verus! {

/// Why a source's counts could not be added to a total.
#[derive(Clone, Copy, Debug, PartialEq, Eq, Structural)]
pub enum AddError {
    /// The source has not ended, so its counts are not final.
    NotCounted,
    /// A sum would not fit in a `usize`.
    Overflow,
}

/// Whether the elementwise sum of `a` and `b` fits in `usize`s.
pub open spec fn sum_fits(a: MetricTuple, b: MetricTuple) -> bool {
    &&& a.lines + b.lines <= usize::MAX
    &&& a.words + b.words <= usize::MAX
    &&& a.bytes + b.bytes <= usize::MAX
    &&& a.chars + b.chars <= usize::MAX
}

/// The elementwise sum of `a` and `b`, where it fits.
pub open spec fn sum(a: MetricTuple, b: MetricTuple) -> MetricTuple {
    MetricTuple {
        lines: (a.lines + b.lines) as usize,
        words: (a.words + b.words) as usize,
        bytes: (a.bytes + b.bytes) as usize,
        chars: (a.chars + b.chars) as usize,
    }
}

/// The total line: the shown columns of `t`, then ` total`.
pub open spec fn total_line(t: MetricTuple, sel: DisplaySelection) -> Seq<char> {
    fields(t, sel) + seq![' ', 't', 'o', 't', 'a', 'l']
}

/// The all-zero tuple.
pub open spec fn zero() -> MetricTuple {
    MetricTuple { lines: 0, words: 0, bytes: 0, chars: 0 }
}

/// The running total of a run, with the selection and the number of sources
/// that the run was given.
pub struct TotalFilesInfo {
    selection: DisplaySelection,
    num_sources: usize,
    total: MetricTuple,
}

impl TotalFilesInfo {
    /// The counts added so far.
    pub closed spec fn totals(&self) -> MetricTuple {
        self.total
    }

    /// The counts shown.
    pub closed spec fn shown(&self) -> DisplaySelection {
        self.selection
    }

    /// The number of sources of the run.
    pub closed spec fn source_count(&self) -> nat {
        self.num_sources as nat
    }

    /// An all-zero total for the run that `cli` configures.
    pub fn new(cli: &Cli) -> (r: TotalFilesInfo)
        ensures
            r.totals() == zero(),
            r.shown() == cli.shown(),
            r.source_count() == cli.sources().len(),
    {
        let n = cli.files().len();
        TotalFilesInfo {
            selection: cli.selection(),
            num_sources: n,
            total: MetricTuple { lines: 0, words: 0, bytes: 0, chars: 0 },
        }
    }

    /// The total line: the shown columns of the total, then ` total`.
    pub fn as_string(&self) -> (r: String)
        ensures
            r@ == total_line(self.totals(), self.shown()),
    {
        let mut out = String::new();
        push_fields(&mut out, self.total, self.selection);
        let suffix = " total";
        proof {
            reveal_strlit(" total");
        }
        out.append(suffix);
        assert(out@ =~= total_line(self.totals(), self.shown()));
        out
    }

    /// Adds the counts `t` to the total, all four of them whatever is shown.
    /// Where a sum would not fit, nothing changes.
    pub fn add_tuple(&mut self, t: MetricTuple) -> (r: bool)
        ensures
            r == sum_fits(old(self).totals(), t),
            r ==> final(self).totals() == sum(old(self).totals(), t),
            !r ==> final(self).totals() == old(self).totals(),
            final(self).shown() == old(self).shown(),
            final(self).source_count() == old(self).source_count(),
    {
        let c = self.total;
        if c.lines > usize::MAX - t.lines || c.words > usize::MAX - t.words || c.bytes
            > usize::MAX - t.bytes || c.chars > usize::MAX - t.chars {
            return false;
        }
        self.total = MetricTuple {
            lines: c.lines + t.lines,
            words: c.words + t.words,
            bytes: c.bytes + t.bytes,
            chars: c.chars + t.chars,
        };
        true
    }

    /// Adds the final counts of a source to the total.
    pub fn add_info(&mut self, file_info: &FileInfo) -> (r: Result<(), AddError>)
        requires
            file_info.wf(),
        ensures
            !file_info.is_complete() ==> r == Err::<(), AddError>(AddError::NotCounted),
            file_info.is_complete() && sum_fits(old(self).totals(), file_info.counts()) ==> r is Ok
                && final(self).totals() == sum(old(self).totals(), file_info.counts()),
            file_info.is_complete() && !sum_fits(old(self).totals(), file_info.counts()) ==> r
                == Err::<(), AddError>(AddError::Overflow),
            r is Err ==> final(self).totals() == old(self).totals(),
            final(self).shown() == old(self).shown(),
            final(self).source_count() == old(self).source_count(),
    {
        match file_info.metrics() {
            None => Err(AddError::NotCounted),
            Some(t) => {
                if self.add_tuple(t) {
                    Ok(())
                } else {
                    Err(AddError::Overflow)
                }
            },
        }
    }

    /// Whether the total line is printed: only where the run was given more
    /// than one source.
    pub fn should_print(&self) -> (r: bool)
        ensures
            r == (self.source_count() > 1),
    {
        self.num_sources > 1
    }
}

} // verus!

//! The decisions of a run over several sources: which source comes next, what
//! is printed for it, and whether a total line ends the run. The caller opens
//! and reads the sources and prints what it is handed.
use vstd::prelude::*;
use crate::counter::{FileInfo, MetricTuple};
use crate::format::{report_line, FmtFileInfo};
use crate::selection::{Cli, DisplaySelection};
use crate::total::{total_line, AddError, TotalFilesInfo};

verus! {

/// The four counts of `t` as natural numbers.
pub open spec fn as_nats(t: MetricTuple) -> (nat, nat, nat, nat) {
    (t.lines as nat, t.words as nat, t.bytes as nat, t.chars as nat)
}

/// The elementwise sum of the counts of the sources that were counted; a
/// source that failed to open (`None`) adds nothing.
pub open spec fn sum_counted(outs: Seq<Option<MetricTuple>>) -> (nat, nat, nat, nat)
    decreases outs.len(),
{
    if outs.len() == 0 {
        (0, 0, 0, 0)
    } else {
        let s = sum_counted(outs.drop_last());
        match outs.last() {
            Some(t) => (
                s.0 + t.lines as nat,
                s.1 + t.words as nat,
                s.2 + t.bytes as nat,
                s.3 + t.chars as nat,
            ),
            None => s,
        }
    }
}

/// The diagnostic for a source that could not be opened.
pub open spec fn diagnostic_line(label: Seq<char>, cause: Seq<char>) -> Seq<char> {
    label + seq![':', ' '] + cause
}

/// One run over the sources of a configuration, in order.
pub struct Run {
    cli: Cli,
    total: TotalFilesInfo,
    next: usize,
    aborted: bool,
    outcomes: Ghost<Seq<Option<MetricTuple>>>,
}

impl Run {
    /// The labels of the sources, in order.
    pub closed spec fn sources(&self) -> Seq<Seq<char>> {
        self.cli.sources()
    }

    /// The counts shown.
    pub closed spec fn shown(&self) -> DisplaySelection {
        self.cli.shown()
    }

    /// What became of each source handled so far: its counts, or `None` where
    /// it failed to open.
    pub closed spec fn outcomes(&self) -> Seq<Option<MetricTuple>> {
        self.outcomes@
    }

    /// Whether a read fault, or a total too large, ended the run early.
    pub closed spec fn aborted(&self) -> bool {
        self.aborted
    }

    /// The running total.
    pub closed spec fn totals(&self) -> MetricTuple {
        self.total.totals()
    }

    /// Whether a source waits to be handled.
    pub open spec fn pending(&self) -> bool {
        !self.aborted() && self.outcomes().len() < self.sources().len()
    }

    pub closed spec fn wf(&self) -> bool {
        &&& self.total.source_count() == self.cli.sources().len()
        &&& self.total.shown() == self.cli.shown()
        &&& self.next == self.outcomes@.len()
        &&& self.next <= self.cli.sources().len()
        &&& as_nats(self.total.totals()) == sum_counted(self.outcomes@)
    }

    /// A run that has handled no source yet.
    pub fn new(cli: Cli) -> (r: Run)
        ensures
            r.wf(),
            r.sources() == cli.sources(),
            r.shown() == cli.shown(),
            r.outcomes() == Seq::<Option<MetricTuple>>::empty(),
            !r.aborted(),
    {
        let total = TotalFilesInfo::new(&cli);
        Run { cli, total, next: 0, aborted: false, outcomes: Ghost(Seq::empty()) }
    }

    /// The label of the source to handle next; `None` once every source has
    /// been handled or the run has ended early.
    pub fn next_source(&self) -> (r: Option<String>)
        requires
            self.wf(),
        ensures
            r is Some <==> self.pending(),
            r matches Some(s) ==> s@ == self.sources()[self.outcomes().len() as int],
    {
        if self.aborted || self.next >= self.cli.files().len() {
            None
        } else {
            let files = self.cli.files();
            let label = files[self.next].clone();
            assert(files.deep_view()[self.next as int] == files@[self.next as int]@);
            Some(label)
        }
    }

    /// Records that the next source could not be opened, and returns the
    /// diagnostic for it. The source adds nothing to the total.
    pub fn open_failed(&mut self, cause: &str) -> (r: String)
        requires
            old(self).wf(),
            old(self).pending(),
        ensures
            final(self).wf(),
            final(self).outcomes() == old(self).outcomes().push(None),
            r@ == diagnostic_line(old(self).sources()[old(self).outcomes().len() as int], cause@),
            final(self).totals() == old(self).totals(),
            final(self).sources() == old(self).sources(),
            final(self).shown() == old(self).shown(),
            !final(self).aborted(),
    {
        let files = self.cli.files();
        assert(files.deep_view().len() == files@.len());
        let n = files.len();
        assert(self.next < n);
        let mut out = files[self.next].clone();
        assert(files.deep_view()[self.next as int] == files@[self.next as int]@);
        proof {
            reveal_strlit(": ");
        }
        out.append(": ");
        out.append(cause);
        let ghost next = self.outcomes@.push(None);
        assert(next.drop_last() =~= self.outcomes@);
        self.outcomes = Ghost(next);
        self.next = self.next + 1;
        assert(out@ =~= diagnostic_line(old(self).sources()[old(self).outcomes().len() as int], cause@));
        out
    }

    /// Records the final counts of the next source, adds them to the total
    /// and returns its report line. Where the counts are not final, or the
    /// total would overflow, the run ends early instead.
    pub fn counted(&mut self, info: &FileInfo) -> (r: Result<String, AddError>)
        requires
            old(self).wf(),
            old(self).pending(),
            info.wf(),
        ensures
            final(self).wf(),
            final(self).sources() == old(self).sources(),
            final(self).shown() == old(self).shown(),
            r is Ok <==> info.is_complete() && crate::total::sum_fits(old(self).totals(), info.counts()),
            r matches Ok(s) ==> {
                &&& s@ == report_line(
                    info.counts(),
                    old(self).shown(),
                    old(self).sources()[old(self).outcomes().len() as int],
                )
                &&& final(self).outcomes() == old(self).outcomes().push(Some(info.counts()))
                &&& !final(self).aborted()
            },
            r is Err ==> final(self).aborted() && final(self).outcomes() == old(self).outcomes(),
            !info.is_complete() ==> r == Err::<String, AddError>(AddError::NotCounted),
    {
        match self.total.add_info(info) {
            Err(e) => {
                self.aborted = true;
                Err(e)
            },
            Ok(()) => {
                let files = self.cli.files();
                assert(files.deep_view().len() == files@.len());
                let n = files.len();
                assert(self.next < n);
        assert(self.next < n);
                assert(files.deep_view()[self.next as int] == files@[self.next as int]@);
                let report = FmtFileInfo::new(info, files[self.next].as_str(), &self.cli);
                let line = report.as_string().unwrap();
                let ghost next = self.outcomes@.push(Some(info.counts()));
                assert(next.drop_last() =~= self.outcomes@);
                self.outcomes = Ghost(next);
                self.next = self.next + 1;
                Ok(line)
            },
        }
    }

    /// Records a read fault on the current source: the run ends here, with
    /// no further source and no total line.
    pub fn read_failed(&mut self)
        requires
            old(self).wf(),
        ensures
            final(self).wf(),
            final(self).aborted(),
            final(self).outcomes() == old(self).outcomes(),
            final(self).sources() == old(self).sources(),
            final(self).shown() == old(self).shown(),
    {
        self.aborted = true;
    }

    /// Whether the run ended early.
    pub fn is_aborted(&self) -> (r: bool)
        ensures
            r == self.aborted(),
    {
        self.aborted
    }

    /// The total line that ends the run: only once every source has been
    /// handled without a fault, and only where there was more than one
    /// source. Its counts are the elementwise sum over the counted sources.
    pub fn total_line(&self) -> (r: Option<String>)
        requires
            self.wf(),
        ensures
            r is Some <==> (!self.aborted() && self.outcomes().len() == self.sources().len()
                && self.sources().len() > 1),
            r matches Some(s) ==> s@ == total_line(self.totals(), self.shown()),
            as_nats(self.totals()) == sum_counted(self.outcomes()),
    {
        if self.aborted || self.next < self.cli.files().len() || !self.total.should_print() {
            None
        } else {
            Some(self.total.as_string())
        }
    }
}

/// The total of a run is the elementwise sum of the counts of the sources
/// that were counted.
pub proof fn lemma_total_is_sum_of_counted(run: &Run)
    requires
        run.wf(),
    ensures
        as_nats(run.totals()) == sum_counted(run.outcomes()),
{
}

/// A source that failed to open adds nothing to the sum.
pub proof fn lemma_failed_source_adds_nothing(outs: Seq<Option<MetricTuple>>)
    ensures
        sum_counted(outs.push(None)) == sum_counted(outs),
{
    assert(outs.push(None).drop_last() =~= outs);
}

} // verus!

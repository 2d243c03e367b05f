//! The finished run: whether it was clean, and the summary that is printed for it.

use crate::invocation::{records, InvocationRecord, InvocationResult};
use crate::percent::{percent_of_error_found, percent_tenths, Percent};
use vstd::prelude::*;

verus! {

/// The stream on which a part of the summary is written.
#[derive(Debug, Clone, Copy, PartialEq, Eq, Structural)]
pub enum Stream {
    Stdout,
    Stderr,
}

/// The mathematical value of one part of the summary.
pub enum ReportLine {
    /// The acknowledgement that no invocation failed.
    NothingFound,
    /// The share of invocations that failed.
    ErrorsFound(Percent),
    /// The rule drawn before the output of each failure.
    Separator,
    /// What a failing invocation wrote to its standard output.
    Stdout(Seq<u8>),
    /// What a failing invocation wrote to its standard error.
    Stderr(Seq<u8>),
}

/// One part of the summary, to be written as it stands. Captured output is
/// borrowed from the outcome it reports on.
#[derive(Debug, Clone, Copy, PartialEq, Eq)]
pub enum ReportItem<'a> {
    NothingFound,
    ErrorsFound(Percent),
    Separator,
    Stdout(&'a [u8]),
    Stderr(&'a [u8]),
}

impl<'a> View for ReportItem<'a> {
    type V = ReportLine;

    open spec fn view(&self) -> ReportLine {
        match *self {
            ReportItem::NothingFound => ReportLine::NothingFound,
            ReportItem::ErrorsFound(percent) => ReportLine::ErrorsFound(percent),
            ReportItem::Separator => ReportLine::Separator,
            ReportItem::Stdout(bytes) => ReportLine::Stdout(bytes@),
            ReportItem::Stderr(bytes) => ReportLine::Stderr(bytes@),
        }
    }
}

impl ReportLine {
    /// Captured standard output goes to standard output; the counts, the
    /// rules and captured standard error go to standard error.
    pub open spec fn stream(self) -> Stream {
        match self {
            ReportLine::Stdout(_) => Stream::Stdout,
            _ => Stream::Stderr,
        }
    }
}

impl<'a> ReportItem<'a> {
    /// The stream on which this part is written.
    pub fn stream(&self) -> (stream: Stream)
        ensures
            stream == self@.stream(),
    {
        match self {
            ReportItem::Stdout(_) => Stream::Stdout,
            _ => Stream::Stderr,
        }
    }
}

/// The mathematical values of a list of parts, in the same order.
pub open spec fn lines(items: Seq<ReportItem>) -> Seq<ReportLine> {
    items.map_values(|item: ReportItem| item@)
}

/// The mathematical value of a finished run.
pub struct Outcome {
    pub runs: nat,
    pub failures: Seq<InvocationRecord>,
    pub show_errors_as_summary: bool,
}

impl Outcome {
    /// The outcomes that a run can end with.
    pub open spec fn wf(self) -> bool {
        &&& self.runs > 0
        &&& self.failures.len() <= self.runs
        &&& forall|i: int| 0 <= i < self.failures.len() ==> !(#[trigger] self.failures[i]).exit_succeeded
    }

    /// Whether the run was clean: no invocation failed.
    pub open spec fn succeeded(self) -> bool {
        self.failures.len() == 0
    }

    /// The first part of the summary: the share of failures, or the
    /// acknowledgement that there is none.
    pub open spec fn headline(self) -> ReportLine {
        if self.failures.len() == 0 {
            ReportLine::NothingFound
        } else {
            ReportLine::ErrorsFound(
                Percent { tenths: percent_tenths(self.failures.len(), self.runs) as u128 },
            )
        }
    }

    /// The summary: the headline, followed, where failures were held back
    /// during the run, by the output of each failure in order of arrival.
    pub open spec fn report(self) -> Seq<ReportLine> {
        if self.show_errors_as_summary {
            seq![self.headline()] + bodies(self.failures)
        } else {
            seq![self.headline()]
        }
    }
}

/// For each failure in turn: a rule, its standard output, its standard error.
pub open spec fn bodies(failures: Seq<InvocationRecord>) -> Seq<ReportLine>
    decreases failures.len(),
{
    if failures.len() == 0 {
        Seq::empty()
    } else {
        bodies(failures.drop_last()) + seq![
            ReportLine::Separator,
            ReportLine::Stdout(failures.last().stdout),
            ReportLine::Stderr(failures.last().stderr),
        ]
    }
}

/// The part that stands at `position` in the output of held-back failures:
/// three parts for each failure, in order of arrival, which are a rule, what
/// the invocation wrote to its standard output, and what it wrote to its
/// standard error.
pub open spec fn body_part(failures: Seq<InvocationRecord>, position: int) -> ReportLine {
    let failure = failures[position / 3];
    if position % 3 == 0 {
        ReportLine::Separator
    } else if position % 3 == 1 {
        ReportLine::Stdout(failure.stdout)
    } else {
        ReportLine::Stderr(failure.stderr)
    }
}

/// The output of held-back failures, position by position: it has three
/// parts for each failure and nothing else.
pub proof fn law_bodies_layout(failures: Seq<InvocationRecord>)
    ensures
        bodies(failures) == Seq::new(
            3 * failures.len(),
            |position: int| body_part(failures, position),
        ),
    decreases failures.len(),
{
    if failures.len() > 0 {
        law_bodies_layout(failures.drop_last());
    }
}

/// What a run found: the failures in order of arrival, out of how many runs.
#[derive(Debug)]
pub struct RunOutcome {
    runs: u64,
    failures: Vec<InvocationResult>,
    show_errors_as_summary: bool,
}

impl View for RunOutcome {
    type V = Outcome;

    closed spec fn view(&self) -> Outcome {
        Outcome {
            runs: self.runs as nat,
            failures: records(self.failures@),
            show_errors_as_summary: self.show_errors_as_summary,
        }
    }
}

impl RunOutcome {
    /// Binds the findings of a collection that has ended.
    pub(crate) fn assemble(
        runs: u64,
        failures: Vec<InvocationResult>,
        show_errors_as_summary: bool,
    ) -> (outcome: RunOutcome)
        ensures
            outcome@ == (Outcome {
                runs: runs as nat,
                failures: records(failures@),
                show_errors_as_summary,
            }),
    {
        RunOutcome { runs, failures, show_errors_as_summary }
    }

    /// Whether the run was clean: true where no invocation failed.
    pub fn succeeded(&self) -> (good: bool)
        ensures
            good == self@.succeeded(),
    {
        self.failures.len() == 0
    }

    /// The share of invocations that failed.
    pub fn percent_of_error_found(&self) -> (rate: Percent)
        requires
            self@.wf(),
        ensures
            rate.tenths == percent_tenths(self@.failures.len(), self@.runs),
    {
        percent_of_error_found(self.failures.len() as u64, self.runs)
    }

    /// Puts together the summary of the run, part by part, in the order in
    /// which the parts are written.
    pub fn show_errors(&self) -> (report: Vec<ReportItem<'_>>)
        requires
            self@.wf(),
        ensures
            lines(report@) == self@.report(),
    {
        let mut report: Vec<ReportItem<'_>> = Vec::new();
        if self.failures.len() == 0 {
            report.push(ReportItem::NothingFound);
        } else {
            report.push(ReportItem::ErrorsFound(self.percent_of_error_found()));
        }
        if self.show_errors_as_summary {
            let count = self.failures.len();
            let mut done: usize = 0;
            while done < count
                invariant
                    count == self.failures.len(),
                    done <= count,
                    lines(report@) == seq![self@.headline()] + bodies(
                        records(self.failures@).take(done as int),
                    ),
                decreases count - done,
            {
                let failure = &self.failures[done];
                let ghost before = report@;
                let ghost all = records(self.failures@);
                report.push(ReportItem::Separator);
                report.push(ReportItem::Stdout(failure.stdout.as_slice()));
                report.push(ReportItem::Stderr(failure.stderr.as_slice()));
                proof {
                    assert(all.take(done + 1).drop_last() =~= all.take(done as int));
                    assert(lines(report@) =~= lines(before) + seq![
                        ReportLine::Separator,
                        ReportLine::Stdout(failure@.stdout),
                        ReportLine::Stderr(failure@.stderr),
                    ]);
                }
                done = done + 1;
            }
            assert(records(self.failures@).take(count as int) =~= records(self.failures@));
        }
        report
    }

    /// The number of runs that were asked for.
    pub fn runs(&self) -> (runs: u64)
        ensures
            runs == self@.runs,
    {
        self.runs
    }

    /// The failures, in order of arrival.
    pub fn failures(&self) -> (failures: &Vec<InvocationResult>)
        ensures
            records(failures@) == self@.failures,
    {
        &self.failures
    }
}

} // verus!

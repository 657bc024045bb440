//! What a batch did, in numbers.

use vstd::prelude::*;
use vstd::string::StringExecFns;

verus! {

/// What a batch did: how many documents it found, how many of them it converted, skipped and
/// failed on, and a message for each failure, in the order of the failures.
#[derive(Clone, Debug, PartialEq, Eq)]
pub struct BatchReport {
    pub total: usize,
    pub converted: usize,
    pub skipped: usize,
    pub failed: usize,
    pub failures: Vec<String>,
}

/// What a [`BatchReport`] holds.
pub struct BatchReportModel {
    pub total: nat,
    pub converted: nat,
    pub skipped: nat,
    pub failed: nat,
    pub failures: Seq<Seq<char>>,
}

/// How the work on one document of a batch ended.
pub enum JobOutcome {
    Converted,
    Skipped,
    /// Holds the message of the failure.
    Failed(Seq<char>),
}

impl View for BatchReport {
    type V = BatchReportModel;

    open spec fn view(&self) -> BatchReportModel {
        BatchReportModel {
            total: self.total as nat,
            converted: self.converted as nat,
            skipped: self.skipped as nat,
            failed: self.failed as nat,
            failures: self.failures@.map_values(|message: String| message@),
        }
    }
}

impl BatchReportModel {
    /// The report of a batch of `total` documents on which no work is done yet.
    pub open spec fn opening(total: nat) -> BatchReportModel {
        BatchReportModel { total, converted: 0, skipped: 0, failed: 0, failures: Seq::empty() }
    }

    /// How many documents the work is done on.
    pub open spec fn done(self) -> nat {
        self.converted + self.skipped + self.failed
    }

    /// No more documents are done than were found, and every failure has its message.
    pub open spec fn well_formed(self) -> bool {
        self.done() <= self.total && self.failures.len() == self.failed
    }

    /// This report with one more document done.
    pub open spec fn with(self, outcome: JobOutcome) -> BatchReportModel {
        match outcome {
            JobOutcome::Converted => BatchReportModel { converted: self.converted + 1, ..self },
            JobOutcome::Skipped => BatchReportModel { skipped: self.skipped + 1, ..self },
            JobOutcome::Failed(message) => BatchReportModel {
                failed: self.failed + 1,
                failures: self.failures.push(message),
                ..self
            },
        }
    }
}

/// The message of a failure: it names the file.
pub open spec fn failure_line(name: Seq<char>, message: Seq<char>) -> Seq<char> {
    "Failed to convert "@ + name + ": "@ + message
}

/// The message of a failure on the file `name`.
pub fn failure_message(name: &str, message: &str) -> (line: String)
    ensures
        line@ == failure_line(name@, message@),
{
    let mut line = String::from_str("Failed to convert ");
    line.append(name);
    line.append(": ");
    line.append(message);
    line
}

impl BatchReport {
    /// The report of a batch of `total` documents on which no work is done yet.
    pub fn new(total: usize) -> (report: BatchReport)
        ensures
            report@ == BatchReportModel::opening(total as nat),
            report@.well_formed(),
    {
        let report = BatchReport {
            total,
            converted: 0,
            skipped: 0,
            failed: 0,
            failures: Vec::new(),
        };
        assert(report@.failures =~= Seq::empty());
        report
    }

    /// Counts one more document as converted.
    pub fn record_converted(&mut self)
        requires
            old(self)@.well_formed(),
            old(self)@.done() < old(self)@.total,
        ensures
            final(self)@ == old(self)@.with(JobOutcome::Converted),
            final(self)@.well_formed(),
    {
        self.converted = self.converted + 1;
    }

    /// Counts one more document as skipped.
    pub fn record_skipped(&mut self)
        requires
            old(self)@.well_formed(),
            old(self)@.done() < old(self)@.total,
        ensures
            final(self)@ == old(self)@.with(JobOutcome::Skipped),
            final(self)@.well_formed(),
    {
        self.skipped = self.skipped + 1;
    }

    /// Counts one more document as failed, with the message of the failure.
    pub fn record_failed(&mut self, message: String)
        requires
            old(self)@.well_formed(),
            old(self)@.done() < old(self)@.total,
        ensures
            final(self)@ == old(self)@.with(JobOutcome::Failed(message@)),
            final(self)@.well_formed(),
    {
        self.failed = self.failed + 1;
        self.failures.push(message);
        assert(self@.failures =~= old(self)@.failures.push(message@));
    }
}

} // verus!

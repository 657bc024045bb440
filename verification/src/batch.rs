//! Converting every document under a directory, step by step.
//!
//! The caller looks at the file system, walks the directory, converts each document and
//! shows the progress. Between those steps [`convert_directory`] decides: it takes the state
//! the batch is in and what the last step brought, and gives the next state and the step to
//! take.

use vstd::prelude::*;
use vstd::string::StringExecFns;
use crate::cli::{DirArgs, DirArgsModel};
use crate::error::{AppError, AppErrorModel, message_of};
use crate::job::{ConversionJob, ConversionJobModel, ConversionResult, ConversionResultModel,
    batch_job_of, job_models};
use crate::path::{FilePath, FilePathModel, is_markdown, is_markdown_name};
use crate::report::{BatchReport, BatchReportModel, JobOutcome, failure_line, failure_message};

verus! {

/// How a batch ended.
#[derive(Debug, PartialEq, Eq)]
pub enum BatchOutcome {
    /// No document was found; nothing was converted.
    NoDocuments,
    /// The work is done on every document that was found.
    Completed,
    /// The batch was given up before the work on any document began.
    Aborted(AppError),
}

/// What a [`BatchOutcome`] holds.
pub enum BatchOutcomeModel {
    NoDocuments,
    Completed,
    Aborted(AppErrorModel),
}

impl View for BatchOutcome {
    type V = BatchOutcomeModel;

    open spec fn view(&self) -> BatchOutcomeModel {
        match *self {
            BatchOutcome::NoDocuments => BatchOutcomeModel::NoDocuments,
            BatchOutcome::Completed => BatchOutcomeModel::Completed,
            BatchOutcome::Aborted(error) => BatchOutcomeModel::Aborted(error@),
        }
    }
}

/// What is shown while a document is worked on.
pub open spec fn progress_line(name: Seq<char>) -> Seq<char> {
    "Converting "@ + name
}

/// What is said at the end of a batch.
pub open spec fn summary_of(outcome: BatchOutcomeModel) -> Seq<char> {
    match outcome {
        BatchOutcomeModel::NoDocuments => "No Markdown files found in the specified directory."@,
        BatchOutcomeModel::Completed => "All files processed!"@,
        BatchOutcomeModel::Aborted(error) => message_of(error),
    }
}

/// What is shown while the document `name` is worked on.
pub fn progress_message(name: &str) -> (line: String)
    ensures
        line@ == progress_line(name@),
{
    String::from_str("Converting ").concat(name)
}

impl BatchOutcome {
    /// What is said at the end of a batch that ended so.
    pub fn summary(&self) -> (text: String)
        ensures
            text@ == summary_of(self@),
    {
        match self {
            BatchOutcome::NoDocuments => String::from_str(
                "No Markdown files found in the specified directory.",
            ),
            BatchOutcome::Completed => String::from_str("All files processed!"),
            BatchOutcome::Aborted(error) => error.message(),
        }
    }
}

/// What is said at the end of a batch is never what is shown for a document: whatever the
/// name of the document, and however the batch ended, of the ways a batch can end.
pub proof fn summary_is_no_progress_line(outcome: BatchOutcomeModel, name: Seq<char>)
    requires
        outcome matches BatchOutcomeModel::Aborted(error) ==> error is InvalidInputPath || error
            is Walkdir,
    ensures
        summary_of(outcome) != progress_line(name),
{
    reveal_strlit("Converting ");
    reveal_strlit("No Markdown files found in the specified directory.");
    reveal_strlit("All files processed!");
    reveal_strlit("Invalid input path: ");
    reveal_strlit("Failed to walk directory: ");
    assert(progress_line(name)[0] == 'C');
    match outcome {
        BatchOutcomeModel::NoDocuments => {
            assert(summary_of(outcome)[0] == 'N');
        },
        BatchOutcomeModel::Completed => {
            assert(summary_of(outcome)[0] == 'A');
        },
        BatchOutcomeModel::Aborted(error) => {
            match error {
                AppErrorModel::InvalidInputPath { path } => {
                    assert(summary_of(outcome)[0] == 'I');
                },
                AppErrorModel::Walkdir(cause) => {
                    assert(summary_of(outcome)[0] == 'F');
                },
                _ => {},
            }
        },
    }
}

/// What a batch is busy with.
#[derive(Debug, PartialEq, Eq)]
pub enum BatchPhase {
    /// Nothing has been asked for yet.
    Start,
    /// The caller looks whether the root is a directory.
    CheckRoot,
    /// The caller walks the tree under the root.
    Walk,
    /// The caller makes sure the directory for the current document's PDF is there.
    EnsureDirectory,
    /// The caller looks whether the current document's PDF is there already.
    Probe,
    /// The caller converts the current document.
    Convert,
    /// The caller moves the progress on by one.
    Advance,
    /// The batch is over.
    Finished(BatchOutcome),
}

/// What a [`BatchPhase`] holds.
pub enum BatchPhaseModel {
    Start,
    CheckRoot,
    Walk,
    EnsureDirectory,
    Probe,
    Convert,
    Advance,
    Finished(BatchOutcomeModel),
}

impl View for BatchPhase {
    type V = BatchPhaseModel;

    open spec fn view(&self) -> BatchPhaseModel {
        match *self {
            BatchPhase::Start => BatchPhaseModel::Start,
            BatchPhase::CheckRoot => BatchPhaseModel::CheckRoot,
            BatchPhase::Walk => BatchPhaseModel::Walk,
            BatchPhase::EnsureDirectory => BatchPhaseModel::EnsureDirectory,
            BatchPhase::Probe => BatchPhaseModel::Probe,
            BatchPhase::Convert => BatchPhaseModel::Convert,
            BatchPhase::Advance => BatchPhaseModel::Advance,
            BatchPhase::Finished(outcome) => BatchPhaseModel::Finished(outcome@),
        }
    }
}

/// Where a batch stands: what it is busy with, the jobs it found, how many of them are
/// behind it, and the report so far.
#[derive(Debug)]
pub struct BatchState {
    phase: BatchPhase,
    jobs: Vec<ConversionJob>,
    current: usize,
    report: BatchReport,
}

/// What a [`BatchState`] holds.
pub struct BatchStateModel {
    pub phase: BatchPhaseModel,
    pub jobs: Seq<ConversionJobModel>,
    pub current: nat,
    pub report: BatchReportModel,
}

impl View for BatchState {
    type V = BatchStateModel;

    closed spec fn view(&self) -> BatchStateModel {
        BatchStateModel {
            phase: self.phase@,
            jobs: job_models(self.jobs@),
            current: self.current as nat,
            report: self.report@,
        }
    }
}

/// What the caller's last step brought.
#[derive(Debug, PartialEq, Eq)]
pub enum BatchEvent {
    /// The batch is asked for.
    Begin,
    /// Holds whether the root is a directory.
    RootChecked(bool),
    /// The walk is over; holds every entry it found, in the order it found them.
    Walked(Vec<FilePath>),
    /// The walk failed; holds the cause.
    WalkFailed(String),
    /// The directory for the PDF is there.
    DirectoryReady,
    /// The directory for the PDF could not be made; holds the cause.
    DirectoryFailed(String),
    /// Holds whether the PDF is there already.
    OutputProbed(bool),
    /// The conversion of the document is over; holds how it ended.
    Converted(ConversionResult),
    /// The progress has moved on.
    Advanced,
}

/// What a [`BatchEvent`] holds.
pub enum BatchEventModel {
    Begin,
    RootChecked(bool),
    Walked(Seq<FilePathModel>),
    WalkFailed(Seq<char>),
    DirectoryReady,
    DirectoryFailed(Seq<char>),
    OutputProbed(bool),
    Converted(ConversionResultModel),
    Advanced,
}

/// The models of a sequence of paths, in the same order.
pub open spec fn path_models(paths: Seq<FilePath>) -> Seq<FilePathModel> {
    paths.map_values(|path: FilePath| path@)
}

impl View for BatchEvent {
    type V = BatchEventModel;

    open spec fn view(&self) -> BatchEventModel {
        match *self {
            BatchEvent::Begin => BatchEventModel::Begin,
            BatchEvent::RootChecked(is_dir) => BatchEventModel::RootChecked(is_dir),
            BatchEvent::Walked(entries) => BatchEventModel::Walked(path_models(entries@)),
            BatchEvent::WalkFailed(cause) => BatchEventModel::WalkFailed(cause@),
            BatchEvent::DirectoryReady => BatchEventModel::DirectoryReady,
            BatchEvent::DirectoryFailed(cause) => BatchEventModel::DirectoryFailed(cause@),
            BatchEvent::OutputProbed(exists) => BatchEventModel::OutputProbed(exists),
            BatchEvent::Converted(result) => BatchEventModel::Converted(result@),
            BatchEvent::Advanced => BatchEventModel::Advanced,
        }
    }
}

/// The step that the caller takes next.
#[derive(Debug, PartialEq, Eq)]
pub enum BatchAction {
    /// Look whether this path is a directory.
    CheckRoot(String),
    /// Walk the tree under this directory.
    Walk(String),
    /// Make sure this directory is there, with every directory above it.
    EnsureDirectory(String),
    /// Look whether this file is there.
    ProbeOutput(FilePath),
    /// Convert the document of this job.
    Convert(ConversionJob),
    /// Move the progress on by one; holds the name of the file that the work is done on.
    Advance(String),
    /// Say how the batch ended; it is over.
    Finish,
    /// The event was not waited for; nothing changes.
    Wait,
}

/// What a [`BatchAction`] holds.
pub enum BatchActionModel {
    CheckRoot(Seq<char>),
    Walk(Seq<char>),
    EnsureDirectory(Seq<char>),
    ProbeOutput(FilePathModel),
    Convert(ConversionJobModel),
    Advance(Seq<char>),
    Finish,
    Wait,
}

impl View for BatchAction {
    type V = BatchActionModel;

    open spec fn view(&self) -> BatchActionModel {
        match *self {
            BatchAction::CheckRoot(root) => BatchActionModel::CheckRoot(root@),
            BatchAction::Walk(root) => BatchActionModel::Walk(root@),
            BatchAction::EnsureDirectory(dir) => BatchActionModel::EnsureDirectory(dir@),
            BatchAction::ProbeOutput(path) => BatchActionModel::ProbeOutput(path@),
            BatchAction::Convert(job) => BatchActionModel::Convert(job@),
            BatchAction::Advance(name) => BatchActionModel::Advance(name@),
            BatchAction::Finish => BatchActionModel::Finish,
            BatchAction::Wait => BatchActionModel::Wait,
        }
    }
}

/// The jobs of a batch: one for each entry whose name is that of a Markdown document, in the
/// order of the entries.
pub open spec fn jobs_for(entries: Seq<FilePathModel>, args: DirArgsModel) -> Seq<
    ConversionJobModel,
>
    decreases entries.len(),
{
    if entries.len() == 0 {
        Seq::empty()
    } else if is_markdown_name(entries.last().name) {
        jobs_for(entries.drop_last(), args).push(
            batch_job_of(entries.last(), args.output_dir, args.overwrite),
        )
    } else {
        jobs_for(entries.drop_last(), args)
    }
}

impl BatchStateModel {
    /// The state of a batch that nothing has been asked of yet.
    pub open spec fn opening() -> BatchStateModel {
        BatchStateModel {
            phase: BatchPhaseModel::Start,
            jobs: Seq::empty(),
            current: 0,
            report: BatchReportModel::opening(0),
        }
    }

    /// Whether the batch is at work on a document.
    pub open spec fn at_work(self) -> bool {
        self.phase is EnsureDirectory || self.phase is Probe || self.phase is Convert
            || self.phase is Advance
    }

    /// What always holds of a state: the report counts the jobs that were found; while the
    /// batch is at work on a document, that document is one of the jobs, and the report counts
    /// as done the documents before it, and the document itself once the progress is to move
    /// on; before the walk there are no jobs; at the end all of them are done.
    pub open spec fn well_formed(self) -> bool {
        &&& self.report.well_formed()
        &&& self.report.total == self.jobs.len()
        &&& match self.phase {
            BatchPhaseModel::Start | BatchPhaseModel::CheckRoot | BatchPhaseModel::Walk => {
                self.jobs.len() == 0 && self.current == 0 && self.report.done() == 0
            },
            BatchPhaseModel::EnsureDirectory | BatchPhaseModel::Probe | BatchPhaseModel::Convert => {
                self.current < self.jobs.len() && self.report.done() == self.current
            },
            BatchPhaseModel::Advance => {
                self.current < self.jobs.len() && self.report.done() == self.current + 1
            },
            BatchPhaseModel::Finished(BatchOutcomeModel::Completed) => {
                self.jobs.len() > 0 && self.current == self.jobs.len() && self.report.done()
                    == self.jobs.len()
            },
            BatchPhaseModel::Finished(_) => {
                self.jobs.len() == 0 && self.current == 0 && self.report.done() == 0
            },
        }
    }

    /// The job that the batch is at work on.
    pub open spec fn job(self) -> ConversionJobModel {
        self.jobs[self.current as int]
    }

    /// This state with the work on the current document ended as `outcome`, and the progress
    /// to move on.
    pub open spec fn ended(self, outcome: JobOutcome) -> BatchStateModel {
        BatchStateModel {
            phase: BatchPhaseModel::Advance,
            report: self.report.with(outcome),
            ..self
        }
    }

    /// This state in another phase.
    pub open spec fn in_phase(self, phase: BatchPhaseModel) -> BatchStateModel {
        BatchStateModel { phase, ..self }
    }
}

/// The state that follows `state` on `event`, and the step to take.
pub open spec fn batch_step(args: DirArgsModel, state: BatchStateModel, event: BatchEventModel) -> (
    BatchStateModel,
    BatchActionModel,
) {
    match (state.phase, event) {
        (BatchPhaseModel::Start, BatchEventModel::Begin) => (
            state.in_phase(BatchPhaseModel::CheckRoot),
            BatchActionModel::CheckRoot(args.input_dir),
        ),
        (BatchPhaseModel::CheckRoot, BatchEventModel::RootChecked(is_dir)) => if is_dir {
            (state.in_phase(BatchPhaseModel::Walk), BatchActionModel::Walk(args.input_dir))
        } else {
            (
                state.in_phase(
                    BatchPhaseModel::Finished(
                        BatchOutcomeModel::Aborted(
                            AppErrorModel::InvalidInputPath { path: args.input_dir },
                        ),
                    ),
                ),
                BatchActionModel::Finish,
            )
        },
        (BatchPhaseModel::Walk, BatchEventModel::WalkFailed(cause)) => (
            state.in_phase(
                BatchPhaseModel::Finished(BatchOutcomeModel::Aborted(AppErrorModel::Walkdir(cause))),
            ),
            BatchActionModel::Finish,
        ),
        (BatchPhaseModel::Walk, BatchEventModel::Walked(entries)) => {
            let jobs = jobs_for(entries, args);
            if jobs.len() == 0 {
                (
                    state.in_phase(BatchPhaseModel::Finished(BatchOutcomeModel::NoDocuments)),
                    BatchActionModel::Finish,
                )
            } else {
                (
                    BatchStateModel {
                        phase: BatchPhaseModel::EnsureDirectory,
                        jobs,
                        current: 0,
                        report: BatchReportModel::opening(jobs.len()),
                    },
                    BatchActionModel::EnsureDirectory(jobs[0].output.dir),
                )
            }
        },
        (BatchPhaseModel::EnsureDirectory, BatchEventModel::DirectoryReady) => if state.job().overwrite {
            (state.in_phase(BatchPhaseModel::Convert), BatchActionModel::Convert(state.job()))
        } else {
            (
                state.in_phase(BatchPhaseModel::Probe),
                BatchActionModel::ProbeOutput(state.job().output),
            )
        },
        (BatchPhaseModel::EnsureDirectory, BatchEventModel::DirectoryFailed(cause)) => (
            state.ended(
                JobOutcome::Failed(
                    failure_line(state.job().input.name, message_of(AppErrorModel::Io(cause))),
                ),
            ),
            BatchActionModel::Advance(state.job().input.name),
        ),
        (BatchPhaseModel::Probe, BatchEventModel::OutputProbed(exists)) => if exists {
            (state.ended(JobOutcome::Skipped), BatchActionModel::Advance(state.job().input.name))
        } else {
            (state.in_phase(BatchPhaseModel::Convert), BatchActionModel::Convert(state.job()))
        },
        (BatchPhaseModel::Convert, BatchEventModel::Converted(result)) => (
            state.ended(
                match result {
                    ConversionResultModel::Success => JobOutcome::Converted,
                    ConversionResultModel::Failure(message) => JobOutcome::Failed(
                        failure_line(state.job().input.name, message),
                    ),
                },
            ),
            BatchActionModel::Advance(state.job().input.name),
        ),
        (BatchPhaseModel::Advance, BatchEventModel::Advanced) => if state.current + 1
            < state.jobs.len() {
            (
                BatchStateModel {
                    phase: BatchPhaseModel::EnsureDirectory,
                    current: state.current + 1,
                    ..state
                },
                BatchActionModel::EnsureDirectory(state.jobs[(state.current + 1) as int].output.dir),
            )
        } else {
            (
                BatchStateModel {
                    phase: BatchPhaseModel::Finished(BatchOutcomeModel::Completed),
                    current: state.current + 1,
                    ..state
                },
                BatchActionModel::Finish,
            )
        },
        (BatchPhaseModel::Finished(_), _) => (state, BatchActionModel::Finish),
        _ => (state, BatchActionModel::Wait),
    }
}

/// A step keeps a state well formed.
pub proof fn step_keeps_well_formed(
    args: DirArgsModel,
    state: BatchStateModel,
    event: BatchEventModel,
)
    requires
        state.well_formed(),
    ensures
        batch_step(args, state, event).0.well_formed(),
{
}

/// The progress moves on exactly once for each document, however the work on it ended: a
/// step asks for it if and only if it counts one more document as done, and then with the file
/// name of that document. No other step changes how many are done.
pub proof fn progress_moves_once_per_job(
    args: DirArgsModel,
    state: BatchStateModel,
    event: BatchEventModel,
)
    requires
        state.well_formed(),
    ensures
        ({
            let (next, action) = batch_step(args, state, event);
            &&& action is Advance <==> next.report.done() == state.report.done() + 1
            &&& !(action is Advance) ==> next.report.done() == state.report.done()
            &&& action is Advance ==> action == BatchActionModel::Advance(state.job().input.name)
                && next.phase is Advance && next.current == state.current
            &&& next.phase is Advance && !(state.phase is Advance) ==> action is Advance
        }),
{
}

/// The failure of one document never ends the batch: the failure is counted with its message,
/// which names the file, and the batch goes on to move the progress. Only a root that is no
/// directory and a walk that fails end a batch early, and they do so before the work on any
/// document has begun.
pub proof fn failures_stay_with_their_job(
    args: DirArgsModel,
    state: BatchStateModel,
    event: BatchEventModel,
)
    requires
        state.well_formed(),
    ensures
        ({
            let (next, action) = batch_step(args, state, event);
            &&& next.report.failed == state.report.failed + 1 ==> {
                &&& next.phase is Advance
                &&& next.report.failures.len() == state.report.failures.len() + 1
                &&& exists|message: Seq<char>|
                    next.report.failures.last() == #[trigger] failure_line(
                        state.job().input.name,
                        message,
                    )
                &&& next.report.converted == state.report.converted
                &&& next.report.skipped == state.report.skipped
            }
            &&& (next.phase matches BatchPhaseModel::Finished(outcome) && outcome is Aborted
                && !(state.phase is Finished)) ==> {
                &&& state.phase is CheckRoot || state.phase is Walk
                &&& next.report.total == 0 && next.report.done() == 0
                &&& next.jobs.len() == 0
            }
            &&& action is Convert ==> !(next.phase is Finished) && state.at_work()
        }),
{
    let (next, action) = batch_step(args, state, event);
    if next.report.failed == state.report.failed + 1 {
        match (state.phase, event) {
            (BatchPhaseModel::EnsureDirectory, BatchEventModel::DirectoryFailed(cause)) => {
                assert(next.report.failures.last() == failure_line(
                    state.job().input.name,
                    message_of(AppErrorModel::Io(cause)),
                ));
            },
            (
                BatchPhaseModel::Convert,
                BatchEventModel::Converted(ConversionResultModel::Failure(message)),
            ) => {
                assert(next.report.failures.last() == failure_line(
                    state.job().input.name,
                    message,
                ));
            },
            _ => {},
        }
    }
}

/// A document whose PDF is there already is not converted again unless that is asked for: the
/// step that learns of the PDF counts the document as skipped and asks for no conversion.
pub proof fn existing_output_is_skipped(args: DirArgsModel, state: BatchStateModel)
    requires
        state.well_formed(),
        state.phase is Probe,
    ensures
        ({
            let (next, action) = batch_step(args, state, BatchEventModel::OutputProbed(true));
            &&& next.report == state.report.with(JobOutcome::Skipped)
            &&& !(action is Convert)
            &&& next.phase is Advance
        }),
{
}

impl BatchState {
    #[verifier::type_invariant]
    spec fn holds(self) -> bool {
        self@.well_formed()
    }

    /// The state of a batch that nothing has been asked of yet.
    pub fn new() -> (state: BatchState)
        ensures
            state@ == BatchStateModel::opening(),
    {
        let jobs: Vec<ConversionJob> = Vec::new();
        assert(job_models(jobs@) =~= Seq::empty());
        BatchState { phase: BatchPhase::Start, jobs, current: 0, report: BatchReport::new(0) }
    }

    /// The report so far. Every state is well formed, and so is its report.
    pub fn report(&self) -> (report: &BatchReport)
        ensures
            report@ == self@.report,
            self@.well_formed(),
    {
        proof {
            use_type_invariant(self);
        }
        &self.report
    }

    /// The job that the batch is at work on: `None` where it is at work on none.
    pub fn current_job(&self) -> (job: Option<&ConversionJob>)
        ensures
            match job {
                Some(current) => self@.at_work() && current@ == self@.job(),
                None => !self@.at_work(),
            },
    {
        proof {
            use_type_invariant(self);
        }
        match self.phase {
            BatchPhase::EnsureDirectory | BatchPhase::Probe | BatchPhase::Convert
            | BatchPhase::Advance => Some(&self.jobs[self.current]),
            _ => None,
        }
    }

    /// What the batch is busy with.
    pub fn phase(&self) -> (phase: &BatchPhase)
        ensures
            phase@ == self@.phase,
    {
        &self.phase
    }

    /// How the batch ended: `None` as long as it is not over.
    pub fn outcome(&self) -> (outcome: Option<&BatchOutcome>)
        ensures
            match outcome {
                Some(ended) => self@.phase == BatchPhaseModel::Finished(ended@),
                None => !(self@.phase is Finished),
            },
    {
        match &self.phase {
            BatchPhase::Finished(outcome) => Some(outcome),
            _ => None,
        }
    }
}

/// The jobs of a batch: one for each entry whose name is that of a Markdown document, in the
/// order of the entries.
pub fn collect_jobs(entries: &Vec<FilePath>, args: &DirArgs) -> (jobs: Vec<ConversionJob>)
    ensures
        job_models(jobs@) == jobs_for(path_models(entries@), args@),
{
    let mut jobs: Vec<ConversionJob> = Vec::new();
    let mut i: usize = 0;
    assert(job_models(jobs@) =~= Seq::empty());
    while i < entries.len()
        invariant
            i <= entries.len(),
            job_models(jobs@) == jobs_for(path_models(entries@).take(i as int), args@),
        decreases entries.len() - i,
    {
        let ghost before = job_models(jobs@);
        assert(path_models(entries@).take(i + 1).drop_last() =~= path_models(entries@).take(
            i as int,
        ));
        if is_markdown(entries[i].name.as_str()) {
            let job = ConversionJob::for_batch(
                entries[i].duplicate(),
                &args.output_dir,
                args.overwrite,
            );
            jobs.push(job);
            assert(job_models(jobs@) =~= before.push(job@));
        }
        i += 1;
    }
    assert(path_models(entries@).take(i as int) =~= path_models(entries@));
    jobs
}

/// One step of a batch: the state that follows `state` on `event`, and the step for the
/// caller to take.
pub fn convert_directory(args: &DirArgs, state: BatchState, event: BatchEvent) -> (next: (
    BatchState,
    BatchAction,
))
    ensures
        next.0@ == batch_step(args@, state@, event@).0,
        next.1@ == batch_step(args@, state@, event@).1,
        next.0@.well_formed(),
{
    proof {
        use_type_invariant(&state);
    }
    let BatchState { phase, jobs, current, mut report } = state;
    match phase {
        BatchPhase::Start => match event {
            BatchEvent::Begin => (
                BatchState { phase: BatchPhase::CheckRoot, jobs, current, report },
                BatchAction::CheckRoot(args.input_dir.clone()),
            ),
            _ => (BatchState { phase: BatchPhase::Start, jobs, current, report }, BatchAction::Wait),
        },
        BatchPhase::CheckRoot => match event {
            BatchEvent::RootChecked(is_dir) => if is_dir {
                (
                    BatchState { phase: BatchPhase::Walk, jobs, current, report },
                    BatchAction::Walk(args.input_dir.clone()),
                )
            } else {
                let error = AppError::InvalidInputPath { path: args.input_dir.clone() };
                (
                    BatchState {
                        phase: BatchPhase::Finished(BatchOutcome::Aborted(error)),
                        jobs,
                        current,
                        report,
                    },
                    BatchAction::Finish,
                )
            },
            _ => (
                BatchState { phase: BatchPhase::CheckRoot, jobs, current, report },
                BatchAction::Wait,
            ),
        },
        BatchPhase::Walk => match event {
            BatchEvent::WalkFailed(cause) => (
                BatchState {
                    phase: BatchPhase::Finished(BatchOutcome::Aborted(AppError::Walkdir(cause))),
                    jobs,
                    current,
                    report,
                },
                BatchAction::Finish,
            ),
            BatchEvent::Walked(entries) => {
                let found = collect_jobs(&entries, args);
                if found.len() == 0 {
                    (
                        BatchState {
                            phase: BatchPhase::Finished(BatchOutcome::NoDocuments),
                            jobs,
                            current,
                            report,
                        },
                        BatchAction::Finish,
                    )
                } else {
                    let dir = found[0].output().dir.clone();
                    let opening = BatchReport::new(found.len());
                    (
                        BatchState {
                            phase: BatchPhase::EnsureDirectory,
                            jobs: found,
                            current: 0,
                            report: opening,
                        },
                        BatchAction::EnsureDirectory(dir),
                    )
                }
            },
            _ => (BatchState { phase: BatchPhase::Walk, jobs, current, report }, BatchAction::Wait),
        },
        BatchPhase::EnsureDirectory => match event {
            BatchEvent::DirectoryReady => if jobs[current].overwrite() {
                let job = jobs[current].duplicate();
                (
                    BatchState { phase: BatchPhase::Convert, jobs, current, report },
                    BatchAction::Convert(job),
                )
            } else {
                let output = jobs[current].output().duplicate();
                (
                    BatchState { phase: BatchPhase::Probe, jobs, current, report },
                    BatchAction::ProbeOutput(output),
                )
            },
            BatchEvent::DirectoryFailed(cause) => {
                let name = jobs[current].input().name.clone();
                let message = AppError::Io(cause).message();
                report.record_failed(failure_message(name.as_str(), message.as_str()));
                (
                    BatchState { phase: BatchPhase::Advance, jobs, current, report },
                    BatchAction::Advance(name),
                )
            },
            _ => (
                BatchState { phase: BatchPhase::EnsureDirectory, jobs, current, report },
                BatchAction::Wait,
            ),
        },
        BatchPhase::Probe => match event {
            BatchEvent::OutputProbed(exists) => if exists {
                let name = jobs[current].input().name.clone();
                report.record_skipped();
                (
                    BatchState { phase: BatchPhase::Advance, jobs, current, report },
                    BatchAction::Advance(name),
                )
            } else {
                let job = jobs[current].duplicate();
                (
                    BatchState { phase: BatchPhase::Convert, jobs, current, report },
                    BatchAction::Convert(job),
                )
            },
            _ => (BatchState { phase: BatchPhase::Probe, jobs, current, report }, BatchAction::Wait),
        },
        BatchPhase::Convert => match event {
            BatchEvent::Converted(result) => {
                let name = jobs[current].input().name.clone();
                match result {
                    ConversionResult::Success => report.record_converted(),
                    ConversionResult::Failure(message) => report.record_failed(
                        failure_message(name.as_str(), message.as_str()),
                    ),
                }
                (
                    BatchState { phase: BatchPhase::Advance, jobs, current, report },
                    BatchAction::Advance(name),
                )
            },
            _ => (
                BatchState { phase: BatchPhase::Convert, jobs, current, report },
                BatchAction::Wait,
            ),
        },
        BatchPhase::Advance => match event {
            BatchEvent::Advanced => if current + 1 < jobs.len() {
                let dir = jobs[current + 1].output().dir.clone();
                (
                    BatchState {
                        phase: BatchPhase::EnsureDirectory,
                        jobs,
                        current: current + 1,
                        report,
                    },
                    BatchAction::EnsureDirectory(dir),
                )
            } else {
                (
                    BatchState {
                        phase: BatchPhase::Finished(BatchOutcome::Completed),
                        jobs,
                        current: current + 1,
                        report,
                    },
                    BatchAction::Finish,
                )
            },
            _ => (
                BatchState { phase: BatchPhase::Advance, jobs, current, report },
                BatchAction::Wait,
            ),
        },
        BatchPhase::Finished(outcome) => (
            BatchState { phase: BatchPhase::Finished(outcome), jobs, current, report },
            BatchAction::Finish,
        ),
    }
}

} // verus!

//! What a whole batch comes to, and what running it again does.
//!
//! A batch only decides; what it decides on is brought by its caller. Here the caller is
//! modelled: a [`World`] says what the caller would find and how each conversion would end, and
//! [`run`] lets the batch take its steps against it.

use vstd::prelude::*;
use crate::batch::{BatchEventModel, BatchOutcomeModel, BatchPhaseModel, BatchStateModel, batch_step,
    jobs_for};
use crate::cli::DirArgsModel;
use crate::error::{AppErrorModel, message_of};
use crate::job::{ConversionJobModel, ConversionResultModel};
use crate::path::FilePathModel;
use crate::report::{BatchReportModel, JobOutcome, failure_line};

verus! {

/// What the caller of a batch finds and does.
pub struct World {
    /// Whether the root is a directory.
    pub root_is_dir: bool,
    /// What the walk brings: the entries, or the cause of its failure.
    pub walk: Result<Seq<FilePathModel>, Seq<char>>,
    /// Why a directory cannot be made; `None` where it can.
    pub directory_failure: spec_fn(Seq<char>) -> Option<Seq<char>>,
    /// How the conversion of a job ends.
    pub conversion: spec_fn(ConversionJobModel) -> ConversionResultModel,
    /// The PDFs that are there, each with the job that wrote it.
    pub files: Map<FilePathModel, ConversionJobModel>,
}

impl World {
    /// This world with other PDFs.
    pub open spec fn with_files(self, files: Map<FilePathModel, ConversionJobModel>) -> World {
        World { files, ..self }
    }
}

/// What the caller brings when it has taken the step that `state` waits for, and the world
/// after that step. A conversion that succeeds leaves its PDF; nothing else changes the world.
pub open spec fn respond(world: World, state: BatchStateModel) -> (BatchEventModel, World) {
    match state.phase {
        BatchPhaseModel::CheckRoot => (BatchEventModel::RootChecked(world.root_is_dir), world),
        BatchPhaseModel::Walk => (
            match world.walk {
                Ok(entries) => BatchEventModel::Walked(entries),
                Err(cause) => BatchEventModel::WalkFailed(cause),
            },
            world,
        ),
        BatchPhaseModel::EnsureDirectory => (
            match (world.directory_failure)(state.job().output.dir) {
                Some(cause) => BatchEventModel::DirectoryFailed(cause),
                None => BatchEventModel::DirectoryReady,
            },
            world,
        ),
        BatchPhaseModel::Probe => (
            BatchEventModel::OutputProbed(world.files.dom().contains(state.job().output)),
            world,
        ),
        BatchPhaseModel::Convert => {
            let result = (world.conversion)(state.job());
            (
                BatchEventModel::Converted(result),
                if result is Success {
                    world.with_files(world.files.insert(state.job().output, state.job()))
                } else {
                    world
                },
            )
        },
        BatchPhaseModel::Advance => (BatchEventModel::Advanced, world),
        _ => (BatchEventModel::Begin, world),
    }
}

/// The state and the world after at most `steps` steps of the batch against the world; the
/// batch stops where it is over.
pub open spec fn run(args: DirArgsModel, state: BatchStateModel, world: World, steps: nat) -> (
    BatchStateModel,
    World,
)
    decreases steps,
{
    if steps == 0 || state.phase is Finished {
        (state, world)
    } else {
        let (event, after) = respond(world, state);
        run(args, batch_step(args, state, event).0, after, (steps - 1) as nat)
    }
}

/// As many steps as a batch takes at most in a world.
pub open spec fn enough_steps(args: DirArgsModel, world: World) -> nat {
    match world.walk {
        Ok(entries) => 3 + 4 * jobs_for(entries, args).len(),
        Err(_) => 3,
    }
}

/// The state and the world after a whole batch.
pub open spec fn whole_run(args: DirArgsModel, world: World) -> (BatchStateModel, World) {
    run(args, BatchStateModel::opening(), world, enough_steps(args, world))
}

/// How the work on a job ends in a world: it fails where the directory for the PDF cannot be
/// made; else it is skipped where the PDF is there and is not to be written over; else it ends
/// as the conversion does.
pub open spec fn job_outcome(job: ConversionJobModel, world: World) -> JobOutcome {
    match (world.directory_failure)(job.output.dir) {
        Some(cause) => JobOutcome::Failed(
            failure_line(job.input.name, message_of(AppErrorModel::Io(cause))),
        ),
        None => if !job.overwrite && world.files.dom().contains(job.output) {
            JobOutcome::Skipped
        } else {
            match (world.conversion)(job) {
                ConversionResultModel::Success => JobOutcome::Converted,
                ConversionResultModel::Failure(message) => JobOutcome::Failed(
                    failure_line(job.input.name, message),
                ),
            }
        },
    }
}

/// The world after the work on a job: a converted document has left its PDF.
pub open spec fn world_after(job: ConversionJobModel, world: World) -> World {
    if job_outcome(job, world) is Converted {
        world.with_files(world.files.insert(job.output, job))
    } else {
        world
    }
}

/// The report and the world after the work on the jobs from index `from` on, one after the
/// other.
pub open spec fn work(jobs: Seq<ConversionJobModel>, from: nat, report: BatchReportModel, world: World)
    -> (BatchReportModel, World)
    decreases jobs.len() - from,
{
    if from >= jobs.len() {
        (report, world)
    } else {
        work(
            jobs,
            from + 1,
            report.with(job_outcome(jobs[from as int], world)),
            world_after(jobs[from as int], world),
        )
    }
}

/// How many steps the work on a job takes.
spec fn steps_of(job: ConversionJobModel, world: World) -> nat {
    if (world.directory_failure)(job.output.dir) is Some {
        2
    } else if job.overwrite || world.files.dom().contains(job.output) {
        3
    } else {
        4
    }
}

/// The state after the work on the current job of `state`.
spec fn after_job(state: BatchStateModel, world: World) -> BatchStateModel {
    BatchStateModel {
        phase: if state.current + 1 < state.jobs.len() {
            BatchPhaseModel::EnsureDirectory
        } else {
            BatchPhaseModel::Finished(BatchOutcomeModel::Completed)
        },
        current: state.current + 1,
        report: state.report.with(job_outcome(state.job(), world)),
        jobs: state.jobs,
    }
}

/// The steps of the batch on one job come to the outcome of that job.
proof fn run_of_one_job(args: DirArgsModel, state: BatchStateModel, world: World, steps: nat)
    requires
        state.well_formed(),
        state.phase is EnsureDirectory,
        steps >= 4,
    ensures
        run(args, state, world, steps) == run(
            args,
            after_job(state, world),
            world_after(state.job(), world),
            (steps - steps_of(state.job(), world)) as nat,
        ),
        after_job(state, world).well_formed(),
{
    reveal_with_fuel(run, 5);
}

/// The steps of the batch on the jobs that are left come to the work on them.
proof fn run_of_jobs(args: DirArgsModel, state: BatchStateModel, world: World, steps: nat)
    requires
        state.well_formed(),
        state.phase is EnsureDirectory,
        steps >= 4 * (state.jobs.len() - state.current),
    ensures
        ({
            let (report, after) = work(state.jobs, state.current, state.report, world);
            run(args, state, world, steps) == (
                BatchStateModel {
                    phase: BatchPhaseModel::Finished(BatchOutcomeModel::Completed),
                    jobs: state.jobs,
                    current: state.jobs.len(),
                    report,
                },
                after,
            )
        }),
    decreases state.jobs.len() - state.current,
{
    run_of_one_job(args, state, world, steps);
    let next = after_job(state, world);
    let left = (steps - steps_of(state.job(), world)) as nat;
    if state.current + 1 < state.jobs.len() {
        run_of_jobs(args, next, world_after(state.job(), world), left);
    } else {
        assert(run(args, next, world_after(state.job(), world), left) == (
            next,
            world_after(state.job(), world),
        ));
    }
}

/// What a whole batch comes to in a world: how it ends, its report, and the world it leaves.
/// A root that is no directory and a walk that fails end it before any work; a walk that finds
/// no document ends it with nothing done; else the work on every job is done, in order.
pub open spec fn batch_result(args: DirArgsModel, world: World) -> (
    BatchOutcomeModel,
    BatchReportModel,
    World,
) {
    if !world.root_is_dir {
        (
            BatchOutcomeModel::Aborted(AppErrorModel::InvalidInputPath { path: args.input_dir }),
            BatchReportModel::opening(0),
            world,
        )
    } else {
        match world.walk {
            Err(cause) => (
                BatchOutcomeModel::Aborted(AppErrorModel::Walkdir(cause)),
                BatchReportModel::opening(0),
                world,
            ),
            Ok(entries) => {
                let jobs = jobs_for(entries, args);
                if jobs.len() == 0 {
                    (BatchOutcomeModel::NoDocuments, BatchReportModel::opening(0), world)
                } else {
                    let (report, after) = work(jobs, 0, BatchReportModel::opening(jobs.len()), world);
                    (BatchOutcomeModel::Completed, report, after)
                }
            },
        }
    }
}

/// The steps of a batch against a world come to `batch_result`: the batch is over within
/// `enough_steps`, with that outcome and that report, and leaves that world.
pub proof fn whole_run_is_batch_result(args: DirArgsModel, world: World)
    ensures
        ({
            let (state, after) = whole_run(args, world);
            let (outcome, report, end) = batch_result(args, world);
            &&& state.phase == BatchPhaseModel::Finished(outcome)
            &&& state.report == report
            &&& state.well_formed()
            &&& after == end
        }),
{
    reveal_with_fuel(run, 4);
    let opening = BatchStateModel::opening();
    if world.root_is_dir {
        if let Ok(entries) = world.walk {
            let jobs = jobs_for(entries, args);
            if jobs.len() > 0 {
                let checked = batch_step(args, opening, BatchEventModel::Begin).0;
                let walking = batch_step(
                    args,
                    checked,
                    BatchEventModel::RootChecked(true),
                ).0;
                let found = batch_step(args, walking, BatchEventModel::Walked(entries)).0;
                run_of_jobs(args, found, world, (4 * jobs.len()) as nat);
                work_counts_every_job(jobs, 0, BatchReportModel::opening(jobs.len()), world);
            }
        }
    }
}

/// The work on the jobs that are left counts each of them once, and changes nothing of the
/// world but its PDFs.
pub proof fn work_counts_every_job(
    jobs: Seq<ConversionJobModel>,
    from: nat,
    report: BatchReportModel,
    world: World,
)
    requires
        from <= jobs.len(),
        report.well_formed(),
        report.done() == from,
        report.total == jobs.len(),
    ensures
        ({
            let (end, after) = work(jobs, from, report, world);
            &&& end.well_formed()
            &&& end.total == jobs.len()
            &&& end.done() == jobs.len()
            &&& after == world.with_files(after.files)
        }),
    decreases jobs.len() - from,
{
    if from < jobs.len() {
        work_counts_every_job(
            jobs,
            from + 1,
            report.with(job_outcome(jobs[from as int], world)),
            world_after(jobs[from as int], world),
        );
    }
}

/// No job writes over a PDF that is there.
pub open spec fn none_overwrites(jobs: Seq<ConversionJobModel>) -> bool {
    forall|i: int| 0 <= i < jobs.len() ==> !(#[trigger] jobs[i]).overwrite
}

/// The jobs of a batch write over a PDF only where the batch is asked to.
pub proof fn jobs_overwrite_as_asked(entries: Seq<FilePathModel>, args: DirArgsModel)
    ensures
        forall|i: int|
            0 <= i < jobs_for(entries, args).len() ==> (#[trigger] jobs_for(
                entries,
                args,
            )[i]).overwrite == args.overwrite,
    decreases entries.len(),
{
    if entries.len() > 0 {
        jobs_overwrite_as_asked(entries.drop_last(), args);
        let jobs = jobs_for(entries, args);
        let rest = jobs_for(entries.drop_last(), args);
        assert forall|i: int| 0 <= i < jobs.len() implies (#[trigger] jobs[i]).overwrite
            == args.overwrite by {
            if i < rest.len() {
                assert(jobs[i] == rest[i]);
            }
        }
    }
}

/// Where no job writes over, a PDF that is there stays as it is through the work.
proof fn files_stay(
    jobs: Seq<ConversionJobModel>,
    from: nat,
    report: BatchReportModel,
    world: World,
    path: FilePathModel,
)
    requires
        none_overwrites(jobs),
        world.files.dom().contains(path),
    ensures
        ({
            let files = work(jobs, from, report, world).1.files;
            files.dom().contains(path) && files[path] == world.files[path]
        }),
    decreases jobs.len() - from,
{
    if from < jobs.len() {
        let job = jobs[from as int];
        assert(!job.overwrite);
        files_stay(jobs, from + 1, report.with(job_outcome(job, world)), world_after(job, world), path);
    }
}

/// The work on the same jobs once more, in the world that the first work has left: no job is
/// converted, the world stays as it is, and every job that was converted or skipped is
/// skipped.
proof fn work_again(
    jobs: Seq<ConversionJobModel>,
    from: nat,
    first: BatchReportModel,
    before: World,
    second: BatchReportModel,
    between: World,
)
    requires
        none_overwrites(jobs),
        from <= jobs.len(),
        between == before.with_files(work(jobs, from, first, before).1.files),
    ensures
        ({
            let (one, _) = work(jobs, from, first, before);
            let (two, after) = work(jobs, from, second, between);
            &&& after == between
            &&& two.converted == second.converted
            &&& two.skipped - second.skipped >= (one.converted - first.converted) + (one.skipped
                - first.skipped)
        }),
    decreases jobs.len() - from,
{
    if from < jobs.len() {
        let job = jobs[from as int];
        assert(!job.overwrite);
        let outcome = job_outcome(job, before);
        let next = world_after(job, before);
        if next.files.dom().contains(job.output) {
            files_stay(jobs, from + 1, first.with(outcome), next, job.output);
        }
        let again = job_outcome(job, between);
        assert(!(again is Converted));
        assert(world_after(job, between) == between);
        work_again(jobs, from + 1, first.with(outcome), next, second.with(again), between);
    }
}

/// Running a batch again, with no PDF to be written over, in the world that the first run has
/// left: the second run ends as the first did and finds the same documents; it converts
/// nothing, so no document is compiled twice; it skips every document that the first run
/// converted or skipped; and it leaves every PDF as the first run left it.
pub proof fn second_run_converts_nothing(args: DirArgsModel, world: World)
    requires
        !args.overwrite,
    ensures
        ({
            let (first, between) = whole_run(args, world);
            let (second, after) = whole_run(args, between);
            &&& first.phase is Finished
            &&& second.phase == first.phase
            &&& second.report.total == first.report.total
            &&& second.report.converted == 0
            &&& second.report.skipped >= first.report.converted + first.report.skipped
            &&& after == between
        }),
{
    whole_run_is_batch_result(args, world);
    let between = whole_run(args, world).1;
    whole_run_is_batch_result(args, between);
    if world.root_is_dir {
        if let Ok(entries) = world.walk {
            let jobs = jobs_for(entries, args);
            if jobs.len() > 0 {
                let opening = BatchReportModel::opening(jobs.len());
                jobs_overwrite_as_asked(entries, args);
                work_counts_every_job(jobs, 0, opening, world);
                work_counts_every_job(jobs, 0, opening, between);
                work_again(jobs, 0, opening, world, opening, between);
            }
        }
    }
}

} // verus!

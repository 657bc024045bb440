use md2pdf::batch::{
    collect_jobs, convert_directory, progress_message, BatchAction, BatchEvent, BatchOutcome,
    BatchPhase, BatchState,
};
use md2pdf::cli::DirArgs;
use md2pdf::convert::{
    conversion_result, convert_file, ConversionAction, ConversionEvent, ConversionState,
};
use md2pdf::error::AppError;
use md2pdf::job::{ConversionJob, ConversionResult};
use md2pdf::path::FilePath;
use md2pdf::report::{failure_message, BatchReport};

/// What a test pretends to find on disk.
struct Disk {
    is_dir: bool,
    entries: Vec<FilePath>,
    outputs: Vec<FilePath>,
    broken: Vec<String>,
    sealed: Vec<String>,
    compiled: usize,
    advanced: Vec<String>,
}

fn disk(entries: Vec<FilePath>) -> Disk {
    Disk {
        is_dir: true,
        entries,
        outputs: Vec::new(),
        broken: Vec::new(),
        sealed: Vec::new(),
        compiled: 0,
        advanced: Vec::new(),
    }
}

fn args(output_dir: Option<&str>, overwrite: bool) -> DirArgs {
    DirArgs {
        input_dir: String::from("docs"),
        output_dir: output_dir.map(String::from),
        overwrite,
    }
}

fn convert(job: &ConversionJob, disk: &mut Disk) -> ConversionResult {
    let mut state = ConversionState::Idle;
    let mut event = ConversionEvent::Begin;
    loop {
        let (next, action) = convert_file(job, state, event);
        state = next;
        event = match action {
            ConversionAction::ReadDocument(_) => ConversionEvent::DocumentRead(String::from("text")),
            ConversionAction::StageMarkup(_) => ConversionEvent::Staged,
            ConversionAction::RunCompiler(output) => {
                disk.compiled += 1;
                if disk.broken.contains(&job.input().name) {
                    ConversionEvent::CompilerExited {
                        success: false,
                        diagnostics: String::from("error: bad markup"),
                    }
                } else {
                    disk.outputs.push(output);
                    ConversionEvent::CompilerExited { success: true, diagnostics: String::new() }
                }
            }
            _ => return conversion_result(&state).unwrap(),
        };
    }
}

fn run(args: &DirArgs, disk: &mut Disk) -> BatchState {
    let mut state = BatchState::new();
    let mut event = BatchEvent::Begin;
    loop {
        let (next, action) = convert_directory(args, state, event);
        state = next;
        event = match action {
            BatchAction::CheckRoot(_) => BatchEvent::RootChecked(disk.is_dir),
            BatchAction::Walk(_) => BatchEvent::Walked(
                disk.entries.iter().map(|entry| entry.duplicate()).collect(),
            ),
            BatchAction::EnsureDirectory(dir) => {
                if disk.sealed.contains(&dir) {
                    BatchEvent::DirectoryFailed(String::from("denied"))
                } else {
                    BatchEvent::DirectoryReady
                }
            }
            BatchAction::ProbeOutput(output) => {
                BatchEvent::OutputProbed(disk.outputs.contains(&output))
            }
            BatchAction::Convert(job) => BatchEvent::Converted(convert(&job, disk)),
            BatchAction::Advance(name) => {
                disk.advanced.push(name);
                BatchEvent::Advanced
            }
            BatchAction::Finish => return state,
            BatchAction::Wait => panic!("the batch waits"),
        };
    }
}

fn counts(report: &BatchReport) -> (usize, usize, usize, usize) {
    (report.total, report.converted, report.skipped, report.failed)
}

#[test]
fn empty_directory_yields_no_documents() {
    let mut disk = disk(Vec::new());
    let state = run(&args(None, false), &mut disk);
    assert_eq!(state.outcome(), Some(&BatchOutcome::NoDocuments));
    assert_eq!(counts(state.report()), (0, 0, 0, 0));
    assert!(state.report().failures.is_empty());
    assert_eq!(disk.compiled, 0);
    assert!(disk.advanced.is_empty());
    assert_eq!(
        BatchOutcome::NoDocuments.summary(),
        "No Markdown files found in the specified directory."
    );
}

#[test]
fn directory_without_markdown_yields_no_documents() {
    let mut disk = disk(vec![
        FilePath::new("", "docs"),
        FilePath::new("docs", "a.txt"),
        FilePath::new("docs", ".md"),
    ]);
    let state = run(&args(None, false), &mut disk);
    assert_eq!(state.outcome(), Some(&BatchOutcome::NoDocuments));
    assert_eq!(counts(state.report()), (0, 0, 0, 0));
    assert_eq!(disk.compiled, 0);
}

#[test]
fn mixed_batch_counts_one_failure() {
    let mut disk = disk(vec![
        FilePath::new("docs", "a.md"),
        FilePath::new("docs", "b.md"),
        FilePath::new("docs", "readme.txt"),
        FilePath::new("docs/sub", "c.md"),
    ]);
    disk.broken.push(String::from("b.md"));
    let state = run(&args(None, false), &mut disk);
    assert_eq!(state.outcome(), Some(&BatchOutcome::Completed));
    assert_eq!(counts(state.report()), (3, 2, 0, 1));
    assert_eq!(
        state.report().failures,
        vec![String::from(
            "Failed to convert b.md: Conversion failed: Typst compilation failed for docs/b.md:\nerror: bad markup"
        )]
    );
    assert!(state.report().failures[0].contains("b.md"));
    assert_eq!(
        disk.outputs,
        vec![FilePath::new("docs", "a.pdf"), FilePath::new("docs/sub", "c.pdf")]
    );
    assert_eq!(disk.advanced, vec!["a.md", "b.md", "c.md"]);
    assert_eq!(BatchOutcome::Completed.summary(), "All files processed!");
}

#[test]
fn second_run_skips_what_the_first_converted() {
    let mut disk = disk(vec![FilePath::new("docs", "a.md"), FilePath::new("docs", "b.md")]);
    let first = run(&args(None, false), &mut disk);
    assert_eq!(counts(first.report()), (2, 2, 0, 0));
    assert_eq!(disk.compiled, 2);
    let outputs: Vec<FilePath> = disk.outputs.iter().map(|path| path.duplicate()).collect();
    let second = run(&args(None, false), &mut disk);
    assert_eq!(counts(second.report()), (2, 0, 2, 0));
    assert_eq!(disk.compiled, 2);
    assert_eq!(disk.outputs, outputs);
    assert_eq!(disk.advanced, vec!["a.md", "b.md", "a.md", "b.md"]);
}

#[test]
fn overwrite_converts_again_without_probing() {
    let mut disk = disk(vec![FilePath::new("docs", "a.md")]);
    disk.outputs.push(FilePath::new("docs", "a.pdf"));
    let state = run(&args(None, true), &mut disk);
    assert_eq!(counts(state.report()), (1, 1, 0, 0));
    assert_eq!(disk.compiled, 1);
}

#[test]
fn output_directory_takes_every_pdf() {
    let mut disk = disk(vec![FilePath::new("docs", "a.md"), FilePath::new("docs/sub", "b.md")]);
    let state = run(&args(Some("out"), false), &mut disk);
    assert_eq!(counts(state.report()), (2, 2, 0, 0));
    assert_eq!(disk.outputs, vec![FilePath::new("out", "a.pdf"), FilePath::new("out", "b.pdf")]);
}

#[test]
fn directory_failure_stops_only_its_job() {
    let mut disk = disk(vec![FilePath::new("docs/locked", "a.md"), FilePath::new("docs", "b.md")]);
    disk.sealed.push(String::from("docs/locked"));
    let state = run(&args(None, false), &mut disk);
    assert_eq!(state.outcome(), Some(&BatchOutcome::Completed));
    assert_eq!(counts(state.report()), (2, 1, 0, 1));
    assert_eq!(
        state.report().failures,
        vec![String::from("Failed to convert a.md: I/O Error: denied")]
    );
    assert_eq!(disk.compiled, 1);
    assert_eq!(disk.advanced, vec!["a.md", "b.md"]);
}

#[test]
fn root_that_is_no_directory_aborts_before_the_walk() {
    let (state, action) =
        convert_directory(&args(None, false), BatchState::new(), BatchEvent::Begin);
    assert_eq!(action, BatchAction::CheckRoot(String::from("docs")));
    assert_eq!(state.phase(), &BatchPhase::CheckRoot);
    let (state, action) =
        convert_directory(&args(None, false), state, BatchEvent::RootChecked(false));
    assert_eq!(action, BatchAction::Finish);
    let error = AppError::InvalidInputPath { path: String::from("docs") };
    assert_eq!(error.message(), "Invalid input path: docs");
    assert_eq!(state.outcome(), Some(&BatchOutcome::Aborted(error)));
    assert_eq!(counts(state.report()), (0, 0, 0, 0));
}

#[test]
fn failed_walk_aborts_the_batch() {
    let args = args(None, false);
    let (state, _) = convert_directory(&args, BatchState::new(), BatchEvent::Begin);
    let (state, action) = convert_directory(&args, state, BatchEvent::RootChecked(true));
    assert_eq!(action, BatchAction::Walk(String::from("docs")));
    let (state, action) =
        convert_directory(&args, state, BatchEvent::WalkFailed(String::from("loop")));
    assert_eq!(action, BatchAction::Finish);
    let error = AppError::Walkdir(String::from("loop"));
    assert_eq!(BatchOutcome::Aborted(error.duplicate()).summary(), "Failed to walk directory: loop");
    assert_eq!(state.outcome(), Some(&BatchOutcome::Aborted(error)));
}

#[test]
fn unexpected_event_leaves_the_batch_waiting() {
    let args = args(None, false);
    let (state, action) = convert_directory(&args, BatchState::new(), BatchEvent::Advanced);
    assert_eq!(action, BatchAction::Wait);
    assert_eq!(state.phase(), &BatchPhase::Start);
    assert_eq!(state.outcome(), None);
}

#[test]
fn jobs_are_collected_in_the_order_of_the_walk() {
    let entries = vec![
        FilePath::new("docs", "z.md"),
        FilePath::new("docs", "skip.txt"),
        FilePath::new("docs", "a.md"),
    ];
    let jobs = collect_jobs(&entries, &args(Some("out"), true));
    assert_eq!(
        jobs,
        vec![
            ConversionJob::for_batch(FilePath::new("docs", "z.md"), &Some(String::from("out")), true),
            ConversionJob::for_batch(FilePath::new("docs", "a.md"), &Some(String::from("out")), true),
        ]
    );
    assert_eq!(jobs[0].output(), &FilePath::new("out", "z.pdf"));
}

#[test]
fn messages_of_progress_and_failure_are_exact() {
    assert_eq!(progress_message("a.md"), "Converting a.md");
    assert_eq!(failure_message("a.md", "boom"), "Failed to convert a.md: boom");
}

#[test]
fn report_counts_what_is_recorded() {
    let mut report = BatchReport::new(3);
    report.record_converted();
    report.record_skipped();
    report.record_failed(String::from("x"));
    assert_eq!(counts(&report), (3, 1, 1, 1));
    assert_eq!(report.failures, vec![String::from("x")]);
}

use md2pdf::convert::{
    conversion_result, convert_file, ConversionAction, ConversionEvent, ConversionState,
};
use md2pdf::error::AppError;
use md2pdf::job::{ConversionJob, ConversionResult};
use md2pdf::path::FilePath;

fn job() -> ConversionJob {
    ConversionJob::for_file(FilePath::new("docs", "a.md"), &None)
}

fn staged(job: &ConversionJob) -> ConversionState {
    let (state, _) = convert_file(job, ConversionState::Idle, ConversionEvent::Begin);
    let (state, _) =
        convert_file(job, state, ConversionEvent::DocumentRead(String::from("# T")));
    let (state, action) = convert_file(job, state, ConversionEvent::Staged);
    assert_eq!(action, ConversionAction::RunCompiler(FilePath::new("docs", "a.pdf")));
    state
}

#[test]
fn conversion_goes_through_its_steps() {
    let job = job();
    let (state, action) = convert_file(&job, ConversionState::Idle, ConversionEvent::Begin);
    assert_eq!(state, ConversionState::Read);
    assert_eq!(action, ConversionAction::ReadDocument(FilePath::new("docs", "a.md")));
    let (state, action) =
        convert_file(&job, state, ConversionEvent::DocumentRead(String::from("# T")));
    assert_eq!(state, ConversionState::StageWorkspace);
    assert_eq!(
        action,
        ConversionAction::StageMarkup(String::from("\n#heading(level: 1)[T]\n"))
    );
    let (state, action) = convert_file(&job, state, ConversionEvent::Staged);
    assert_eq!(state, ConversionState::Invoke);
    assert_eq!(action, ConversionAction::RunCompiler(FilePath::new("docs", "a.pdf")));
    assert_eq!(conversion_result(&state), None);
    let (state, action) = convert_file(
        &job,
        state,
        ConversionEvent::CompilerExited { success: true, diagnostics: String::new() },
    );
    assert_eq!(state, ConversionState::Done);
    assert_eq!(action, ConversionAction::Release);
    assert_eq!(conversion_result(&state), Some(ConversionResult::Success));
}

#[test]
fn missing_compiler_is_told_apart_from_an_io_failure() {
    let job = job();
    let (state, action) = convert_file(&job, staged(&job), ConversionEvent::CompilerMissing);
    assert_eq!(state, ConversionState::Failed(AppError::ToolNotFound));
    assert_eq!(action, ConversionAction::Release);
    let message = AppError::ToolNotFound.message();
    assert_eq!(
        message,
        "Conversion failed: The 'typst' command was not found.\nPlease ensure Typst is installed and in your system's PATH."
    );
    assert!(message.contains("typst"));
    assert_ne!(message, AppError::Io(String::from("not found")).message());
    assert_eq!(conversion_result(&state), Some(ConversionResult::Failure(message)));
}

#[test]
fn compiler_failure_holds_path_and_diagnostics() {
    let job = job();
    let (state, action) = convert_file(
        &job,
        staged(&job),
        ConversionEvent::CompilerExited {
            success: false,
            diagnostics: String::from("error: unclosed delimiter"),
        },
    );
    let error = AppError::CompilerFailure {
        input: String::from("docs/a.md"),
        diagnostics: String::from("error: unclosed delimiter"),
    };
    assert_eq!(
        error.message(),
        "Conversion failed: Typst compilation failed for docs/a.md:\nerror: unclosed delimiter"
    );
    assert_eq!(state, ConversionState::Failed(error));
    assert_eq!(action, ConversionAction::Release);
}

#[test]
fn other_failures_are_io_errors() {
    let job = job();
    let (state, _) = convert_file(&job, ConversionState::Idle, ConversionEvent::Begin);
    let (state, action) =
        convert_file(&job, state, ConversionEvent::ReadFailed(String::from("denied")));
    assert_eq!(state, ConversionState::Failed(AppError::Io(String::from("denied"))));
    assert_eq!(action, ConversionAction::Stop);

    let (state, _) = convert_file(&job, ConversionState::Idle, ConversionEvent::Begin);
    let (state, _) = convert_file(&job, state, ConversionEvent::DocumentRead(String::new()));
    let (state, action) =
        convert_file(&job, state, ConversionEvent::StageFailed(String::from("disk full")));
    assert_eq!(state, ConversionState::Failed(AppError::Io(String::from("disk full"))));
    assert_eq!(action, ConversionAction::Stop);

    let (state, action) = convert_file(
        &job,
        staged(&job),
        ConversionEvent::CompilerNotRun(String::from("denied")),
    );
    assert_eq!(state, ConversionState::Failed(AppError::Io(String::from("denied"))));
    assert_eq!(action, ConversionAction::Release);
}

#[test]
fn finished_conversion_is_not_tried_again() {
    let job = job();
    let (state, action) = convert_file(&job, ConversionState::Done, ConversionEvent::Begin);
    assert_eq!(state, ConversionState::Done);
    assert_eq!(action, ConversionAction::Stop);
    let failed = ConversionState::Failed(AppError::ToolNotFound);
    let (state, action) = convert_file(&job, failed, ConversionEvent::Staged);
    assert_eq!(state, ConversionState::Failed(AppError::ToolNotFound));
    assert_eq!(action, ConversionAction::Stop);
}

#[test]
fn unexpected_event_changes_nothing() {
    let job = job();
    let (state, action) = convert_file(&job, ConversionState::Idle, ConversionEvent::Staged);
    assert_eq!(state, ConversionState::Idle);
    assert_eq!(action, ConversionAction::Wait);
    let (state, action) = convert_file(&job, ConversionState::Read, ConversionEvent::Begin);
    assert_eq!(state, ConversionState::Read);
    assert_eq!(action, ConversionAction::Wait);
    let (state, action) =
        convert_file(&job, ConversionState::Invoke, ConversionEvent::Staged);
    assert_eq!(state, ConversionState::Invoke);
    assert_eq!(action, ConversionAction::Wait);
}

#[test]
fn error_messages_are_exact() {
    assert_eq!(AppError::Io(String::from("denied")).message(), "I/O Error: denied");
    assert_eq!(
        AppError::Walkdir(String::from("loop")).message(),
        "Failed to walk directory: loop"
    );
    assert_eq!(
        AppError::InvalidInputPath { path: String::from("nowhere") }.message(),
        "Invalid input path: nowhere"
    );
    let error = AppError::CompilerFailure {
        input: String::from("a.md"),
        diagnostics: String::from("bad"),
    };
    assert_eq!(error.duplicate(), error);
}

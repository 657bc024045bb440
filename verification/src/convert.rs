//! Converting one document, step by step.
//!
//! The caller reads the document, stages the markup in a workspace of its own and runs the
//! compiler. Between those steps [`convert_file`] decides: it takes the state the conversion
//! is in and what the last step brought, and gives the next state and the step to take.
//!
//! The markup is made within the step that takes the text of the document: that step leads
//! from reading straight to staging, since making the markup cannot fail.

use vstd::prelude::*;
use crate::emitter::{markdown_to_typst, markup};
use crate::error::{AppError, AppErrorModel, message_of};
use crate::job::{ConversionJob, ConversionJobModel, ConversionResult, ConversionResultModel};
use crate::path::{FilePath, FilePathModel, path_text};
use crate::source::markdown_events;

verus! {

/// The program that compiles the markup.
pub const COMPILER: &'static str = "typst";

/// What the compiler is told to do, before the path of the markup and the path of the PDF.
pub const COMPILE_COMMAND: &'static str = "compile";

/// The name of the file that the markup is staged in.
pub const MARKUP_FILE: &'static str = "main.typ";

/// Where the conversion of a document stands.
#[derive(Debug, PartialEq, Eq)]
pub enum ConversionState {
    /// Nothing has been asked for yet.
    Idle,
    /// The document is being read.
    Read,
    /// The markup is being staged in a workspace.
    StageWorkspace,
    /// The compiler runs on the staged markup. Only in this state is a workspace held.
    Invoke,
    /// The PDF is written.
    Done,
    /// The conversion failed.
    Failed(AppError),
}

/// What a [`ConversionState`] holds.
pub enum ConversionStateModel {
    Idle,
    Read,
    StageWorkspace,
    Invoke,
    Done,
    Failed(AppErrorModel),
}

impl View for ConversionState {
    type V = ConversionStateModel;

    open spec fn view(&self) -> ConversionStateModel {
        match *self {
            ConversionState::Idle => ConversionStateModel::Idle,
            ConversionState::Read => ConversionStateModel::Read,
            ConversionState::StageWorkspace => ConversionStateModel::StageWorkspace,
            ConversionState::Invoke => ConversionStateModel::Invoke,
            ConversionState::Done => ConversionStateModel::Done,
            ConversionState::Failed(error) => ConversionStateModel::Failed(error@),
        }
    }
}

/// What the caller's last step brought.
#[derive(Debug, PartialEq, Eq)]
pub enum ConversionEvent {
    /// The conversion is asked for.
    Begin,
    /// The document was read; holds its text.
    DocumentRead(String),
    /// The document could not be read; holds the cause.
    ReadFailed(String),
    /// A workspace was made and the markup written into it.
    Staged,
    /// Staging failed, and nothing of the workspace is left; holds the cause.
    StageFailed(String),
    /// The compiler was not found.
    CompilerMissing,
    /// The compiler could not be run for another reason; holds the cause.
    CompilerNotRun(String),
    /// The compiler ran; holds whether it reported success, and what it wrote as diagnostics.
    CompilerExited { success: bool, diagnostics: String },
}

/// What a [`ConversionEvent`] holds.
pub enum ConversionEventModel {
    Begin,
    DocumentRead(Seq<char>),
    ReadFailed(Seq<char>),
    Staged,
    StageFailed(Seq<char>),
    CompilerMissing,
    CompilerNotRun(Seq<char>),
    CompilerExited { success: bool, diagnostics: Seq<char> },
}

impl View for ConversionEvent {
    type V = ConversionEventModel;

    open spec fn view(&self) -> ConversionEventModel {
        match *self {
            ConversionEvent::Begin => ConversionEventModel::Begin,
            ConversionEvent::DocumentRead(text) => ConversionEventModel::DocumentRead(text@),
            ConversionEvent::ReadFailed(cause) => ConversionEventModel::ReadFailed(cause@),
            ConversionEvent::Staged => ConversionEventModel::Staged,
            ConversionEvent::StageFailed(cause) => ConversionEventModel::StageFailed(cause@),
            ConversionEvent::CompilerMissing => ConversionEventModel::CompilerMissing,
            ConversionEvent::CompilerNotRun(cause) => ConversionEventModel::CompilerNotRun(cause@),
            ConversionEvent::CompilerExited { success, diagnostics } =>
                ConversionEventModel::CompilerExited { success, diagnostics: diagnostics@ },
        }
    }
}

/// The step that the caller takes next.
#[derive(Debug, PartialEq, Eq)]
pub enum ConversionAction {
    /// Read the document at this path.
    ReadDocument(FilePath),
    /// Make a workspace and write this markup into it.
    StageMarkup(String),
    /// Run the compiler on the staged markup, with this path for the PDF.
    RunCompiler(FilePath),
    /// Dispose of the workspace; the conversion is over.
    Release,
    /// The conversion is over, and no workspace is held.
    Stop,
    /// The event was not waited for; nothing changes.
    Wait,
}

/// What a [`ConversionAction`] holds.
pub enum ConversionActionModel {
    ReadDocument(FilePathModel),
    StageMarkup(Seq<char>),
    RunCompiler(FilePathModel),
    Release,
    Stop,
    Wait,
}

impl View for ConversionAction {
    type V = ConversionActionModel;

    open spec fn view(&self) -> ConversionActionModel {
        match *self {
            ConversionAction::ReadDocument(path) => ConversionActionModel::ReadDocument(path@),
            ConversionAction::StageMarkup(text) => ConversionActionModel::StageMarkup(text@),
            ConversionAction::RunCompiler(path) => ConversionActionModel::RunCompiler(path@),
            ConversionAction::Release => ConversionActionModel::Release,
            ConversionAction::Stop => ConversionActionModel::Stop,
            ConversionAction::Wait => ConversionActionModel::Wait,
        }
    }
}

/// Whether the conversion is over.
pub open spec fn is_terminal(state: ConversionStateModel) -> bool {
    state is Done || state is Failed
}

/// Whether a workspace is held.
pub open spec fn holds_workspace(state: ConversionStateModel) -> bool {
    state is Invoke
}

/// The state that follows `state` on `event`.
pub open spec fn next_state(
    job: ConversionJobModel,
    state: ConversionStateModel,
    event: ConversionEventModel,
) -> ConversionStateModel {
    match (state, event) {
        (ConversionStateModel::Idle, ConversionEventModel::Begin) => ConversionStateModel::Read,
        (ConversionStateModel::Read, ConversionEventModel::DocumentRead(_)) =>
            ConversionStateModel::StageWorkspace,
        (ConversionStateModel::Read, ConversionEventModel::ReadFailed(cause)) =>
            ConversionStateModel::Failed(AppErrorModel::Io(cause)),
        (ConversionStateModel::StageWorkspace, ConversionEventModel::Staged) =>
            ConversionStateModel::Invoke,
        (ConversionStateModel::StageWorkspace, ConversionEventModel::StageFailed(cause)) =>
            ConversionStateModel::Failed(AppErrorModel::Io(cause)),
        (ConversionStateModel::Invoke, ConversionEventModel::CompilerMissing) =>
            ConversionStateModel::Failed(AppErrorModel::ToolNotFound),
        (ConversionStateModel::Invoke, ConversionEventModel::CompilerNotRun(cause)) =>
            ConversionStateModel::Failed(AppErrorModel::Io(cause)),
        (ConversionStateModel::Invoke, ConversionEventModel::CompilerExited { success, diagnostics }) =>
            if success {
                ConversionStateModel::Done
            } else {
                ConversionStateModel::Failed(
                    AppErrorModel::CompilerFailure { input: path_text(job.input), diagnostics },
                )
            },
        _ => state,
    }
}

/// The step to take when `event` arrives in `state`.
pub open spec fn next_action(
    job: ConversionJobModel,
    state: ConversionStateModel,
    event: ConversionEventModel,
) -> ConversionActionModel {
    match (state, event) {
        (ConversionStateModel::Idle, ConversionEventModel::Begin) =>
            ConversionActionModel::ReadDocument(job.input),
        (ConversionStateModel::Read, ConversionEventModel::DocumentRead(text)) =>
            ConversionActionModel::StageMarkup(markup(markdown_events(text))),
        (ConversionStateModel::Read, ConversionEventModel::ReadFailed(_)) =>
            ConversionActionModel::Stop,
        (ConversionStateModel::StageWorkspace, ConversionEventModel::Staged) =>
            ConversionActionModel::RunCompiler(job.output),
        (ConversionStateModel::StageWorkspace, ConversionEventModel::StageFailed(_)) =>
            ConversionActionModel::Stop,
        (ConversionStateModel::Invoke, ConversionEventModel::CompilerMissing) =>
            ConversionActionModel::Release,
        (ConversionStateModel::Invoke, ConversionEventModel::CompilerNotRun(_)) =>
            ConversionActionModel::Release,
        (ConversionStateModel::Invoke, ConversionEventModel::CompilerExited { .. }) =>
            ConversionActionModel::Release,
        (ConversionStateModel::Done, _) => ConversionActionModel::Stop,
        (ConversionStateModel::Failed(_), _) => ConversionActionModel::Stop,
        _ => ConversionActionModel::Wait,
    }
}

/// One step of the conversion of the document of `job`: the state that follows `state` on
/// `event`, and the step for the caller to take.
pub fn convert_file(job: &ConversionJob, state: ConversionState, event: ConversionEvent) -> (next:
    (ConversionState, ConversionAction))
    ensures
        next.0@ == next_state(job@, state@, event@),
        next.1@ == next_action(job@, state@, event@),
{
    match state {
        ConversionState::Idle => match event {
            ConversionEvent::Begin => (
                ConversionState::Read,
                ConversionAction::ReadDocument(job.input().duplicate()),
            ),
            _ => (ConversionState::Idle, ConversionAction::Wait),
        },
        ConversionState::Read => match event {
            ConversionEvent::DocumentRead(text) => (
                ConversionState::StageWorkspace,
                ConversionAction::StageMarkup(markdown_to_typst(text.as_str())),
            ),
            ConversionEvent::ReadFailed(cause) => (
                ConversionState::Failed(AppError::Io(cause)),
                ConversionAction::Stop,
            ),
            _ => (ConversionState::Read, ConversionAction::Wait),
        },
        ConversionState::StageWorkspace => match event {
            ConversionEvent::Staged => (
                ConversionState::Invoke,
                ConversionAction::RunCompiler(job.output().duplicate()),
            ),
            ConversionEvent::StageFailed(cause) => (
                ConversionState::Failed(AppError::Io(cause)),
                ConversionAction::Stop,
            ),
            _ => (ConversionState::StageWorkspace, ConversionAction::Wait),
        },
        ConversionState::Invoke => match event {
            ConversionEvent::CompilerMissing => (
                ConversionState::Failed(AppError::ToolNotFound),
                ConversionAction::Release,
            ),
            ConversionEvent::CompilerNotRun(cause) => (
                ConversionState::Failed(AppError::Io(cause)),
                ConversionAction::Release,
            ),
            ConversionEvent::CompilerExited { success, diagnostics } => if success {
                (ConversionState::Done, ConversionAction::Release)
            } else {
                (
                    ConversionState::Failed(
                        AppError::CompilerFailure { input: job.input().text(), diagnostics },
                    ),
                    ConversionAction::Release,
                )
            },
            _ => (ConversionState::Invoke, ConversionAction::Wait),
        },
        ConversionState::Done => (ConversionState::Done, ConversionAction::Stop),
        ConversionState::Failed(error) => (ConversionState::Failed(error), ConversionAction::Stop),
    }
}

/// The state after the events of `events`, one after the other, from `state` on.
pub open spec fn state_after(
    job: ConversionJobModel,
    state: ConversionStateModel,
    events: Seq<ConversionEventModel>,
) -> ConversionStateModel
    decreases events.len(),
{
    if events.len() == 0 {
        state
    } else {
        next_state(job, state_after(job, state, events.drop_last()), events.last())
    }
}

/// How many workspaces the events of `events` had made: the number of steps on which the
/// compiler was sent off, which is what follows a staging that went well.
pub open spec fn workspaces_made(
    job: ConversionJobModel,
    state: ConversionStateModel,
    events: Seq<ConversionEventModel>,
) -> nat
    decreases events.len(),
{
    if events.len() == 0 {
        0
    } else {
        let before = state_after(job, state, events.drop_last());
        workspaces_made(job, state, events.drop_last()) + if next_action(
            job,
            before,
            events.last(),
        ) is RunCompiler {
            1nat
        } else {
            0nat
        }
    }
}

/// How many workspaces the caller was told to dispose of.
pub open spec fn workspaces_released(
    job: ConversionJobModel,
    state: ConversionStateModel,
    events: Seq<ConversionEventModel>,
) -> nat
    decreases events.len(),
{
    if events.len() == 0 {
        0
    } else {
        let before = state_after(job, state, events.drop_last());
        workspaces_released(job, state, events.drop_last()) + if next_action(
            job,
            before,
            events.last(),
        ) is Release {
            1nat
        } else {
            0nat
        }
    }
}

/// Whatever events arrive, in whatever order: every workspace that was made is released, but
/// for the one that is held while the compiler runs. Once the conversion is over none is left.
pub proof fn no_workspace_is_leaked(job: ConversionJobModel, events: Seq<ConversionEventModel>)
    ensures
        ({
            let state = state_after(job, ConversionStateModel::Idle, events);
            let made = workspaces_made(job, ConversionStateModel::Idle, events);
            let released = workspaces_released(job, ConversionStateModel::Idle, events);
            &&& made == released + if holds_workspace(state) {
                1nat
            } else {
                0nat
            }
            &&& is_terminal(state) ==> made == released
            &&& made <= 1
        }),
    decreases events.len(),
{
    if events.len() > 0 {
        no_workspace_is_leaked(job, events.drop_last());
        no_way_back(job, events.drop_last());
    }
}

/// How far a conversion has come.
spec fn progress_of(state: ConversionStateModel) -> nat {
    match state {
        ConversionStateModel::Idle => 0,
        ConversionStateModel::Read => 1,
        ConversionStateModel::StageWorkspace => 2,
        ConversionStateModel::Invoke => 3,
        _ => 4,
    }
}

/// A conversion makes a workspace at most once: before the compiler has run none was made,
/// and after it one was.
proof fn no_way_back(job: ConversionJobModel, events: Seq<ConversionEventModel>)
    ensures
        ({
            let state = state_after(job, ConversionStateModel::Idle, events);
            let made = workspaces_made(job, ConversionStateModel::Idle, events);
            progress_of(state) <= 2 ==> made == 0
        }),
    decreases events.len(),
{
    if events.len() > 0 {
        no_way_back(job, events.drop_last());
    }
}

/// A conversion that is over stays as it is: no event changes its state, and none brings a
/// step other than to stop. Nothing is tried again.
pub proof fn terminal_states_stay(
    job: ConversionJobModel,
    state: ConversionStateModel,
    event: ConversionEventModel,
)
    requires
        is_terminal(state),
    ensures
        next_state(job, state, event) == state,
        next_action(job, state, event) == ConversionActionModel::Stop,
{
}

/// Whether the event says that the compiler ran and reported an error.
pub open spec fn compiler_failed(event: ConversionEventModel) -> bool {
    match event {
        ConversionEventModel::CompilerExited { success, .. } => !success,
        _ => false,
    }
}

/// Whether the event says that the compiler ran and reported success.
pub open spec fn compiler_succeeded(event: ConversionEventModel) -> bool {
    match event {
        ConversionEventModel::CompilerExited { success, .. } => success,
        _ => false,
    }
}

/// What a step can end a conversion with, and when. A missing compiler and a compiler that
/// reports an error each have an error of their own; every other failure is an I/O error.
pub proof fn failures_are_told_apart(
    job: ConversionJobModel,
    state: ConversionStateModel,
    event: ConversionEventModel,
)
    requires
        !is_terminal(state),
    ensures
        ({
            let next = next_state(job, state, event);
            &&& (next == ConversionStateModel::Failed(AppErrorModel::ToolNotFound)) <==> (state
                is Invoke && event is CompilerMissing)
            &&& (next is Failed && next->Failed_0 is CompilerFailure) <==> (state is Invoke
                && compiler_failed(event))
            &&& (next is Done) <==> (state is Invoke && compiler_succeeded(event))
            &&& (next is Failed && next->Failed_0 is Io) <==> ((state is Read && event
                is ReadFailed) || (state is StageWorkspace && event is StageFailed) || (state
                is Invoke && event is CompilerNotRun))
            &&& !(next is Failed && (next->Failed_0 is Walkdir || next->Failed_0
                is InvalidInputPath))
        }),
{
}

/// What the caller meets while it takes the steps of a conversion.
pub struct Course {
    /// What reading the document brings: its text, or the cause of the failure.
    pub reading: Result<Seq<char>, Seq<char>>,
    /// Why the markup cannot be staged; `None` where it can.
    pub staging_failure: Option<Seq<char>>,
    /// What running the compiler brings.
    pub compiling: ConversionEventModel,
}

impl Course {
    /// What running the compiler brings is one of the events that tell of it.
    pub open spec fn well_formed(self) -> bool {
        self.compiling is CompilerMissing || self.compiling is CompilerNotRun || self.compiling
            is CompilerExited
    }

    /// The events that the caller brings, one for each step that the conversion asks for.
    pub open spec fn events(self) -> Seq<ConversionEventModel> {
        match self.reading {
            Err(cause) => seq![ConversionEventModel::Begin, ConversionEventModel::ReadFailed(cause)],
            Ok(text) => match self.staging_failure {
                Some(cause) => seq![
                    ConversionEventModel::Begin,
                    ConversionEventModel::DocumentRead(text),
                    ConversionEventModel::StageFailed(cause),
                ],
                None => seq![
                    ConversionEventModel::Begin,
                    ConversionEventModel::DocumentRead(text),
                    ConversionEventModel::Staged,
                    self.compiling,
                ],
            },
        }
    }

    /// The error that the conversion fails with; `None` where it succeeds.
    pub open spec fn failure(self, job: ConversionJobModel) -> Option<AppErrorModel> {
        match self.reading {
            Err(cause) => Some(AppErrorModel::Io(cause)),
            Ok(_) => match self.staging_failure {
                Some(cause) => Some(AppErrorModel::Io(cause)),
                None => match self.compiling {
                    ConversionEventModel::CompilerMissing => Some(AppErrorModel::ToolNotFound),
                    ConversionEventModel::CompilerNotRun(cause) => Some(AppErrorModel::Io(cause)),
                    ConversionEventModel::CompilerExited { success, diagnostics } => if success {
                        None
                    } else {
                        Some(
                            AppErrorModel::CompilerFailure {
                                input: path_text(job.input),
                                diagnostics,
                            },
                        )
                    },
                    _ => None,
                },
            },
        }
    }
}

/// A conversion whose caller takes each step that is asked for is over after those steps: it
/// is done where reading, staging and compiling all went well, and has failed with the error of
/// the first step that did not. A missing compiler gives the error that names the tool.
pub proof fn conversion_comes_to_an_end(job: ConversionJobModel, course: Course)
    requires
        course.well_formed(),
    ensures
        state_after(job, ConversionStateModel::Idle, course.events()) == match course.failure(job) {
            Some(error) => ConversionStateModel::Failed(error),
            None => ConversionStateModel::Done,
        },
        is_terminal(state_after(job, ConversionStateModel::Idle, course.events())),
{
    reveal_with_fuel(state_after, 5);
}

/// How a conversion ended, where it is over.
pub open spec fn result_of(state: ConversionStateModel) -> Option<ConversionResultModel> {
    match state {
        ConversionStateModel::Done => Some(ConversionResultModel::Success),
        ConversionStateModel::Failed(error) => Some(
            ConversionResultModel::Failure(message_of(error)),
        ),
        _ => None,
    }
}

/// How the conversion ended: `None` as long as it is not over.
pub fn conversion_result(state: &ConversionState) -> (result: Option<ConversionResult>)
    ensures
        match result {
            Some(ended) => result_of(state@) == Some(ended@),
            None => result_of(state@) is None,
        },
{
    match state {
        ConversionState::Done => Some(ConversionResult::Success),
        ConversionState::Failed(error) => Some(ConversionResult::Failure(error.message())),
        _ => None,
    }
}

} // verus!

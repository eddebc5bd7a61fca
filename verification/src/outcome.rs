//! How a run ends: the outcomes, the kinds of failure and their messages.

use vstd::prelude::*;
use vstd::string::StringExecFns;
use crate::text::{has_substring, occurs_at};

verus! {

/// Why a run did not deliver a result. Every kind ends the run; nothing is
/// tried twice.
#[derive(Clone, Debug, PartialEq, Eq)]
pub enum PipelineError {
    /// The source file is not there.
    PreconditionFailed { path: String },
    /// The tool could not be started.
    SpawnFailed { detail: String },
    /// The tool ran and reported failure; `stderr` is all it wrote to its
    /// error stream.
    ToolExecutionFailed { stderr: String },
    /// A progress event could not be delivered.
    TelemetryDeliveryFailed { detail: String },
    /// No place to save to was chosen.
    UserCancelled,
    /// The result could not be copied to the chosen place.
    PersistFailed { detail: String },
}

/// Mathematical content of a [`PipelineError`].
pub enum PipelineErrorView {
    PreconditionFailed { path: Seq<char> },
    SpawnFailed { detail: Seq<char> },
    ToolExecutionFailed { stderr: Seq<char> },
    TelemetryDeliveryFailed { detail: Seq<char> },
    UserCancelled,
    PersistFailed { detail: Seq<char> },
}

impl View for PipelineError {
    type V = PipelineErrorView;

    open spec fn view(&self) -> PipelineErrorView {
        match self {
            PipelineError::PreconditionFailed { path } => PipelineErrorView::PreconditionFailed {
                path: path@,
            },
            PipelineError::SpawnFailed { detail } => PipelineErrorView::SpawnFailed {
                detail: detail@,
            },
            PipelineError::ToolExecutionFailed { stderr } => PipelineErrorView::ToolExecutionFailed {
                stderr: stderr@,
            },
            PipelineError::TelemetryDeliveryFailed {
                detail,
            } => PipelineErrorView::TelemetryDeliveryFailed { detail: detail@ },
            PipelineError::UserCancelled => PipelineErrorView::UserCancelled,
            PipelineError::PersistFailed { detail } => PipelineErrorView::PersistFailed {
                detail: detail@,
            },
        }
    }
}

/// The one result of a run.
#[derive(Clone, Debug, PartialEq, Eq)]
pub enum RunOutcome {
    /// The result was saved at this path.
    Succeeded(String),
    /// No place to save to was chosen. This is not a failure.
    CancelledByUser,
    /// The run failed; the reason is never [`PipelineError::UserCancelled`].
    Failed(PipelineError),
}

/// Mathematical content of a [`RunOutcome`].
pub enum RunOutcomeView {
    Succeeded(Seq<char>),
    CancelledByUser,
    Failed(PipelineErrorView),
}

impl RunOutcomeView {
    /// A cancelled run is told apart from a failed one: `Failed` never holds
    /// the cancellation.
    pub open spec fn well_formed(self) -> bool {
        self matches RunOutcomeView::Failed(reason) ==> reason != PipelineErrorView::UserCancelled
    }

    /// The outcome as a result: the saved path, or the error that names why
    /// there is none.
    pub open spec fn as_result(self) -> Result<Seq<char>, PipelineErrorView> {
        match self {
            RunOutcomeView::Succeeded(path) => Ok(path),
            RunOutcomeView::CancelledByUser => Err(PipelineErrorView::UserCancelled),
            RunOutcomeView::Failed(reason) => Err(reason),
        }
    }
}

impl View for RunOutcome {
    type V = RunOutcomeView;

    open spec fn view(&self) -> RunOutcomeView {
        match self {
            RunOutcome::Succeeded(path) => RunOutcomeView::Succeeded(path@),
            RunOutcome::CancelledByUser => RunOutcomeView::CancelledByUser,
            RunOutcome::Failed(reason) => RunOutcomeView::Failed(reason@),
        }
    }
}

/// The text shown for an error.
pub open spec fn error_message(error: PipelineErrorView) -> Seq<char> {
    match error {
        PipelineErrorView::PreconditionFailed { path } => "Arquivo de entrada não encontrado: \""@
            + path + "\""@,
        PipelineErrorView::SpawnFailed { detail } => detail,
        PipelineErrorView::ToolExecutionFailed { stderr } => "Erro no FFmpeg: "@ + stderr,
        PipelineErrorView::TelemetryDeliveryFailed { detail } => detail,
        PipelineErrorView::UserCancelled => "Operação cancelada pelo usuário"@,
        PipelineErrorView::PersistFailed { detail } => detail,
    }
}

impl PipelineError {
    /// The text shown for this error. A failure that comes with a detail
    /// from outside shows that detail; the tool's error stream is shown in
    /// full behind a fixed heading.
    pub fn message(&self) -> (text: String)
        ensures
            text@ == error_message(self@),
    {
        match self {
            PipelineError::PreconditionFailed { path } => String::from_str(
                "Arquivo de entrada não encontrado: \"",
            ).concat(path.as_str()).concat("\""),
            PipelineError::SpawnFailed { detail } => detail.clone(),
            PipelineError::ToolExecutionFailed { stderr } => String::from_str(
                "Erro no FFmpeg: ",
            ).concat(stderr.as_str()),
            PipelineError::TelemetryDeliveryFailed { detail } => detail.clone(),
            PipelineError::UserCancelled => String::from_str("Operação cancelada pelo usuário"),
            PipelineError::PersistFailed { detail } => detail.clone(),
        }
    }
}

impl RunOutcome {
    /// The outcome as a result: the saved path on success, else the error.
    /// A cancelled run gives [`PipelineError::UserCancelled`].
    pub fn into_result(self) -> (result: Result<String, PipelineError>)
        ensures
            match result {
                Ok(path) => self@.as_result() == Ok::<Seq<char>, PipelineErrorView>(path@),
                Err(error) => self@.as_result() == Err::<Seq<char>, PipelineErrorView>(error@),
            },
    {
        match self {
            RunOutcome::Succeeded(path) => Ok(path),
            RunOutcome::CancelledByUser => Err(PipelineError::UserCancelled),
            RunOutcome::Failed(reason) => Err(reason),
        }
    }

    /// The outcome as the caller sees it: the saved path on success, else
    /// the message of the error.
    pub fn into_message(self) -> (result: Result<String, String>)
        ensures
            match result {
                Ok(path) => self@.as_result() == Ok::<Seq<char>, PipelineErrorView>(path@),
                Err(text) => self@.as_result() is Err && text@ == error_message(
                    self@.as_result()->Err_0,
                ),
            },
    {
        match self.into_result() {
            Ok(path) => Ok(path),
            Err(error) => Err(error.message()),
        }
    }
}

/// The message of a tool failure holds the whole error stream, at its end.
pub proof fn lemma_tool_failure_message_holds_stderr(stderr: Seq<char>)
    ensures
        has_substring(
            error_message(PipelineErrorView::ToolExecutionFailed { stderr }),
            stderr,
        ),
{
    let heading = "Erro no FFmpeg: "@;
    let message = error_message(PipelineErrorView::ToolExecutionFailed { stderr });
    assert(message == heading + stderr);
    assert(message.subrange(heading.len() as int, (heading.len() + stderr.len()) as int) == stderr);
    assert(occurs_at(message, stderr, heading.len() as int));
}

} // verus!

//! One run of the pipeline as a state machine: the caller performs each
//! action and hands back what came of it, and the run decides what is next.

use vstd::prelude::*;
use vstd::string::StringExecFns;
use crate::artifacts::{
    suggested_file_name, suggested_name, TempArtifacts, TempArtifactsView, OUTPUT_EXTENSION,
    SAVE_FILTER_NAME, SAVE_TITLE,
};
use crate::command::{build_stage_args, runs_tool, stage_args};
use crate::outcome::{PipelineError, PipelineErrorView, RunOutcome, RunOutcomeView};
use crate::progress::{
    observation_of, ExtractorState, ProcessProgress, ProcessProgressView, ProgressExtractor,
};
use crate::quality::{profile_of, resolve, tier_of, EncoderProfile, VideoQuality};
use crate::stage::{
    stage_checkpoint, stage_index, stage_label, stage_range, PipelineStage, FULL_PROGRESS,
};

verus! {

/// What came of the action that the run asked for last.
#[derive(Clone, Debug, PartialEq, Eq)]
pub enum Event {
    /// Answer to [`Action::CheckSource`].
    SourceChecked { exists: bool },
    /// The progress event was taken by the sink.
    Delivered,
    /// The progress event could not be delivered.
    DeliveryFailed { detail: String },
    /// The tool could not be started.
    SpawnFailed { detail: String },
    /// The running tool wrote this line to its standard output.
    OutputLine { line: String },
    /// The tool has ended; `stderr` is all it wrote to its error stream.
    Exited { success: bool, stderr: String },
    /// Answer to [`Action::AskSaveLocation`]: the chosen path, if any.
    SaveLocation { chosen: Option<String> },
    /// The result was copied.
    Persisted,
    /// The result could not be copied.
    PersistFailed { detail: String },
    /// The removal of the temporary files was attempted. Whether a file was
    /// there, and whether its removal worked, is of no account.
    CleanedUp,
}

/// Mathematical content of an [`Event`].
pub enum EventView {
    SourceChecked { exists: bool },
    Delivered,
    DeliveryFailed { detail: Seq<char> },
    SpawnFailed { detail: Seq<char> },
    OutputLine { line: Seq<char> },
    Exited { success: bool, stderr: Seq<char> },
    SaveLocation { chosen: Option<Seq<char>> },
    Persisted,
    PersistFailed { detail: Seq<char> },
    CleanedUp,
}

impl View for Event {
    type V = EventView;

    open spec fn view(&self) -> EventView {
        match self {
            Event::SourceChecked { exists } => EventView::SourceChecked { exists: *exists },
            Event::Delivered => EventView::Delivered,
            Event::DeliveryFailed { detail } => EventView::DeliveryFailed { detail: detail@ },
            Event::SpawnFailed { detail } => EventView::SpawnFailed { detail: detail@ },
            Event::OutputLine { line } => EventView::OutputLine { line: line@ },
            Event::Exited { success, stderr } => EventView::Exited {
                success: *success,
                stderr: stderr@,
            },
            Event::SaveLocation { chosen } => EventView::SaveLocation {
                chosen: chosen.deep_view(),
            },
            Event::Persisted => EventView::Persisted,
            Event::PersistFailed { detail } => EventView::PersistFailed { detail: detail@ },
            Event::CleanedUp => EventView::CleanedUp,
        }
    }
}

/// What the caller is to do next.
#[derive(Clone, Debug, PartialEq, Eq)]
pub enum Action {
    /// Find out whether the source file is there.
    CheckSource { path: String },
    /// Deliver this progress event to the sink.
    Emit { event: ProcessProgress },
    /// Start the tool for `stage`. Where `streamed` is set, hand back each
    /// line of its standard output as it comes, and after the last its exit;
    /// else hand back its exit alone.
    RunTool { stage: PipelineStage, program: String, args: Vec<String>, streamed: bool },
    /// Go on reading the output of the tool that is running.
    ReadOutput,
    /// Ask where to save the result.
    AskSaveLocation {
        title: String,
        suggested_name: String,
        filter_name: String,
        extension: String,
    },
    /// Copy the result to the chosen place.
    Persist { from: String, to: String },
    /// Stop the tool if it is still running, then remove these files. A file
    /// that is not there is no error, and neither is a removal that fails.
    Cleanup { paths: Vec<String> },
    /// The run is over, with this outcome.
    Finish { outcome: RunOutcome },
}

/// Mathematical content of an [`Action`].
pub enum ActionView {
    CheckSource { path: Seq<char> },
    Emit { event: ProcessProgressView },
    RunTool { stage: PipelineStage, program: Seq<char>, args: Seq<Seq<char>>, streamed: bool },
    ReadOutput,
    AskSaveLocation {
        title: Seq<char>,
        suggested_name: Seq<char>,
        filter_name: Seq<char>,
        extension: Seq<char>,
    },
    Persist { from: Seq<char>, to: Seq<char> },
    Cleanup { paths: Seq<Seq<char>> },
    Finish { outcome: RunOutcomeView },
}

impl View for Action {
    type V = ActionView;

    open spec fn view(&self) -> ActionView {
        match self {
            Action::CheckSource { path } => ActionView::CheckSource { path: path@ },
            Action::Emit { event } => ActionView::Emit { event: event@ },
            Action::RunTool { stage, program, args, streamed } => ActionView::RunTool {
                stage: *stage,
                program: program@,
                args: args.deep_view(),
                streamed: *streamed,
            },
            Action::ReadOutput => ActionView::ReadOutput,
            Action::AskSaveLocation {
                title,
                suggested_name,
                filter_name,
                extension,
            } => ActionView::AskSaveLocation {
                title: title@,
                suggested_name: suggested_name@,
                filter_name: filter_name@,
                extension: extension@,
            },
            Action::Persist { from, to } => ActionView::Persist { from: from@, to: to@ },
            Action::Cleanup { paths } => ActionView::Cleanup { paths: paths.deep_view() },
            Action::Finish { outcome } => ActionView::Finish { outcome: outcome@ },
        }
    }
}

impl DeepView for Action {
    type V = ActionView;

    open spec fn deep_view(&self) -> ActionView {
        self@
    }
}

/// Where a run stands: what it has asked for and waits to hear of.
#[derive(Clone, Debug, PartialEq, Eq)]
pub enum Phase {
    /// Waits to hear whether the source is there.
    CheckingSource,
    /// The event that opens this stage is out for delivery.
    Announcing(PipelineStage),
    /// The tool of this stage is running.
    Running(PipelineStage),
    /// An event read off the tool's output is out for delivery.
    Reporting,
    /// Waits for the place to save to.
    AwaitingSaveLocation,
    /// The result is being copied to this path.
    Persisting(String),
    /// The temporary files are being removed; this outcome is owed after.
    CleaningUp(RunOutcome),
    /// The closing event is out for delivery; the result is at this path.
    Completing(String),
    /// The outcome has been given. Nothing more is awaited.
    Finished,
}

/// Mathematical content of a [`Phase`].
pub enum PhaseView {
    CheckingSource,
    Announcing(PipelineStage),
    Running(PipelineStage),
    Reporting,
    AwaitingSaveLocation,
    Persisting(Seq<char>),
    CleaningUp(RunOutcomeView),
    Completing(Seq<char>),
    Finished,
}

impl View for Phase {
    type V = PhaseView;

    open spec fn view(&self) -> PhaseView {
        match self {
            Phase::CheckingSource => PhaseView::CheckingSource,
            Phase::Announcing(stage) => PhaseView::Announcing(*stage),
            Phase::Running(stage) => PhaseView::Running(*stage),
            Phase::Reporting => PhaseView::Reporting,
            Phase::AwaitingSaveLocation => PhaseView::AwaitingSaveLocation,
            Phase::Persisting(path) => PhaseView::Persisting(path@),
            Phase::CleaningUp(outcome) => PhaseView::CleaningUp(outcome@),
            Phase::Completing(path) => PhaseView::Completing(path@),
            Phase::Finished => PhaseView::Finished,
        }
    }
}

impl PhaseView {
    /// The stage of the pipeline that a phase belongs to.
    pub open spec fn stage(self) -> PipelineStage {
        match self {
            PhaseView::CheckingSource => PipelineStage::ExtractContent,
            PhaseView::Announcing(stage) => stage,
            PhaseView::Running(stage) => stage,
            PhaseView::Reporting => PipelineStage::ExtractContent,
            PhaseView::AwaitingSaveLocation => PipelineStage::AwaitSaveLocation,
            PhaseView::Persisting(_) => PipelineStage::Persist,
            PhaseView::CleaningUp(_) => PipelineStage::Cleanup,
            PhaseView::Completing(_) => PipelineStage::Cleanup,
            PhaseView::Finished => PipelineStage::Cleanup,
        }
    }

    /// The cleanup has been ordered: all that is left is to give the
    /// outcome.
    pub open spec fn winding_down(self) -> bool {
        self is CleaningUp || self is Completing || self is Finished
    }
}

/// What is fixed when a run starts.
#[derive(Clone, Debug)]
pub struct Job {
    /// The transcoding tool.
    pub tool: String,
    /// The source file.
    pub source: String,
    /// The file name offered for the result.
    pub suggestion: String,
    /// The encoder settings.
    pub quality: VideoQuality,
    /// The temporary files.
    pub temp: TempArtifacts,
}

/// Mathematical content of a [`Job`].
pub struct JobView {
    pub tool: Seq<char>,
    pub source: Seq<char>,
    pub suggestion: Seq<char>,
    pub profile: EncoderProfile,
    pub temp: TempArtifactsView,
}

impl View for Job {
    type V = JobView;

    open spec fn view(&self) -> JobView {
        JobView {
            tool: self.tool@,
            source: self.source@,
            suggestion: self.suggestion@,
            profile: self.quality@,
            temp: self.temp@,
        }
    }
}

/// Mathematical content of a [`Run`].
pub struct RunView {
    pub phase: PhaseView,
    pub job: JobView,
    /// The extractor of the content extraction, the one stage whose output
    /// is read.
    pub extractor: ExtractorState,
}

/// The event that opens a stage: its label at its checkpoint.
pub open spec fn opening_event(stage: PipelineStage) -> ProcessProgressView {
    ProcessProgressView { stage: stage_label(stage), progress: stage_checkpoint(stage) }
}

/// The event that closes a run that succeeded: the label of the last stage
/// at one hundred percent.
pub open spec fn closing_event() -> ProcessProgressView {
    ProcessProgressView {
        stage: stage_label(PipelineStage::Cleanup),
        progress: FULL_PROGRESS as int,
    }
}

/// The order to start the tool of a stage, with the arguments of that stage.
/// Only the content extraction is streamed.
pub open spec fn tool_order(job: JobView, stage: PipelineStage) -> ActionView {
    ActionView::RunTool {
        stage,
        program: job.tool,
        args: match stage_args(stage, job.source, job.profile, job.temp) {
            Some(args) => args,
            None => Seq::empty(),
        },
        streamed: stage == PipelineStage::ExtractContent,
    }
}

impl RunView {
    /// The state in which a run starts.
    pub open spec fn initial(job: JobView) -> RunView {
        RunView {
            phase: PhaseView::CheckingSource,
            job,
            extractor: ExtractorState::initial(
                stage_label(PipelineStage::ExtractContent),
                stage_range(PipelineStage::ExtractContent),
            ),
        }
    }

    /// The first action of a run.
    pub open spec fn first_action(job: JobView) -> ActionView {
        ActionView::CheckSource { path: job.source }
    }

    /// What holds of every state that a run can be in.
    pub open spec fn well_formed(self) -> bool {
        &&& self.extractor.well_formed()
        &&& self.extractor.label == stage_label(PipelineStage::ExtractContent)
        &&& self.extractor.range == stage_range(PipelineStage::ExtractContent)
        &&& self.phase matches PhaseView::Announcing(stage) ==> stage_index(stage) <= stage_index(
            PipelineStage::AwaitSaveLocation,
        )
        &&& self.phase matches PhaseView::Running(stage) ==> runs_tool(stage)
        &&& self.phase matches PhaseView::CleaningUp(outcome) ==> outcome.well_formed()
    }

    /// The same run in another phase.
    pub open spec fn in_phase(self, phase: PhaseView) -> RunView {
        RunView { phase, job: self.job, extractor: self.extractor }
    }

    /// The order to remove the temporary files.
    pub open spec fn cleanup(self) -> ActionView {
        ActionView::Cleanup { paths: self.job.temp.all() }
    }

    /// Gives up: the temporary files are removed, and the failure is owed.
    pub open spec fn fail(self, reason: PipelineErrorView) -> (RunView, ActionView) {
        (self.in_phase(PhaseView::CleaningUp(RunOutcomeView::Failed(reason))), self.cleanup())
    }

    /// Opens a stage.
    pub open spec fn announce(self, stage: PipelineStage) -> (RunView, ActionView) {
        (
            self.in_phase(PhaseView::Announcing(stage)),
            ActionView::Emit { event: opening_event(stage) },
        )
    }

    /// Starts the tool of a stage.
    pub open spec fn start_tool(self, stage: PipelineStage) -> (RunView, ActionView) {
        (self.in_phase(PhaseView::Running(stage)), tool_order(self.job, stage))
    }

    /// Asks where to save the result.
    pub open spec fn ask_save_location(self) -> (RunView, ActionView) {
        (
            self.in_phase(PhaseView::AwaitingSaveLocation),
            ActionView::AskSaveLocation {
                title: SAVE_TITLE@,
                suggested_name: self.job.suggestion,
                filter_name: SAVE_FILTER_NAME@,
                extension: OUTPUT_EXTENSION@,
            },
        )
    }

    /// What follows once the event that opens `stage` is delivered.
    pub open spec fn after_announcement(self, stage: PipelineStage) -> (RunView, ActionView) {
        match stage {
            PipelineStage::ExtractContent => self.start_tool(stage),
            PipelineStage::ExtractFace => self.start_tool(stage),
            PipelineStage::Combine => self.start_tool(stage),
            PipelineStage::Finalize => self.announce(PipelineStage::AwaitSaveLocation),
            _ => self.ask_save_location(),
        }
    }

    /// What follows once the tool of `stage` has ended well.
    pub open spec fn after_tool(self, stage: PipelineStage) -> (RunView, ActionView) {
        match stage {
            PipelineStage::ExtractContent => self.announce(PipelineStage::ExtractFace),
            PipelineStage::ExtractFace => self.announce(PipelineStage::Combine),
            _ => self.announce(PipelineStage::Finalize),
        }
    }

    /// What follows a line of the tool's output.
    pub open spec fn after_line(self, line: Seq<char>) -> (RunView, ActionView) {
        let seen = observation_of(line);
        let extractor = self.extractor.after(seen);
        match self.extractor.event(seen) {
            Some(event) => (
                RunView { phase: PhaseView::Reporting, job: self.job, extractor },
                ActionView::Emit { event },
            ),
            None => (RunView { phase: self.phase, job: self.job, extractor }, ActionView::ReadOutput),
        }
    }

    /// What follows once the temporary files are removed.
    pub open spec fn after_cleanup(self, outcome: RunOutcomeView) -> (RunView, ActionView) {
        match outcome {
            RunOutcomeView::Succeeded(path) => (
                self.in_phase(PhaseView::Completing(path)),
                ActionView::Emit { event: closing_event() },
            ),
            _ => (self.in_phase(PhaseView::Finished), ActionView::Finish { outcome }),
        }
    }

    /// The transition: the state and the action that follow `event`, or
    /// `None` where the run does not await this event.
    pub open spec fn step(self, event: EventView) -> Option<(RunView, ActionView)> {
        match self.phase {
            PhaseView::CheckingSource => match event {
                EventView::SourceChecked { exists } => Some(
                    if exists {
                        self.announce(PipelineStage::ExtractContent)
                    } else {
                        self.fail(PipelineErrorView::PreconditionFailed { path: self.job.source })
                    },
                ),
                _ => None,
            },
            PhaseView::Announcing(stage) => match event {
                EventView::Delivered => Some(self.after_announcement(stage)),
                EventView::DeliveryFailed { detail } => Some(
                    self.fail(PipelineErrorView::TelemetryDeliveryFailed { detail }),
                ),
                _ => None,
            },
            PhaseView::Running(stage) => match event {
                EventView::SpawnFailed { detail } => Some(
                    self.fail(PipelineErrorView::SpawnFailed { detail }),
                ),
                EventView::Exited { success, stderr } => Some(
                    if success {
                        self.after_tool(stage)
                    } else {
                        self.fail(PipelineErrorView::ToolExecutionFailed { stderr })
                    },
                ),
                EventView::OutputLine { line } => if stage == PipelineStage::ExtractContent {
                    Some(self.after_line(line))
                } else {
                    None
                },
                _ => None,
            },
            PhaseView::Reporting => match event {
                EventView::Delivered => Some(
                    (
                        self.in_phase(PhaseView::Running(PipelineStage::ExtractContent)),
                        ActionView::ReadOutput,
                    ),
                ),
                EventView::DeliveryFailed { detail } => Some(
                    self.fail(PipelineErrorView::TelemetryDeliveryFailed { detail }),
                ),
                _ => None,
            },
            PhaseView::AwaitingSaveLocation => match event {
                EventView::SaveLocation { chosen: Some(path) } => Some(
                    (
                        self.in_phase(PhaseView::Persisting(path)),
                        ActionView::Persist { from: self.job.temp.combined, to: path },
                    ),
                ),
                EventView::SaveLocation { chosen: None } => Some(
                    (
                        self.in_phase(PhaseView::CleaningUp(RunOutcomeView::CancelledByUser)),
                        self.cleanup(),
                    ),
                ),
                _ => None,
            },
            PhaseView::Persisting(path) => match event {
                EventView::Persisted => Some(
                    (
                        self.in_phase(PhaseView::CleaningUp(RunOutcomeView::Succeeded(path))),
                        self.cleanup(),
                    ),
                ),
                EventView::PersistFailed { detail } => Some(
                    self.fail(PipelineErrorView::PersistFailed { detail }),
                ),
                _ => None,
            },
            PhaseView::CleaningUp(outcome) => match event {
                EventView::CleanedUp => Some(self.after_cleanup(outcome)),
                _ => None,
            },
            PhaseView::Completing(path) => match event {
                EventView::Delivered => Some(
                    (
                        self.in_phase(PhaseView::Finished),
                        ActionView::Finish { outcome: RunOutcomeView::Succeeded(path) },
                    ),
                ),
                EventView::DeliveryFailed { detail } => Some(
                    (
                        self.in_phase(PhaseView::Finished),
                        ActionView::Finish {
                            outcome: RunOutcomeView::Failed(
                                PipelineErrorView::TelemetryDeliveryFailed { detail },
                            ),
                        },
                    ),
                ),
                _ => None,
            },
            PhaseView::Finished => None,
        }
    }

    /// The state after `event`; an event that is not awaited changes
    /// nothing.
    pub open spec fn after(self, event: EventView) -> RunView {
        match self.step(event) {
            Some((next, _)) => next,
            None => self,
        }
    }

    /// The action that `event` brings about; none for an event that is not
    /// awaited.
    pub open spec fn action_on(self, event: EventView) -> Option<ActionView> {
        match self.step(event) {
            Some((_, action)) => Some(action),
            None => None,
        }
    }
}

impl Job {
    /// The job that transcodes `source` with `tool` at the quality that
    /// `quality` names. `file_name` is the last component of `source`, where
    /// it has one; the name offered for the result is made from it.
    pub fn new(
        tool: &str,
        source: &str,
        file_name: Option<&str>,
        quality: &str,
        temp: TempArtifacts,
    ) -> (job: Job)
        ensures
            job@ == (JobView {
                tool: tool@,
                source: source@,
                suggestion: suggested_name(file_name.deep_view()),
                profile: profile_of(tier_of(quality@)),
                temp: temp@,
            }),
    {
        Job {
            tool: String::from_str(tool),
            source: String::from_str(source),
            suggestion: suggested_file_name(file_name),
            quality: resolve(quality),
            temp,
        }
    }
}

/// One run of the pipeline.
#[derive(Debug)]
pub struct Run {
    phase: Phase,
    job: Job,
    extractor: ProgressExtractor,
}

impl View for Run {
    type V = RunView;

    closed spec fn view(&self) -> RunView {
        RunView { phase: self.phase@, job: self.job@, extractor: self.extractor@ }
    }
}

/// The order to remove the temporary files.
fn cleanup_action(job: &Job) -> (action: Action)
    ensures
        action@ == (ActionView::Cleanup { paths: job@.temp.all() }),
{
    Action::Cleanup { paths: job.temp.all() }
}

/// The event that opens a stage, to be delivered.
fn opening_action(stage: PipelineStage) -> (action: Action)
    ensures
        action@ == (ActionView::Emit { event: opening_event(stage) }),
{
    Action::Emit {
        event: ProcessProgress {
            stage: String::from_str(stage.label()),
            progress: stage.checkpoint(),
        },
    }
}

/// The event that closes a run that succeeded, to be delivered.
fn closing_action() -> (action: Action)
    ensures
        action@ == (ActionView::Emit { event: closing_event() }),
{
    Action::Emit {
        event: ProcessProgress {
            stage: String::from_str(PipelineStage::Cleanup.label()),
            progress: FULL_PROGRESS,
        },
    }
}

/// The order to start the tool of a stage.
fn tool_action(job: &Job, stage: PipelineStage) -> (action: Action)
    ensures
        action@ == tool_order(job@, stage),
{
    let args = match build_stage_args(stage, job.source.as_str(), &job.quality, &job.temp) {
        Some(args) => args,
        None => {
            let none: Vec<String> = Vec::new();
            assert(none.deep_view() =~= Seq::<Seq<char>>::empty());
            none
        },
    };
    let streamed = match stage {
        PipelineStage::ExtractContent => true,
        _ => false,
    };
    Action::RunTool { stage, program: job.tool.clone(), args, streamed }
}

/// The request for a place to save to.
fn ask_action(job: &Job) -> (action: Action)
    ensures
        action@ == (ActionView::AskSaveLocation {
            title: SAVE_TITLE@,
            suggested_name: job@.suggestion,
            filter_name: SAVE_FILTER_NAME@,
            extension: OUTPUT_EXTENSION@,
        }),
{
    Action::AskSaveLocation {
        title: String::from_str(SAVE_TITLE),
        suggested_name: job.suggestion.clone(),
        filter_name: String::from_str(SAVE_FILTER_NAME),
        extension: String::from_str(OUTPUT_EXTENSION),
    }
}

impl Run {
    /// Holds of every run: its state is well formed.
    #[verifier::type_invariant]
    spec fn always_well_formed(self) -> bool {
        self@.well_formed()
    }

    /// Starts a run of `job`: the run, and its first action.
    pub fn start(job: Job) -> (begun: (Run, Action))
        ensures
            begun.0@ == RunView::initial(job@),
            begun.0@.well_formed(),
            begun.1@ == RunView::first_action(job@),
    {
        let action = Action::CheckSource { path: job.source.clone() };
        let extractor = ProgressExtractor::for_stage(PipelineStage::ExtractContent);
        (Run { phase: Phase::CheckingSource, job, extractor }, action)
    }

    /// Where the run stands.
    pub fn phase(&self) -> (phase: &Phase)
        ensures
            phase@ == self@.phase,
    {
        &self.phase
    }

    /// What was fixed when the run started.
    pub fn job(&self) -> (job: &Job)
        ensures
            job@ == self@.job,
    {
        &self.job
    }

    /// The extractor of the streamed stage.
    pub fn extractor(&self) -> (extractor: &ProgressExtractor)
        ensures
            extractor@ == self@.extractor,
    {
        &self.extractor
    }

    /// Whether the outcome has been given.
    pub fn is_finished(&self) -> (done: bool)
        ensures
            done == (self@.phase is Finished),
    {
        match self.phase {
            Phase::Finished => true,
            _ => false,
        }
    }

    /// Gives up with `reason`.
    fn fail(job: Job, extractor: ProgressExtractor, reason: PipelineError) -> (next: (
        Run,
        Option<Action>,
    ))
        requires
            (RunView {
                phase: PhaseView::CleaningUp(RunOutcomeView::Failed(reason@)),
                job: job@,
                extractor: extractor@,
            }).well_formed(),
        ensures
            next.0@ == (RunView {
                phase: PhaseView::CleaningUp(RunOutcomeView::Failed(reason@)),
                job: job@,
                extractor: extractor@,
            }),
            next.1.deep_view() == Some(ActionView::Cleanup { paths: job@.temp.all() }),
    {
        let action = cleanup_action(&job);
        (
            Run {
                phase: Phase::CleaningUp(RunOutcome::Failed(reason)),
                job: job,
                extractor,
            },
            Some(action),
        )
    }

    /// Takes in what came of the last action, and says what is next. An
    /// event that the run does not await changes nothing and brings no
    /// action.
    pub fn advance(self, event: Event) -> (next: (Run, Option<Action>))
        ensures
            self@.well_formed(),
            next.0@.well_formed(),
            next.0@ == self@.after(event@),
            next.1.deep_view() == self@.action_on(event@),
    {
        proof {
            use_type_invariant(&self);
        }
        let Run { phase, job, extractor } = self;
        match phase {
            Phase::CheckingSource => match event {
                Event::SourceChecked { exists } => {
                    if exists {
                        let stage = PipelineStage::ExtractContent;
                        (
                            Run { phase: Phase::Announcing(stage), job, extractor },
                            Some(opening_action(stage)),
                        )
                    } else {
                        let reason = PipelineError::PreconditionFailed { path: job.source.clone() };
                        Run::fail(job, extractor, reason)
                    }
                },
                _ => (Run { phase: Phase::CheckingSource, job, extractor }, None),
            },
            Phase::Announcing(stage) => match event {
                Event::Delivered => match stage {
                    PipelineStage::ExtractContent
                    | PipelineStage::ExtractFace
                    | PipelineStage::Combine => {
                        let action = tool_action(&job, stage);
                        (Run { phase: Phase::Running(stage), job, extractor }, Some(action))
                    },
                    PipelineStage::Finalize => {
                        let following = PipelineStage::AwaitSaveLocation;
                        (
                            Run { phase: Phase::Announcing(following), job, extractor },
                            Some(opening_action(following)),
                        )
                    },
                    _ => {
                        let action = ask_action(&job);
                        (Run { phase: Phase::AwaitingSaveLocation, job, extractor }, Some(action))
                    },
                },
                Event::DeliveryFailed { detail } => Run::fail(
                    job,
                    extractor,
                    PipelineError::TelemetryDeliveryFailed { detail },
                ),
                _ => (Run { phase: Phase::Announcing(stage), job, extractor }, None),
            },
            Phase::Running(stage) => match event {
                Event::SpawnFailed { detail } => Run::fail(
                    job,
                    extractor,
                    PipelineError::SpawnFailed { detail },
                ),
                Event::Exited { success, stderr } => {
                    if success {
                        let following = match stage {
                            PipelineStage::ExtractContent => PipelineStage::ExtractFace,
                            PipelineStage::ExtractFace => PipelineStage::Combine,
                            _ => PipelineStage::Finalize,
                        };
                        (
                            Run { phase: Phase::Announcing(following), job, extractor },
                            Some(opening_action(following)),
                        )
                    } else {
                        Run::fail(job, extractor, PipelineError::ToolExecutionFailed { stderr })
                    }
                },
                Event::OutputLine { line } => match stage {
                    PipelineStage::ExtractContent => {
                        let mut extractor = extractor;
                        match extractor.observe(line.as_str()) {
                            Some(event) => (
                                Run { phase: Phase::Reporting, job, extractor },
                                Some(Action::Emit { event }),
                            ),
                            None => (
                                Run { phase: Phase::Running(stage), job, extractor },
                                Some(Action::ReadOutput),
                            ),
                        }
                    },
                    _ => (Run { phase: Phase::Running(stage), job, extractor }, None),
                },
                _ => (Run { phase: Phase::Running(stage), job, extractor }, None),
            },
            Phase::Reporting => match event {
                Event::Delivered => (
                    Run { phase: Phase::Running(PipelineStage::ExtractContent), job, extractor },
                    Some(Action::ReadOutput),
                ),
                Event::DeliveryFailed { detail } => Run::fail(
                    job,
                    extractor,
                    PipelineError::TelemetryDeliveryFailed { detail },
                ),
                _ => (Run { phase: Phase::Reporting, job, extractor }, None),
            },
            Phase::AwaitingSaveLocation => match event {
                Event::SaveLocation { chosen: Some(path) } => {
                    let action = Action::Persist { from: job.temp.combined.clone(), to: path.clone() };
                    (Run { phase: Phase::Persisting(path), job, extractor }, Some(action))
                },
                Event::SaveLocation { chosen: None } => {
                    let action = cleanup_action(&job);
                    (
                        Run { phase: Phase::CleaningUp(RunOutcome::CancelledByUser), job, extractor },
                        Some(action),
                    )
                },
                _ => (Run { phase: Phase::AwaitingSaveLocation, job, extractor }, None),
            },
            Phase::Persisting(path) => match event {
                Event::Persisted => {
                    let action = cleanup_action(&job);
                    (
                        Run { phase: Phase::CleaningUp(RunOutcome::Succeeded(path)), job, extractor },
                        Some(action),
                    )
                },
                Event::PersistFailed { detail } => Run::fail(
                    job,
                    extractor,
                    PipelineError::PersistFailed { detail },
                ),
                _ => (Run { phase: Phase::Persisting(path), job, extractor }, None),
            },
            Phase::CleaningUp(outcome) => match event {
                Event::CleanedUp => match outcome {
                    RunOutcome::Succeeded(path) => (
                        Run { phase: Phase::Completing(path), job, extractor },
                        Some(closing_action()),
                    ),
                    _ => (
                        Run { phase: Phase::Finished, job, extractor },
                        Some(Action::Finish { outcome }),
                    ),
                },
                _ => (Run { phase: Phase::CleaningUp(outcome), job, extractor }, None),
            },
            Phase::Completing(path) => match event {
                Event::Delivered => (
                    Run { phase: Phase::Finished, job, extractor },
                    Some(Action::Finish { outcome: RunOutcome::Succeeded(path) }),
                ),
                Event::DeliveryFailed { detail } => (
                    Run { phase: Phase::Finished, job, extractor },
                    Some(
                        Action::Finish {
                            outcome: RunOutcome::Failed(
                                PipelineError::TelemetryDeliveryFailed { detail },
                            ),
                        },
                    ),
                ),
                _ => (Run { phase: Phase::Completing(path), job, extractor }, None),
            },
            Phase::Finished => (Run { phase: Phase::Finished, job, extractor }, None),
        }
    }
}

} // verus!

//! What holds of every run, whatever events come in.

use vstd::prelude::*;
use crate::outcome::{PipelineErrorView, RunOutcomeView};
use crate::progress::{
    lemma_observation_well_formed, lemma_step_stays_in_range, observation_of,
};
use crate::command::runs_tool;
use crate::run::{
    closing_event, opening_event, tool_order, ActionView, EventView, JobView, PhaseView, RunView,
};
use crate::stage::{
    stage_checkpoint, stage_index, stage_label, stage_range, PipelineStage, FULL_PROGRESS,
    UNITS_PER_PERCENT,
};

verus! {

impl RunView {
    /// The state after a sequence of events.
    pub open spec fn after_all(self, events: Seq<EventView>) -> RunView
        decreases events.len(),
    {
        if events.len() == 0 {
            self
        } else {
            self.after(events[0]).after_all(events.drop_first())
        }
    }

    /// The actions that a sequence of events brings about, in order.
    pub open spec fn actions_over(self, events: Seq<EventView>) -> Seq<ActionView>
        decreases events.len(),
    {
        if events.len() == 0 {
            Seq::empty()
        } else {
            let rest = self.after(events[0]).actions_over(events.drop_first());
            match self.action_on(events[0]) {
                Some(action) => seq![action] + rest,
                None => rest,
            }
        }
    }

    /// A bound from below on the progress of every event still to come.
    pub open spec fn progress_floor(self) -> int {
        match self.phase {
            PhaseView::CheckingSource => 0,
            PhaseView::Announcing(stage) => stage_checkpoint(stage),
            PhaseView::Running(stage) => if stage == PipelineStage::ExtractContent {
                self.extractor.last
            } else {
                stage_checkpoint(stage)
            },
            PhaseView::Reporting => self.extractor.last,
            PhaseView::AwaitingSaveLocation => stage_checkpoint(PipelineStage::AwaitSaveLocation),
            PhaseView::Persisting(_) => stage_checkpoint(PipelineStage::AwaitSaveLocation),
            _ => FULL_PROGRESS as int,
        }
    }
}

/// Every state that a run reaches is well formed.
pub proof fn lemma_step_keeps_well_formed(run: RunView, event: EventView)
    requires
        run.well_formed(),
    ensures
        run.after(event).well_formed(),
{
    if let EventView::OutputLine { line } = event {
        lemma_observation_well_formed(line);
        lemma_step_stays_in_range(run.extractor, observation_of(line));
    }
}

/// A run only moves forward: no event takes it to an earlier stage.
pub proof fn lemma_stages_only_move_forward(run: RunView, event: EventView)
    requires
        run.well_formed(),
    ensures
        stage_index(run.phase.stage()) <= stage_index(run.after(event).phase.stage()),
{
}

/// The floor never sinks and never passes one hundred percent, and an event
/// that is issued lies between the floor before it and the floor after it.
pub proof fn lemma_step_respects_floor(run: RunView, event: EventView)
    requires
        run.well_formed(),
    ensures
        0 <= run.progress_floor() <= run.after(event).progress_floor() <= FULL_PROGRESS,
        run.action_on(event) matches Some(ActionView::Emit { event: issued })
            ==> run.progress_floor() <= issued.progress <= run.after(event).progress_floor(),
{
    lemma_step_keeps_well_formed(run, event);
    if let EventView::OutputLine { line } = event {
        lemma_observation_well_formed(line);
        lemma_step_stays_in_range(run.extractor, observation_of(line));
    }
}

/// Every event carries the label of a stage and a progress inside that
/// stage's share of the scale.
pub proof fn lemma_event_lies_in_its_stage_range(run: RunView, event: EventView)
    requires
        run.well_formed(),
        run.action_on(event) is Some,
        run.action_on(event)->0 is Emit,
    ensures
        exists|stage: PipelineStage|
            {
                &&& run.action_on(event)->0->event.stage == stage_label(stage)
                &&& stage_range(stage).lo * UNITS_PER_PERCENT <= run.action_on(
                    event,
                )->0->event.progress <= stage_range(stage).hi * UNITS_PER_PERCENT
            },
{
    let issued = run.action_on(event)->0->event;
    let witness = choose_stage(run, event);
    if let EventView::OutputLine { line } = event {
        lemma_observation_well_formed(line);
        lemma_step_stays_in_range(run.extractor, observation_of(line));
    }
    assert(issued.stage == stage_label(witness));
    assert(stage_range(witness).lo * UNITS_PER_PERCENT <= issued.progress <= stage_range(
        witness,
    ).hi * UNITS_PER_PERCENT);
}

/// The stage whose label the event issued on `event` carries.
spec fn choose_stage(run: RunView, event: EventView) -> PipelineStage {
    match run.step(event) {
        Some((next, _)) => match next.phase {
            PhaseView::Announcing(stage) => stage,
            PhaseView::Reporting => PipelineStage::ExtractContent,
            _ => PipelineStage::Cleanup,
        },
        None => PipelineStage::Cleanup,
    }
}

/// The progress of an action that is an event; 0 for any other action.
pub open spec fn progress_of(action: ActionView) -> int {
    match action {
        ActionView::Emit { event } => event.progress,
        _ => 0,
    }
}

/// Along a run, progress never decreases: of any two events issued, the
/// later carries no less progress than the earlier, and every event lies on
/// the scale from 0 to one hundred percent.
pub proof fn lemma_progress_never_decreases(run: RunView, events: Seq<EventView>)
    requires
        run.well_formed(),
    ensures
        forall|i: int|
            0 <= i < run.actions_over(events).len() && (#[trigger] run.actions_over(
                events,
            )[i]) is Emit ==> run.progress_floor() <= progress_of(run.actions_over(events)[i])
                <= FULL_PROGRESS,
        forall|i: int, j: int|
            0 <= i < j < run.actions_over(events).len() && (#[trigger] run.actions_over(
                events,
            )[i]) is Emit && (#[trigger] run.actions_over(events)[j]) is Emit ==> progress_of(
                run.actions_over(events)[i],
            ) <= progress_of(run.actions_over(events)[j]),
    decreases events.len(),
{
    if events.len() > 0 {
        let next = run.after(events[0]);
        let rest = next.actions_over(events.drop_first());
        let all = run.actions_over(events);
        lemma_step_keeps_well_formed(run, events[0]);
        lemma_step_respects_floor(run, events[0]);
        lemma_progress_never_decreases(next, events.drop_first());
        match run.action_on(events[0]) {
            Some(action) => {
                assert(all == seq![action] + rest);
                assert forall|i: int| 0 <= i < all.len() && (#[trigger] all[i]) is Emit implies run.progress_floor()
                    <= progress_of(all[i]) <= FULL_PROGRESS by {
                    if i > 0 {
                        assert(all[i] == rest[i - 1]);
                    }
                }
                assert forall|i: int, j: int|
                    0 <= i < j < all.len() && (#[trigger] all[i]) is Emit && (
                    #[trigger] all[j]) is Emit implies progress_of(all[i]) <= progress_of(
                    all[j],
                ) by {
                    assert(all[j] == rest[j - 1]);
                    if i > 0 {
                        assert(all[i] == rest[i - 1]);
                    }
                }
            },
            None => {
                assert(all == rest);
            },
        }
    }
}

/// The event at one hundred percent is issued only once the result has been
/// saved and the temporary files removed, and it is the closing event.
pub proof fn lemma_full_progress_means_saved(run: RunView, event: EventView)
    requires
        run.well_formed(),
        run.action_on(event) matches Some(ActionView::Emit { event: issued }) && issued.progress
            == FULL_PROGRESS,
    ensures
        run.phase matches PhaseView::CleaningUp(RunOutcomeView::Succeeded(_)),
        run.action_on(event) == Some(ActionView::Emit { event: closing_event() }),
{
    if let EventView::OutputLine { line } = event {
        lemma_observation_well_formed(line);
        lemma_step_stays_in_range(run.extractor, observation_of(line));
    }
}

/// Once the outcome has been given, no event brings an action.
pub proof fn lemma_finished_is_silent(run: RunView, events: Seq<EventView>)
    requires
        run.phase is Finished,
    ensures
        run.actions_over(events).len() == 0,
        run.after_all(events) == run,
    decreases events.len(),
{
    if events.len() > 0 {
        lemma_finished_is_silent(run, events.drop_first());
    }
}

/// Once the cleanup has been ordered, the run starts no tool, asks nothing
/// and copies nothing: all that may follow is the closing event and the
/// outcome.
pub proof fn lemma_no_work_after_cleanup(run: RunView, events: Seq<EventView>)
    requires
        run.phase.winding_down(),
    ensures
        run.after_all(events).phase.winding_down(),
        forall|i: int|
            0 <= i < run.actions_over(events).len() ==> (#[trigger] run.actions_over(events)[i])
                is Finish || run.actions_over(events)[i] == (ActionView::Emit {
                event: closing_event(),
            }),
    decreases events.len(),
{
    if events.len() > 0 {
        let next = run.after(events[0]);
        let rest = next.actions_over(events.drop_first());
        let all = run.actions_over(events);
        lemma_no_work_after_cleanup(next, events.drop_first());
        match run.action_on(events[0]) {
            Some(action) => {
                assert(all == seq![action] + rest);
                assert forall|i: int| 0 <= i < all.len() implies (#[trigger] all[i]) is Finish
                    || all[i] == (ActionView::Emit { event: closing_event() }) by {
                    if i > 0 {
                        assert(all[i] == rest[i - 1]);
                    }
                }
            },
            None => {
                assert(all == rest);
            },
        }
    }
}

/// A run gives at most one outcome, and nothing after it.
pub proof fn lemma_outcome_comes_last(run: RunView, events: Seq<EventView>)
    ensures
        forall|i: int|
            0 <= i < run.actions_over(events).len() && (#[trigger] run.actions_over(events)[i])
                is Finish ==> i == run.actions_over(events).len() - 1,
    decreases events.len(),
{
    if events.len() > 0 {
        let next = run.after(events[0]);
        let rest = next.actions_over(events.drop_first());
        let all = run.actions_over(events);
        lemma_outcome_comes_last(next, events.drop_first());
        match run.action_on(events[0]) {
            Some(action) => {
                assert(all == seq![action] + rest);
                if action is Finish {
                    lemma_finished_is_silent(next, events.drop_first());
                }
                assert forall|i: int| 0 <= i < all.len() && (#[trigger] all[i]) is Finish implies i
                    == all.len() - 1 by {
                    if i > 0 {
                        assert(all[i] == rest[i - 1]);
                    }
                }
            },
            None => {
                assert(all == rest);
            },
        }
    }
}

/// No outcome is given before the removal of all three temporary files has
/// been ordered: on every path, failure and cancellation too.
pub proof fn lemma_cleanup_precedes_outcome(run: RunView, events: Seq<EventView>)
    requires
        !run.phase.winding_down(),
    ensures
        forall|j: int|
            0 <= j < run.actions_over(events).len() && (#[trigger] run.actions_over(events)[j])
                is Finish ==> exists|i: int|
                0 <= i < j && run.actions_over(events)[i] == run.cleanup(),
    decreases events.len(),
{
    if events.len() > 0 {
        let next = run.after(events[0]);
        let rest = next.actions_over(events.drop_first());
        let all = run.actions_over(events);
        assert(next.cleanup() == run.cleanup());
        if !next.phase.winding_down() {
            lemma_cleanup_precedes_outcome(next, events.drop_first());
        }
        match run.action_on(events[0]) {
            Some(action) => {
                assert(all == seq![action] + rest);
                assert forall|j: int| 0 <= j < all.len() && (#[trigger] all[j]) is Finish implies exists|
                    i: int,
                | 0 <= i < j && all[i] == run.cleanup() by {
                    assert(j > 0);
                    assert(all[j] == rest[j - 1]);
                    if next.phase.winding_down() {
                        assert(all[0] == run.cleanup());
                    } else {
                        let i = choose|i: int| 0 <= i < j - 1 && rest[i] == run.cleanup();
                        assert(all[i + 1] == rest[i]);
                    }
                }
            },
            None => {
                assert(all == rest);
            },
        }
    }
}

/// The least stage whose tool may still be started, as a position in the
/// pipeline; 7 where none may.
pub open spec fn next_tool_stage(run: RunView) -> int {
    match run.phase {
        PhaseView::CheckingSource => 0,
        PhaseView::Announcing(stage) => stage_index(stage),
        PhaseView::Running(stage) => stage_index(stage) + 1,
        PhaseView::Reporting => 1,
        _ => 7,
    }
}

/// The stage whose tool an action starts, as a position in the pipeline;
/// -1 for an action that starts none.
pub open spec fn started_stage(action: ActionView) -> int {
    match action {
        ActionView::RunTool { stage, .. } => stage_index(stage),
        _ => -1,
    }
}

/// An action that starts the tool starts it for a stage that has one, not
/// before position `least`, with the arguments of that stage.
pub open spec fn orderly_start(job: JobView, least: int, action: ActionView) -> bool {
    match action {
        ActionView::RunTool { stage, .. } => runs_tool(stage) && least <= stage_index(stage)
            && action == tool_order(job, stage),
        _ => true,
    }
}

/// The tool is started in stage order, at most once for a stage, and each
/// time with the arguments of that stage for this run's source, settings and
/// temporary files.
pub proof fn lemma_tools_start_in_stage_order(run: RunView, events: Seq<EventView>)
    requires
        run.well_formed(),
    ensures
        forall|i: int|
            0 <= i < run.actions_over(events).len() ==> orderly_start(
                run.job,
                next_tool_stage(run),
                #[trigger] run.actions_over(events)[i],
            ),
        forall|i: int, j: int|
            0 <= i < j < run.actions_over(events).len() && (#[trigger] run.actions_over(
                events,
            )[i]) is RunTool && (#[trigger] run.actions_over(events)[j]) is RunTool
                ==> started_stage(run.actions_over(events)[i]) < started_stage(
                run.actions_over(events)[j],
            ),
    decreases events.len(),
{
    if events.len() > 0 {
        let next = run.after(events[0]);
        let rest = next.actions_over(events.drop_first());
        let all = run.actions_over(events);
        lemma_step_keeps_well_formed(run, events[0]);
        lemma_tools_start_in_stage_order(next, events.drop_first());
        assert(next.job == run.job);
        assert(next_tool_stage(run) <= next_tool_stage(next));
        match run.action_on(events[0]) {
            Some(action) => {
                assert(all == seq![action] + rest);
                assert(orderly_start(run.job, next_tool_stage(run), action));
                assert(action is RunTool ==> started_stage(action) < next_tool_stage(next));
                assert forall|i: int| 0 <= i < all.len() implies orderly_start(
                    run.job,
                    next_tool_stage(run),
                    #[trigger] all[i],
                ) by {
                    if i > 0 {
                        assert(all[i] == rest[i - 1]);
                    }
                }
                assert forall|i: int, j: int|
                    0 <= i < j < all.len() && (#[trigger] all[i]) is RunTool && (
                    #[trigger] all[j]) is RunTool implies started_stage(all[i]) < started_stage(
                    all[j],
                ) by {
                    assert(all[j] == rest[j - 1]);
                    if i > 0 {
                        assert(all[i] == rest[i - 1]);
                    }
                }
            },
            None => {
                assert(all == rest);
            },
        }
    }
}

/// While the cleanup of a run that did not succeed is under way, the one
/// action that may still come is the outcome that is owed.
pub proof fn lemma_owed_outcome_is_given(
    run: RunView,
    outcome: RunOutcomeView,
    events: Seq<EventView>,
)
    requires
        run.phase == PhaseView::CleaningUp(outcome),
        !(outcome is Succeeded),
    ensures
        forall|i: int|
            0 <= i < run.actions_over(events).len() ==> #[trigger] run.actions_over(events)[i]
                == (ActionView::Finish { outcome }),
    decreases events.len(),
{
    if events.len() > 0 {
        let next = run.after(events[0]);
        let rest = next.actions_over(events.drop_first());
        let all = run.actions_over(events);
        match run.action_on(events[0]) {
            Some(action) => {
                assert(all == seq![action] + rest);
                lemma_finished_is_silent(next, events.drop_first());
            },
            None => {
                lemma_owed_outcome_is_given(next, outcome, events.drop_first());
                assert(all == rest);
            },
        }
    }
}

/// Where no place to save to is chosen, the removal of all three temporary
/// files is ordered at once, nothing else is done after, and the outcome is
/// the cancellation, never a failure.
pub proof fn lemma_cancellation_cleans_up(run: RunView, later: Seq<EventView>)
    requires
        run.phase is AwaitingSaveLocation,
    ensures
        run.step(EventView::SaveLocation { chosen: None }) == Some(
            (
                run.in_phase(PhaseView::CleaningUp(RunOutcomeView::CancelledByUser)),
                ActionView::Cleanup {
                    paths: seq![run.job.temp.content, run.job.temp.face, run.job.temp.combined],
                },
            ),
        ),
        run.after(EventView::SaveLocation { chosen: None }).step(EventView::CleanedUp) == Some(
            (
                run.in_phase(PhaseView::Finished),
                ActionView::Finish { outcome: RunOutcomeView::CancelledByUser },
            ),
        ),
        forall|i: int|
            0 <= i < run.after(EventView::SaveLocation { chosen: None }).actions_over(later).len()
                ==> #[trigger] run.after(EventView::SaveLocation { chosen: None }).actions_over(
                later,
            )[i] == (ActionView::Finish { outcome: RunOutcomeView::CancelledByUser }),
{
    lemma_owed_outcome_is_given(
        run.after(EventView::SaveLocation { chosen: None }),
        RunOutcomeView::CancelledByUser,
        later,
    );
}

/// Where the tool of a stage ends in failure, the cleanup is ordered at
/// once, no tool is started again, and the outcome is the failure that
/// carries all the tool wrote to its error stream.
pub proof fn lemma_tool_failure_stops_the_pipeline(
    run: RunView,
    stage: PipelineStage,
    stderr: Seq<char>,
    later: Seq<EventView>,
)
    requires
        run.phase == PhaseView::Running(stage),
    ensures
        run.step(EventView::Exited { success: false, stderr }) == Some(
            (
                run.in_phase(
                    PhaseView::CleaningUp(
                        RunOutcomeView::Failed(PipelineErrorView::ToolExecutionFailed { stderr }),
                    ),
                ),
                run.cleanup(),
            ),
        ),
        forall|i: int|
            0 <= i < run.after(EventView::Exited { success: false, stderr }).actions_over(
                later,
            ).len() ==> #[trigger] run.after(
                EventView::Exited { success: false, stderr },
            ).actions_over(later)[i] == (ActionView::Finish {
                outcome: RunOutcomeView::Failed(PipelineErrorView::ToolExecutionFailed { stderr }),
            }),
{
    lemma_owed_outcome_is_given(
        run.after(EventView::Exited { success: false, stderr }),
        RunOutcomeView::Failed(PipelineErrorView::ToolExecutionFailed { stderr }),
        later,
    );
}

/// Where the tool cannot be started, the same holds with the failure to
/// start as the outcome: a failure of another kind than a tool that ran and
/// failed.
pub proof fn lemma_spawn_failure_stops_the_pipeline(
    run: RunView,
    stage: PipelineStage,
    detail: Seq<char>,
    later: Seq<EventView>,
)
    requires
        run.phase == PhaseView::Running(stage),
    ensures
        run.step(EventView::SpawnFailed { detail }) == Some(
            (
                run.in_phase(
                    PhaseView::CleaningUp(
                        RunOutcomeView::Failed(PipelineErrorView::SpawnFailed { detail }),
                    ),
                ),
                run.cleanup(),
            ),
        ),
        forall|i: int|
            0 <= i < run.after(EventView::SpawnFailed { detail }).actions_over(later).len()
                ==> #[trigger] run.after(EventView::SpawnFailed { detail }).actions_over(later)[i]
                == (ActionView::Finish {
                outcome: RunOutcomeView::Failed(PipelineErrorView::SpawnFailed { detail }),
            }),
{
    lemma_owed_outcome_is_given(
        run.after(EventView::SpawnFailed { detail }),
        RunOutcomeView::Failed(PipelineErrorView::SpawnFailed { detail }),
        later,
    );
}

/// A source that is not there ends the run before any tool is started.
pub proof fn lemma_missing_source_starts_nothing(job: JobView, later: Seq<EventView>)
    ensures
        forall|i: int|
            0 <= i < RunView::initial(job).after(
                EventView::SourceChecked { exists: false },
            ).actions_over(later).len() ==> #[trigger] RunView::initial(job).after(
                EventView::SourceChecked { exists: false },
            ).actions_over(later)[i] == (ActionView::Finish {
                outcome: RunOutcomeView::Failed(
                    PipelineErrorView::PreconditionFailed { path: job.source },
                ),
            }),
        RunView::initial(job).action_on(EventView::SourceChecked { exists: false }) == Some(
            RunView::initial(job).cleanup(),
        ),
{
    lemma_owed_outcome_is_given(
        RunView::initial(job).after(EventView::SourceChecked { exists: false }),
        RunOutcomeView::Failed(PipelineErrorView::PreconditionFailed { path: job.source }),
        later,
    );
}

/// While the closing event is out for delivery, the one action that may
/// still come is an outcome.
pub proof fn lemma_completing_gives_outcome_next(run: RunView, events: Seq<EventView>)
    requires
        run.phase is Completing,
    ensures
        run.actions_over(events).len() <= 1,
        forall|i: int|
            0 <= i < run.actions_over(events).len() ==> (#[trigger] run.actions_over(events)[i])
                is Finish,
    decreases events.len(),
{
    if events.len() > 0 {
        let next = run.after(events[0]);
        let rest = next.actions_over(events.drop_first());
        let all = run.actions_over(events);
        match run.action_on(events[0]) {
            Some(action) => {
                assert(all == seq![action] + rest);
                lemma_finished_is_silent(next, events.drop_first());
            },
            None => {
                lemma_completing_gives_outcome_next(next, events.drop_first());
                assert(all == rest);
            },
        }
    }
}

/// The action gives success as the outcome.
pub open spec fn gives_success(action: ActionView) -> bool {
    match action {
        ActionView::Finish { outcome } => outcome is Succeeded,
        _ => false,
    }
}

/// Success is given only right after the closing event: the last event of a
/// run that succeeded carries the label of the last stage and one hundred
/// percent.
pub proof fn lemma_success_follows_closing_event(run: RunView, events: Seq<EventView>)
    requires
        !(run.phase is Completing),
    ensures
        forall|j: int|
            0 <= j < run.actions_over(events).len() && gives_success(
                #[trigger] run.actions_over(events)[j],
            ) ==> j > 0 && run.actions_over(events)[j - 1] == (ActionView::Emit {
                event: closing_event(),
            }),
    decreases events.len(),
{
    if events.len() > 0 {
        let next = run.after(events[0]);
        let rest = next.actions_over(events.drop_first());
        let all = run.actions_over(events);
        if next.phase is Completing {
            lemma_completing_gives_outcome_next(next, events.drop_first());
        } else {
            lemma_success_follows_closing_event(next, events.drop_first());
        }
        match run.action_on(events[0]) {
            Some(action) => {
                assert(all == seq![action] + rest);
                assert forall|j: int|
                    0 <= j < all.len() && gives_success(#[trigger] all[j]) implies j > 0 && all[j
                        - 1] == (ActionView::Emit { event: closing_event() }) by {
                    assert(j > 0);
                    assert(all[j] == rest[j - 1]);
                    if j > 1 {
                        assert(all[j - 1] == rest[j - 2]);
                    }
                }
            },
            None => {
                assert(all == rest);
            },
        }
    }
}

/// The action is an event at one hundred percent.
pub open spec fn reports_full_progress(action: ActionView) -> bool {
    match action {
        ActionView::Emit { event } => event.progress == FULL_PROGRESS,
        _ => false,
    }
}

/// A run issues at most one event at one hundred percent.
pub proof fn lemma_full_progress_is_reported_once(run: RunView, events: Seq<EventView>)
    requires
        run.well_formed(),
    ensures
        forall|i: int, j: int|
            0 <= i < run.actions_over(events).len() && 0 <= j < run.actions_over(events).len()
                && reports_full_progress(#[trigger] run.actions_over(events)[i])
                && reports_full_progress(#[trigger] run.actions_over(events)[j]) ==> i == j,
    decreases events.len(),
{
    if events.len() > 0 {
        let next = run.after(events[0]);
        let rest = next.actions_over(events.drop_first());
        let all = run.actions_over(events);
        lemma_step_keeps_well_formed(run, events[0]);
        lemma_full_progress_is_reported_once(next, events.drop_first());
        match run.action_on(events[0]) {
            Some(action) => {
                assert(all == seq![action] + rest);
                if reports_full_progress(action) {
                    lemma_full_progress_means_saved(run, events[0]);
                    lemma_completing_gives_outcome_next(next, events.drop_first());
                }
                assert forall|i: int, j: int|
                    0 <= i < all.len() && 0 <= j < all.len() && reports_full_progress(
                        #[trigger] all[i],
                    ) && reports_full_progress(#[trigger] all[j]) implies i == j by {
                    if i > 0 {
                        assert(all[i] == rest[i - 1]);
                    }
                    if j > 0 {
                        assert(all[j] == rest[j - 1]);
                    }
                }
            },
            None => {
                assert(all == rest);
            },
        }
    }
}

/// The events of a run in which nothing goes wrong and the result is saved
/// at `destination`.
pub open spec fn smooth_events(destination: Seq<char>) -> Seq<EventView> {
    let done = EventView::Exited { success: true, stderr: Seq::empty() };
    seq![
        EventView::SourceChecked { exists: true },
        EventView::Delivered,
        done,
        EventView::Delivered,
        done,
        EventView::Delivered,
        done,
        EventView::Delivered,
        EventView::Delivered,
        EventView::SaveLocation { chosen: Some(destination) },
        EventView::Persisted,
        EventView::CleanedUp,
        EventView::Delivered,
    ]
}

/// The actions of that run.
pub open spec fn smooth_actions(job: JobView, destination: Seq<char>) -> Seq<ActionView> {
    seq![
        ActionView::Emit { event: opening_event(PipelineStage::ExtractContent) },
        tool_order(job, PipelineStage::ExtractContent),
        ActionView::Emit { event: opening_event(PipelineStage::ExtractFace) },
        tool_order(job, PipelineStage::ExtractFace),
        ActionView::Emit { event: opening_event(PipelineStage::Combine) },
        tool_order(job, PipelineStage::Combine),
        ActionView::Emit { event: opening_event(PipelineStage::Finalize) },
        ActionView::Emit { event: opening_event(PipelineStage::AwaitSaveLocation) },
        RunView::initial(job).ask_save_location().1,
        ActionView::Persist { from: job.temp.combined, to: destination },
        RunView::initial(job).cleanup(),
        ActionView::Emit { event: closing_event() },
        ActionView::Finish { outcome: RunOutcomeView::Succeeded(destination) },
    ]
}

/// Where nothing goes wrong, a run does its work in the order of the
/// stages: it starts the tool three times, for the content, the face and
/// the combination, each time with the arguments of that stage for the
/// job's settings; it saves, cleans up, closes at one hundred percent, and
/// gives success with the chosen place.
pub proof fn lemma_smooth_run_succeeds(job: JobView, destination: Seq<char>)
    ensures
        RunView::initial(job).actions_over(smooth_events(destination)) == smooth_actions(
            job,
            destination,
        ),
        RunView::initial(job).after_all(smooth_events(destination)).phase is Finished,
{
    let events = smooth_events(destination);
    let expected = smooth_actions(job, destination);
    let r0 = RunView::initial(job);
    lemma_actions_unfold(r0, events, 0);
    let r1 = r0.after(events[0]);
    lemma_actions_unfold(r1, events, 1);
    let r2 = r1.after(events[1]);
    lemma_actions_unfold(r2, events, 2);
    let r3 = r2.after(events[2]);
    lemma_actions_unfold(r3, events, 3);
    let r4 = r3.after(events[3]);
    lemma_actions_unfold(r4, events, 4);
    let r5 = r4.after(events[4]);
    lemma_actions_unfold(r5, events, 5);
    let r6 = r5.after(events[5]);
    lemma_actions_unfold(r6, events, 6);
    let r7 = r6.after(events[6]);
    lemma_actions_unfold(r7, events, 7);
    let r8 = r7.after(events[7]);
    lemma_actions_unfold(r8, events, 8);
    let r9 = r8.after(events[8]);
    lemma_actions_unfold(r9, events, 9);
    let r10 = r9.after(events[9]);
    lemma_actions_unfold(r10, events, 10);
    let r11 = r10.after(events[10]);
    lemma_actions_unfold(r11, events, 11);
    let r12 = r11.after(events[11]);
    lemma_actions_unfold(r12, events, 12);
    let r13 = r12.after(events[12]);
    assert(events.skip(13).len() == 0);
    assert(r13.phase is Finished);
    assert(r0.actions_over(events.skip(0)) =~= expected);
    assert(events.skip(0) =~= events);
}

/// One step of a run over the rest of a sequence of events, from position
/// `at` on.
proof fn lemma_actions_unfold(run: RunView, events: Seq<EventView>, at: int)
    requires
        0 <= at < events.len(),
    ensures
        run.actions_over(events.skip(at)) == (match run.action_on(events[at]) {
            Some(action) => seq![action] + run.after(events[at]).actions_over(events.skip(at + 1)),
            None => run.after(events[at]).actions_over(events.skip(at + 1)),
        }),
        run.after_all(events.skip(at)) == run.after(events[at]).after_all(events.skip(at + 1)),
{
    assert(events.skip(at)[0] == events[at]);
    assert(events.skip(at).drop_first() =~= events.skip(at + 1));
}

} // verus!

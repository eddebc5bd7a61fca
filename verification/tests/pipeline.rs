use reels_pipeline::artifacts::TempArtifacts;
use reels_pipeline::outcome::{PipelineError, RunOutcome};
use reels_pipeline::processor::VideoProcessor;
use reels_pipeline::progress::ProcessProgress;
use reels_pipeline::run::{Action, Event, Phase, Run};
use reels_pipeline::stage::PipelineStage;

const STACK: &str = "[0:v]scale=1080:1440:force_original_aspect_ratio=decrease,pad=1080:1440:(ow-iw)/2:(oh-ih)/2[v0];[1:v]scale=1080:480:force_original_aspect_ratio=decrease,pad=1080:480:(ow-iw)/2:(oh-ih)/2[v1];[v0][v1]vstack";

fn temp() -> TempArtifacts {
    TempArtifacts::new("/tmp/content.mp4", "/tmp/face.mp4", "/tmp/output.mp4")
}

fn begin(quality: &str) -> (Run, Action) {
    let processor = VideoProcessor::new("/opt/app/resources/ffmpeg", None);
    processor.process_video("/videos/talk.mp4", Some("talk.mp4"), quality, temp())
}

fn strings(items: &[&str]) -> Vec<String> {
    items.iter().map(|s| s.to_string()).collect()
}

fn emit(stage: &str, progress: u32) -> Action {
    Action::Emit { event: ProcessProgress { stage: stage.to_string(), progress } }
}

fn cleanup() -> Action {
    Action::Cleanup { paths: strings(&["/tmp/content.mp4", "/tmp/face.mp4", "/tmp/output.mp4"]) }
}

fn ok_exit() -> Event {
    Event::Exited { success: true, stderr: String::new() }
}

/// Feeds the events in turn and collects the actions they bring.
fn drive(run: Run, events: Vec<Event>) -> (Run, Vec<Action>) {
    let mut run = run;
    let mut actions = Vec::new();
    for event in events {
        let (next, action) = run.advance(event);
        run = next;
        if let Some(action) = action {
            actions.push(action);
        }
    }
    (run, actions)
}

fn smooth_events(destination: &str) -> Vec<Event> {
    vec![
        Event::SourceChecked { exists: true },
        Event::Delivered,
        ok_exit(),
        Event::Delivered,
        ok_exit(),
        Event::Delivered,
        ok_exit(),
        Event::Delivered,
        Event::Delivered,
        Event::SaveLocation { chosen: Some(destination.to_string()) },
        Event::Persisted,
        Event::CleanedUp,
        Event::Delivered,
    ]
}

fn content_args(preset: &str, crf: &str) -> Vec<String> {
    strings(&[
        "-y",
        "-i",
        "/videos/talk.mp4",
        "-vf",
        "crop=iw*0.66:ih:0:0",
        "-c:v",
        "libx264",
        "-preset",
        preset,
        "-crf",
        crf,
        "-progress",
        "-",
        "/tmp/content.mp4",
    ])
}

fn face_args(preset: &str, crf: &str) -> Vec<String> {
    strings(&[
        "-y",
        "-i",
        "/videos/talk.mp4",
        "-vf",
        "crop=iw*0.34:ih/2:iw*0.66:ih/2",
        "-c:v",
        "libx264",
        "-preset",
        preset,
        "-crf",
        crf,
        "/tmp/face.mp4",
    ])
}

fn combine_args(preset: &str, crf: &str) -> Vec<String> {
    strings(&[
        "-y",
        "-i",
        "/tmp/content.mp4",
        "-i",
        "/tmp/face.mp4",
        "-filter_complex",
        STACK,
        "-c:v",
        "libx264",
        "-preset",
        preset,
        "-pix_fmt",
        "yuv420p",
        "-crf",
        crf,
        "/tmp/output.mp4",
    ])
}

fn tool(stage: PipelineStage, args: Vec<String>, streamed: bool) -> Action {
    Action::RunTool { stage, program: "/opt/app/resources/ffmpeg".to_string(), args, streamed }
}

fn spawn_count(actions: &[Action]) -> usize {
    actions.iter().filter(|a| matches!(a, Action::RunTool { .. })).count()
}

#[test]
fn a_run_starts_by_checking_the_source() {
    let (run, first) = begin("high");
    assert_eq!(first, Action::CheckSource { path: "/videos/talk.mp4".to_string() });
    assert_eq!(*run.phase(), Phase::CheckingSource);
    assert!(!run.is_finished());
    assert_eq!(run.job().tool, "/opt/app/resources/ffmpeg");
    assert_eq!(run.job().source, "/videos/talk.mp4");
    assert_eq!(run.job().suggestion, "talk_reels.mp4");
    assert_eq!(run.job().temp, temp());
    assert_eq!(run.extractor().last_progress(), 0);
}

#[test]
fn high_quality_run_composes_the_three_invocations_in_order() {
    let (run, _) = begin("high");
    let (run, actions) = drive(run, smooth_events("/home/me/talk_reels.mp4"));
    let tools: Vec<Action> =
        actions.iter().filter(|a| matches!(a, Action::RunTool { .. })).cloned().collect();
    assert_eq!(
        tools,
        vec![
            tool(PipelineStage::ExtractContent, content_args("slow", "18"), true),
            tool(PipelineStage::ExtractFace, face_args("slow", "18"), false),
            tool(PipelineStage::Combine, combine_args("slow", "18"), false),
        ]
    );
    assert!(run.is_finished());
}

#[test]
fn a_smooth_run_issues_every_action_in_order() {
    let (run, first) = begin("low");
    assert_eq!(first, Action::CheckSource { path: "/videos/talk.mp4".to_string() });
    let (run, actions) = drive(run, smooth_events("/home/me/out.mp4"));
    assert_eq!(
        actions,
        vec![
            emit("Extraindo conteúdo...", 0),
            tool(PipelineStage::ExtractContent, content_args("ultrafast", "28"), true),
            emit("Extraindo face...", 30_000_000),
            tool(PipelineStage::ExtractFace, face_args("ultrafast", "28"), false),
            emit("Combinando vídeos...", 60_000_000),
            tool(PipelineStage::Combine, combine_args("ultrafast", "28"), false),
            emit("Finalizando...", 90_000_000),
            emit("Salvando vídeo...", 95_000_000),
            Action::AskSaveLocation {
                title: "Salvar Vídeo".to_string(),
                suggested_name: "talk_reels.mp4".to_string(),
                filter_name: "Vídeo MP4".to_string(),
                extension: "mp4".to_string(),
            },
            Action::Persist {
                from: "/tmp/output.mp4".to_string(),
                to: "/home/me/out.mp4".to_string(),
            },
            cleanup(),
            emit("Concluído!", 100_000_000),
            Action::Finish { outcome: RunOutcome::Succeeded("/home/me/out.mp4".to_string()) },
        ]
    );
    assert_eq!(*run.phase(), Phase::Finished);
}

#[test]
fn an_unknown_label_runs_with_the_medium_settings() {
    let (run, _) = begin("best");
    let (_, actions) = drive(run, smooth_events("/x.mp4"));
    assert_eq!(actions[1], tool(PipelineStage::ExtractContent, content_args("medium", "23"), true));
    assert_eq!(actions[3], tool(PipelineStage::ExtractFace, face_args("medium", "23"), false));
    assert_eq!(actions[5], tool(PipelineStage::Combine, combine_args("medium", "23"), false));
}

#[test]
fn a_missing_source_fails_before_any_spawn() {
    let (run, _) = begin("high");
    let (run, actions) =
        drive(run, vec![Event::SourceChecked { exists: false }, Event::CleanedUp]);
    assert_eq!(
        actions,
        vec![
            cleanup(),
            Action::Finish {
                outcome: RunOutcome::Failed(PipelineError::PreconditionFailed {
                    path: "/videos/talk.mp4".to_string(),
                }),
            },
        ]
    );
    assert_eq!(spawn_count(&actions), 0);
    assert!(run.is_finished());
}

#[test]
fn no_selection_cancels_and_removes_all_three_files() {
    let (run, _) = begin("medium");
    let mut events = smooth_events("unused");
    events.truncate(9);
    let (run, before) = drive(run, events);
    assert_eq!(*run.phase(), Phase::AwaitingSaveLocation);
    assert!(matches!(before.last(), Some(Action::AskSaveLocation { .. })));
    let (run, actions) =
        drive(run, vec![Event::SaveLocation { chosen: None }, Event::CleanedUp]);
    assert_eq!(actions, vec![cleanup(), Action::Finish { outcome: RunOutcome::CancelledByUser }]);
    assert!(run.is_finished());
    let all: Vec<&Action> = before.iter().chain(actions.iter()).collect();
    assert!(!all.iter().any(|a| matches!(a, Action::Persist { .. })));
    assert!(!all.iter().any(|a| matches!(a, Action::Emit { event } if event.progress == 100_000_000)));
}

#[test]
fn a_failed_first_stage_starts_no_later_stage() {
    let (run, _) = begin("high");
    let (run, actions) = drive(
        run,
        vec![
            Event::SourceChecked { exists: true },
            Event::Delivered,
            Event::Exited { success: false, stderr: "talk.mp4: Invalid data found".to_string() },
            Event::CleanedUp,
            Event::Delivered,
            ok_exit(),
            Event::SaveLocation { chosen: Some("/x.mp4".to_string()) },
        ],
    );
    assert_eq!(spawn_count(&actions), 1);
    assert_eq!(
        actions[2..].to_vec(),
        vec![
            cleanup(),
            Action::Finish {
                outcome: RunOutcome::Failed(PipelineError::ToolExecutionFailed {
                    stderr: "talk.mp4: Invalid data found".to_string(),
                }),
            },
        ]
    );
    assert!(run.is_finished());
}

#[test]
fn a_failed_second_stage_starts_no_third() {
    let (run, _) = begin("high");
    let (_, actions) = drive(
        run,
        vec![
            Event::SourceChecked { exists: true },
            Event::Delivered,
            ok_exit(),
            Event::Delivered,
            Event::Exited { success: false, stderr: "boom".to_string() },
            Event::CleanedUp,
        ],
    );
    assert_eq!(spawn_count(&actions), 2);
    assert_eq!(
        actions.last(),
        Some(&Action::Finish {
            outcome: RunOutcome::Failed(PipelineError::ToolExecutionFailed {
                stderr: "boom".to_string(),
            }),
        })
    );
    assert_eq!(actions[actions.len() - 2], cleanup());
}

#[test]
fn a_failed_third_stage_asks_for_no_place() {
    let (run, _) = begin("high");
    let (_, actions) = drive(
        run,
        vec![
            Event::SourceChecked { exists: true },
            Event::Delivered,
            ok_exit(),
            Event::Delivered,
            ok_exit(),
            Event::Delivered,
            Event::Exited { success: false, stderr: "no space left".to_string() },
            Event::CleanedUp,
        ],
    );
    assert_eq!(spawn_count(&actions), 3);
    assert!(!actions.iter().any(|a| matches!(a, Action::AskSaveLocation { .. })));
    assert_eq!(
        actions.last(),
        Some(&Action::Finish {
            outcome: RunOutcome::Failed(PipelineError::ToolExecutionFailed {
                stderr: "no space left".to_string(),
            }),
        })
    );
}

#[test]
fn a_tool_that_cannot_start_is_a_failure_of_its_own_kind() {
    let (run, _) = begin("high");
    let (_, actions) = drive(
        run,
        vec![
            Event::SourceChecked { exists: true },
            Event::Delivered,
            Event::SpawnFailed { detail: "No such file or directory (os error 2)".to_string() },
            Event::CleanedUp,
        ],
    );
    assert_eq!(spawn_count(&actions), 1);
    assert_eq!(
        actions[2..].to_vec(),
        vec![
            cleanup(),
            Action::Finish {
                outcome: RunOutcome::Failed(PipelineError::SpawnFailed {
                    detail: "No such file or directory (os error 2)".to_string(),
                }),
            },
        ]
    );
}

#[test]
fn an_event_that_cannot_be_delivered_ends_the_run() {
    let (run, _) = begin("high");
    let (_, actions) = drive(
        run,
        vec![
            Event::SourceChecked { exists: true },
            Event::DeliveryFailed { detail: "window closed".to_string() },
            Event::CleanedUp,
        ],
    );
    assert_eq!(
        actions,
        vec![
            emit("Extraindo conteúdo...", 0),
            cleanup(),
            Action::Finish {
                outcome: RunOutcome::Failed(PipelineError::TelemetryDeliveryFailed {
                    detail: "window closed".to_string(),
                }),
            },
        ]
    );
}

#[test]
fn a_copy_that_fails_ends_the_run_after_the_cleanup() {
    let (run, _) = begin("high");
    let mut events = smooth_events("/readonly/out.mp4");
    events.truncate(10);
    events.push(Event::PersistFailed { detail: "Permission denied (os error 13)".to_string() });
    events.push(Event::CleanedUp);
    let (_, actions) = drive(run, events);
    let n = actions.len();
    assert_eq!(
        actions[n - 3..].to_vec(),
        vec![
            Action::Persist {
                from: "/tmp/output.mp4".to_string(),
                to: "/readonly/out.mp4".to_string(),
            },
            cleanup(),
            Action::Finish {
                outcome: RunOutcome::Failed(PipelineError::PersistFailed {
                    detail: "Permission denied (os error 13)".to_string(),
                }),
            },
        ]
    );
}

#[test]
fn the_closing_event_that_cannot_be_delivered_fails_the_run() {
    let (run, _) = begin("high");
    let mut events = smooth_events("/x.mp4");
    events.pop();
    events.push(Event::DeliveryFailed { detail: "gone".to_string() });
    let (run, actions) = drive(run, events);
    assert_eq!(
        actions.last(),
        Some(&Action::Finish {
            outcome: RunOutcome::Failed(PipelineError::TelemetryDeliveryFailed {
                detail: "gone".to_string(),
            }),
        })
    );
    assert_eq!(actions[actions.len() - 2], emit("Concluído!", 100_000_000));
    assert!(run.is_finished());
}

#[test]
fn the_cleanup_comes_after_the_copy() {
    let (run, _) = begin("high");
    let (_, actions) = drive(run, smooth_events("/x.mp4"));
    let copy = actions.iter().position(|a| matches!(a, Action::Persist { .. })).unwrap();
    let clean = actions.iter().position(|a| matches!(a, Action::Cleanup { .. })).unwrap();
    assert!(copy < clean);
    assert_eq!(actions.iter().filter(|a| matches!(a, Action::Cleanup { .. })).count(), 1);
}

#[test]
fn streamed_lines_become_progress_events() {
    let (run, _) = begin("high");
    let (run, actions) = drive(
        run,
        vec![
            Event::SourceChecked { exists: true },
            Event::Delivered,
            Event::OutputLine { line: "time=00:00:05.00\n".to_string() },
            Event::OutputLine { line: "  Duration: 00:00:10.00, start: 0\n".to_string() },
            Event::OutputLine { line: "frame=1 time=00:00:05.00\n".to_string() },
        ],
    );
    assert_eq!(
        actions[2..].to_vec(),
        vec![Action::ReadOutput, Action::ReadOutput, emit("Extraindo conteúdo...", 15_000_000)]
    );
    assert_eq!(*run.phase(), Phase::Reporting);
    let (run, actions) = drive(
        run,
        vec![
            Event::Delivered,
            Event::OutputLine { line: "frame=2 time=00:00:05.00\n".to_string() },
            Event::OutputLine { line: "progress=continue\n".to_string() },
            Event::OutputLine { line: "frame=3 time=00:00:10.00\n".to_string() },
            Event::Delivered,
            ok_exit(),
        ],
    );
    assert_eq!(
        actions,
        vec![
            Action::ReadOutput,
            Action::ReadOutput,
            Action::ReadOutput,
            emit("Extraindo conteúdo...", 30_000_000),
            Action::ReadOutput,
            emit("Extraindo face...", 30_000_000),
        ]
    );
    assert_eq!(*run.phase(), Phase::Announcing(PipelineStage::ExtractFace));
}

#[test]
fn progress_never_goes_down_over_a_whole_run() {
    let (run, _) = begin("medium");
    let mut events = vec![
        Event::SourceChecked { exists: true },
        Event::Delivered,
        Event::OutputLine { line: "Duration: 00:00:30.00".to_string() },
    ];
    for s in [3, 9, 6, 9, 12, 40, 20] {
        events.push(Event::OutputLine { line: format!("time=00:00:{:02}.00", s) });
        events.push(Event::Delivered);
    }
    events.extend(smooth_events("/x.mp4").into_iter().skip(2));
    let (run, actions) = drive(run, events);
    let progress: Vec<u32> = actions
        .iter()
        .filter_map(|a| match a {
            Action::Emit { event } => Some(event.progress),
            _ => None,
        })
        .collect();
    assert_eq!(
        progress,
        vec![
            0, 3_000_000, 9_000_000, 12_000_000, 30_000_000, 30_000_000, 60_000_000, 90_000_000,
            95_000_000, 100_000_000
        ]
    );
    assert!(run.is_finished());
    assert!(matches!(actions.last(), Some(Action::Finish { outcome: RunOutcome::Succeeded(_) })));
}

#[test]
fn a_progress_event_that_cannot_be_delivered_ends_the_run() {
    let (run, _) = begin("high");
    let (_, actions) = drive(
        run,
        vec![
            Event::SourceChecked { exists: true },
            Event::Delivered,
            Event::OutputLine { line: "Duration: 00:00:10.00 time=00:00:01.00".to_string() },
            Event::DeliveryFailed { detail: "closed".to_string() },
            Event::OutputLine { line: "time=00:00:02.00".to_string() },
            Event::CleanedUp,
        ],
    );
    assert_eq!(
        actions[2..].to_vec(),
        vec![
            emit("Extraindo conteúdo...", 3_000_000),
            cleanup(),
            Action::Finish {
                outcome: RunOutcome::Failed(PipelineError::TelemetryDeliveryFailed {
                    detail: "closed".to_string(),
                }),
            },
        ]
    );
}

#[test]
fn an_event_that_is_not_awaited_changes_nothing() {
    for event in [
        Event::Delivered,
        Event::CleanedUp,
        ok_exit(),
        Event::Persisted,
        Event::OutputLine { line: "time=00:00:01".to_string() },
        Event::SaveLocation { chosen: None },
        Event::SpawnFailed { detail: "x".to_string() },
        Event::DeliveryFailed { detail: "x".to_string() },
        Event::PersistFailed { detail: "x".to_string() },
    ] {
        let (run, _) = begin("high");
        let (after, action) = run.advance(event);
        assert_eq!(action, None);
        assert_eq!(*after.phase(), Phase::CheckingSource);
        let (_, action) = after.advance(Event::SourceChecked { exists: true });
        assert_eq!(action, Some(emit("Extraindo conteúdo...", 0)));
    }
}

#[test]
fn lines_are_not_awaited_from_a_stage_that_is_not_streamed() {
    let (run, _) = begin("high");
    let (run, _) = drive(
        run,
        vec![Event::SourceChecked { exists: true }, Event::Delivered, ok_exit(), Event::Delivered],
    );
    assert_eq!(*run.phase(), Phase::Running(PipelineStage::ExtractFace));
    let (run, action) =
        run.advance(Event::OutputLine { line: "Duration: 00:00:10 time=00:00:05".to_string() });
    assert_eq!(action, None);
    assert_eq!(*run.phase(), Phase::Running(PipelineStage::ExtractFace));
}

#[test]
fn nothing_follows_the_outcome() {
    let (run, _) = begin("high");
    let (run, _) = drive(run, smooth_events("/x.mp4"));
    assert!(run.is_finished());
    let (run, actions) = drive(run, smooth_events("/y.mp4"));
    assert!(actions.is_empty());
    assert!(run.is_finished());
}

#[test]
fn a_source_without_file_name_is_offered_as_video() {
    let processor = VideoProcessor::new("ffmpeg", None);
    let (run, _) = processor.process_video("/", None, "high", temp());
    assert_eq!(run.job().suggestion, "video_reels.mp4");
}

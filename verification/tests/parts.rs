use reels_pipeline::artifacts::{
    suggested_file_name, TempArtifacts, COMBINED_FILE_NAME, CONTENT_FILE_NAME, FACE_FILE_NAME,
};
use reels_pipeline::capability::{
    encoder_listing_args, gpu_listing_command, listing_mentions, probe, tool_file_name,
};
use reels_pipeline::command::{
    build_combine_args, build_content_args, build_face_args, build_stage_args,
};
use reels_pipeline::outcome::{PipelineError, RunOutcome};
use reels_pipeline::processor::VideoProcessor;
use reels_pipeline::quality::resolve;
use reels_pipeline::stage::{PipelineStage, StageRange, FULL_PROGRESS, UNITS_PER_PERCENT};
use reels_pipeline::text::{chars_of, contains_text, strip_trailing, text_eq};

const STAGES: [PipelineStage; 7] = [
    PipelineStage::ExtractContent,
    PipelineStage::ExtractFace,
    PipelineStage::Combine,
    PipelineStage::Finalize,
    PipelineStage::AwaitSaveLocation,
    PipelineStage::Persist,
    PipelineStage::Cleanup,
];

#[test]
fn stages_follow_one_another() {
    for (i, stage) in STAGES.iter().enumerate() {
        assert_eq!(stage.index() as usize, i);
        assert_eq!(stage.next(), STAGES.get(i + 1).copied());
    }
}

#[test]
fn stage_ranges_tile_the_scale() {
    assert_eq!(PipelineStage::ExtractContent.range(), StageRange { lo: 0, hi: 30 });
    assert_eq!(PipelineStage::ExtractFace.range(), StageRange { lo: 30, hi: 60 });
    assert_eq!(PipelineStage::Combine.range(), StageRange { lo: 60, hi: 90 });
    assert_eq!(PipelineStage::Finalize.range(), StageRange { lo: 90, hi: 95 });
    assert_eq!(PipelineStage::AwaitSaveLocation.range(), StageRange { lo: 95, hi: 100 });
    assert_eq!(PipelineStage::Persist.range(), StageRange { lo: 100, hi: 100 });
    assert_eq!(PipelineStage::Cleanup.range(), StageRange { lo: 100, hi: 100 });
    assert_eq!(STAGES[0].range().lo, 0);
    assert_eq!(STAGES[6].range().hi, 100);
    for pair in STAGES.windows(2) {
        assert_eq!(pair[0].range().hi, pair[1].range().lo);
    }
}

#[test]
fn stage_checkpoints_are_in_units() {
    assert_eq!(UNITS_PER_PERCENT, 1_000_000);
    assert_eq!(FULL_PROGRESS, 100 * UNITS_PER_PERCENT);
    assert_eq!(PipelineStage::ExtractContent.checkpoint(), 0);
    assert_eq!(PipelineStage::ExtractFace.checkpoint(), 30_000_000);
    assert_eq!(PipelineStage::Combine.checkpoint(), 60_000_000);
    assert_eq!(PipelineStage::Finalize.checkpoint(), 90_000_000);
    assert_eq!(PipelineStage::AwaitSaveLocation.checkpoint(), 95_000_000);
    assert_eq!(PipelineStage::Cleanup.checkpoint(), 100_000_000);
}

#[test]
fn stage_labels_are_the_texts_shown() {
    assert_eq!(PipelineStage::ExtractContent.label(), "Extraindo conteúdo...");
    assert_eq!(PipelineStage::ExtractFace.label(), "Extraindo face...");
    assert_eq!(PipelineStage::Combine.label(), "Combinando vídeos...");
    assert_eq!(PipelineStage::Finalize.label(), "Finalizando...");
    assert_eq!(PipelineStage::AwaitSaveLocation.label(), "Salvando vídeo...");
    assert_eq!(PipelineStage::Cleanup.label(), "Concluído!");
}

#[test]
fn suggested_name_takes_off_the_extension() {
    assert_eq!(suggested_file_name(Some("clip.mp4")), "clip_reels.mp4");
    assert_eq!(suggested_file_name(Some("clip.mp4.mp4")), "clip_reels.mp4");
    assert_eq!(suggested_file_name(Some("movie.mkv")), "movie.mkv_reels.mp4");
    assert_eq!(suggested_file_name(Some("clip.MP4")), "clip.MP4_reels.mp4");
    assert_eq!(suggested_file_name(Some(".mp4")), "_reels.mp4");
    assert_eq!(suggested_file_name(Some("férias.mp4")), "férias_reels.mp4");
    assert_eq!(suggested_file_name(Some("")), "_reels.mp4");
    assert_eq!(suggested_file_name(None), "video_reels.mp4");
}

#[test]
fn suggested_name_agrees_with_trim_end_matches() {
    for name in ["a.mp4", "a.mp4.mp4.mp4", "mp4", "a.mp4 ", "x.mp4y.mp4", "...mp4"] {
        let expected = format!("{}_reels.mp4", name.trim_end_matches(".mp4"));
        assert_eq!(suggested_file_name(Some(name)), expected);
    }
}

#[test]
fn temp_artifacts_are_removed_in_order() {
    let temp = TempArtifacts::new("a", "b", "c");
    assert_eq!(temp.content, "a");
    assert_eq!(temp.face, "b");
    assert_eq!(temp.combined, "c");
    assert_eq!(temp.all(), vec!["a".to_string(), "b".to_string(), "c".to_string()]);
    assert_eq!(CONTENT_FILE_NAME, "content.mp4");
    assert_eq!(FACE_FILE_NAME, "face.mp4");
    assert_eq!(COMBINED_FILE_NAME, "output.mp4");
}

#[test]
fn content_arguments_of_the_high_tier() {
    let temp = TempArtifacts::new("/t/content.mp4", "/t/face.mp4", "/t/output.mp4");
    let args = build_content_args("in.mp4", &resolve("high"), &temp);
    assert_eq!(
        args,
        vec![
            "-y", "-i", "in.mp4", "-vf", "crop=iw*0.66:ih:0:0", "-c:v", "libx264", "-preset",
            "slow", "-crf", "18", "-progress", "-", "/t/content.mp4"
        ]
    );
}

#[test]
fn face_arguments_of_the_low_tier() {
    let temp = TempArtifacts::new("/t/content.mp4", "/t/face.mp4", "/t/output.mp4");
    let args = build_face_args("in.mp4", &resolve("low"), &temp);
    assert_eq!(
        args,
        vec![
            "-y", "-i", "in.mp4", "-vf", "crop=iw*0.34:ih/2:iw*0.66:ih/2", "-c:v", "libx264",
            "-preset", "ultrafast", "-crf", "28", "/t/face.mp4"
        ]
    );
}

#[test]
fn combine_arguments_of_the_medium_tier() {
    let temp = TempArtifacts::new("/t/content.mp4", "/t/face.mp4", "/t/output.mp4");
    let args = build_combine_args(&resolve("medium"), &temp);
    assert_eq!(
        args,
        vec![
            "-y", "-i", "/t/content.mp4", "-i", "/t/face.mp4", "-filter_complex",
            "[0:v]scale=1080:1440:force_original_aspect_ratio=decrease,pad=1080:1440:(ow-iw)/2:(oh-ih)/2[v0];[1:v]scale=1080:480:force_original_aspect_ratio=decrease,pad=1080:480:(ow-iw)/2:(oh-ih)/2[v1];[v0][v1]vstack",
            "-c:v", "libx264", "-preset", "medium", "-pix_fmt", "yuv420p", "-crf", "23",
            "/t/output.mp4"
        ]
    );
}

#[test]
fn only_three_stages_have_arguments() {
    let temp = TempArtifacts::new("c", "f", "o");
    let q = resolve("high");
    assert_eq!(
        build_stage_args(PipelineStage::ExtractContent, "in", &q, &temp),
        Some(build_content_args("in", &q, &temp))
    );
    assert_eq!(
        build_stage_args(PipelineStage::ExtractFace, "in", &q, &temp),
        Some(build_face_args("in", &q, &temp))
    );
    assert_eq!(
        build_stage_args(PipelineStage::Combine, "in", &q, &temp),
        Some(build_combine_args(&q, &temp))
    );
    for stage in [
        PipelineStage::Finalize,
        PipelineStage::AwaitSaveLocation,
        PipelineStage::Persist,
        PipelineStage::Cleanup,
    ] {
        assert_eq!(build_stage_args(stage, "in", &q, &temp), None);
    }
}

#[test]
fn error_messages() {
    assert_eq!(
        PipelineError::PreconditionFailed { path: "/v/a.mp4".to_string() }.message(),
        "Arquivo de entrada não encontrado: \"/v/a.mp4\""
    );
    assert_eq!(PipelineError::SpawnFailed { detail: "not found".to_string() }.message(), "not found");
    assert_eq!(
        PipelineError::ToolExecutionFailed { stderr: "bad input\n".to_string() }.message(),
        "Erro no FFmpeg: bad input\n"
    );
    assert_eq!(
        PipelineError::TelemetryDeliveryFailed { detail: "closed".to_string() }.message(),
        "closed"
    );
    assert_eq!(PipelineError::UserCancelled.message(), "Operação cancelada pelo usuário");
    assert_eq!(PipelineError::PersistFailed { detail: "disk full".to_string() }.message(), "disk full");
}

#[test]
fn the_message_of_a_tool_failure_holds_the_error_stream() {
    let stderr = "line one\nline two: Invalid data found when processing input\n";
    let message = PipelineError::ToolExecutionFailed { stderr: stderr.to_string() }.message();
    assert!(message.contains(stderr));
    assert!(message.ends_with(stderr));
}

#[test]
fn outcomes_as_results() {
    assert_eq!(RunOutcome::Succeeded("/x.mp4".to_string()).into_result(), Ok("/x.mp4".to_string()));
    assert_eq!(RunOutcome::CancelledByUser.into_result(), Err(PipelineError::UserCancelled));
    assert_eq!(
        RunOutcome::Failed(PipelineError::PersistFailed { detail: "d".to_string() }).into_result(),
        Err(PipelineError::PersistFailed { detail: "d".to_string() })
    );
    assert_eq!(RunOutcome::Succeeded("/x.mp4".to_string()).into_message(), Ok("/x.mp4".to_string()));
    assert_eq!(
        RunOutcome::CancelledByUser.into_message(),
        Err("Operação cancelada pelo usuário".to_string())
    );
    assert_eq!(
        RunOutcome::Failed(PipelineError::ToolExecutionFailed { stderr: "e".to_string() })
            .into_message(),
        Err("Erro no FFmpeg: e".to_string())
    );
}

#[test]
fn a_listing_is_searched_in_any_case() {
    assert!(listing_mentions(Some("01:00.0 VGA compatible controller: NVIDIA Corporation GA104"), "nvidia"));
    assert!(listing_mentions(Some("Name\r\nNvidia GeForce RTX 3070\r\n"), "nvidia"));
    assert!(listing_mentions(Some("nvidia"), "nvidia"));
    assert!(!listing_mentions(Some("00:02.0 VGA compatible controller: Intel Corporation"), "nvidia"));
    assert!(!listing_mentions(Some(""), "nvidia"));
    assert!(!listing_mentions(Some("nvidi"), "nvidia"));
    assert!(!listing_mentions(None, "nvidia"));
}

#[test]
fn the_processor_remembers_the_gpu() {
    let with = VideoProcessor::new("/r/ffmpeg", Some("VGA: NVIDIA Corporation"));
    assert!(with.has_nvidia_gpu());
    assert_eq!(with.ffmpeg_path(), "/r/ffmpeg");
    let without = VideoProcessor::new("/r/ffmpeg", Some("VGA: Intel"));
    assert!(!without.has_nvidia_gpu());
    let failed = VideoProcessor::new("/r/ffmpeg", None);
    assert!(!failed.has_nvidia_gpu());
    assert!(VideoProcessor::check_nvidia_gpu(Some("NVIDIA")));
    assert!(!VideoProcessor::check_nvidia_gpu(None));
}

#[test]
fn the_encoder_is_asked_for_only_with_a_gpu() {
    let with = VideoProcessor::new("ffmpeg", Some("NVIDIA"));
    let without = VideoProcessor::new("ffmpeg", Some("AMD"));
    assert_eq!(with.encoder_query(), Some(vec!["-encoders".to_string()]));
    assert_eq!(without.encoder_query(), None);
    let list = " V....D h264_nvenc           NVIDIA NVENC H.264 encoder (codec h264)";
    assert!(with.test_nvenc(Some(list)));
    assert!(with.test_nvenc(Some(" V....D H264_NVENC")));
    assert!(!with.test_nvenc(Some(" V....D libx264")));
    assert!(!with.test_nvenc(None));
    assert!(!without.test_nvenc(Some(list)));
}

#[test]
fn probing_needs_both_findings() {
    let list = " V....D h264_nvenc";
    assert!(probe(Some("NVIDIA Corporation"), Some(list)));
    assert!(!probe(Some("Intel"), Some(list)));
    assert!(!probe(Some("NVIDIA Corporation"), Some("libx264")));
    assert!(!probe(None, Some(list)));
    assert!(!probe(Some("NVIDIA Corporation"), None));
    assert!(!probe(None, None));
}

#[test]
fn host_commands() {
    let (program, args) = gpu_listing_command(true);
    assert_eq!(program, "wmic");
    assert_eq!(args, vec!["path", "win32_videocontroller", "get", "name"]);
    let (program, args) = gpu_listing_command(false);
    assert_eq!(program, "lspci");
    assert!(args.is_empty());
    assert_eq!(encoder_listing_args(), vec!["-encoders"]);
    assert_eq!(tool_file_name(true), "ffmpeg.exe");
    assert_eq!(tool_file_name(false), "ffmpeg");
}

#[test]
fn text_helpers() {
    assert_eq!(chars_of("aé"), vec!['a', 'é']);
    assert!(text_eq("", ""));
    assert!(text_eq("abc", "abc"));
    assert!(!text_eq("abc", "abd"));
    assert!(!text_eq("abc", "ab"));
    assert!(contains_text("hello", ""));
    assert!(contains_text("", ""));
    assert!(!contains_text("", "a"));
    assert!(contains_text("hello", "hello"));
    assert!(contains_text("hello", "llo"));
    assert!(contains_text("hello", "he"));
    assert!(!contains_text("hello", "hex"));
    assert!(!contains_text("hello", "helloo"));
    assert!(contains_text("aab", "ab"));
    assert_eq!(strip_trailing("a.mp4", ".mp4"), "a");
    assert_eq!(strip_trailing("a.mp4", ""), "a.mp4");
    assert_eq!(strip_trailing("xxxx", "x"), "");
    assert_eq!(strip_trailing("xxxx", "xxx"), "x");
    assert_eq!(strip_trailing("é.mp4.mp4", ".mp4"), "é");
}

//! The argument lists with which the transcoding tool is started.

use vstd::prelude::*;
use vstd::string::StringExecFns;
use crate::artifacts::{TempArtifacts, TempArtifactsView};
use crate::quality::{preset_name, EncoderProfile, VideoQuality};
use crate::stage::PipelineStage;

verus! {

/// Keeps the left two thirds of the picture, at full height.
pub const CONTENT_CROP: &'static str = "crop=iw*0.66:ih:0:0";

/// Keeps the right third of the picture, at half height.
pub const FACE_CROP: &'static str = "crop=iw*0.34:ih/2:iw*0.66:ih/2";

/// Fits the content into 1080x1440 and the face into 1080x480, and stacks
/// the two.
pub const STACK_FILTER: &'static str =
    "[0:v]scale=1080:1440:force_original_aspect_ratio=decrease,pad=1080:1440:(ow-iw)/2:(oh-ih)/2[v0];[1:v]scale=1080:480:force_original_aspect_ratio=decrease,pad=1080:480:(ow-iw)/2:(oh-ih)/2[v1];[v0][v1]vstack";

/// Arguments of the content extraction. The tool reports its progress on its
/// standard output.
pub open spec fn content_args(
    source: Seq<char>,
    profile: EncoderProfile,
    temp: TempArtifactsView,
) -> Seq<Seq<char>> {
    seq![
        "-y"@,
        "-i"@,
        source,
        "-vf"@,
        CONTENT_CROP@,
        "-c:v"@,
        "libx264"@,
        "-preset"@,
        preset_name(profile.preset),
        "-crf"@,
        profile.rate_factor,
        "-progress"@,
        "-"@,
        temp.content,
    ]
}

/// Arguments of the face extraction.
pub open spec fn face_args(
    source: Seq<char>,
    profile: EncoderProfile,
    temp: TempArtifactsView,
) -> Seq<Seq<char>> {
    seq![
        "-y"@,
        "-i"@,
        source,
        "-vf"@,
        FACE_CROP@,
        "-c:v"@,
        "libx264"@,
        "-preset"@,
        preset_name(profile.preset),
        "-crf"@,
        profile.rate_factor,
        temp.face,
    ]
}

/// Arguments of the combination.
pub open spec fn combine_args(profile: EncoderProfile, temp: TempArtifactsView) -> Seq<Seq<char>> {
    seq![
        "-y"@,
        "-i"@,
        temp.content,
        "-i"@,
        temp.face,
        "-filter_complex"@,
        STACK_FILTER@,
        "-c:v"@,
        "libx264"@,
        "-preset"@,
        preset_name(profile.preset),
        "-pix_fmt"@,
        "yuv420p"@,
        "-crf"@,
        profile.rate_factor,
        temp.combined,
    ]
}

/// Whether a stage starts the tool.
pub open spec fn runs_tool(stage: PipelineStage) -> bool {
    stage == PipelineStage::ExtractContent || stage == PipelineStage::ExtractFace || stage
        == PipelineStage::Combine
}

/// The arguments with which a stage starts the tool; `None` for a stage
/// that starts none.
pub open spec fn stage_args(
    stage: PipelineStage,
    source: Seq<char>,
    profile: EncoderProfile,
    temp: TempArtifactsView,
) -> Option<Seq<Seq<char>>> {
    match stage {
        PipelineStage::ExtractContent => Some(content_args(source, profile, temp)),
        PipelineStage::ExtractFace => Some(face_args(source, profile, temp)),
        PipelineStage::Combine => Some(combine_args(profile, temp)),
        _ => None,
    }
}

/// An owned argument.
fn arg(text: &str) -> (owned: String)
    ensures
        owned@ == text@,
{
    String::from_str(text)
}

/// Builds [`content_args`].
pub fn build_content_args(source: &str, quality: &VideoQuality, temp: &TempArtifacts) -> (args:
    Vec<String>)
    ensures
        args.deep_view() == content_args(source@, quality@, temp@),
{
    let mut args: Vec<String> = Vec::new();
    args.push(arg("-y"));
    args.push(arg("-i"));
    args.push(arg(source));
    args.push(arg("-vf"));
    args.push(arg(CONTENT_CROP));
    args.push(arg("-c:v"));
    args.push(arg("libx264"));
    args.push(arg("-preset"));
    args.push(arg(quality.preset().name()));
    args.push(arg("-crf"));
    args.push(arg(quality.crf()));
    args.push(arg("-progress"));
    args.push(arg("-"));
    args.push(temp.content.clone());
    assert(args.deep_view() =~= content_args(source@, quality@, temp@));
    args
}

/// Builds [`face_args`].
pub fn build_face_args(source: &str, quality: &VideoQuality, temp: &TempArtifacts) -> (args: Vec<
    String,
>)
    ensures
        args.deep_view() == face_args(source@, quality@, temp@),
{
    let mut args: Vec<String> = Vec::new();
    args.push(arg("-y"));
    args.push(arg("-i"));
    args.push(arg(source));
    args.push(arg("-vf"));
    args.push(arg(FACE_CROP));
    args.push(arg("-c:v"));
    args.push(arg("libx264"));
    args.push(arg("-preset"));
    args.push(arg(quality.preset().name()));
    args.push(arg("-crf"));
    args.push(arg(quality.crf()));
    args.push(temp.face.clone());
    assert(args.deep_view() =~= face_args(source@, quality@, temp@));
    args
}

/// Builds [`combine_args`].
pub fn build_combine_args(quality: &VideoQuality, temp: &TempArtifacts) -> (args: Vec<String>)
    ensures
        args.deep_view() == combine_args(quality@, temp@),
{
    let mut args: Vec<String> = Vec::new();
    args.push(arg("-y"));
    args.push(arg("-i"));
    args.push(temp.content.clone());
    args.push(arg("-i"));
    args.push(temp.face.clone());
    args.push(arg("-filter_complex"));
    args.push(arg(STACK_FILTER));
    args.push(arg("-c:v"));
    args.push(arg("libx264"));
    args.push(arg("-preset"));
    args.push(arg(quality.preset().name()));
    args.push(arg("-pix_fmt"));
    args.push(arg("yuv420p"));
    args.push(arg("-crf"));
    args.push(arg(quality.crf()));
    args.push(temp.combined.clone());
    assert(args.deep_view() =~= combine_args(quality@, temp@));
    args
}

/// The arguments with which `stage` starts the tool; `None` for a stage that
/// starts none.
pub fn build_stage_args(
    stage: PipelineStage,
    source: &str,
    quality: &VideoQuality,
    temp: &TempArtifacts,
) -> (args: Option<Vec<String>>)
    ensures
        args.deep_view() == stage_args(stage, source@, quality@, temp@),
        args is Some <==> runs_tool(stage),
{
    match stage {
        PipelineStage::ExtractContent => Some(build_content_args(source, quality, temp)),
        PipelineStage::ExtractFace => Some(build_face_args(source, quality, temp)),
        PipelineStage::Combine => Some(build_combine_args(quality, temp)),
        _ => None,
    }
}

/// The temporary file that a stage writes; `None` for a stage that writes
/// none.
pub open spec fn artifact_of(stage: PipelineStage, temp: TempArtifactsView) -> Option<Seq<char>> {
    match stage {
        PipelineStage::ExtractContent => Some(temp.content),
        PipelineStage::ExtractFace => Some(temp.face),
        PipelineStage::Combine => Some(temp.combined),
        _ => None,
    }
}

/// Every stage that starts the tool tells it first of all to overwrite
/// (`-y`), so that what an earlier run left behind is never taken for this
/// run's, and names last the one temporary file that is its own to write.
/// The two extractions read the source; the combination reads what they
/// wrote, the content as its first input and the face as its second.
pub proof fn lemma_artifacts_flow_forward(
    stage: PipelineStage,
    source: Seq<char>,
    profile: EncoderProfile,
    temp: TempArtifactsView,
)
    requires
        runs_tool(stage),
    ensures
        stage_args(stage, source, profile, temp) is Some,
        stage_args(stage, source, profile, temp)->0.first() == "-y"@,
        Some(stage_args(stage, source, profile, temp)->0.last()) == artifact_of(stage, temp),
        stage_args(stage, source, profile, temp)->0[1] == "-i"@,
        stage != PipelineStage::Combine ==> stage_args(stage, source, profile, temp)->0[2]
            == source,
        stage == PipelineStage::Combine ==> stage_args(stage, source, profile, temp)->0[2]
            == temp.content && stage_args(stage, source, profile, temp)->0[3] == "-i"@
            && stage_args(stage, source, profile, temp)->0[4] == temp.face,
{
}

} // verus!

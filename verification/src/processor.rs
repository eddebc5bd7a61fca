//! The processor: the configuration that every run shares.

use vstd::prelude::*;
use vstd::string::StringExecFns;
use crate::artifacts::{suggested_name, TempArtifacts};
use crate::capability::{
    encoder_listing_args, listing_mentions, listing_names, GPU_VENDOR, HARDWARE_ENCODER,
};
use crate::quality::{profile_of, tier_of};
use crate::run::{Action, Job, JobView, Run, RunView};

verus! {

/// Holds the path of the transcoding tool and what is known of the host's
/// graphics hardware. It is made once and handed to whoever starts runs.
///
/// A processor keeps no state of a run, and all runs write the same
/// temporary files: a caller must let one run end before it starts the next.
#[derive(Clone, Debug)]
pub struct VideoProcessor {
    ffmpeg_path: String,
    has_nvidia_gpu: bool,
}

/// Mathematical content of a [`VideoProcessor`].
pub struct VideoProcessorView {
    pub ffmpeg_path: Seq<char>,
    pub has_nvidia_gpu: bool,
}

impl View for VideoProcessor {
    type V = VideoProcessorView;

    closed spec fn view(&self) -> VideoProcessorView {
        VideoProcessorView { ffmpeg_path: self.ffmpeg_path@, has_nvidia_gpu: self.has_nvidia_gpu }
    }
}

impl VideoProcessor {
    /// A processor for the tool at `ffmpeg_path`. `gpu_listing` is the output
    /// of the command that lists the graphics devices, or `None` where it
    /// could not be run.
    pub fn new(ffmpeg_path: &str, gpu_listing: Option<&str>) -> (processor: VideoProcessor)
        ensures
            processor@ == (VideoProcessorView {
                ffmpeg_path: ffmpeg_path@,
                has_nvidia_gpu: listing_names(gpu_listing.deep_view(), GPU_VENDOR@),
            }),
    {
        VideoProcessor {
            ffmpeg_path: String::from_str(ffmpeg_path),
            has_nvidia_gpu: VideoProcessor::check_nvidia_gpu(gpu_listing),
        }
    }

    /// Whether the listing of graphics devices names the vendor. A listing
    /// that could not be had gives `false`.
    pub fn check_nvidia_gpu(gpu_listing: Option<&str>) -> (found: bool)
        ensures
            found == listing_names(gpu_listing.deep_view(), GPU_VENDOR@),
    {
        listing_mentions(gpu_listing, GPU_VENDOR)
    }

    /// The path of the transcoding tool.
    pub fn ffmpeg_path(&self) -> (path: &str)
        ensures
            path@ == self@.ffmpeg_path,
    {
        self.ffmpeg_path.as_str()
    }

    /// Whether the host was found to have a graphics device of the vendor.
    pub fn has_nvidia_gpu(&self) -> (found: bool)
        ensures
            found == self@.has_nvidia_gpu,
    {
        self.has_nvidia_gpu
    }

    /// The arguments with which to ask the tool for its encoders, or `None`
    /// where there is no need to ask: without the graphics device the answer
    /// of [`VideoProcessor::test_nvenc`] is `false` whatever the tool lists.
    pub fn encoder_query(&self) -> (args: Option<Vec<String>>)
        ensures
            args is Some <==> self@.has_nvidia_gpu,
            args matches Some(list) ==> list.deep_view() == seq!["-encoders"@],
    {
        if self.has_nvidia_gpu {
            Some(encoder_listing_args())
        } else {
            None
        }
    }

    /// Whether the hardware encoder can be used: the host has the graphics
    /// device, and the tool's list of encoders names the encoder. `encoders`
    /// is that list, or `None` where it could not be had.
    pub fn test_nvenc(&self, encoders: Option<&str>) -> (usable: bool)
        ensures
            usable == (self@.has_nvidia_gpu && listing_names(
                encoders.deep_view(),
                HARDWARE_ENCODER@,
            )),
    {
        if !self.has_nvidia_gpu {
            return false;
        }
        listing_mentions(encoders, HARDWARE_ENCODER)
    }

    /// Starts a run that turns the video at `input_path` into a reel, at the
    /// quality that `quality` names. `file_name` is the last component of
    /// `input_path`, where it has one. Gives the run and its first action;
    /// [`Run::advance`] leads on from there.
    pub fn process_video(
        &self,
        input_path: &str,
        file_name: Option<&str>,
        quality: &str,
        temp: TempArtifacts,
    ) -> (begun: (Run, Action))
        ensures
            begun.0@ == RunView::initial(
                JobView {
                    tool: self@.ffmpeg_path,
                    source: input_path@,
                    suggestion: suggested_name(file_name.deep_view()),
                    profile: profile_of(tier_of(quality@)),
                    temp: temp@,
                },
            ),
            begun.0@.well_formed(),
            begun.1@ == RunView::first_action(begun.0@.job),
    {
        let job = Job::new(self.ffmpeg_path.as_str(), input_path, file_name, quality, temp);
        Run::start(job)
    }
}

} // verus!

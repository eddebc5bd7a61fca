//! Decision core of a video-to-reels transcoding pipeline.
//!
//! A run turns one source video into a vertically stacked reel: the content
//! is cropped from the left two thirds, the face from the right third, the
//! two are stacked, and the result is saved where the user chooses. The work
//! itself is done by an external transcoding tool; this crate decides what
//! is done, in which order, with which arguments, and what is reported.
//!
//! The crate performs no input or output. A [`Run`] is a state machine: it
//! hands out an [`Action`], the caller performs it and hands back an
//! [`Event`], and [`Run::advance`] answers with the next action, until the
//! action is [`Action::Finish`].
//!
//! Progress is counted in millionths of a percent
//! ([`stage::UNITS_PER_PERCENT`]), so that every value is a whole number.
//!
//! * [`quality`] maps a quality label to encoder settings.
//! * [`stage`] names the stages and their shares of the progress scale.
//! * [`progress`] turns lines of tool output into progress events.
//! * [`command`] holds the argument lists of the three tool invocations.
//! * [`artifacts`] names the temporary files and the file offered for saving.
//! * [`outcome`] holds the outcomes of a run and the kinds of failure.
//! * [`run`] is the state machine, and [`theorems`] what holds of every run.
//! * [`capability`] and [`processor`] probe for a hardware encoder and start
//!   runs.
//! * [`pattern`] and [`text`] search text.

pub mod artifacts;
pub mod capability;
pub mod command;
pub mod outcome;
pub mod pattern;
pub mod processor;
pub mod progress;
pub mod quality;
pub mod run;
pub mod stage;
pub mod text;
pub mod theorems;

pub use crate::outcome::{PipelineError, RunOutcome};
pub use crate::processor::VideoProcessor;
pub use crate::progress::{ProcessProgress, ProgressExtractor};
pub use crate::quality::{resolve, VideoQuality};
pub use crate::run::{Action, Event, Run};
pub use crate::stage::PipelineStage;

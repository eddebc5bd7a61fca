//! The stages of a run, their order, their labels and their share of the
//! progress scale.

use vstd::prelude::*;

verus! {

/// Progress is counted in millionths of a percent, so that a share of a
/// stage's range is a whole number.
pub const UNITS_PER_PERCENT: u32 = 1_000_000;

/// The progress of a finished run: one hundred percent.
pub const FULL_PROGRESS: u32 = 100_000_000;

/// One step of the pipeline. A run passes through them in this order and
/// never goes back.
#[derive(Clone, Copy, Debug, PartialEq, Eq, Structural)]
pub enum PipelineStage {
    ExtractContent,
    ExtractFace,
    Combine,
    Finalize,
    AwaitSaveLocation,
    Persist,
    Cleanup,
}

/// A span of the progress scale, in whole percent.
#[derive(Clone, Copy, Debug, PartialEq, Eq, Structural)]
pub struct StageRange {
    pub lo: u8,
    pub hi: u8,
}

impl StageRange {
    /// The bounds are in order and on the scale.
    pub open spec fn well_formed(self) -> bool {
        self.lo <= self.hi <= 100
    }
}

/// Position of a stage in the pipeline, from 0.
pub open spec fn stage_index(stage: PipelineStage) -> int {
    match stage {
        PipelineStage::ExtractContent => 0,
        PipelineStage::ExtractFace => 1,
        PipelineStage::Combine => 2,
        PipelineStage::Finalize => 3,
        PipelineStage::AwaitSaveLocation => 4,
        PipelineStage::Persist => 5,
        PipelineStage::Cleanup => 6,
    }
}

/// The stage that follows, if any.
pub open spec fn stage_after(stage: PipelineStage) -> Option<PipelineStage> {
    match stage {
        PipelineStage::ExtractContent => Some(PipelineStage::ExtractFace),
        PipelineStage::ExtractFace => Some(PipelineStage::Combine),
        PipelineStage::Combine => Some(PipelineStage::Finalize),
        PipelineStage::Finalize => Some(PipelineStage::AwaitSaveLocation),
        PipelineStage::AwaitSaveLocation => Some(PipelineStage::Persist),
        PipelineStage::Persist => Some(PipelineStage::Cleanup),
        PipelineStage::Cleanup => None,
    }
}

/// The share of the scale that a stage owns. The last two stages do their
/// work once the scale is used up, so their share is the single point 100.
pub open spec fn stage_range(stage: PipelineStage) -> StageRange {
    match stage {
        PipelineStage::ExtractContent => StageRange { lo: 0, hi: 30 },
        PipelineStage::ExtractFace => StageRange { lo: 30, hi: 60 },
        PipelineStage::Combine => StageRange { lo: 60, hi: 90 },
        PipelineStage::Finalize => StageRange { lo: 90, hi: 95 },
        PipelineStage::AwaitSaveLocation => StageRange { lo: 95, hi: 100 },
        PipelineStage::Persist => StageRange { lo: 100, hi: 100 },
        PipelineStage::Cleanup => StageRange { lo: 100, hi: 100 },
    }
}

/// The text shown for a stage.
pub open spec fn stage_label(stage: PipelineStage) -> Seq<char> {
    match stage {
        PipelineStage::ExtractContent => "Extraindo conteúdo..."@,
        PipelineStage::ExtractFace => "Extraindo face..."@,
        PipelineStage::Combine => "Combinando vídeos..."@,
        PipelineStage::Finalize => "Finalizando..."@,
        PipelineStage::AwaitSaveLocation => "Salvando vídeo..."@,
        PipelineStage::Persist => "Salvando vídeo..."@,
        PipelineStage::Cleanup => "Concluído!"@,
    }
}

/// The progress at which a stage begins, in progress units.
pub open spec fn stage_checkpoint(stage: PipelineStage) -> int {
    stage_range(stage).lo * UNITS_PER_PERCENT
}

impl PipelineStage {
    /// Position in the pipeline, from 0.
    pub fn index(self) -> (i: u8)
        ensures
            i == stage_index(self),
    {
        match self {
            PipelineStage::ExtractContent => 0,
            PipelineStage::ExtractFace => 1,
            PipelineStage::Combine => 2,
            PipelineStage::Finalize => 3,
            PipelineStage::AwaitSaveLocation => 4,
            PipelineStage::Persist => 5,
            PipelineStage::Cleanup => 6,
        }
    }

    /// The stage that follows, or `None` after the last.
    pub fn next(self) -> (following: Option<PipelineStage>)
        ensures
            following == stage_after(self),
    {
        match self {
            PipelineStage::ExtractContent => Some(PipelineStage::ExtractFace),
            PipelineStage::ExtractFace => Some(PipelineStage::Combine),
            PipelineStage::Combine => Some(PipelineStage::Finalize),
            PipelineStage::Finalize => Some(PipelineStage::AwaitSaveLocation),
            PipelineStage::AwaitSaveLocation => Some(PipelineStage::Persist),
            PipelineStage::Persist => Some(PipelineStage::Cleanup),
            PipelineStage::Cleanup => None,
        }
    }

    /// The share of the progress scale that this stage owns.
    pub fn range(self) -> (range: StageRange)
        ensures
            range == stage_range(self),
            range.well_formed(),
    {
        match self {
            PipelineStage::ExtractContent => StageRange { lo: 0, hi: 30 },
            PipelineStage::ExtractFace => StageRange { lo: 30, hi: 60 },
            PipelineStage::Combine => StageRange { lo: 60, hi: 90 },
            PipelineStage::Finalize => StageRange { lo: 90, hi: 95 },
            PipelineStage::AwaitSaveLocation => StageRange { lo: 95, hi: 100 },
            PipelineStage::Persist => StageRange { lo: 100, hi: 100 },
            PipelineStage::Cleanup => StageRange { lo: 100, hi: 100 },
        }
    }

    /// The text shown while this stage is under way.
    pub fn label(self) -> (text: &'static str)
        ensures
            text@ == stage_label(self),
    {
        match self {
            PipelineStage::ExtractContent => "Extraindo conteúdo...",
            PipelineStage::ExtractFace => "Extraindo face...",
            PipelineStage::Combine => "Combinando vídeos...",
            PipelineStage::Finalize => "Finalizando...",
            PipelineStage::AwaitSaveLocation => "Salvando vídeo...",
            PipelineStage::Persist => "Salvando vídeo...",
            PipelineStage::Cleanup => "Concluído!",
        }
    }

    /// The progress at which this stage begins, in progress units.
    pub fn checkpoint(self) -> (progress: u32)
        ensures
            progress == stage_checkpoint(self),
            progress <= FULL_PROGRESS,
    {
        let range = self.range();
        let lo: u32 = range.lo as u32;
        lo * UNITS_PER_PERCENT
    }
}

/// The ranges tile the scale: the first begins at 0, the last ends at 100,
/// each is in order, and each ends where the next begins. So no two overlap
/// and nothing of the scale is left out.
pub proof fn lemma_ranges_tile_the_scale(stage: PipelineStage)
    ensures
        stage_range(PipelineStage::ExtractContent).lo == 0,
        stage_range(PipelineStage::Cleanup).hi == 100,
        stage_range(stage).well_formed(),
        stage_after(stage) matches Some(following) ==> stage_range(stage).hi == stage_range(
            following,
        ).lo && stage_index(following) == stage_index(stage) + 1,
{
}

/// A later stage begins no earlier on the scale than an earlier one ends.
pub proof fn lemma_ranges_follow_stage_order(earlier: PipelineStage, later: PipelineStage)
    requires
        stage_index(earlier) < stage_index(later),
    ensures
        stage_range(earlier).hi <= stage_range(later).lo,
{
}

} // verus!

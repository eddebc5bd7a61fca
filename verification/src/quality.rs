//! Quality tiers and the encoder settings they stand for.

use vstd::prelude::*;
use vstd::string::StringExecFns;
use crate::text::text_eq;

verus! {

/// Speed/quality trade-off handed to the encoder.
#[derive(Clone, Copy, Debug, PartialEq, Eq, Structural)]
pub enum Preset {
    Slow,
    Medium,
    Ultrafast,
}

/// What a quality label is understood as. `Default` stands for every label
/// that is none of `high`, `medium`, `low`.
#[derive(Clone, Copy, Debug, PartialEq, Eq, Structural)]
pub enum QualityTier {
    High,
    Medium,
    Low,
    Default,
}

/// Mathematical content of a [`VideoQuality`]: the preset and the text of the
/// rate factor.
pub struct EncoderProfile {
    pub preset: Preset,
    pub rate_factor: Seq<char>,
}

/// Encoder settings of one run. Values come from [`resolve`] or
/// [`QualityTier::profile`] only, so they never change once made.
#[derive(Clone, Debug)]
pub struct VideoQuality {
    preset: Preset,
    crf: String,
}

/// The word the encoder knows a preset by.
pub open spec fn preset_name(preset: Preset) -> Seq<char> {
    match preset {
        Preset::Slow => "slow"@,
        Preset::Medium => "medium"@,
        Preset::Ultrafast => "ultrafast"@,
    }
}

/// The tier that a label selects.
pub open spec fn tier_of(label: Seq<char>) -> QualityTier {
    if label == "high"@ {
        QualityTier::High
    } else if label == "medium"@ {
        QualityTier::Medium
    } else if label == "low"@ {
        QualityTier::Low
    } else {
        QualityTier::Default
    }
}

/// The profile of a tier.
pub open spec fn profile_of(tier: QualityTier) -> EncoderProfile {
    match tier {
        QualityTier::High => EncoderProfile { preset: Preset::Slow, rate_factor: "18"@ },
        QualityTier::Medium => EncoderProfile { preset: Preset::Medium, rate_factor: "23"@ },
        QualityTier::Low => EncoderProfile { preset: Preset::Ultrafast, rate_factor: "28"@ },
        QualityTier::Default => EncoderProfile { preset: Preset::Medium, rate_factor: "23"@ },
    }
}

impl Preset {
    /// The word the encoder knows this preset by.
    pub fn name(self) -> (word: &'static str)
        ensures
            word@ == preset_name(self),
    {
        match self {
            Preset::Slow => "slow",
            Preset::Medium => "medium",
            Preset::Ultrafast => "ultrafast",
        }
    }
}

impl QualityTier {
    /// Reads a label. Every text is accepted.
    pub fn from_label(label: &str) -> (tier: QualityTier)
        ensures
            tier == tier_of(label@),
    {
        if text_eq(label, "high") {
            QualityTier::High
        } else if text_eq(label, "medium") {
            QualityTier::Medium
        } else if text_eq(label, "low") {
            QualityTier::Low
        } else {
            QualityTier::Default
        }
    }

    /// The encoder settings of this tier.
    pub fn profile(self) -> (quality: VideoQuality)
        ensures
            quality@ == profile_of(self),
    {
        match self {
            QualityTier::High => VideoQuality { preset: Preset::Slow, crf: String::from_str("18") },
            QualityTier::Medium => VideoQuality {
                preset: Preset::Medium,
                crf: String::from_str("23"),
            },
            QualityTier::Low => VideoQuality {
                preset: Preset::Ultrafast,
                crf: String::from_str("28"),
            },
            QualityTier::Default => VideoQuality {
                preset: Preset::Medium,
                crf: String::from_str("23"),
            },
        }
    }
}

impl View for VideoQuality {
    type V = EncoderProfile;

    closed spec fn view(&self) -> EncoderProfile {
        EncoderProfile { preset: self.preset, rate_factor: self.crf@ }
    }
}

impl VideoQuality {
    /// The preset.
    pub fn preset(&self) -> (preset: Preset)
        ensures
            preset == self@.preset,
    {
        self.preset
    }

    /// The rate factor, as the text handed to the encoder.
    pub fn crf(&self) -> (text: &str)
        ensures
            text@ == self@.rate_factor,
    {
        self.crf.as_str()
    }
}

/// Maps a quality label to encoder settings. Total: `high`, `medium` and `low`
/// have their own settings, and any other text gets those of `medium`.
pub fn resolve(label: &str) -> (quality: VideoQuality)
    ensures
        quality@ == profile_of(tier_of(label@)),
{
    QualityTier::from_label(label).profile()
}

/// A label that is none of `high`, `medium`, `low` resolves to what `medium`
/// resolves to.
pub proof fn lemma_unknown_label_resolves_to_medium(label: Seq<char>)
    requires
        label != "high"@,
        label != "medium"@,
        label != "low"@,
    ensures
        profile_of(tier_of(label)) == profile_of(tier_of("medium"@)),
        profile_of(tier_of(label)) == (EncoderProfile {
            preset: Preset::Medium,
            rate_factor: "23"@,
        }),
{
    reveal_strlit("high");
    reveal_strlit("medium");
    assert("medium"@.len() != "high"@.len());
}

} // verus!

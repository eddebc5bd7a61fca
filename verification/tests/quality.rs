use reels_pipeline::quality::{resolve, Preset, QualityTier};

#[test]
fn resolve_high_is_slow_18() {
    let q = resolve("high");
    assert_eq!(q.preset(), Preset::Slow);
    assert_eq!(q.crf(), "18");
}

#[test]
fn resolve_medium_is_medium_23() {
    let q = resolve("medium");
    assert_eq!(q.preset(), Preset::Medium);
    assert_eq!(q.crf(), "23");
}

#[test]
fn resolve_low_is_ultrafast_28() {
    let q = resolve("low");
    assert_eq!(q.preset(), Preset::Ultrafast);
    assert_eq!(q.crf(), "28");
}

#[test]
fn resolve_unknown_labels_give_medium() {
    for label in ["", "HIGH", "High", "ultra", "high ", " low", "médio", "medium\n", "lowest"] {
        let q = resolve(label);
        assert_eq!(q.preset(), Preset::Medium, "label {:?}", label);
        assert_eq!(q.crf(), "23", "label {:?}", label);
    }
}

#[test]
fn tier_from_label_tells_default_from_medium() {
    assert_eq!(QualityTier::from_label("high"), QualityTier::High);
    assert_eq!(QualityTier::from_label("medium"), QualityTier::Medium);
    assert_eq!(QualityTier::from_label("low"), QualityTier::Low);
    assert_eq!(QualityTier::from_label("other"), QualityTier::Default);
    let a = QualityTier::Default.profile();
    let b = QualityTier::Medium.profile();
    assert_eq!(a.preset(), b.preset());
    assert_eq!(a.crf(), b.crf());
}

#[test]
fn preset_names_are_the_encoder_words() {
    assert_eq!(Preset::Slow.name(), "slow");
    assert_eq!(Preset::Medium.name(), "medium");
    assert_eq!(Preset::Ultrafast.name(), "ultrafast");
}

#[test]
fn clone_keeps_the_settings() {
    let q = resolve("low");
    let d = q.clone();
    assert_eq!(d.preset(), Preset::Ultrafast);
    assert_eq!(d.crf(), "28");
}

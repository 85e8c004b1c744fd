use embree4_rs::scene::{
    build_quality_raw, build_quality_to_apply, flags_to_apply, BuildQuality, SceneOptions,
    SceneTracker, SCENE_FLAG_COMPACT, SCENE_FLAG_NONE, SCENE_FLAG_ROBUST,
};

#[test]
fn default_options_send_nothing() {
    let options = SceneOptions::default();
    assert_eq!(options.build_quality, BuildQuality::Medium);
    assert_eq!(options.flags, SCENE_FLAG_NONE);
    assert_eq!(build_quality_to_apply(&options), None);
    assert_eq!(flags_to_apply(&options), None);
}

#[test]
fn non_default_options_are_sent() {
    let options = SceneOptions {
        build_quality: BuildQuality::High,
        flags: SCENE_FLAG_COMPACT | SCENE_FLAG_ROBUST,
    };
    assert_eq!(build_quality_to_apply(&options), Some(BuildQuality::High));
    assert_eq!(flags_to_apply(&options), Some(6));
}

#[test]
fn explicit_default_quality_is_skipped() {
    let options = SceneOptions { build_quality: BuildQuality::Medium, flags: SCENE_FLAG_ROBUST };
    assert_eq!(build_quality_to_apply(&options), None);
    assert_eq!(flags_to_apply(&options), Some(SCENE_FLAG_ROBUST));
}

#[test]
fn build_quality_raw_values() {
    assert_eq!(build_quality_raw(BuildQuality::Low), 0);
    assert_eq!(build_quality_raw(BuildQuality::Medium), 1);
    assert_eq!(build_quality_raw(BuildQuality::High), 2);
    assert_eq!(build_quality_raw(BuildQuality::Refit), 3);
}

#[test]
fn attachment_ids_round_trip_to_their_attachment() {
    let mut tracker = SceneTracker::new();
    assert_eq!(tracker.len(), 0);
    // Identifiers as the native kernel might hand them out: opaque, not
    // necessarily contiguous or ordered.
    assert!(tracker.record_attachment(7));
    assert!(tracker.record_attachment(0));
    assert!(tracker.record_attachment(42));
    assert_eq!(tracker.len(), 3);
    assert_eq!(tracker.index_of(7), Some(0));
    assert_eq!(tracker.index_of(0), Some(1));
    assert_eq!(tracker.index_of(42), Some(2));
    assert!(tracker.contains(42));
}

#[test]
fn unknown_id_correlates_to_nothing() {
    let mut tracker = SceneTracker::new();
    assert!(tracker.record_attachment(3));
    assert_eq!(tracker.index_of(4), None);
    assert!(!tracker.contains(4));
}

#[test]
fn duplicate_id_is_refused_and_record_unchanged() {
    let mut tracker = SceneTracker::new();
    assert!(tracker.record_attachment(5));
    assert!(tracker.record_attachment(9));
    assert!(!tracker.record_attachment(5));
    assert_eq!(tracker.len(), 2);
    assert_eq!(tracker.index_of(5), Some(0));
    assert_eq!(tracker.index_of(9), Some(1));
}

#[test]
fn commit_keeps_the_attachment_record() {
    let mut tracker = SceneTracker::new();
    assert!(!tracker.committed());
    assert!(tracker.record_attachment(11));
    tracker.mark_committed();
    assert!(tracker.committed());
    assert_eq!(tracker.index_of(11), Some(0));
    assert_eq!(tracker.len(), 1);
}

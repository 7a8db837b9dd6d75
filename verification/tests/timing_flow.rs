//! Timestamping, sequence offsets, renegotiation continuity, the overflow
//! fail-closed path, and the allocation protocol.

use testpattern::allocation::AllocationQuery;
use testpattern::allocation::PoolProposal;
use testpattern::caps::Caps;
use testpattern::caps::Fraction;
use testpattern::caps::FractionField;
use testpattern::caps::IntField;
use testpattern::caps::MediaType;
use testpattern::errors::SourceError;
use testpattern::source::SourceState;
use testpattern::source::TestPatternSrc;
use testpattern::video::VideoFormat;

fn concrete_caps(w: i32, h: i32, fps_n: i32, fps_d: i32) -> Caps {
    Caps {
        media: MediaType::RawVideo,
        format: VideoFormat::Bgrx,
        width: IntField::Concrete(w),
        height: IntField::Concrete(h),
        framerate: FractionField::Concrete(Fraction { numer: fps_n, denom: fps_d }),
    }
}

fn streaming_source(w: i32, h: i32, fps_n: i32, fps_d: i32) -> TestPatternSrc {
    let mut src = TestPatternSrc::new();
    src.start();
    src.set_caps(&concrete_caps(w, h, fps_n, fps_d)).unwrap();
    let query = AllocationQuery { proposals: Vec::new(), supports_video_meta: false };
    let _decision = src.decide_allocation(&query);
    src.complete_allocation(true).unwrap();
    src
}

#[test]
fn thirty_frames_at_30_1_are_one_second() {
    let mut src = streaming_source(4, 4, 30, 1);
    let mut last_pts = 0u64;
    let mut last_duration = 0u64;
    for k in 0..30u64 {
        let b = src.create().unwrap();
        let pts = b.pts.unwrap();
        assert_eq!(pts, k * 1_000_000_000 / 30, "frame {} timestamp", k);
        last_pts = pts;
        last_duration = b.duration.unwrap();
    }
    assert_eq!(src.settings.running_time, 1_000_000_000);
    assert_eq!(last_pts + last_duration, 1_000_000_000);
    assert_eq!(src.settings.n_frames, 30);
}

#[test]
fn renegotiation_keeps_the_timeline_continuous() {
    let mut src = streaming_source(4, 4, 30, 1);
    for _ in 0..30 {
        src.create().unwrap();
    }
    let running_before = src.settings.running_time;
    assert_eq!(running_before, 1_000_000_000);
    src.set_caps(&concrete_caps(8, 8, 25, 1)).unwrap();
    assert_eq!(src.settings.accum_rtime, running_before);
    assert_eq!(src.settings.running_time, 0);
    assert_eq!(src.settings.n_frames, 0);
    let query = AllocationQuery { proposals: Vec::new(), supports_video_meta: false };
    let _decision = src.decide_allocation(&query);
    src.complete_allocation(true).unwrap();
    let b = src.create().unwrap();
    assert_eq!(
        b.pts,
        Some(1_000_000_000),
        "first frame of the new epoch continues the old timeline"
    );
    assert_eq!(b.duration, Some(1_000_000_000 / 25));
}

#[test]
fn sequence_offsets_increase_by_one_across_epochs() {
    let mut src = streaming_source(4, 4, 30, 1);
    for k in 0..3u64 {
        let b = src.create().unwrap();
        assert_eq!(b.offset, k);
        assert_eq!(b.offset_end, k + 1);
        assert_eq!(b.dts, None);
    }
    src.set_caps(&concrete_caps(4, 4, 30, 1)).unwrap();
    assert_eq!(src.settings.accum_frames, 3);
    let query = AllocationQuery { proposals: Vec::new(), supports_video_meta: false };
    let _decision = src.decide_allocation(&query);
    src.complete_allocation(true).unwrap();
    let b = src.create().unwrap();
    assert_eq!(b.offset, 3, "carried across the renegotiation");
    assert_eq!(b.offset_end, 4);
}

#[test]
fn unconstrained_framerate_cannot_be_stamped() {
    // start() installs 0/1: valid for painting, but no frame rate to
    // stamp by, so a pull without real negotiation fails
    let mut src = TestPatternSrc::new();
    src.start();
    let query = AllocationQuery { proposals: Vec::new(), supports_video_meta: false };
    let _decision = src.decide_allocation(&query);
    src.complete_allocation(true).unwrap();
    let before = src.settings;
    assert_eq!(src.create().unwrap_err(), SourceError::NotNegotiated);
    assert_eq!(src.settings, before);
}

#[test]
fn timing_overflow_fails_closed() {
    // at 1 / i32::MAX frames per second each frame lasts about 68 years;
    // the ninth exact running time no longer fits 64 bits
    let mut src = streaming_source(2, 2, 1, i32::MAX);
    for _ in 0..8 {
        src.create().unwrap();
    }
    let before = src.settings;
    assert_eq!(src.create().unwrap_err(), SourceError::TimingOverflow);
    assert_eq!(src.settings, before, "failing closed changes nothing");
    assert_eq!(src.create().unwrap_err(), SourceError::TimingOverflow);
}

#[test]
fn no_proposal_gets_a_fresh_pool_at_negotiated_size() {
    let mut src = TestPatternSrc::new();
    src.start();
    src.set_caps(&concrete_caps(320, 240, 30, 1)).unwrap();
    let query = AllocationQuery { proposals: Vec::new(), supports_video_meta: true };
    let d = src.decide_allocation(&query);
    assert!(!d.is_update);
    assert!(!d.reuse_first_pool);
    assert_eq!(d.size, 320 * 240 * 4);
    assert_eq!(d.min_buffers, 0);
    assert_eq!(d.max_buffers, 0);
    assert!(d.enable_video_meta);
}

#[test]
fn small_proposed_pool_is_resized_and_updated() {
    let mut src = TestPatternSrc::new();
    src.start();
    src.set_caps(&concrete_caps(320, 240, 30, 1)).unwrap();
    let proposal = PoolProposal { has_pool: true, size: 1000, min_buffers: 2, max_buffers: 8 };
    let query = AllocationQuery { proposals: vec![proposal], supports_video_meta: false };
    let d = src.decide_allocation(&query);
    assert!(d.is_update, "reported as an update, not a new pool");
    assert!(d.reuse_first_pool);
    assert_eq!(d.size, 320 * 240 * 4, "never below the negotiated size");
    assert_eq!(d.min_buffers, 2);
    assert_eq!(d.max_buffers, 8);
    assert!(!d.enable_video_meta);
}

#[test]
fn large_proposed_pool_keeps_its_size() {
    let mut src = TestPatternSrc::new();
    src.start();
    src.set_caps(&concrete_caps(4, 4, 30, 1)).unwrap();
    let proposal = PoolProposal { has_pool: true, size: 100_000, min_buffers: 1, max_buffers: 4 };
    let query = AllocationQuery { proposals: vec![proposal], supports_video_meta: false };
    let d = src.decide_allocation(&query);
    assert_eq!(d.size, 100_000);
}

#[test]
fn rejected_pool_configuration_is_an_allocation_error() {
    let mut src = TestPatternSrc::new();
    src.start();
    src.set_caps(&concrete_caps(4, 4, 30, 1)).unwrap();
    let query = AllocationQuery { proposals: Vec::new(), supports_video_meta: false };
    let _decision = src.decide_allocation(&query);
    assert_eq!(
        src.complete_allocation(false),
        Err(SourceError::AllocationError)
    );
    assert_eq!(src.state, SourceState::Negotiated, "no partial pool state");
    // the host may retry: decide again and stream
    let _decision = src.decide_allocation(&query);
    src.complete_allocation(true).unwrap();
    assert_eq!(src.state, SourceState::Streaming);
    src.create().unwrap();
}

#[test]
fn property_setters_and_getters_round_trip() {
    let mut src = TestPatternSrc::new();
    assert_eq!(src.foreground_color(), 0xffffffff);
    assert_eq!(src.background_color(), 0xff000000);
    assert_eq!(src.speed(), 5);
    assert_eq!(src.size(), 50);
    src.set_foreground_color(0xff00ff00);
    src.set_background_color(0xff0000ff);
    src.set_speed(11);
    src.set_size(7);
    assert_eq!(src.foreground_color(), 0xff00ff00);
    assert_eq!(src.background_color(), 0xff0000ff);
    assert_eq!(src.speed(), 11);
    assert_eq!(src.size(), 7);
}

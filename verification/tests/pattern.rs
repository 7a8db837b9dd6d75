//! Painting behavior: bar boundaries, determinism, offset wrap, and the
//! untouched regions of a stride-padded frame.

use testpattern::buffer::Buffer;
use testpattern::caps::Caps;
use testpattern::errors::SourceError;
use testpattern::frame::make_image;
use testpattern::settings::Settings;
use testpattern::source::TestPatternSrc;
use testpattern::video::VideoFormat;
use testpattern::video::VideoInfo;

fn negotiated_source() -> TestPatternSrc {
    let mut src = TestPatternSrc::new();
    src.start();
    let template: Caps = testpattern::caps::template_caps();
    let fixed: Caps = src.fixate(&template).expect("opaque foreground must fixate");
    src.set_caps(&fixed).expect("fixated template caps must be accepted");
    let query = testpattern::allocation::AllocationQuery {
        proposals: Vec::new(),
        supports_video_meta: false,
    };
    let _decision = src.decide_allocation(&query);
    src.complete_allocation(true).expect("accepted pool must stream");
    src
}

#[test]
fn bar_boundary_rows_0_to_49_white_rest_black() {
    let mut src = negotiated_source();
    assert_eq!(src.speed(), 5);
    assert_eq!(src.size(), 50);
    let buffer = src.create().expect("pull from a streaming source");
    let stride = 320 * 4;
    assert_eq!(buffer.data.len(), 320 * 240 * 4);
    for row in 0..240 {
        let expected = if row < 50 { 0xffu8 } else { 0x00u8 };
        for px in 0..320 {
            let base = row * stride + px * 4;
            assert_eq!(buffer.data[base], expected, "row {} px {}", row, px);
            assert_eq!(buffer.data[base + 1], expected);
            assert_eq!(buffer.data[base + 2], expected);
            // the fourth (alpha/pad) byte is never written; the raw
            // allocation is zeroed
            assert_eq!(buffer.data[base + 3], 0x00);
        }
    }
}

#[test]
fn paint_is_deterministic() {
    let info = VideoInfo {
        format: VideoFormat::Bgrx,
        width: 8,
        height: 16,
        fps_n: 30,
        fps_d: 1,
    };
    let mut s1 = Settings::default();
    s1.info = Some(info);
    s1.offset = 3;
    s1.size = 4;
    s1.speed = 7;
    let mut s2 = s1.clone();
    let mut d1: Vec<u8> = vec![0xaa; 40 * 16];
    let mut d2: Vec<u8> = vec![0xaa; 40 * 16];
    make_image(&mut d1, 40, 8, &mut s1);
    make_image(&mut d2, 40, 8, &mut s2);
    assert_eq!(d1, d2);
    assert_eq!(s1.offset, s2.offset);
    assert_eq!(s1.offset, (3 + 7) % 16);
}

#[test]
fn offset_wraps_modulo_height() {
    let info = VideoInfo {
        format: VideoFormat::Rgba,
        width: 1,
        height: 240,
        fps_n: 0,
        fps_d: 1,
    };
    let mut s = Settings::default();
    s.info = Some(info);
    s.offset = 0;
    s.speed = 5;
    // an empty region paints no rows but still advances the offset
    let mut empty: Vec<u8> = Vec::new();
    for _ in 0..100 {
        make_image(&mut empty, 4, 1, &mut s);
    }
    assert_eq!(s.offset, (100 * 5) % 240);
    // a speed larger than the height still lands inside [0, height)
    s.speed = 1000;
    s.offset = 0;
    make_image(&mut empty, 4, 1, &mut s);
    assert_eq!(s.offset, 1000 % 240);
}

#[test]
fn padding_and_alpha_bytes_untouched() {
    let info = VideoInfo {
        format: VideoFormat::Bgrx,
        width: 2,
        height: 3,
        fps_n: 30,
        fps_d: 1,
    };
    let mut s = Settings::default();
    s.info = Some(info);
    s.offset = 0;
    s.size = 1;
    // stride 12 leaves 4 padding bytes after the 2 payload pixels; the
    // extra 5 bytes at the end are a trailing partial row
    let mut data: Vec<u8> = vec![0x55; 12 * 3 + 5];
    make_image(&mut data, 12, 2, &mut s);
    for row in 0..3 {
        let expected = if row == 0 { 0xff } else { 0x00 };
        for px in 0..2 {
            let base = row * 12 + px * 4;
            assert_eq!(data[base], expected);
            assert_eq!(data[base + 1], expected);
            assert_eq!(data[base + 2], expected);
            assert_eq!(data[base + 3], 0x55, "alpha byte must be untouched");
        }
        for pad in 8..12 {
            assert_eq!(data[row * 12 + pad], 0x55, "padding must be untouched");
        }
    }
    for tail in 36..41 {
        assert_eq!(data[tail], 0x55, "partial trailing row must be untouched");
    }
}

#[test]
fn too_small_buffer_is_stamped_but_not_painted() {
    let mut src = negotiated_source();
    let mut buffer = Buffer::with_size(16);
    let before = buffer.data.clone();
    let offset_before = src.settings.offset;
    src.fill(&mut buffer).expect("a mapping failure is a no-op, not an error");
    assert_eq!(buffer.data, before, "payload must be left as provided");
    assert_eq!(buffer.pts, Some(0), "stamping still happens");
    assert_eq!(buffer.offset, 0);
    assert_eq!(buffer.offset_end, 1);
    assert_eq!(src.settings.offset, offset_before, "no paint, no scroll");
    assert_eq!(src.settings.n_frames, 1, "timing still advances");
}

#[test]
fn fill_before_start_is_not_negotiated() {
    let mut src = TestPatternSrc::new();
    let mut buffer = Buffer::with_size(16);
    assert_eq!(src.fill(&mut buffer), Err(SourceError::NotNegotiated));
    assert_eq!(buffer.pts, None);
}

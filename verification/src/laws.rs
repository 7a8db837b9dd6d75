//! The library's general laws, stated over the spec functions its
//! contracts are written in and proved once for all inputs.

use vstd::prelude::*;

use vstd::arithmetic::div_mod::{lemma_add_mod_noop, lemma_mod_bound, lemma_mod_twice};

use crate::frame::painted;
use crate::settings::Settings;
use crate::timing::{lemma_scale_ns_monotone, lemma_scale_ns_nonneg, scale_ns};
use crate::video::VideoInfo;

verus! {

/// Painting is deterministic: equal input bytes and equal settings give
/// the same painted bytes and the same successor state. `make_image`'s
/// contract pins its outputs to exactly these functions of its inputs, so
/// two runs from the same state can never differ.
pub proof fn lemma_paint_deterministic(
    d1: Seq<u8>,
    d2: Seq<u8>,
    s1: Settings,
    s2: Settings,
    stride: int,
    width: int,
    rows: int,
)
    requires
        d1 == d2,
        s1 == s2,
    ensures
        painted(d1, stride, width, s1.offset, s1.size, rows) == painted(
            d2,
            stride,
            width,
            s2.offset,
            s2.size,
            rows,
        ),
        s1.advanced() == s2.advanced(),
{
}

/// The bar offset after `n` further frames, each advancing by `speed`
/// modulo `height` — the recurrence `make_image` implements.
pub open spec fn offset_after(start: int, speed: int, height: int, n: nat) -> int
    decreases n,
{
    if n == 0 {
        start
    } else {
        (offset_after(start, speed, height, (n - 1) as nat) + speed) % height
    }
}

/// Offset wrap: after `n >= 1` frames the bar offset is
/// `(start + n * speed) mod height`, and always lies in `[0, height)`.
pub proof fn lemma_offset_wrap(start: int, speed: int, height: int, n: nat)
    requires
        height >= 1,
        0 <= start,
        0 <= speed,
        n >= 1,
    ensures
        offset_after(start, speed, height, n) == (start + n * speed) % height,
        0 <= offset_after(start, speed, height, n) < height,
    decreases n,
{
    if n == 1 {
        assert(offset_after(start, speed, height, 0) == start);
        assert(offset_after(start, speed, height, 1) == (start + speed) % height);
        assert(n * speed == speed) by (nonlinear_arith)
            requires n == 1;
        lemma_mod_bound(start + speed, height);
    } else {
        lemma_offset_wrap(start, speed, height, (n - 1) as nat);
        let a = start + (n - 1) * speed;
        assert(offset_after(start, speed, height, n) == (a % height + speed) % height);
        lemma_mod_twice(a, height);
        lemma_add_mod_noop(a % height, speed, height);
        lemma_add_mod_noop(a, speed, height);
        assert((a % height + speed) % height == (a + speed) % height);
        assert(a + speed == start + n * speed) by (nonlinear_arith)
            requires a == start + (n - 1) * speed && n >= 1;
        lemma_mod_bound(start + n * speed, height);
    }
}

/// Timeline continuity: renegotiating to any new format preserves the
/// global presentation timestamp and the global frame count, the new
/// accumulated time is exactly the timeline reached before the switch,
/// and the new epoch restarts at zero — so the first frame of the new
/// epoch is stamped `accum_rtime + 0`.
pub proof fn lemma_timeline_continuous_across_renegotiation(s: Settings, info: VideoInfo)
    requires
        s.accum_rtime + s.running_time <= u64::MAX,
        s.accum_frames + s.n_frames <= u64::MAX,
    ensures
        s.transferred(info).timeline() == s.timeline(),
        s.transferred(info).frame_total() == s.frame_total(),
        s.transferred(info).accum_rtime == s.accum_rtime + s.running_time,
        s.transferred(info).running_time == 0,
        s.transferred(info).n_frames == 0,
{
}

/// Timeline monotonicity and frame sequencing: stamping one frame never
/// moves the global timeline backwards and advances the global frame
/// count by exactly one — so the offset/end-offset pairs of consecutive
/// pulls are strictly increasing by one, and the timeline is monotone
/// across any interleaving of pulls and renegotiations.
pub proof fn lemma_stamp_advances(s: Settings)
    requires
        s.wf(),
        s.info is Some,
        s.info->Some_0.fps_n >= 1,
        s.n_frames < u64::MAX,
        scale_ns(s.n_frames + 1, s.info->Some_0.fps_n as int, s.info->Some_0.fps_d as int)
            <= u64::MAX,
    ensures
        s.stamped().timeline() >= s.timeline(),
        s.stamped().frame_total() == s.frame_total() + 1,
        s.stamped().advanced().timeline() == s.stamped().timeline(),
        s.stamped().advanced().frame_total() == s.stamped().frame_total(),
{
    let i = s.info->Some_0;
    lemma_scale_ns_nonneg(s.n_frames + 1, i.fps_n as int, i.fps_d as int);
    lemma_scale_ns_monotone(s.n_frames as int, s.n_frames + 1, i.fps_n as int, i.fps_d as int);
}

} // verus!

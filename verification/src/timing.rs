//! Presentation-time accounting: frame counts scaled to nanoseconds.

use vstd::prelude::*;

use vstd::arithmetic::div_mod::lemma_div_is_ordered;
use vstd::arithmetic::mul::lemma_mul_inequality;

use crate::buffer::Buffer;
use crate::errors::SourceError;
use crate::settings::Settings;

verus! {

/// Nanoseconds in one second, the unit presentation time is kept in.
pub const NANOS_PER_SECOND: u64 = 1_000_000_000;

/// Elapsed presentation time, in nanoseconds, of `frames` frames at
/// `fps_n / fps_d` frames per second: `frames * fps_d * 1e9 / fps_n`,
/// rounded down.
pub open spec fn scale_ns(frames: int, fps_n: int, fps_d: int) -> int
    recommends
        fps_n >= 1,
{
    (frames * fps_d * 1_000_000_000) / fps_n
}

/// Scaled time grows (weakly) with the frame count.
pub proof fn lemma_scale_ns_monotone(f1: int, f2: int, fps_n: int, fps_d: int)
    requires
        0 <= f1 <= f2,
        fps_n >= 1,
        fps_d >= 0,
    ensures
        scale_ns(f1, fps_n, fps_d) <= scale_ns(f2, fps_n, fps_d),
{
    lemma_mul_inequality(f1, f2, fps_d);
    lemma_mul_inequality(f1 * fps_d, f2 * fps_d, 1_000_000_000);
    lemma_div_is_ordered(f1 * fps_d * 1_000_000_000, f2 * fps_d * 1_000_000_000, fps_n);
}

/// Scaled time is never negative.
pub proof fn lemma_scale_ns_nonneg(frames: int, fps_n: int, fps_d: int)
    requires
        frames >= 0,
        fps_n >= 1,
        fps_d >= 0,
    ensures
        scale_ns(frames, fps_n, fps_d) >= 0,
{
    lemma_scale_ns_monotone(0, frames, fps_n, fps_d);
}

/// Stamps one produced frame and advances the epoch's timing state.
///
/// The buffer's presentation timestamp becomes the current global timeline
/// position (`accum_rtime + running_time`); the decode timestamp is cleared
/// (live generation has none); the sequence offsets span exactly one frame
/// at the global frame count; the duration is the exact distance to the
/// next running time. Fails closed, changing nothing, when the framerate is
/// still unconstrained (`NotNegotiated`) or when the exact next running
/// time does not fit 64 bits (`TimingOverflow`).
pub fn stamp(buffer: &mut Buffer, settings: &mut Settings) -> (r: Result<(), SourceError>)
    requires
        old(settings).wf(),
        old(settings).info is Some,
        old(settings).accum_frames + old(settings).n_frames < u64::MAX,
        old(settings).accum_rtime + old(settings).running_time <= u64::MAX,
    ensures
        final(settings).wf(),
        ({
            let s = *old(settings);
            let i = s.info->Some_0;
            let next = scale_ns(s.n_frames + 1, i.fps_n as int, i.fps_d as int);
            if i.fps_n == 0 {
                r == Result::<(), SourceError>::Err(SourceError::NotNegotiated)
                    && *final(settings) == s && *final(buffer) == *old(buffer)
            } else if next > u64::MAX {
                r == Result::<(), SourceError>::Err(SourceError::TimingOverflow)
                    && *final(settings) == s && *final(buffer) == *old(buffer)
            } else {
                &&& r is Ok
                &&& *final(settings) == s.stamped()
                &&& final(settings).timeline() >= s.timeline()
                &&& final(settings).frame_total() == s.frame_total() + 1
                &&& *final(buffer) == (Buffer {
                    data: old(buffer).data,
                    pts: Option::Some(s.timeline() as u64),
                    dts: Option::<u64>::None,
                    duration: Option::Some((next - s.running_time) as u64),
                    offset: s.frame_total() as u64,
                    offset_end: (s.frame_total() + 1) as u64,
                })
            }
        }),
{
    let ghost s0 = *old(settings);
    let info = settings.info.unwrap();
    if info.fps_n == 0 {
        return Err(SourceError::NotNegotiated);
    }
    let nf1: u64 = settings.n_frames + 1;
    let next: u64 = match next_running_time(nf1, info.fps_n, info.fps_d) {
        Some(t) => t,
        None => {
            return Err(SourceError::TimingOverflow);
        },
    };
    proof {
        lemma_scale_ns_monotone(
            s0.n_frames as int,
            s0.n_frames + 1,
            info.fps_n as int,
            info.fps_d as int,
        );
    }
    let pts: u64 = settings.accum_rtime + settings.running_time;
    buffer.pts = Some(pts);
    buffer.dts = None;
    buffer.offset = settings.accum_frames + settings.n_frames;
    buffer.offset_end = buffer.offset + 1;
    settings.n_frames = nf1;
    let dur: u64 = next - settings.running_time;
    buffer.duration = Some(dur);
    settings.running_time = next;
    Ok(())
}

/// The running time after `frames` frames at `fps_n / fps_d` frames per
/// second, computed through a 128-bit intermediate so the multiply cannot
/// wrap; `None` when the exact result does not fit 64 bits (the caller
/// fails closed rather than wrapping).
pub fn next_running_time(frames: u64, fps_n: u32, fps_d: u32) -> (r: Option<u64>)
    requires
        1 <= fps_n,
    ensures
        match r {
            Option::Some(t) => t == scale_ns(frames as int, fps_n as int, fps_d as int),
            Option::None => scale_ns(frames as int, fps_n as int, fps_d as int) > u64::MAX,
        },
{
    proof {
        assert((frames as int) * (fps_d as int) * 1_000_000_000 < 0x1_0000_0000_0000_0000_0000_0000_0000_0000)
            by (nonlinear_arith)
            requires frames <= u64::MAX && fps_d <= u32::MAX;
        lemma_scale_ns_nonneg(frames as int, fps_n as int, fps_d as int);
    }
    let product: u128 = (frames as u128) * (fps_d as u128) * (NANOS_PER_SECOND as u128);
    let quotient: u128 = product / (fps_n as u128);
    if quotient <= u64::MAX as u128 {
        Some(quotient as u64)
    } else {
        None
    }
}

} // verus!

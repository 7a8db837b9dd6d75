//! The source element's state machine: lifecycle, negotiation entry
//! points, allocation decisions, and the per-request pull path.

use vstd::prelude::*;

use crate::allocation::{decide_allocation_policy, decision_for, AllocationDecision, AllocationQuery};
use crate::buffer::Buffer;
use crate::caps::{caps_to_video_info, fixate_caps, Caps};
use crate::errors::SourceError;
use crate::frame::{fill_image, painted};
use crate::settings::{initial_settings, Settings};
use crate::timing::{scale_ns, stamp};
use crate::video::{default_video_info, VideoFormat, VideoInfo};

verus! {

/// Lifecycle of the source, in the order the host drives it. Renegotiation
/// re-enters `Negotiated` from any later state.
#[derive(Clone, Copy, PartialEq, Eq, Structural, Debug)]
pub enum SourceState {
    Unconfigured,
    Negotiated,
    Allocating,
    Streaming,
}

/// The test-pattern source: its configuration plus its lifecycle state.
///
/// The host adapter owns one instance behind one exclusive lock and calls
/// the methods below in the order its pipeline contract mandates; every
/// multi-field update happens inside one method call, so a concurrent
/// property reader never sees torn state.
pub struct TestPatternSrc {
    pub settings: Settings,
    pub state: SourceState,
}

impl TestPatternSrc {
    /// Validity: the settings are well formed, and every state past
    /// `Unconfigured` has a format descriptor installed.
    pub open spec fn wf(self) -> bool {
        &&& self.settings.wf()
        &&& !(self.state is Unconfigured) ==> self.settings.info is Some
    }

    /// A freshly constructed source: default configuration, nothing
    /// negotiated yet.
    pub fn new() -> (s: TestPatternSrc)
        ensures
            s.wf(),
            s.state is Unconfigured,
            s.settings == initial_settings(),
    {
        TestPatternSrc { settings: Settings::default(), state: SourceState::Unconfigured }
    }

    /// Starts the element: zeroes every timing field and installs the
    /// default working format, so the source is in a valid, paintable
    /// state even before the first real negotiation.
    pub fn start(&mut self)
        requires
            old(self).wf(),
        ensures
            final(self).wf(),
            final(self).state is Negotiated,
            final(self).settings == (Settings {
                info: Option::Some(default_video_info()),
                accum_frames: 0u64,
                n_frames: 0u64,
                running_time: 0u64,
                accum_rtime: 0u64,
                ..old(self).settings
            }),
    {
        self.settings.running_time = 0;
        self.settings.n_frames = 0;
        self.settings.accum_frames = 0;
        self.settings.accum_rtime = 0;
        let info = VideoInfo {
            format: VideoFormat::Rgba,
            width: 320,
            height: 240,
            fps_n: 0,
            fps_d: 1,
        };
        self.settings.info = Some(info);
        self.state = SourceState::Negotiated;
    }

    /// Fixates an open capability set toward the preferred defaults
    /// (320x240 at 30/1) — unless the configured foreground color asks for
    /// alpha compositing, which painting does not support: then fixation
    /// is refused, the set is left exactly as it was (the caller keeps
    /// it), and nothing else changes.
    ///
    /// Any generic fixation of fields outside this model is the host
    /// adapter's remaining parent step.
    pub fn fixate(&self, caps: &Caps) -> (r: Result<Caps, SourceError>)
        requires
            caps.wf(),
        ensures
            (self.settings.foreground_color >> 24u32) != 0xff ==> r == Result::<
                Caps,
                SourceError,
            >::Err(SourceError::AlphaUnsupported),
            (self.settings.foreground_color >> 24u32) == 0xff ==> r == Result::<
                Caps,
                SourceError,
            >::Ok(caps.fixated()),
    {
        if (self.settings.foreground_color >> 24u32) != 0xff {
            Err(SourceError::AlphaUnsupported)
        } else {
            Ok(fixate_caps(caps))
        }
    }

    /// Accepts a negotiated capability set.
    ///
    /// A set that does not describe a producible format — wrong media
    /// kind, unknown pixel layout, a still-open field, a zero dimension or
    /// a malformed framerate — is rejected with `UnsupportedFormat` and
    /// nothing changes. On every successful call, including the first, the
    /// current epoch's frame count and running time are folded into the
    /// accumulators before the new descriptor is stored, so the global
    /// timeline and frame sequence continue without a reset.
    pub fn set_caps(&mut self, caps: &Caps) -> (r: Result<(), SourceError>)
        requires
            old(self).wf(),
            old(self).settings.accum_rtime + old(self).settings.running_time <= u64::MAX,
            old(self).settings.accum_frames + old(self).settings.n_frames <= u64::MAX,
        ensures
            final(self).wf(),
            r is Ok <==> caps.video_info() is Some,
            r is Err ==> r == Result::<(), SourceError>::Err(SourceError::UnsupportedFormat)
                && *final(self) == *old(self),
            r is Ok ==> ({
                &&& final(self).state is Negotiated
                &&& final(self).settings == old(self).settings.transferred(
                    caps.video_info()->Some_0,
                )
                &&& final(self).settings.timeline() == old(self).settings.timeline()
                &&& final(self).settings.frame_total() == old(self).settings.frame_total()
            }),
    {
        let info_opt = caps_to_video_info(caps);
        match info_opt {
            None => Err(SourceError::UnsupportedFormat),
            Some(info) => {
                self.settings.accum_rtime = self.settings.accum_rtime
                    + self.settings.running_time;
                self.settings.accum_frames = self.settings.accum_frames + self.settings.n_frames;
                self.settings.running_time = 0;
                self.settings.n_frames = 0;
                self.settings.info = Some(info);
                self.state = SourceState::Negotiated;
                proof {
                    if info.fps_n >= 1 {
                        assert(scale_ns(0, info.fps_n as int, info.fps_d as int) == 0) by {
                            vstd::arithmetic::div_mod::lemma_div_basics(info.fps_n as int);
                        }
                    }
                }
                Ok(())
            },
        }
    }

    /// Decides the buffer-pool question for the negotiated format and
    /// moves to `Allocating`. The decision follows
    /// `allocation::decision_for`: in particular the configured size is
    /// never below the negotiated frame size, and a proposed pool is
    /// reported as an update, not as a new pool.
    pub fn decide_allocation(&mut self, query: &AllocationQuery) -> (d: AllocationDecision)
        requires
            old(self).wf(),
            old(self).state is Negotiated,
            old(self).settings.info->Some_0.size_bytes() <= u32::MAX,
        ensures
            final(self).wf(),
            final(self).settings == old(self).settings,
            final(self).state is Allocating,
            d == decision_for(old(self).settings.info->Some_0, *query),
            d.size >= old(self).settings.info->Some_0.size_bytes(),
            query.proposals@.len() > 0 ==> d.is_update && d.size >= query.proposals@[0].size,
            query.proposals@.len() == 0 ==> !d.is_update && !d.reuse_first_pool && d.min_buffers
                == 0 && d.max_buffers == 0,
    {
        let info = self.settings.info.unwrap();
        let d = decide_allocation_policy(&info, query);
        self.state = SourceState::Allocating;
        d
    }

    /// Finishes the allocation step with the pool's own answer to its
    /// configuration. Acceptance moves the source to `Streaming`; a
    /// rejection surfaces `AllocationError`, keeps no partial pool state,
    /// and drops back to `Negotiated`.
    pub fn complete_allocation(&mut self, pool_accepted: bool) -> (r: Result<(), SourceError>)
        requires
            old(self).wf(),
            old(self).state is Allocating,
        ensures
            final(self).wf(),
            final(self).settings == old(self).settings,
            pool_accepted ==> r is Ok && final(self).state is Streaming,
            !pool_accepted ==> r == Result::<(), SourceError>::Err(SourceError::AllocationError)
                && final(self).state is Negotiated,
    {
        if pool_accepted {
            self.state = SourceState::Streaming;
            Ok(())
        } else {
            self.state = SourceState::Negotiated;
            Err(SourceError::AllocationError)
        }
    }

    /// Allocates one raw frame buffer of exactly the negotiated byte size,
    /// zero-filled and unstamped — the pull path's fallback when the host
    /// provides no pool.
    pub fn alloc_buffer(&self) -> (b: Buffer)
        requires
            self.wf(),
            self.settings.info is Some,
            self.settings.info->Some_0.size_bytes() <= usize::MAX,
        ensures
            b.data@ == Seq::new(
                self.settings.info->Some_0.size_bytes() as nat,
                |i: int| 0u8,
            ),
            b.pts is None,
            b.dts is None,
            b.duration is None,
            b.offset == 0,
            b.offset_end == 0,
    {
        let info = self.settings.info.unwrap();
        let size: u64 = info.frame_size();
        Buffer::with_size(size as usize)
    }

    /// Fills and stamps one buffer: the per-request body of the pull path.
    ///
    /// Fails with `NotNegotiated`, changing nothing, when no usable format
    /// is stored (none, unknown layout, or unconstrained framerate), and
    /// with `TimingOverflow`, changing nothing, when the exact next
    /// running time does not fit 64 bits. Otherwise the payload is painted
    /// whenever it is large enough for the negotiated layout (a too-small
    /// payload is deliberately a no-op, not an error), the buffer is
    /// stamped with the current timeline position and sequence numbers,
    /// and the timing state advances by exactly one frame.
    pub fn fill(&mut self, buffer: &mut Buffer) -> (r: Result<(), SourceError>)
        requires
            old(self).wf(),
            old(self).settings.accum_rtime + old(self).settings.running_time <= u64::MAX,
            old(self).settings.accum_frames + old(self).settings.n_frames < u64::MAX,
        ensures
            final(self).wf(),
            final(self).state == old(self).state,
            ({
                let s = old(self).settings;
                if s.info is None || s.info->Some_0.format == VideoFormat::Unknown
                    || s.info->Some_0.fps_n == 0 {
                    r == Result::<(), SourceError>::Err(SourceError::NotNegotiated) && *final(self)
                        == *old(self) && *final(buffer) == *old(buffer)
                } else if scale_ns(
                    s.n_frames + 1,
                    s.info->Some_0.fps_n as int,
                    s.info->Some_0.fps_d as int,
                ) > u64::MAX {
                    r == Result::<(), SourceError>::Err(SourceError::TimingOverflow)
                        && *final(self) == *old(self) && *final(buffer) == *old(buffer)
                } else {
                    let i = s.info->Some_0;
                    let next = scale_ns(s.n_frames + 1, i.fps_n as int, i.fps_d as int);
                    let painted_now = old(buffer).data@.len() >= i.size_bytes();
                    &&& r is Ok
                    &&& final(self).settings == (if painted_now {
                        s.stamped().advanced()
                    } else {
                        s.stamped()
                    })
                    &&& final(self).settings.timeline() >= s.timeline()
                    &&& final(self).settings.frame_total() == s.frame_total() + 1
                    &&& final(buffer).pts == Option::Some(s.timeline() as u64)
                    &&& final(buffer).dts is None
                    &&& final(buffer).offset == s.frame_total()
                    &&& final(buffer).offset_end == s.frame_total() + 1
                    &&& final(buffer).duration == Option::Some((next - s.running_time) as u64)
                    &&& painted_now ==> final(buffer).data@ == painted(
                        old(buffer).data@,
                        i.stride(),
                        i.width as int,
                        s.offset,
                        s.size,
                        i.height as int,
                    )
                    &&& !painted_now ==> final(buffer).data@ == old(buffer).data@
                }
            }),
    {
        match self.settings.info {
            None => {
                return Err(SourceError::NotNegotiated);
            },
            Some(i) => {
                if i.format == VideoFormat::Unknown {
                    return Err(SourceError::NotNegotiated);
                }
            },
        }
        let r1 = stamp(buffer, &mut self.settings);
        match r1 {
            Err(e) => {
                return Err(e);
            },
            Ok(()) => {},
        }
        let r2 = fill_image(buffer, &mut self.settings);
        proof {
            assert(r2 is Ok);
        }
        Ok(())
    }

    /// One complete pull request: allocate a raw frame buffer, paint it,
    /// stamp it, and hand it to the caller. Any fill failure aborts the
    /// pull, propagates the error, and leaves the timing state untouched.
    pub fn create(&mut self) -> (r: Result<Buffer, SourceError>)
        requires
            old(self).wf(),
            old(self).state is Streaming,
            old(self).settings.info->Some_0.size_bytes() <= usize::MAX,
            old(self).settings.accum_rtime + old(self).settings.running_time <= u64::MAX,
            old(self).settings.accum_frames + old(self).settings.n_frames < u64::MAX,
        ensures
            final(self).wf(),
            final(self).state is Streaming,
            ({
                let s = old(self).settings;
                let i = s.info->Some_0;
                if i.format == VideoFormat::Unknown || i.fps_n == 0 {
                    r == Result::<Buffer, SourceError>::Err(SourceError::NotNegotiated)
                        && *final(self) == *old(self)
                } else if scale_ns(s.n_frames + 1, i.fps_n as int, i.fps_d as int) > u64::MAX {
                    r == Result::<Buffer, SourceError>::Err(SourceError::TimingOverflow)
                        && *final(self) == *old(self)
                } else {
                    let next = scale_ns(s.n_frames + 1, i.fps_n as int, i.fps_d as int);
                    &&& r is Ok
                    &&& final(self).settings == s.stamped().advanced()
                    &&& ({
                        let b = r->Ok_0;
                        &&& b.data@ == painted(
                            Seq::new(i.size_bytes() as nat, |k: int| 0u8),
                            i.stride(),
                            i.width as int,
                            s.offset,
                            s.size,
                            i.height as int,
                        )
                        &&& b.pts == Option::Some(s.timeline() as u64)
                        &&& b.dts is None
                        &&& b.offset == s.frame_total()
                        &&& b.offset_end == s.frame_total() + 1
                        &&& b.duration == Option::Some((next - s.running_time) as u64)
                    })
                }
            }),
    {
        let mut buffer = self.alloc_buffer();
        let r = self.fill(&mut buffer);
        match r {
            Err(e) => Err(e),
            Ok(()) => Ok(buffer),
        }
    }

    /// Sets the foreground color (big-endian ARGB). Only its alpha byte is
    /// consulted, during fixation; painting ignores the color itself.
    pub fn set_foreground_color(&mut self, value: u32)
        requires
            old(self).wf(),
        ensures
            final(self).wf(),
            final(self).state == old(self).state,
            final(self).settings == (Settings { foreground_color: value, ..old(self).settings }),
    {
        self.settings.foreground_color = value;
    }

    /// Sets the background color (big-endian ARGB). Stored, but not yet
    /// consulted by painting.
    pub fn set_background_color(&mut self, value: u32)
        requires
            old(self).wf(),
        ensures
            final(self).wf(),
            final(self).state == old(self).state,
            final(self).settings == (Settings { background_color: value, ..old(self).settings }),
    {
        self.settings.background_color = value;
    }

    /// Sets the per-frame scroll displacement, in pixel rows.
    pub fn set_speed(&mut self, value: u32)
        requires
            old(self).wf(),
        ensures
            final(self).wf(),
            final(self).state == old(self).state,
            final(self).settings == (Settings { speed: value, ..old(self).settings }),
    {
        self.settings.speed = value;
    }

    /// Sets the height of the scrolling bar, in pixel rows.
    pub fn set_size(&mut self, value: u32)
        requires
            old(self).wf(),
        ensures
            final(self).wf(),
            final(self).state == old(self).state,
            final(self).settings == (Settings { size: value, ..old(self).settings }),
    {
        self.settings.size = value;
    }

    /// Reads the foreground color.
    pub fn foreground_color(&self) -> (v: u32)
        ensures
            v == self.settings.foreground_color,
    {
        self.settings.foreground_color
    }

    /// Reads the background color.
    pub fn background_color(&self) -> (v: u32)
        ensures
            v == self.settings.background_color,
    {
        self.settings.background_color
    }

    /// Reads the per-frame scroll displacement.
    pub fn speed(&self) -> (v: u32)
        ensures
            v == self.settings.speed,
    {
        self.settings.speed
    }

    /// Reads the bar height.
    pub fn size(&self) -> (v: u32)
        ensures
            v == self.settings.size,
    {
        self.settings.size
    }
}

} // verus!

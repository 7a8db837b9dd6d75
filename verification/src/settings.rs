//! The single source of truth for configuration and derived timing state.
//!
//! One instance exists per source element. The host adapter keeps it behind
//! one exclusive lock and performs every multi-field update while holding
//! it; the library only ever sees the value itself.

use vstd::prelude::*;

use crate::timing::scale_ns;
use crate::video::VideoInfo;

verus! {

/// Default foreground color, big-endian ARGB: fully opaque white.
pub const DEFAULT_FOREGROUND_COLOR: u32 = 0xffffffff;

/// Default background color, big-endian ARGB: fully opaque black.
pub const DEFAULT_BACKGROUND_COLOR: u32 = 0xff000000;

/// Default vertical displacement of the bar, in pixel rows per frame.
pub const DEFAULT_SPEED: u32 = 5;

/// Default height of the scrolling bar, in pixel rows.
pub const DEFAULT_SIZE: u32 = 50;

/// Current configuration and derived timing state.
///
/// `foreground_color` and `background_color` are stored and `foreground_color`'s
/// alpha byte gates fixation, but painting always emits pure white on black;
/// the RGB parts of both colors are deliberately unused.
///
/// `n_frames` and `running_time` count frames and elapsed presentation time
/// since the last renegotiation; `accum_frames` and `accum_rtime` carry the
/// totals of all prior negotiated epochs, so the global timeline never
/// resets.
#[derive(Clone, Copy, PartialEq, Eq, Structural, Debug)]
pub struct Settings {
    pub foreground_color: u32,
    pub background_color: u32,
    pub info: Option<VideoInfo>,
    pub size: u32,
    pub offset: u32,
    pub speed: u32,

    pub accum_frames: u64,
    pub n_frames: u64,
    pub running_time: u64,
    pub accum_rtime: u64,
}

impl Settings {
    /// Well-formedness: a stored descriptor is valid, and whenever the
    /// framerate is constrained, `running_time` is exactly the scaled time
    /// of `n_frames` frames — the invariant that makes per-frame durations
    /// non-negative.
    pub open spec fn wf(self) -> bool {
        match self.info {
            Option::Some(i) => i.wf() && (i.fps_n >= 1 ==> self.running_time
                == scale_ns(self.n_frames as int, i.fps_n as int, i.fps_d as int)),
            Option::None => true,
        }
    }

    /// Current presentation timestamp: epoch-accumulated time plus time in
    /// the current epoch.
    pub open spec fn timeline(self) -> int {
        self.accum_rtime + self.running_time
    }

    /// Global frame sequence position: epoch-accumulated frames plus frames
    /// in the current epoch.
    pub open spec fn frame_total(self) -> int {
        self.accum_frames + self.n_frames
    }

    /// State after one painted frame: the bar's top row moves down by
    /// `speed` rows, wrapping modulo the negotiated frame height.
    pub open spec fn advanced(self) -> Settings
        recommends
            self.info is Some,
    {
        Settings {
            offset: (((self.offset + self.speed) % (self.info->Some_0.height as int)) as u32),
            ..self
        }
    }

    /// State after one stamped frame: the epoch's frame count grows by one
    /// and its running time becomes the scaled time of the new count.
    pub open spec fn stamped(self) -> Settings
        recommends
            self.info is Some,
            self.info->Some_0.fps_n >= 1,
    {
        Settings {
            n_frames: (self.n_frames + 1) as u64,
            running_time: (scale_ns(
                self.n_frames + 1,
                self.info->Some_0.fps_n as int,
                self.info->Some_0.fps_d as int,
            ) as u64),
            ..self
        }
    }

    /// State after a successful renegotiation to `info`: the current epoch's
    /// frames and time are folded into the accumulators and the epoch
    /// counters restart at zero.
    pub open spec fn transferred(self, info: VideoInfo) -> Settings {
        Settings {
            info: Option::Some(info),
            accum_rtime: (self.accum_rtime + self.running_time) as u64,
            accum_frames: (self.accum_frames + self.n_frames) as u64,
            running_time: 0u64,
            n_frames: 0u64,
            ..self
        }
    }
}

/// The configuration a source is constructed with: default colors, speed
/// and bar size, no negotiated format, all counters zero.
pub open spec fn initial_settings() -> Settings {
    Settings {
        foreground_color: DEFAULT_FOREGROUND_COLOR,
        background_color: DEFAULT_BACKGROUND_COLOR,
        info: Option::<VideoInfo>::None,
        size: DEFAULT_SIZE,
        offset: 0u32,
        speed: DEFAULT_SPEED,
        accum_frames: 0u64,
        n_frames: 0u64,
        running_time: 0u64,
        accum_rtime: 0u64,
    }
}

impl Default for Settings {
    /// The state `initial_settings` describes.
    fn default() -> (s: Settings)
        ensures
            s == initial_settings(),
            s.wf(),
    {
        Settings {
            foreground_color: DEFAULT_FOREGROUND_COLOR,
            background_color: DEFAULT_BACKGROUND_COLOR,
            info: Option::None,
            size: DEFAULT_SIZE,
            offset: 0,
            speed: DEFAULT_SPEED,
            accum_frames: 0,
            n_frames: 0,
            running_time: 0,
            accum_rtime: 0,
        }
    }
}

} // verus!

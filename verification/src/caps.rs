//! Capability sets and their fixation: the negotiable description of a
//! media format, with open integer and fraction ranges resolved to the
//! concrete values nearest a preferred default.

use vstd::prelude::*;

use crate::video::{VideoFormat, VideoInfo};

verus! {

/// The media kind a capability set names. This source produces raw video
/// and nothing else.
#[derive(Clone, Copy, PartialEq, Eq, Structural, Debug)]
pub enum MediaType {
    RawVideo,
    Other,
}

/// A non-negative rational, used for framerates.
#[derive(Clone, Copy, PartialEq, Eq, Structural, Debug)]
pub struct Fraction {
    pub numer: i32,
    pub denom: i32,
}

impl Fraction {
    /// A framerate fraction is non-negative with a positive denominator.
    pub open spec fn wf(self) -> bool {
        0 <= self.numer && 1 <= self.denom
    }

    /// Rational order by cross-multiplication.
    pub open spec fn le(self, other: Fraction) -> bool {
        self.numer * other.denom <= other.numer * self.denom
    }
}

/// Compares two framerate fractions through 64-bit cross products, which
/// cannot overflow for 32-bit parts.
pub fn frac_le(a: &Fraction, b: &Fraction) -> (r: bool)
    requires
        a.wf(),
        b.wf(),
    ensures
        r == a.le(*b),
{
    proof {
        assert((a.numer as int) * (b.denom as int) <= 0x7fffffffi64 * 0x7fffffffi64
            && (b.numer as int) * (a.denom as int) <= 0x7fffffffi64 * 0x7fffffffi64)
            by (nonlinear_arith)
            requires
                0 <= a.numer <= i32::MAX,
                1 <= b.denom <= i32::MAX,
                0 <= b.numer <= i32::MAX,
                1 <= a.denom <= i32::MAX;
    }
    (a.numer as i64) * (b.denom as i64) <= (b.numer as i64) * (a.denom as i64)
}

/// A numeric capability field: already concrete, or an inclusive range
/// still open to fixation.
#[derive(Clone, Copy, PartialEq, Eq, Structural, Debug)]
pub enum IntField {
    Concrete(i32),
    Range(i32, i32),
}

impl IntField {
    pub open spec fn wf(self) -> bool {
        match self {
            IntField::Concrete(v) => 0 <= v,
            IntField::Range(lo, hi) => 0 <= lo && lo <= hi,
        }
    }
}

/// A framerate capability field: concrete, an inclusive range, or absent
/// from the capability set altogether.
#[derive(Clone, Copy, PartialEq, Eq, Structural, Debug)]
pub enum FractionField {
    Concrete(Fraction),
    Range(Fraction, Fraction),
    Absent,
}

impl FractionField {
    pub open spec fn wf(self) -> bool {
        match self {
            FractionField::Concrete(f) => f.wf(),
            FractionField::Range(lo, hi) => lo.wf() && hi.wf() && lo.le(hi),
            FractionField::Absent => true,
        }
    }
}

/// The value of an integer field after fixation toward `target`: a
/// concrete field keeps its value, an open range yields the value in it
/// nearest to `target`.
pub open spec fn nearest_int(f: IntField, target: i32) -> i32 {
    match f {
        IntField::Concrete(v) => v,
        IntField::Range(lo, hi) => if target < lo {
            lo
        } else if target > hi {
            hi
        } else {
            target
        },
    }
}

/// The value of a framerate field after fixation toward `target`: a
/// concrete field keeps its value, an open range yields the fraction in it
/// nearest to `target`, and an absent field is created as `target`.
pub open spec fn nearest_fraction(f: FractionField, target: Fraction) -> Fraction {
    match f {
        FractionField::Concrete(v) => v,
        FractionField::Range(lo, hi) => if !lo.le(target) {
            lo
        } else if !target.le(hi) {
            hi
        } else {
            target
        },
        FractionField::Absent => target,
    }
}

/// A capability set as this source sees one: media kind, pixel layout, and
/// the three negotiable fields.
#[derive(Clone, Copy, PartialEq, Eq, Structural, Debug)]
pub struct Caps {
    pub media: MediaType,
    pub format: VideoFormat,
    pub width: IntField,
    pub height: IntField,
    pub framerate: FractionField,
}

impl Caps {
    pub open spec fn wf(self) -> bool {
        self.width.wf() && self.height.wf() && self.framerate.wf()
    }

    /// This set after fixation: width toward 320, height toward 240,
    /// framerate toward 30/1 (created as 30/1 when absent).
    pub open spec fn fixated(self) -> Caps {
        Caps {
            width: IntField::Concrete(nearest_int(self.width, 320)),
            height: IntField::Concrete(nearest_int(self.height, 240)),
            framerate: FractionField::Concrete(
                nearest_fraction(self.framerate, Fraction { numer: 30, denom: 1 }),
            ),
            ..self
        }
    }

    /// The format descriptor a fully negotiated set describes, or `None`
    /// when the set cannot be accepted: wrong media kind, unknown pixel
    /// layout, a field still open, a zero dimension, or a malformed
    /// framerate.
    pub open spec fn video_info(self) -> Option<VideoInfo> {
        match (self.width, self.height, self.framerate) {
            (IntField::Concrete(w), IntField::Concrete(h), FractionField::Concrete(f)) => {
                if self.media is RawVideo && !(self.format is Unknown) && 1 <= w && 1 <= h
                    && f.wf() {
                    Option::Some(
                        VideoInfo {
                            format: self.format,
                            width: w as u32,
                            height: h as u32,
                            fps_n: f.numer as u32,
                            fps_d: f.denom as u32,
                        },
                    )
                } else {
                    Option::None
                }
            },
            _ => Option::None,
        }
    }
}

/// The capability set this source advertises on its one output direction:
/// raw video, the fixed 4-byte packed layout, any non-negative dimensions,
/// any framerate from 0/1 to `i32::MAX`/1.
pub fn template_caps() -> (c: Caps)
    ensures
        c == (Caps {
            media: MediaType::RawVideo,
            format: VideoFormat::Bgrx,
            width: IntField::Range(0, i32::MAX),
            height: IntField::Range(0, i32::MAX),
            framerate: FractionField::Range(
                Fraction { numer: 0, denom: 1 },
                Fraction { numer: i32::MAX, denom: 1 },
            ),
        }),
        c.wf(),
{
    Caps {
        media: MediaType::RawVideo,
        format: VideoFormat::Bgrx,
        width: IntField::Range(0, i32::MAX),
        height: IntField::Range(0, i32::MAX),
        framerate: FractionField::Range(
            Fraction { numer: 0, denom: 1 },
            Fraction { numer: i32::MAX, denom: 1 },
        ),
    }
}

fn fixate_nearest_int(f: &IntField, target: i32) -> (r: i32)
    ensures
        r == nearest_int(*f, target),
{
    match f {
        IntField::Concrete(v) => *v,
        IntField::Range(lo, hi) => if target < *lo {
            *lo
        } else if target > *hi {
            *hi
        } else {
            target
        },
    }
}

fn fixate_nearest_fraction(f: &FractionField, target: Fraction) -> (r: Fraction)
    requires
        f.wf(),
        target.wf(),
    ensures
        r == nearest_fraction(*f, target),
{
    match f {
        FractionField::Concrete(v) => *v,
        FractionField::Range(lo, hi) => if !frac_le(lo, &target) {
            *lo
        } else if !frac_le(&target, hi) {
            *hi
        } else {
            target
        },
        FractionField::Absent => target,
    }
}

/// Resolves every open field of `caps` to the concrete value nearest the
/// preferred defaults: 320x240 at 30/1.
pub fn fixate_caps(caps: &Caps) -> (r: Caps)
    requires
        caps.wf(),
    ensures
        r == caps.fixated(),
{
    let width = fixate_nearest_int(&caps.width, 320);
    let height = fixate_nearest_int(&caps.height, 240);
    let framerate = fixate_nearest_fraction(&caps.framerate, Fraction { numer: 30, denom: 1 });
    Caps {
        media: caps.media,
        format: caps.format,
        width: IntField::Concrete(width),
        height: IntField::Concrete(height),
        framerate: FractionField::Concrete(framerate),
    }
}

/// Validates a negotiated capability set and builds its format descriptor,
/// exactly as `Caps::video_info` describes.
pub fn caps_to_video_info(caps: &Caps) -> (r: Option<VideoInfo>)
    ensures
        r == caps.video_info(),
        r is Some ==> r->Some_0.wf(),
{
    match (caps.width, caps.height, caps.framerate) {
        (IntField::Concrete(w), IntField::Concrete(h), FractionField::Concrete(f)) => {
            if caps.media == MediaType::RawVideo && caps.format != VideoFormat::Unknown && 1 <= w
                && 1 <= h && 0 <= f.numer && 1 <= f.denom {
                Some(
                    VideoInfo {
                        format: caps.format,
                        width: w as u32,
                        height: h as u32,
                        fps_n: f.numer as u32,
                        fps_d: f.denom as u32,
                    },
                )
            } else {
                None
            }
        },
        _ => None,
    }
}

} // verus!

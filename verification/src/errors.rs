//! Typed failure signals. Every failure path returns one of these; nothing
//! in the core may terminate the process.

use vstd::prelude::*;

verus! {

/// The failure taxonomy of the source core.
///
/// - `UnsupportedFormat`: an accepted capability set does not describe a
///   format this source can produce; the negotiation caller sees a
///   rejection, the element stays alive.
/// - `NotNegotiated`: a fill was attempted without a usable format
///   descriptor (none stored, unknown pixel layout, or a still
///   unconstrained framerate); that one pull fails.
/// - `AllocationError`: the chosen pool rejected its configuration; no
///   partial pool state is kept.
/// - `AlphaUnsupported`: the foreground color asks for alpha compositing,
///   which painting does not implement; fixation is refused.
/// - `TimingOverflow`: the exact next running time does not fit 64 bits;
///   the source fails closed instead of wrapping the timeline.
#[derive(Clone, Copy, PartialEq, Eq, Structural, Debug)]
pub enum SourceError {
    UnsupportedFormat,
    NotNegotiated,
    AllocationError,
    AlphaUnsupported,
    TimingOverflow,
}

} // verus!

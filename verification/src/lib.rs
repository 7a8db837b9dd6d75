//! Frame-synthesis and negotiation core of a synthetic video source.
//!
//! The library produces deterministically timed, deterministically painted
//! raw video frames (a horizontal bar scrolling vertically) and decides the
//! policy questions a streaming host asks of a source element: how to fixate
//! open capability ranges, whether to accept a negotiated format, which
//! buffer pool to use and at what size, and how to stamp each produced
//! buffer so the presentation timeline stays continuous across
//! renegotiations.
//!
//! The host pipeline itself (pad handling, property dispatch, pooled memory)
//! is an external collaborator: it hands plain values in and takes plain
//! values and decisions back out.

pub mod allocation;
pub mod buffer;
pub mod caps;
pub mod errors;
pub mod frame;
pub mod laws;
pub mod settings;
pub mod source;
pub mod timing;
pub mod video;

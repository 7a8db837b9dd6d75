//! Buffer-pool policy: which pool a pull path should draw from, at what
//! buffer size, and with which options.

use vstd::prelude::*;

use crate::video::VideoInfo;

verus! {

/// One pool proposal from the requesting side: whether it carries an
/// existing pool object, and the buffer size and count limits it suggests.
#[derive(Clone, Copy, PartialEq, Eq, Structural, Debug)]
pub struct PoolProposal {
    pub has_pool: bool,
    pub size: u32,
    pub min_buffers: u32,
    pub max_buffers: u32,
}

/// The allocation question as plain values: the proposals in the order the
/// requester listed them, and whether it declared support for pixel-layout
/// metadata on buffers.
#[derive(Clone, PartialEq, Eq, Debug)]
pub struct AllocationQuery {
    pub proposals: Vec<PoolProposal>,
    pub supports_video_meta: bool,
}

/// The decision handed back to the host: reuse the first proposed pool
/// object or create a fresh one, configure it with `size`/`min_buffers`/
/// `max_buffers` and optionally the pixel-layout metadata option, and
/// report it as an update of proposal 0 or as a new pool.
#[derive(Clone, Copy, PartialEq, Eq, Structural, Debug)]
pub struct AllocationDecision {
    pub reuse_first_pool: bool,
    pub size: u32,
    pub min_buffers: u32,
    pub max_buffers: u32,
    pub is_update: bool,
    pub enable_video_meta: bool,
}

/// The decision the policy owes for `info` and `query`: with no proposal,
/// a fresh pool sized to the negotiated frame with unset (0/0) count
/// limits, reported as new; otherwise the first proposal, its size raised
/// to at least the negotiated frame size, its limits kept, reported as an
/// update at index 0.
pub open spec fn decision_for(info: VideoInfo, query: AllocationQuery) -> AllocationDecision {
    if query.proposals@.len() == 0 {
        AllocationDecision {
            reuse_first_pool: false,
            size: info.size_bytes() as u32,
            min_buffers: 0u32,
            max_buffers: 0u32,
            is_update: false,
            enable_video_meta: query.supports_video_meta,
        }
    } else {
        let p = query.proposals@[0];
        AllocationDecision {
            reuse_first_pool: p.has_pool,
            size: (if info.size_bytes() > p.size {
                info.size_bytes()
            } else {
                p.size as int
            }) as u32,
            min_buffers: p.min_buffers,
            max_buffers: p.max_buffers,
            is_update: true,
            enable_video_meta: query.supports_video_meta,
        }
    }
}

/// Computes the pool decision. The configured size is never below the
/// negotiated frame size, and a proposed pool is always reported as an
/// update of proposal 0, never as a new pool.
pub fn decide_allocation_policy(info: &VideoInfo, query: &AllocationQuery) -> (d:
    AllocationDecision)
    requires
        info.wf(),
        info.size_bytes() <= u32::MAX,
    ensures
        d == decision_for(*info, *query),
        d.size >= info.size_bytes(),
        query.proposals@.len() > 0 ==> d.is_update && d.size >= query.proposals@[0].size
            && d.min_buffers == query.proposals@[0].min_buffers && d.max_buffers
            == query.proposals@[0].max_buffers,
        query.proposals@.len() == 0 ==> !d.is_update && !d.reuse_first_pool && d.min_buffers == 0
            && d.max_buffers == 0,
        d.enable_video_meta == query.supports_video_meta,
{
    let negotiated: u32 = info.frame_size() as u32;
    if query.proposals.len() == 0 {
        AllocationDecision {
            reuse_first_pool: false,
            size: negotiated,
            min_buffers: 0,
            max_buffers: 0,
            is_update: false,
            enable_video_meta: query.supports_video_meta,
        }
    } else {
        let p: PoolProposal = query.proposals[0];
        let size: u32 = if negotiated > p.size {
            negotiated
        } else {
            p.size
        };
        AllocationDecision {
            reuse_first_pool: p.has_pool,
            size,
            min_buffers: p.min_buffers,
            max_buffers: p.max_buffers,
            is_update: true,
            enable_video_meta: query.supports_video_meta,
        }
    }
}

} // verus!

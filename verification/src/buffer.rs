//! One unit of pipeline memory: a payload plus the metadata a frame is
//! stamped with before it is handed to the caller.

use vstd::prelude::*;

verus! {

/// A buffer as the pipeline sees it: writable payload bytes, presentation
/// and decode timestamps, duration and sequence offsets, all in the state
/// the host framework would carry them.
///
/// Timestamps and the duration are nanosecond counts; `None` stands for the
/// framework's "no value". `offset` and `offset_end` are the frame sequence
/// numbers this buffer spans.
#[derive(Clone, PartialEq, Eq, Debug)]
pub struct Buffer {
    pub data: Vec<u8>,
    pub pts: Option<u64>,
    pub dts: Option<u64>,
    pub duration: Option<u64>,
    pub offset: u64,
    pub offset_end: u64,
}

impl Buffer {
    /// A fresh, unstamped buffer of `size` zeroed payload bytes.
    pub fn with_size(size: usize) -> (b: Buffer)
        ensures
            b.data@ == Seq::new(size as nat, |i: int| 0u8),
            b.pts is None,
            b.dts is None,
            b.duration is None,
            b.offset == 0,
            b.offset_end == 0,
    {
        let mut data: Vec<u8> = Vec::new();
        let mut k: usize = 0;
        while k < size
            invariant
                k <= size,
                data@ == Seq::new(k as nat, |i: int| 0u8),
            decreases size - k,
        {
            data.push(0u8);
            k = k + 1;
            proof {
                assert(data@ =~= Seq::new(k as nat, |i: int| 0u8));
            }
        }
        Buffer { data, pts: None, dts: None, duration: None, offset: 0, offset_end: 0 }
    }
}

} // verus!

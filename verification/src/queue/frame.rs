//! Decoded frames and the batches that the queue hands to the renderer.

use crate::queue::clock::Pts;
use crate::queue::clock::TickPts;
use crate::types::InputId;
use crate::types::Resolution;
use std::sync::Arc;
use vstd::prelude::*;

verus! {

/// `Arc::clone` on a shared pixel buffer: one more handle to the same
/// allocation, so the result points at the very buffer that `data` points at.
#[verifier::external_body]
fn share(data: &Arc<Vec<u8>>) -> (handle: Arc<Vec<u8>>)
    ensures
        handle == *data,
{
    Arc::clone(data)
}

/// A decoded picture with the time at which it is to be shown.
#[derive(Debug)]
pub struct RawFrame {
    pub data: Arc<Vec<u8>>,
    pub pts: Pts,
    pub resolution: Resolution,
    pub input_id: InputId,
}

impl Clone for RawFrame {
    /// The copy shares the pixel buffer with the frame it is made from.
    fn clone(&self) -> (copy: Self)
        ensures
            copy == *self,
    {
        RawFrame {
            data: share(&self.data),
            pts: self.pts,
            resolution: self.resolution,
            input_id: self.input_id.clone(),
        }
    }
}

impl RawFrame {
    /// A frame is usable when its presentation time is.
    pub open spec fn is_valid(&self) -> bool {
        self.pts.is_valid()
    }

    pub fn check_valid(&self) -> (valid: bool)
        ensures
            valid == self.is_valid(),
    {
        self.pts.check_valid()
    }
}

/// The frames chosen for one tick: at most one per input, from the inputs
/// that had a frame to give.
#[derive(Debug)]
pub struct AlignedBatch {
    /// Index of the tick, counted from zero at start.
    pub tick: u64,
    /// Presentation time of the tick.
    pub pts: TickPts,
    /// The chosen frames, in the order in which the inputs were registered.
    pub frames: Vec<RawFrame>,
}

} // verus!

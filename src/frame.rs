//! The immutable per-frame copy of the parameters handed to the pixel stage.
use vstd::prelude::*;
use crate::fixed::ONE;
use crate::params::{FractalParameters, ParameterStore};

verus! {

/// The parameters and output resolution that every pixel of one frame reads.
#[derive(Clone, Copy, Debug, PartialEq, Eq, Structural)]
pub struct FrameSnapshot {
    pub params: FractalParameters,
    pub width: u32,
    pub height: u32,
}

impl FrameSnapshot {
    /// Takes the frame's copy of the live parameters.
    pub fn capture(store: &ParameterStore, width: u32, height: u32) -> (r: FrameSnapshot)
        ensures
            r.params == store.current(),
            r.params.in_domain(),
            r.width == width,
            r.height == height,
    {
        FrameSnapshot { params: store.params(), width, height }
    }

    /// The fourth component of the Julia record: one while folding is on,
    /// zero otherwise.
    pub fn julia_flag(&self) -> (r: i64)
        ensures
            r == if self.params.julia_enabled { ONE } else { 0 },
    {
        if self.params.julia_enabled {
            ONE
        } else {
            0
        }
    }
}

} // verus!

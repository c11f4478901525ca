use vstd::prelude::*;

verus! {

/// The per-dispatch parameters handed to the compute kernel.
#[derive(Clone, Copy, Debug)]
pub struct PushConstantsData {
    pub frame_index: u32,
    /// `1` where the kernel must drop what it accumulated and render afresh.
    pub invalidate: u32,
}

impl Default for PushConstantsData {
    fn default() -> (r: Self)
        ensures
            r.frame_index == 0,
            r.invalidate == 0,
    {
        PushConstantsData { frame_index: 0, invalidate: 0 }
    }
}

impl PushConstantsData {
    pub fn new(frame_index: u32) -> (r: Self)
        ensures
            r.frame_index == frame_index,
            r.invalidate == 0,
    {
        PushConstantsData { frame_index, invalidate: 0 }
    }
}

} // verus!

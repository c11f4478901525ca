use vstd::prelude::*;
use crate::pipeline::{submission_slot, Extent2D, FramePlan, QueryReadback, SchedulerError, TracerPipeline, MAX_DEPTH};
use crate::push_constants::PushConstantsData;

verus! {

/// The compute back end: the frame ring, and the frame counter handed to the kernel.
pub struct Back {
    pipeline: TracerPipeline,
    frame_index: u32,
}

impl Back {
    pub fn new(viewport: Extent2D) -> (r: Self)
        ensures
            r.wf(),
            r.frame_index() == 0,
            r.pipeline().current_frame() == 0,
            r.pipeline().last_finished_frame() is None,
            r.pipeline().viewport() == viewport,
    {
        Back { pipeline: TracerPipeline::new(viewport), frame_index: 0 }
    }

    pub closed spec fn pipeline_spec(&self) -> &TracerPipeline {
        &self.pipeline
    }

    pub closed spec fn frame_index_spec(&self) -> u32 {
        self.frame_index
    }

    pub open spec fn wf(&self) -> bool {
        self.pipeline().wf()
    }

    #[verifier::when_used_as_spec(pipeline_spec)]
    pub fn pipeline(&self) -> (r: &TracerPipeline)
        ensures
            *r == self.pipeline_spec(),
    {
        &self.pipeline
    }

    /// The number of frames asked for so far, modulo 2^32.
    #[verifier::when_used_as_spec(frame_index_spec)]
    pub fn frame_index(&self) -> (r: u32)
        ensures
            r == self.frame_index_spec(),
    {
        self.frame_index
    }

    /// Decides one frame of the back end. A config change (`config_updated`) makes the
    /// next dispatch upload the config buffer and render every slot afresh; the object
    /// buffer is uploaded with the first dispatch ever and never again.
    pub fn present(&mut self, fence_signaled: bool, readback: QueryReadback, config_updated: bool) -> (r: Result<FramePlan, SchedulerError>)
        requires
            old(self).wf(),
        ensures
            final(self).wf(),
            final(self).frame_index() == (old(self).frame_index() + 1) % 0x1_0000_0000,
            final(self).pipeline().viewport() == old(self).pipeline().viewport(),
            !fence_signaled ==> match r {
                Ok(plan) => plan.submission is None && old(self).pipeline().last_finished_frame() == Some(plan.shown_slot)
                    && final(self).pipeline() == old(self).pipeline(),
                Err(e) => e == SchedulerError::NoFrameCompleted && old(self).pipeline().last_finished_frame() is None,
            },
            fence_signaled ==> match readback {
                QueryReadback::Failed(code) => r == Err::<FramePlan, SchedulerError>(SchedulerError::QueryFailed(code)),
                _ => r is Ok && r->Ok_0.submission is Some,
            },
            r matches Ok(plan) ==> plan.shown_slot < MAX_DEPTH,
            r matches Ok(plan) ==> (plan.submission matches Some(s) ==> {
                let old_pipeline = old(self).pipeline();
                let c = old_pipeline.current_frame() as int;
                &&& fence_signaled
                &&& s.slot == c
                &&& plan.shown_slot == c
                &&& s.upload_config == config_updated
                &&& s.upload_objects == old_pipeline.last_finished_frame() is None
                &&& s.push_constants.frame_index == old(self).frame_index()
                &&& s.push_constants.invalidate == if config_updated || old_pipeline.should_invalidate_spec()[c] { 1u32 } else { 0u32 }
                &&& s.need_timestamp == (old_pipeline.last_finished_frame() is None || readback is NotReady)
                &&& s.wait_for_completion == old_pipeline.last_finished_frame() is None
                &&& final(self).pipeline().last_finished_frame() == Some(s.slot)
                &&& final(self).pipeline().current_frame() == submission_slot(c, 1)
                &&& forall|i: int| 0 <= i < MAX_DEPTH && i != c ==> final(self).pipeline().should_invalidate_spec()[i]
                    == (config_updated || old_pipeline.should_invalidate_spec()[i])
                &&& !final(self).pipeline().should_invalidate_spec()[c]
            }),
    {
        let push_constants = PushConstantsData::new(self.frame_index);
        let first = self.pipeline.last_finished_frame().is_none();
        self.frame_index = self.frame_index.wrapping_add(1);
        self.pipeline.present(fence_signaled, readback, config_updated, push_constants, config_updated, first)
    }

    /// Takes a new viewport; returns whether the slot images must be rebuilt.
    pub fn resize(&mut self, size: Extent2D) -> (r: bool)
        requires
            old(self).wf(),
        ensures
            final(self).wf(),
            r == (size != old(self).pipeline().viewport()),
            final(self).pipeline().viewport() == size,
            final(self).frame_index() == old(self).frame_index(),
    {
        self.pipeline.resize(size)
    }
}

} // verus!

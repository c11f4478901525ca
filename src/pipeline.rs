use vstd::prelude::*;
use crate::push_constants::PushConstantsData;

verus! {

/// The number of frame slots in the ring.
pub const MAX_DEPTH: usize = 1;

/// The edge of a compute work group, in pixels, along each axis.
pub const WORKGROUP_SIZE: u32 = 16;

/// An image size in pixels.
#[derive(Clone, Copy, Debug, PartialEq, Eq, Structural)]
pub struct Extent2D {
    pub width: u32,
    pub height: u32,
}

/// What a non-blocking poll of the timestamp query pool gave.
#[derive(Clone, Copy, Debug)]
pub enum QueryReadback {
    /// The results are not written yet.
    NotReady,
    /// The GPU ticks at the start and at the end of the dispatch.
    Ready { start: u64, end: u64 },
    /// Any other result code of the poll.
    Failed(i32),
}

/// Why a frame could not be scheduled.
#[derive(Clone, Copy, Debug, PartialEq, Eq)]
pub enum SchedulerError {
    /// The timestamp poll failed with a code other than "not ready".
    QueryFailed(i32),
    /// No frame has completed yet, so there is nothing to show.
    NoFrameCompleted,
}

/// The work to record and submit for one slot.
#[derive(Clone, Copy, Debug)]
pub struct FrameSubmission {
    /// The slot whose command buffer is re-recorded and whose fence is signalled on completion.
    pub slot: usize,
    /// Whether the dispatch is wrapped in a reset and a pair of timestamps.
    pub need_timestamp: bool,
    pub push_constants: PushConstantsData,
    /// Whether the config buffer is uploaded before the dispatch.
    pub upload_config: bool,
    /// Whether the object buffer is uploaded before the dispatch.
    pub upload_objects: bool,
    /// Whether the caller waits on the slot's fence after submitting: the first frame
    /// ever has no earlier frame to show.
    pub wait_for_completion: bool,
}

/// What one call of `present` asks of the caller.
#[derive(Clone, Copy, Debug)]
pub struct FramePlan {
    pub submission: Option<FrameSubmission>,
    /// The most recently completed slot, whose image is handed to the front end.
    pub shown_slot: usize,
}

/// The ring of in-flight compute frames, as far as decisions go: which slot is next,
/// which slot was completed last, which slots must re-render from scratch, and the
/// last GPU time measured.
pub struct TracerPipeline {
    current_frame: usize,
    last_finished_frame: Option<usize>,
    should_invalidate: Vec<bool>,
    render_ticks: Option<u64>,
    viewport: Extent2D,
}

/// Work groups along an axis of `n` pixels: enough groups to cover every pixel.
pub open spec fn groups_for(n: u32) -> int {
    (n as int + WORKGROUP_SIZE as int - 1) / WORKGROUP_SIZE as int
}

/// The work groups dispatched over an image of `extent`.
pub fn dispatch_groups(extent: Extent2D) -> (r: (u32, u32))
    ensures
        r.0 == groups_for(extent.width),
        r.1 == groups_for(extent.height),
{
    let w = extent.width / WORKGROUP_SIZE + if extent.width % WORKGROUP_SIZE != 0 { 1u32 } else { 0u32 };
    let h = extent.height / WORKGROUP_SIZE + if extent.height % WORKGROUP_SIZE != 0 { 1u32 } else { 0u32 };
    (w, h)
}

/// The GPU ticks between two timestamps, modulo the width of the counter.
pub open spec fn tick_delta(start: u64, end: u64) -> u64 {
    if end >= start {
        (end - start) as u64
    } else {
        (end as int - start as int + 0x1_0000_0000_0000_0000) as u64
    }
}

/// The slot used by the `k`-th of consecutive submissions that start at slot `start`.
pub open spec fn submission_slot(start: int, k: int) -> int {
    (start + k) % (MAX_DEPTH as int)
}

/// Whether one of `n` consecutive submissions that start at slot `start` uses slot `s`.
pub open spec fn slot_used_within(start: int, n: int, s: int) -> bool {
    exists|k: int| 0 <= k < n && #[trigger] submission_slot(start, k) == s
}

/// Consecutive submissions use the slots in turn: a submission records the slot
/// whose fence it found signalled and moves on to the next, so the submission after
/// the `k`-th from `start` is the `k + 1`-th. Once there have been at least as many
/// submissions as there are slots, every slot has been checked signalled and
/// re-recorded.
pub proof fn lemma_ring_covers_every_slot(start: int, n: int)
    requires
        0 <= start < MAX_DEPTH,
        n >= MAX_DEPTH,
    ensures
        forall|k: int| 0 <= k ==> #[trigger] submission_slot(submission_slot(start, k), 1) == submission_slot(start, k + 1),
        forall|s: int| 0 <= s < MAX_DEPTH ==> #[trigger] slot_used_within(start, n, s),
{
    assert forall|k: int| 0 <= k implies #[trigger] submission_slot(submission_slot(start, k), 1) == submission_slot(start, k + 1) by {
        vstd::arithmetic::div_mod::lemma_add_mod_noop(start + k, 1, MAX_DEPTH as int);
    }
    assert forall|s: int| 0 <= s < MAX_DEPTH implies #[trigger] slot_used_within(start, n, s) by {
        let k = if s >= start { s - start } else { s + MAX_DEPTH - start };
        assert(0 <= k < MAX_DEPTH);
        assert(submission_slot(start, k) == s);
    }
}

impl TracerPipeline {
    /// Every slot is owed a fresh render at first; the first slot comes first.
    pub fn new(viewport: Extent2D) -> (r: Self)
        ensures
            r.wf(),
            r.current_frame() == 0,
            r.last_finished_frame() is None,
            r.render_ticks() is None,
            r.viewport() == viewport,
            forall|i: int| 0 <= i < MAX_DEPTH ==> r.should_invalidate_spec()[i],
    {
        let should_invalidate = vec![true; MAX_DEPTH];
        TracerPipeline {
            current_frame: 0,
            last_finished_frame: None,
            should_invalidate,
            render_ticks: None,
            viewport,
        }
    }

    pub open spec fn wf(&self) -> bool {
        &&& self.current_frame_spec() < MAX_DEPTH
        &&& self.should_invalidate_spec().len() == MAX_DEPTH
        &&& self.last_finished_spec() matches Some(i) ==> i < MAX_DEPTH
    }

    pub closed spec fn current_frame_spec(&self) -> usize {
        self.current_frame
    }

    pub closed spec fn last_finished_spec(&self) -> Option<usize> {
        self.last_finished_frame
    }

    pub closed spec fn should_invalidate_spec(&self) -> Seq<bool> {
        self.should_invalidate@
    }

    pub closed spec fn render_ticks_spec(&self) -> Option<u64> {
        self.render_ticks
    }

    pub closed spec fn viewport_spec(&self) -> Extent2D {
        self.viewport
    }

    /// The slot whose fence is checked next.
    #[verifier::when_used_as_spec(current_frame_spec)]
    pub fn current_frame(&self) -> (r: usize)
        ensures
            r == self.current_frame_spec(),
    {
        self.current_frame
    }

    /// The slot completed last, if any.
    #[verifier::when_used_as_spec(last_finished_spec)]
    pub fn last_finished_frame(&self) -> (r: Option<usize>)
        ensures
            r == self.last_finished_spec(),
    {
        self.last_finished_frame
    }

    /// The GPU ticks that the last dispatch read back took; stays as it was while
    /// no new reading is available.
    #[verifier::when_used_as_spec(render_ticks_spec)]
    pub fn render_ticks(&self) -> (r: Option<u64>)
        ensures
            r == self.render_ticks_spec(),
    {
        self.render_ticks
    }

    #[verifier::when_used_as_spec(viewport_spec)]
    pub fn viewport(&self) -> (r: Extent2D)
        ensures
            r == self.viewport_spec(),
    {
        self.viewport
    }

    /// Decides one frame. `fence_signaled` is the status of the current slot's fence;
    /// `readback` is the timestamp poll made when it was signalled, and is not read
    /// otherwise.
    ///
    /// Only a slot whose fence was just found signalled is re-recorded. Then a change
    /// of config marks every slot for a fresh render, the dispatch carries the slot's
    /// own mark, which is cleared, and the ring moves on. The frame shown is the one
    /// completed last.
    pub fn present(
        &mut self,
        fence_signaled: bool,
        readback: QueryReadback,
        invalidate: bool,
        push_constants: PushConstantsData,
        upload_config: bool,
        upload_objects: bool,
    ) -> (r: Result<FramePlan, SchedulerError>)
        requires
            old(self).wf(),
        ensures
            final(self).wf(),
            final(self).viewport() == old(self).viewport(),
            !fence_signaled ==> match r {
                Ok(plan) => {
                    &&& old(self).last_finished_frame() == Some(plan.shown_slot)
                    &&& plan.submission is None
                    &&& *final(self) == *old(self)
                },
                Err(e) => e == SchedulerError::NoFrameCompleted && old(self).last_finished_frame() is None,
            },
            fence_signaled ==> match readback {
                QueryReadback::Failed(code) => r == Err::<FramePlan, SchedulerError>(SchedulerError::QueryFailed(code))
                    && *final(self) == *old(self),
                _ => r is Ok,
            },
            r matches Ok(plan) ==> plan.shown_slot < MAX_DEPTH,
            r matches Ok(plan) ==> (plan.submission matches Some(s) ==> {
                let c = old(self).current_frame() as int;
                &&& fence_signaled
                &&& s.slot == c
                &&& s.need_timestamp == (old(self).last_finished_frame() is None || readback is NotReady)
                &&& s.push_constants.frame_index == push_constants.frame_index
                &&& s.push_constants.invalidate == if invalidate || old(self).should_invalidate_spec()[c] { 1u32 } else { 0u32 }
                &&& s.upload_config == upload_config
                &&& s.upload_objects == upload_objects
                &&& s.wait_for_completion == old(self).last_finished_frame() is None
                &&& plan.shown_slot == c
                &&& final(self).last_finished_frame() == Some(s.slot)
                &&& final(self).current_frame() == submission_slot(c, 1)
                &&& final(self).render_ticks() == match readback {
                    QueryReadback::Ready { start, end } => Some(tick_delta(start, end)),
                    _ => old(self).render_ticks(),
                }
                &&& !final(self).should_invalidate_spec()[c]
                &&& forall|i: int| 0 <= i < MAX_DEPTH && i != c ==> final(self).should_invalidate_spec()[i]
                    == (invalidate || old(self).should_invalidate_spec()[i])
            }),
            fence_signaled && r is Ok ==> r->Ok_0.submission is Some,
    {
        if !fence_signaled {
            return match self.last_finished_frame {
                Some(idx) => Ok(FramePlan { submission: None, shown_slot: idx }),
                None => Err(SchedulerError::NoFrameCompleted),
            };
        }
        let current = self.current_frame;
        let first = self.last_finished_frame.is_none();
        let (ticks, pending) = match readback {
            QueryReadback::NotReady => (self.render_ticks, true),
            QueryReadback::Ready { start, end } => (Some(end.wrapping_sub(start)), false),
            QueryReadback::Failed(code) => {
                return Err(SchedulerError::QueryFailed(code));
            },
        };
        if invalidate {
            self.should_invalidate = vec![true; MAX_DEPTH];
        }
        let mut constants = push_constants;
        constants.invalidate = if self.should_invalidate[current] { 1 } else { 0 };
        let submission = FrameSubmission {
            slot: current,
            need_timestamp: first || pending,
            push_constants: constants,
            upload_config,
            upload_objects,
            wait_for_completion: first,
        };
        self.render_ticks = ticks;
        self.should_invalidate.set(current, false);
        self.last_finished_frame = Some(current);
        self.current_frame = (current + 1) % MAX_DEPTH;
        Ok(FramePlan { submission: Some(submission), shown_slot: current })
    }

    /// Takes a new viewport; returns whether the slot images must be rebuilt at it.
    /// The compute pipeline itself does not depend on the viewport.
    pub fn resize(&mut self, size: Extent2D) -> (r: bool)
        requires
            old(self).wf(),
        ensures
            final(self).wf(),
            r == (size != old(self).viewport()),
            final(self).viewport() == size,
            final(self).current_frame() == old(self).current_frame(),
            final(self).last_finished_frame() == old(self).last_finished_frame(),
            final(self).render_ticks() == old(self).render_ticks(),
            final(self).should_invalidate_spec() == old(self).should_invalidate_spec(),
    {
        let changed = size.width != self.viewport.width || size.height != self.viewport.height;
        self.viewport = size;
        changed
    }
}

} // verus!

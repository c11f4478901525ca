use vstd::prelude::*;
use crate::front::WindowedQueueFamilyIndices;
use crate::pipeline::Extent2D;

verus! {

/// The number of frames that may be recorded before the CPU waits for the GPU.
pub const MAX_FRAMES_IN_FLIGHT: usize = 2;

/// A swapchain image format, as far as the choice of one goes.
#[derive(Clone, Copy, Debug, PartialEq, Eq, Structural)]
pub enum ColorFormat {
    R8G8B8A8Srgb,
    B8G8R8A8Srgb,
    R8G8B8A8Unorm,
    B8G8R8A8Unorm,
    R16G16B16A16Sfloat,
    A2B10G10R10UnormPack32,
    /// Any other format, by its raw value.
    Other(i32),
}

/// A surface color space.
#[derive(Clone, Copy, Debug, PartialEq, Eq, Structural)]
pub enum ColorSpace {
    SrgbNonlinear,
    Other(i32),
}

/// A format and color space pair that a surface supports.
#[derive(Clone, Copy, Debug, PartialEq, Eq, Structural)]
pub struct SurfaceFormat {
    pub format: ColorFormat,
    pub color_space: ColorSpace,
}

/// A presentation mode that a surface supports.
#[derive(Clone, Copy, Debug, PartialEq, Eq, Structural)]
pub enum PresentMode {
    Immediate,
    Mailbox,
    Fifo,
    FifoRelaxed,
    Other(i32),
}

/// What a surface reports of the swapchains it can take.
#[derive(Clone, Copy, Debug)]
pub struct SurfaceCapabilities {
    pub current_extent: Extent2D,
    pub min_image_extent: Extent2D,
    pub max_image_extent: Extent2D,
    pub min_image_count: u32,
    /// `0` where there is no upper bound.
    pub max_image_count: u32,
}

/// Why a frame could not be presented.
#[derive(Clone, Copy, Debug, PartialEq, Eq)]
pub enum PresentError {
    NoSuitableFormat,
    /// The driver handed out an image index beyond the swapchain.
    InvalidImageIndex,
    /// Acquiring an image failed with a code other than out-of-date.
    AcquireFailed(i32),
    /// Presenting failed with a code other than out-of-date.
    PresentFailed(i32),
}

/// 8-bit sRGB formats are preferred; the linear HDR formats are not supported and
/// are never chosen.
pub open spec fn format_score(f: SurfaceFormat) -> int {
    let srgb = f.color_space is SrgbNonlinear;
    match f.format {
        ColorFormat::R8G8B8A8Srgb => if srgb { 10 } else { 0 },
        ColorFormat::B8G8R8A8Srgb => if srgb { 8 } else { 0 },
        ColorFormat::R8G8B8A8Unorm => if srgb { 6 } else { 0 },
        ColorFormat::B8G8R8A8Unorm => if srgb { 4 } else { 0 },
        ColorFormat::R16G16B16A16Sfloat => -1,
        ColorFormat::A2B10G10R10UnormPack32 => -1,
        ColorFormat::Other(_) => 0,
    }
}

/// FIFO is preferred for tear-free output; the others are fallbacks.
pub open spec fn present_mode_score(m: PresentMode) -> int {
    match m {
        PresentMode::Immediate => 10,
        PresentMode::Mailbox => 8,
        PresentMode::Fifo => 16,
        PresentMode::FifoRelaxed => 15,
        PresentMode::Other(_) => 0,
    }
}

/// `i` is the first position of the highest score, and that score is positive.
pub open spec fn is_best(scores: Seq<int>, i: int) -> bool {
    &&& 0 <= i < scores.len()
    &&& scores[i] > 0
    &&& forall|j: int| 0 <= j < scores.len() ==> #[trigger] scores[j] <= scores[i]
    &&& forall|j: int| 0 <= j < i ==> #[trigger] scores[j] < scores[i]
}

pub open spec fn format_scores(s: Seq<SurfaceFormat>) -> Seq<int> {
    s.map_values(|f: SurfaceFormat| format_score(f))
}

pub open spec fn present_mode_scores(s: Seq<PresentMode>) -> Seq<int> {
    s.map_values(|m: PresentMode| present_mode_score(m))
}

pub fn score_format(f: &SurfaceFormat) -> (r: i32)
    ensures
        r == format_score(*f),
{
    let srgb = matches!(f.color_space, ColorSpace::SrgbNonlinear);
    match f.format {
        ColorFormat::R8G8B8A8Srgb => if srgb { 10 } else { 0 },
        ColorFormat::B8G8R8A8Srgb => if srgb { 8 } else { 0 },
        ColorFormat::R8G8B8A8Unorm => if srgb { 6 } else { 0 },
        ColorFormat::B8G8R8A8Unorm => if srgb { 4 } else { 0 },
        ColorFormat::R16G16B16A16Sfloat => -1,
        ColorFormat::A2B10G10R10UnormPack32 => -1,
        ColorFormat::Other(_) => 0,
    }
}

pub fn score_present_mode(m: &PresentMode) -> (r: i32)
    ensures
        r == present_mode_score(*m),
{
    match m {
        PresentMode::Immediate => 10,
        PresentMode::Mailbox => 8,
        PresentMode::Fifo => 16,
        PresentMode::FifoRelaxed => 15,
        PresentMode::Other(_) => 0,
    }
}

/// The position of the best scored format; an error where none scores above zero.
pub fn choose_surface_format(formats: &Vec<SurfaceFormat>) -> (r: Result<usize, PresentError>)
    ensures
        match r {
            Ok(i) => is_best(format_scores(formats@), i as int),
            Err(e) => e == PresentError::NoSuitableFormat
                && forall|j: int| 0 <= j < formats@.len() ==> #[trigger] format_scores(formats@)[j] <= 0,
        },
{
    let ghost scores = format_scores(formats@);
    let mut best: Option<usize> = None;
    let mut best_score: i32 = 0;
    let mut i: usize = 0;
    while i < formats.len()
        invariant
            i <= formats@.len(),
            scores == format_scores(formats@),
            best_score >= 0,
            forall|j: int| 0 <= j < i ==> #[trigger] scores[j] <= best_score,
            match best {
                Some(b) => b < i && scores[b as int] == best_score && best_score > 0
                    && forall|j: int| 0 <= j < b ==> #[trigger] scores[j] < best_score,
                None => best_score == 0,
            },
        decreases formats.len() - i,
    {
        let score = score_format(&formats[i]);
        if score > best_score {
            best_score = score;
            best = Some(i);
        }
        i += 1;
    }
    match best {
        Some(b) => Ok(b),
        None => Err(PresentError::NoSuitableFormat),
    }
}

/// The position of the best scored present mode, if any scores above zero.
pub fn choose_present_mode(modes: &Vec<PresentMode>) -> (r: Option<usize>)
    ensures
        match r {
            Some(i) => is_best(present_mode_scores(modes@), i as int),
            None => forall|j: int| 0 <= j < modes@.len() ==> #[trigger] present_mode_scores(modes@)[j] <= 0,
        },
{
    let ghost scores = present_mode_scores(modes@);
    let mut best: Option<usize> = None;
    let mut best_score: i32 = 0;
    let mut i: usize = 0;
    while i < modes.len()
        invariant
            i <= modes@.len(),
            scores == present_mode_scores(modes@),
            best_score >= 0,
            forall|j: int| 0 <= j < i ==> #[trigger] scores[j] <= best_score,
            match best {
                Some(b) => b < i && scores[b as int] == best_score && best_score > 0
                    && forall|j: int| 0 <= j < b ==> #[trigger] scores[j] < best_score,
                None => best_score == 0,
            },
        decreases modes.len() - i,
    {
        let score = score_present_mode(&modes[i]);
        if score > best_score {
            best_score = score;
            best = Some(i);
        }
        i += 1;
    }
    best
}

pub open spec fn clamp(x: u32, lo: u32, hi: u32) -> u32 {
    if x < lo { lo } else if x > hi { hi } else { x }
}

/// The surface's current extent where it gives a usable one, else the viewport;
/// either way held within the surface's bounds.
pub open spec fn extent_for(viewport: Extent2D, caps: SurfaceCapabilities) -> Extent2D {
    let cur = caps.current_extent;
    let min = caps.min_image_extent;
    let max = caps.max_image_extent;
    let desired = if cur.width == u32::MAX || cur.height == u32::MAX || cur.width < min.width
        || cur.width > max.width || cur.height < min.height || cur.height > max.height {
        viewport
    } else {
        cur
    };
    Extent2D {
        width: clamp(desired.width, min.width, max.width),
        height: clamp(desired.height, min.height, max.height),
    }
}

fn clamp_u32(x: u32, lo: u32, hi: u32) -> (r: u32)
    ensures
        r == clamp(x, lo, hi),
{
    if x < lo { lo } else if x > hi { hi } else { x }
}

/// The extent of a new swapchain.
pub fn choose_extent(viewport: Extent2D, capabilities: &SurfaceCapabilities) -> (r: Extent2D)
    requires
        capabilities.min_image_extent.width <= capabilities.max_image_extent.width,
        capabilities.min_image_extent.height <= capabilities.max_image_extent.height,
    ensures
        r == extent_for(viewport, *capabilities),
{
    let cur = capabilities.current_extent;
    let min = capabilities.min_image_extent;
    let max = capabilities.max_image_extent;
    let desired = if cur.width == u32::MAX || cur.height == u32::MAX || cur.width < min.width
        || cur.width > max.width || cur.height < min.height || cur.height > max.height {
        viewport
    } else {
        cur
    };
    Extent2D {
        width: clamp_u32(desired.width, min.width, max.width),
        height: clamp_u32(desired.height, min.height, max.height),
    }
}

/// One image more than the surface's minimum, within its maximum where it has one.
pub fn swapchain_image_count(capabilities: &SurfaceCapabilities) -> (r: u32)
    ensures
        ({
            let wanted = if capabilities.min_image_count == u32::MAX { u32::MAX as int } else { capabilities.min_image_count + 1 };
            r == if capabilities.max_image_count > 0 && wanted > capabilities.max_image_count {
                capabilities.max_image_count as int
            } else {
                wanted
            }
        }),
{
    let wanted = capabilities.min_image_count.saturating_add(1);
    if capabilities.max_image_count > 0 && wanted > capabilities.max_image_count {
        capabilities.max_image_count
    } else {
        wanted
    }
}

/// The families that share the swapchain images: none where one family both draws
/// and presents, else both.
pub fn swapchain_sharing_families(indices: &WindowedQueueFamilyIndices) -> (r: Vec<u32>)
    ensures
        indices.graphics_family == indices.present_family ==> r@.len() == 0,
        indices.graphics_family != indices.present_family ==> r@ == seq![indices.graphics_family, indices.present_family],
{
    if indices.graphics_family == indices.present_family {
        Vec::new()
    } else {
        let r = vec![indices.graphics_family, indices.present_family];
        assert(r@ =~= seq![indices.graphics_family, indices.present_family]);
        r
    }
}

/// What acquiring the next swapchain image gave.
#[derive(Clone, Copy, Debug)]
pub enum AcquireOutcome {
    Acquired { index: u32, suboptimal: bool },
    OutOfDate,
    Failed(i32),
}

/// What the caller does after acquiring.
#[derive(Clone, Copy, Debug, PartialEq, Eq)]
pub enum AcquireAction {
    /// Draw into `image_index`, after waiting on the fence of frame slot `wait_for`
    /// where there is one: an earlier frame still uses that image.
    Draw { image_index: usize, wait_for: Option<usize> },
    /// Rebuild the swapchain and draw nothing this call.
    Recreate,
    Fail(PresentError),
}

/// What presenting the drawn image gave.
#[derive(Clone, Copy, Debug)]
pub enum PresentOutcome {
    Presented { suboptimal: bool },
    OutOfDate,
    Failed(i32),
}

/// What the caller does after presenting.
#[derive(Clone, Copy, Debug, PartialEq, Eq)]
pub enum PresentAction {
    /// The frame went out; the next frame slot is in use.
    Advance,
    /// The frame went out, but the swapchain must be rebuilt.
    Recreate,
    Fail(PresentError),
}

/// What a swapchain rebuild must rebuild besides the swapchain, its image views,
/// framebuffers and per-image semaphores, which are always rebuilt.
#[derive(Clone, Copy, Debug, PartialEq, Eq)]
pub struct RecreatePlan {
    /// The render pass, pipeline layout and pipeline, which bake in the format.
    pub rebuild_pipeline: bool,
}

/// The decision state of the presentation loop.
pub struct PresentationView {
    /// The frame slot whose fence, semaphore and command buffer are in use.
    pub current_frame: int,
    /// For each swapchain image, the frame slot whose fence last covered its use.
    pub images_in_flight: Seq<Option<usize>>,
    pub format: ColorFormat,
    pub extent: Extent2D,
    pub viewport: Extent2D,
}

impl PresentationView {
    pub open spec fn wf(self) -> bool {
        &&& 0 <= self.current_frame < MAX_FRAMES_IN_FLIGHT
        &&& forall|i: int| 0 <= i < self.images_in_flight.len()
            ==> (#[trigger] self.images_in_flight[i] matches Some(f) ==> f < MAX_FRAMES_IN_FLIGHT)
    }
}

/// Acquiring: an image that is stale or out of date asks for a rebuild; a fresh
/// image is drawn into once the fence of any other frame that still covers it has
/// been waited on, and from then on the current frame's fence covers it.
pub open spec fn acquire_step(v: PresentationView, outcome: AcquireOutcome) -> (PresentationView, AcquireAction) {
    match outcome {
        AcquireOutcome::Acquired { index, suboptimal } => if suboptimal {
            (v, AcquireAction::Recreate)
        } else if index >= v.images_in_flight.len() {
            (v, AcquireAction::Fail(PresentError::InvalidImageIndex))
        } else {
            let previous = v.images_in_flight[index as int];
            let wait_for = match previous {
                Some(f) => if f != v.current_frame { Some(f) } else { None },
                None => None,
            };
            (
                PresentationView {
                    images_in_flight: v.images_in_flight.update(index as int, Some(v.current_frame as usize)),
                    ..v
                },
                AcquireAction::Draw { image_index: index as usize, wait_for },
            )
        },
        AcquireOutcome::OutOfDate => (v, AcquireAction::Recreate),
        AcquireOutcome::Failed(code) => (v, AcquireAction::Fail(PresentError::AcquireFailed(code))),
    }
}

/// Presenting: a frame that went out cleanly moves on to the next frame slot; a stale
/// or out-of-date swapchain is rebuilt after the presentation.
pub open spec fn present_step(v: PresentationView, outcome: PresentOutcome) -> (PresentationView, PresentAction) {
    match outcome {
        PresentOutcome::Presented { suboptimal } => if suboptimal {
            (v, PresentAction::Recreate)
        } else {
            (
                PresentationView { current_frame: (v.current_frame + 1) % (MAX_FRAMES_IN_FLIGHT as int), ..v },
                PresentAction::Advance,
            )
        },
        PresentOutcome::OutOfDate => (v, PresentAction::Recreate),
        PresentOutcome::Failed(code) => (v, PresentAction::Fail(PresentError::PresentFailed(code))),
    }
}

/// Rebuilding: no image is covered by a fence any more, the first frame slot comes
/// next, and the pipeline is rebuilt exactly when the format changed.
pub open spec fn recreate_step(v: PresentationView, format: ColorFormat, extent: Extent2D, image_count: nat) -> (PresentationView, RecreatePlan) {
    (
        PresentationView {
            current_frame: 0,
            images_in_flight: Seq::new(image_count, |i: int| None),
            format,
            extent,
            viewport: v.viewport,
        },
        RecreatePlan { rebuild_pipeline: format != v.format },
    )
}

/// The presentation loop's decisions: which frame slot is in use, which fence covers
/// each swapchain image, and what the swapchain was built with.
pub struct PresentationPipeline {
    current_frame: usize,
    images_in_flight: Vec<Option<usize>>,
    format: ColorFormat,
    extent: Extent2D,
    viewport: Extent2D,
}

impl View for PresentationPipeline {
    type V = PresentationView;

    closed spec fn view(&self) -> PresentationView {
        PresentationView {
            current_frame: self.current_frame as int,
            images_in_flight: self.images_in_flight@,
            format: self.format,
            extent: self.extent,
            viewport: self.viewport,
        }
    }
}

fn no_fences(image_count: usize) -> (r: Vec<Option<usize>>)
    ensures
        r@ == Seq::new(image_count as nat, |i: int| None::<usize>),
{
    let mut r: Vec<Option<usize>> = Vec::new();
    let mut i: usize = 0;
    while i < image_count
        invariant
            i <= image_count,
            r@ == Seq::new(i as nat, |j: int| None::<usize>),
        decreases image_count - i,
    {
        r.push(None);
        i += 1;
        assert(r@ =~= Seq::new(i as nat, |j: int| None::<usize>));
    }
    r
}

impl PresentationPipeline {
    /// The state of a freshly built swapchain of `image_count` images.
    pub fn new(viewport: Extent2D, format: ColorFormat, extent: Extent2D, image_count: usize) -> (r: Self)
        ensures
            r@.wf(),
            r@.current_frame == 0,
            r@.images_in_flight == Seq::new(image_count as nat, |i: int| None::<usize>),
            r@.format == format,
            r@.extent == extent,
            r@.viewport == viewport,
    {
        PresentationPipeline { current_frame: 0, images_in_flight: no_fences(image_count), format, extent, viewport }
    }

    /// The frame slot in use.
    pub fn current_frame(&self) -> (r: usize)
        ensures
            r == self@.current_frame,
    {
        self.current_frame
    }

    /// The frame slot whose fence covers swapchain image `index`, if any.
    pub fn image_in_flight(&self, index: usize) -> (r: Option<usize>)
        requires
            index < self@.images_in_flight.len(),
        ensures
            r == self@.images_in_flight[index as int],
    {
        self.images_in_flight[index]
    }

    pub fn image_count(&self) -> (r: usize)
        ensures
            r == self@.images_in_flight.len(),
    {
        self.images_in_flight.len()
    }

    pub fn format(&self) -> (r: ColorFormat)
        ensures
            r == self@.format,
    {
        self.format
    }

    pub fn extent(&self) -> (r: Extent2D)
        ensures
            r == self@.extent,
    {
        self.extent
    }

    pub fn viewport(&self) -> (r: Extent2D)
        ensures
            r == self@.viewport,
    {
        self.viewport
    }

    /// Decides what follows an acquisition.
    pub fn on_acquire(&mut self, outcome: AcquireOutcome) -> (r: AcquireAction)
        requires
            old(self)@.wf(),
        ensures
            final(self)@.wf(),
            (final(self)@, r) == acquire_step(old(self)@, outcome),
    {
        match outcome {
            AcquireOutcome::Acquired { index, suboptimal } => {
                if suboptimal {
                    AcquireAction::Recreate
                } else if index as usize >= self.images_in_flight.len() {
                    AcquireAction::Fail(PresentError::InvalidImageIndex)
                } else {
                    let i = index as usize;
                    let wait_for = match self.images_in_flight[i] {
                        Some(f) => if f != self.current_frame { Some(f) } else { None },
                        None => None,
                    };
                    self.images_in_flight.set(i, Some(self.current_frame));
                    AcquireAction::Draw { image_index: i, wait_for }
                }
            },
            AcquireOutcome::OutOfDate => AcquireAction::Recreate,
            AcquireOutcome::Failed(code) => AcquireAction::Fail(PresentError::AcquireFailed(code)),
        }
    }

    /// Decides what follows a presentation.
    pub fn on_present(&mut self, outcome: PresentOutcome) -> (r: PresentAction)
        requires
            old(self)@.wf(),
        ensures
            final(self)@.wf(),
            (final(self)@, r) == present_step(old(self)@, outcome),
    {
        match outcome {
            PresentOutcome::Presented { suboptimal } => {
                if suboptimal {
                    PresentAction::Recreate
                } else {
                    self.current_frame = (self.current_frame + 1) % MAX_FRAMES_IN_FLIGHT;
                    PresentAction::Advance
                }
            },
            PresentOutcome::OutOfDate => PresentAction::Recreate,
            PresentOutcome::Failed(code) => PresentAction::Fail(PresentError::PresentFailed(code)),
        }
    }

    /// Takes the swapchain that replaced the old one; says whether the pipeline must
    /// be rebuilt too.
    pub fn on_recreated(&mut self, format: ColorFormat, extent: Extent2D, image_count: usize) -> (r: RecreatePlan)
        requires
            old(self)@.wf(),
        ensures
            final(self)@.wf(),
            (final(self)@, r) == recreate_step(old(self)@, format, extent, image_count as nat),
    {
        let rebuild_pipeline = format != self.format;
        self.current_frame = 0;
        self.images_in_flight = no_fences(image_count);
        self.format = format;
        self.extent = extent;
        RecreatePlan { rebuild_pipeline }
    }

    /// Takes a new viewport; returns whether the swapchain must be rebuilt for it.
    pub fn resize(&mut self, viewport: Extent2D) -> (r: bool)
        requires
            old(self)@.wf(),
        ensures
            final(self)@.wf(),
            r == (viewport != old(self)@.viewport),
            final(self)@ == (PresentationView { viewport, ..old(self)@ }),
    {
        let changed = viewport != self.viewport;
        self.viewport = viewport;
        changed
    }
}

/// Resources that the UI stopped using, held back one frame: a command buffer of the
/// frame that is still in flight may read them, so they are freed only when the next
/// frame is recorded, never in the middle of one.
#[derive(Debug)]
pub struct DeferredFrees<T> {
    pending: Vec<T>,
}

impl<T> DeferredFrees<T> {
    pub fn new() -> (r: Self)
        ensures
            r.pending_spec().len() == 0,
    {
        DeferredFrees { pending: Vec::new() }
    }

    pub closed spec fn pending_spec(&self) -> Seq<T> {
        self.pending@
    }

    /// At the start of recording a frame: hands out what the previous frame let go,
    /// to be freed now, and holds nothing more.
    pub fn take_due(&mut self) -> (r: Vec<T>)
        ensures
            r@ == old(self).pending_spec(),
            final(self).pending_spec().len() == 0,
    {
        let mut due: Vec<T> = Vec::new();
        std::mem::swap(&mut due, &mut self.pending);
        due
    }

    /// Holds back what this frame let go, until the next frame is recorded.
    pub fn defer(&mut self, freed: Vec<T>)
        ensures
            final(self).pending_spec() == if freed@.len() > 0 { freed@ } else { old(self).pending_spec() },
    {
        if freed.len() > 0 {
            self.pending = freed;
        }
    }
}

/// Acquiring image `i`, drawing and presenting it with no rebuild in between leaves
/// the image covered by the fence of the frame slot just used; acquiring the same
/// image again in the next frame slot waits on that fence first.
pub proof fn lemma_image_fence_round_trip(v: PresentationView, i: u32)
    requires
        v.wf(),
        i < v.images_in_flight.len(),
    ensures
        ({
            let (v1, a1) = acquire_step(v, AcquireOutcome::Acquired { index: i, suboptimal: false });
            let (v2, a2) = present_step(v1, PresentOutcome::Presented { suboptimal: false });
            let (v3, a3) = acquire_step(v2, AcquireOutcome::Acquired { index: i, suboptimal: false });
            &&& a1 matches AcquireAction::Draw { image_index, .. } && image_index == i
            &&& a2 == PresentAction::Advance
            &&& v2.images_in_flight[i as int] == Some(v.current_frame as usize)
            &&& v2.current_frame != v.current_frame
            &&& a3 == AcquireAction::Draw { image_index: i as usize, wait_for: Some(v.current_frame as usize) }
        }),
{
}

/// A rebuild always rebuilds the swapchain images and framebuffers, and rebuilds the
/// render pass and pipeline only when the surface format changed; it starts over at
/// the first frame slot.
pub proof fn lemma_recreate_pipeline_on_format_change(v: PresentationView, format: ColorFormat, extent: Extent2D, image_count: nat)
    requires
        v.wf(),
    ensures
        ({
            let (v1, plan) = recreate_step(v, format, extent, image_count);
            &&& plan.rebuild_pipeline <==> format != v.format
            &&& v1.current_frame == 0
            &&& v1.images_in_flight.len() == image_count
            &&& forall|k: int| 0 <= k < image_count ==> v1.images_in_flight[k] is None
            &&& v1.format == format
            &&& v1.wf()
        }),
{
}

} // verus!

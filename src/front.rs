use vstd::prelude::*;
use crate::capabilities::{contains_name, names, DeviceCapabilities};
use crate::device::{
    DeviceCandidate, NegotiationError, QueueFamilyProperties, FULL_PRIORITY,
};
use crate::queue::{family_indices, QueueFamily};

verus! {

/// The device extension that presenting to a window surface needs.
pub open spec fn swapchain_ext() -> Seq<char> {
    "VK_KHR_swapchain"@
}

/// The device extension that lets the host read images back without a staging buffer.
pub open spec fn host_image_copy_ext() -> Seq<char> {
    "VK_EXT_host_image_copy"@
}

/// Relies on ash::vk::KHR_SWAPCHAIN_NAME, the name of the swapchain extension.
#[verifier::external_body]
fn swapchain_name() -> (r: String)
    ensures
        r@ == swapchain_ext(),
{
    ash::vk::KHR_SWAPCHAIN_NAME.to_string_lossy().into_owned()
}

/// Relies on ash::vk::EXT_HOST_IMAGE_COPY_NAME, the name of the host image copy extension.
#[verifier::external_body]
fn host_image_copy_name() -> (r: String)
    ensures
        r@ == host_image_copy_ext(),
{
    ash::vk::EXT_HOST_IMAGE_COPY_NAME.to_string_lossy().into_owned()
}

/// The window surface that a windowed front end presents to, by its raw handle.
#[derive(Clone, Copy, Debug)]
pub struct TracerSurface {
    pub handle: u64,
}

/// A front end that presents to a window.
#[derive(Clone, Copy, Debug)]
pub struct WindowedTracerFront {
    pub surface: TracerSurface,
}

/// A front end that reads the rendered image back to the host.
#[derive(Clone, Copy, Debug)]
pub struct TracerHeadlessFront {}

/// The presentation collaborator, chosen once at start-up.
#[derive(Clone, Copy, Debug)]
pub enum TracerFront {
    Headless(TracerHeadlessFront),
    Windowed(WindowedTracerFront),
}

/// The headless front end asks for no queue of its own.
#[derive(Clone, Copy, Debug)]
pub struct HeadlessQueueFamilyIndices {}

/// The headless front end holds no queue of its own.
#[derive(Clone, Copy, Debug)]
pub struct HeadlessQueues {}

/// The families a windowed front end draws and presents with.
#[derive(Clone, Copy, Debug)]
pub struct WindowedQueueFamilyIndices {
    pub graphics_family: u32,
    pub present_family: u32,
}

/// The queue families that the front end resolved on a device.
#[derive(Clone, Copy, Debug)]
pub enum FrontQueueFamilyIndices {
    Headless(HeadlessQueueFamilyIndices),
    Windowed(WindowedQueueFamilyIndices),
}

/// A family that can both draw and present to the surface.
pub open spec fn graphics_present_family(f: QueueFamilyProperties) -> bool {
    f.graphics && f.present_support
}

/// Whether some family can both draw and present.
pub open spec fn has_graphics_present_family(s: Seq<QueueFamilyProperties>) -> bool {
    exists|j: int| 0 <= j < s.len() && #[trigger] graphics_present_family(s[j])
}

/// The device extensions that the front end asks for, given those the device offers.
pub open spec fn front_required_extensions(front: TracerFront, available: Seq<Seq<char>>) -> Seq<Seq<char>> {
    match front {
        TracerFront::Windowed(_) => seq![swapchain_ext()],
        TracerFront::Headless(_) => if available.contains(host_image_copy_ext()) {
            seq![host_image_copy_ext()]
        } else {
            seq![]
        },
    }
}

/// Whether the front end switches host image copy on, given the extensions offered.
pub open spec fn front_host_image_copy(front: TracerFront, available: Seq<Seq<char>>) -> bool {
    front is Headless && available.contains(host_image_copy_ext())
}

/// Whether the front end accepts a device.
pub open spec fn front_accepts(front: TracerFront, cand: DeviceCandidate) -> bool {
    match front {
        TracerFront::Headless(_) => true,
        TracerFront::Windowed(_) => has_graphics_present_family(cand.queue_families@)
            && cand.surface_format_count > 0 && cand.present_mode_count > 0,
    }
}

/// The family indices that the front end's requests name.
pub open spec fn front_request_indices(ix: FrontQueueFamilyIndices) -> Seq<u32> {
    match ix {
        FrontQueueFamilyIndices::Headless(_) => seq![],
        FrontQueueFamilyIndices::Windowed(w) => seq![w.graphics_family, w.present_family],
    }
}

/// Whether every request asks for one queue at the full priority.
pub open spec fn full_priority_requests(s: Seq<QueueFamily>) -> bool {
    forall|i: int| 0 <= i < s.len() ==> (#[trigger] s[i]).priorities@ == seq![FULL_PRIORITY]
}

/// One request for a single queue of `index` at the full priority.
pub fn full_priority_request(index: u32) -> (r: QueueFamily)
    ensures
        r.index == index,
        r.priorities@ == seq![FULL_PRIORITY],
{
    QueueFamily { index, priorities: vec![FULL_PRIORITY] }
}

impl TracerHeadlessFront {
    pub fn new() -> (r: Self) {
        TracerHeadlessFront {  }
    }

    /// Asks for host image copy where the device offers it, and records that it did.
    pub fn get_required_device_extensions(&self, available: &Vec<String>, capabilities: &mut DeviceCapabilities) -> (r: Vec<String>)
        ensures
            names(r@) == front_required_extensions(TracerFront::Headless(*self), names(available@)),
            final(capabilities).host_image_copy == (old(capabilities).host_image_copy
                || names(available@).contains(host_image_copy_ext())),
    {
        let mut required: Vec<String> = Vec::new();
        let name = host_image_copy_name();
        if contains_name(available, &name) {
            capabilities.host_image_copy = true;
            required.push(name);
        }
        assert(names(required@) =~= front_required_extensions(TracerFront::Headless(*self), names(available@)));
        required
    }

    pub fn find_queue_families(&self) -> (r: HeadlessQueueFamilyIndices) {
        HeadlessQueueFamilyIndices {  }
    }
}

impl HeadlessQueueFamilyIndices {
    /// The headless front end requests no queue.
    pub fn as_families(&self) -> (r: Vec<QueueFamily>)
        ensures
            r@.len() == 0,
    {
        Vec::new()
    }

    pub fn into_queues(self) -> (r: HeadlessQueues) {
        HeadlessQueues {  }
    }
}

impl WindowedQueueFamilyIndices {
    /// One request for the drawing family and one for the presenting family.
    pub fn as_families(&self) -> (r: Vec<QueueFamily>)
        ensures
            family_indices(r@) == seq![self.graphics_family, self.present_family],
            full_priority_requests(r@),
    {
        let r = vec![full_priority_request(self.graphics_family), full_priority_request(self.present_family)];
        assert(family_indices(r@) =~= seq![self.graphics_family, self.present_family]);
        r
    }

    /// Whether the two families differ, so that swapchain images are shared between them.
    pub fn is_concurrent(&self) -> (r: bool)
        ensures
            r == (self.graphics_family != self.present_family),
    {
        self.graphics_family != self.present_family
    }
}

impl FrontQueueFamilyIndices {
    /// The queue requests of the front end.
    pub fn as_families(&self) -> (r: Vec<QueueFamily>)
        ensures
            family_indices(r@) == front_request_indices(*self),
            full_priority_requests(r@),
    {
        match self {
            FrontQueueFamilyIndices::Headless(h) => {
                let r = h.as_families();
                assert(family_indices(r@) =~= front_request_indices(*self));
                r
            },
            FrontQueueFamilyIndices::Windowed(w) => w.as_families(),
        }
    }
}

impl WindowedTracerFront {
    /// Presenting to a window needs the swapchain extension.
    pub fn get_required_device_extensions(&self) -> (r: Vec<String>)
        ensures
            names(r@) == seq![swapchain_ext()],
    {
        let r = vec![swapchain_name()];
        assert(names(r@) =~= seq![swapchain_ext()]);
        r
    }

    /// The first family that can both draw and present to the surface serves as both.
    pub fn find_queue_families(&self, families: &Vec<QueueFamilyProperties>) -> (r: Result<WindowedQueueFamilyIndices, NegotiationError>)
        requires
            families@.len() <= u32::MAX,
        ensures
            match r {
                Ok(ix) => {
                    &&& ix.graphics_family == ix.present_family
                    &&& ix.graphics_family < families@.len()
                    &&& graphics_present_family(families@[ix.graphics_family as int])
                    &&& forall|j: int| 0 <= j < ix.graphics_family ==> !graphics_present_family(#[trigger] families@[j])
                },
                Err(e) => e == NegotiationError::NoPresentQueue && !has_graphics_present_family(families@),
            },
    {
        let mut i: usize = 0;
        while i < families.len()
            invariant
                i <= families@.len() <= u32::MAX,
                forall|j: int| 0 <= j < i ==> !graphics_present_family(#[trigger] families@[j]),
            decreases families.len() - i,
        {
            if families[i].graphics && families[i].present_support {
                return Ok(WindowedQueueFamilyIndices { graphics_family: i as u32, present_family: i as u32 });
            }
            i += 1;
        }
        Err(NegotiationError::NoPresentQueue)
    }
}

impl TracerFront {
    pub fn new_headless() -> (r: Self)
        ensures
            r is Headless,
    {
        TracerFront::Headless(TracerHeadlessFront::new())
    }

    pub fn new_windowed(surface: TracerSurface) -> (r: Self)
        ensures
            r == TracerFront::Windowed(WindowedTracerFront { surface }),
    {
        TracerFront::Windowed(WindowedTracerFront { surface })
    }

    /// The device extensions the front end asks for, given those the device offers;
    /// records in `capabilities` the optional features it switched on.
    pub fn get_required_device_extensions(&self, available: &Vec<String>, capabilities: &mut DeviceCapabilities) -> (r: Vec<String>)
        ensures
            names(r@) == front_required_extensions(*self, names(available@)),
            final(capabilities).host_image_copy == (old(capabilities).host_image_copy
                || front_host_image_copy(*self, names(available@))),
    {
        match self {
            TracerFront::Headless(h) => h.get_required_device_extensions(available, capabilities),
            TracerFront::Windowed(w) => w.get_required_device_extensions(),
        }
    }

    /// Whether the front end accepts the device.
    pub fn is_device_suitable(&self, candidate: &DeviceCandidate) -> (r: bool)
        requires
            candidate.queue_families@.len() <= u32::MAX,
        ensures
            r == front_accepts(*self, *candidate),
    {
        match self {
            TracerFront::Headless(_) => true,
            TracerFront::Windowed(w) => {
                let queues_ok = match w.find_queue_families(&candidate.queue_families) {
                    Ok(ix) => {
                        assert(graphics_present_family(candidate.queue_families@[ix.graphics_family as int]));
                        true
                    },
                    Err(_) => false,
                };
                queues_ok && candidate.surface_format_count > 0 && candidate.present_mode_count > 0
            },
        }
    }

    /// The queue families the front end uses on the device.
    pub fn find_queue_families(&self, candidate: &DeviceCandidate) -> (r: Result<FrontQueueFamilyIndices, NegotiationError>)
        requires
            candidate.queue_families@.len() <= u32::MAX,
        ensures
            r is Ok <==> (self is Headless || has_graphics_present_family(candidate.queue_families@)),
            r is Ok ==> (self is Headless <==> r->Ok_0 is Headless),
            r matches Ok(FrontQueueFamilyIndices::Windowed(ix)) ==> {
                &&& ix.graphics_family == ix.present_family
                &&& ix.graphics_family < candidate.queue_families@.len()
                &&& graphics_present_family(candidate.queue_families@[ix.graphics_family as int])
                &&& forall|j: int| 0 <= j < ix.graphics_family ==> !graphics_present_family(#[trigger] candidate.queue_families@[j])
            },
            r matches Err(e) ==> e == NegotiationError::NoPresentQueue,
    {
        match self {
            TracerFront::Headless(h) => Ok(FrontQueueFamilyIndices::Headless(h.find_queue_families())),
            TracerFront::Windowed(w) => match w.find_queue_families(&candidate.queue_families) {
                Ok(ix) => {
                    assert(graphics_present_family(candidate.queue_families@[ix.graphics_family as int]));
                    Ok(FrontQueueFamilyIndices::Windowed(ix))
                },
                Err(e) => Err(e),
            },
        }
    }
}

} // verus!

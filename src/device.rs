use vstd::prelude::*;
use crate::back::Back;
use crate::capabilities::{all_available, is_subset, names, DeviceCapabilities};
use crate::front::{
    front_accepts, front_host_image_copy, front_request_indices, front_required_extensions,
    full_priority_request, full_priority_requests, FrontQueueFamilyIndices, TracerFront,
};
use crate::queue::{family_indices, merged, QueueFamily};

verus! {

/// The full queue priority, `1.0`, in thousandths.
pub const FULL_PRIORITY: u16 = 1000;

/// What the graphics API reports about one queue family of a physical device.
#[derive(Clone, Copy, Debug)]
pub struct QueueFamilyProperties {
    pub queue_count: u32,
    pub graphics: bool,
    pub compute: bool,
    pub timestamp_valid_bits: u32,
    /// Whether the family can present to the target surface; false without one.
    pub present_support: bool,
}

/// The facts about one physical device that negotiation decides on.
pub struct DeviceCandidate {
    pub extensions: Vec<String>,
    pub queue_families: Vec<QueueFamilyProperties>,
    pub surface_format_count: usize,
    pub present_mode_count: usize,
}

/// Why no logical device could be planned.
#[derive(Clone, Copy, Debug, PartialEq, Eq)]
pub enum NegotiationError {
    NoSuitableDevice,
    NoGraphicsQueue,
    NoComputeQueue,
    NoPresentQueue,
}

/// The families the compute back end draws and dispatches with.
#[derive(Clone, Copy, Debug)]
pub struct BackQueueFamilyIndices {
    pub graphics_family: u32,
    pub compute_family: u32,
}

/// A device feature that a collaborator switches on when the device is created.
#[derive(Clone, Copy, Debug, PartialEq, Eq)]
pub enum DeviceFeature {
    BufferDeviceAddress,
    HostQueryReset,
    HostImageCopy,
}

/// The device extension that the compute back end needs.
pub open spec fn buffer_device_address_ext() -> Seq<char> {
    "VK_EXT_buffer_device_address"@
}

/// Relies on ash::vk::EXT_BUFFER_DEVICE_ADDRESS_NAME, the name of the buffer device
/// address extension.
#[verifier::external_body]
fn buffer_device_address_name() -> (r: String)
    ensures
        r@ == buffer_device_address_ext(),
{
    ash::vk::EXT_BUFFER_DEVICE_ADDRESS_NAME.to_string_lossy().into_owned()
}

/// A family the back end can draw with.
pub open spec fn back_graphics_family(f: QueueFamilyProperties) -> bool {
    f.queue_count > 0 && f.graphics
}

/// A family the back end can dispatch and time its work with.
pub open spec fn back_compute_family(f: QueueFamilyProperties) -> bool {
    f.queue_count > 0 && f.compute && f.timestamp_valid_bits > 0
}

pub open spec fn has_back_graphics_family(s: Seq<QueueFamilyProperties>) -> bool {
    exists|j: int| 0 <= j < s.len() && #[trigger] back_graphics_family(s[j])
}

pub open spec fn has_back_compute_family(s: Seq<QueueFamilyProperties>) -> bool {
    exists|j: int| 0 <= j < s.len() && #[trigger] back_compute_family(s[j])
}

/// Whether the back end accepts the device: it finds both of its families there.
pub open spec fn back_accepts(cand: DeviceCandidate) -> bool {
    back_accepts_families(cand.queue_families@)
}

/// Every device extension asked for: the front end's, then the back end's.
pub open spec fn required_device_extensions(front: TracerFront, available: Seq<Seq<char>>) -> Seq<Seq<char>> {
    front_required_extensions(front, available).push(buffer_device_address_ext())
}

/// A device is accepted when it offers every extension asked of it and both
/// collaborators accept it.
pub open spec fn device_suitable(front: TracerFront, cand: DeviceCandidate) -> bool {
    &&& all_available(
        names(cand.extensions@),
        required_device_extensions(front, names(cand.extensions@)),
    )
    &&& front_accepts(front, cand)
    &&& back_accepts(cand)
}

/// The features switched on at device creation: the front end's, then the back end's.
pub open spec fn device_features(front: TracerFront, capabilities: DeviceCapabilities) -> Seq<DeviceFeature> {
    let front_part = if front is Headless && capabilities.host_image_copy {
        seq![DeviceFeature::HostImageCopy]
    } else {
        seq![]
    };
    front_part + seq![DeviceFeature::BufferDeviceAddress, DeviceFeature::HostQueryReset]
}

/// The family indices that the back end's requests name.
pub open spec fn back_request_indices(ix: BackQueueFamilyIndices) -> Seq<u32> {
    seq![ix.graphics_family, ix.compute_family]
}

/// Every index in `s`, each once, in the order of its first occurrence.
pub open spec fn dedup(s: Seq<u32>) -> Seq<u32>
    decreases s.len(),
{
    if s.len() == 0 {
        s
    } else {
        let d = dedup(s.drop_last());
        if d.contains(s.last()) {
            d
        } else {
            d.push(s.last())
        }
    }
}

/// The family indices of merged requests are those of the requests, each once.
pub proof fn lemma_merged_indices(s: Seq<QueueFamily>)
    ensures
        family_indices(merged(s)) == dedup(family_indices(s)),
        forall|i: int| 0 <= i < merged(s).len() ==> s.contains(#[trigger] merged(s)[i]),
    decreases s.len(),
{
    if s.len() > 0 {
        let d = s.drop_last();
        lemma_merged_indices(d);
        assert(family_indices(d) == family_indices(s).drop_last());
        let m = merged(d);
        assert forall|i: int| 0 <= i < m.len() implies s.contains(#[trigger] m[i]) by {
            let k = choose|k: int| 0 <= k < d.len() && d[k] == m[i];
            assert(s[k] == m[i]);
        }
        if !family_indices(m).contains(s.last().index) {
            assert(family_indices(m.push(s.last())) == family_indices(m).push(s.last().index));
            assert(s[s.len() - 1] == s.last());
        }
    }
}

/// A device that lacks an extension that a collaborator asked for is never accepted.
pub proof fn lemma_missing_extension_rejected(front: TracerFront, cand: DeviceCandidate, ext: Seq<char>)
    requires
        required_device_extensions(front, names(cand.extensions@)).contains(ext),
        !names(cand.extensions@).contains(ext),
    ensures
        !device_suitable(front, cand),
{
    let req = required_device_extensions(front, names(cand.extensions@));
    let k = choose|k: int| 0 <= k < req.len() && req[k] == ext;
    assert(!names(cand.extensions@).contains(req[k]));
}

impl Back {
    /// The back end needs buffer device addresses, whatever the device offers.
    pub fn get_required_device_extensions() -> (r: Vec<String>)
        ensures
            names(r@) == seq![buffer_device_address_ext()],
    {
        let r = vec![buffer_device_address_name()];
        assert(names(r@) =~= seq![buffer_device_address_ext()]);
        r
    }

    /// The last family that can draw and the last that can dispatch with timestamps.
    pub fn find_queue_families(families: &Vec<QueueFamilyProperties>) -> (r: Result<BackQueueFamilyIndices, NegotiationError>)
        requires
            families@.len() <= u32::MAX,
        ensures
            match r {
                Ok(ix) => {
                    &&& ix.graphics_family < families@.len()
                    &&& back_graphics_family(families@[ix.graphics_family as int])
                    &&& forall|j: int| ix.graphics_family < j < families@.len()
                        ==> !back_graphics_family(#[trigger] families@[j])
                    &&& ix.compute_family < families@.len()
                    &&& back_compute_family(families@[ix.compute_family as int])
                    &&& forall|j: int| ix.compute_family < j < families@.len()
                        ==> !back_compute_family(#[trigger] families@[j])
                },
                Err(e) => {
                    &&& e == NegotiationError::NoGraphicsQueue ==> !has_back_graphics_family(families@)
                    &&& e == NegotiationError::NoComputeQueue ==> has_back_graphics_family(families@)
                        && !has_back_compute_family(families@)
                    &&& (e == NegotiationError::NoGraphicsQueue || e == NegotiationError::NoComputeQueue)
                },
            },
            r is Ok <==> back_accepts_families(families@),
    {
        let mut graphics: Option<u32> = None;
        let mut compute: Option<u32> = None;
        let mut i: usize = 0;
        while i < families.len()
            invariant
                i <= families@.len() <= u32::MAX,
                match graphics {
                    Some(g) => g < i && back_graphics_family(families@[g as int])
                        && forall|j: int| g < j < i ==> !back_graphics_family(#[trigger] families@[j]),
                    None => forall|j: int| 0 <= j < i ==> !back_graphics_family(#[trigger] families@[j]),
                },
                match compute {
                    Some(c) => c < i && back_compute_family(families@[c as int])
                        && forall|j: int| c < j < i ==> !back_compute_family(#[trigger] families@[j]),
                    None => forall|j: int| 0 <= j < i ==> !back_compute_family(#[trigger] families@[j]),
                },
            decreases families.len() - i,
        {
            let f = families[i];
            if f.queue_count > 0 {
                if f.graphics {
                    graphics = Some(i as u32);
                }
                if f.compute && f.timestamp_valid_bits > 0 {
                    compute = Some(i as u32);
                }
            }
            i += 1;
        }
        match (graphics, compute) {
            (Some(g), Some(c)) => {
                assert(back_graphics_family(families@[g as int]));
                assert(back_compute_family(families@[c as int]));
                Ok(BackQueueFamilyIndices { graphics_family: g, compute_family: c })
            },
            (None, _) => Err(NegotiationError::NoGraphicsQueue),
            (Some(g), None) => {
                assert(back_graphics_family(families@[g as int]));
                Err(NegotiationError::NoComputeQueue)
            },
        }
    }
}

/// Whether both of the back end's families are present.
pub open spec fn back_accepts_families(s: Seq<QueueFamilyProperties>) -> bool {
    has_back_graphics_family(s) && has_back_compute_family(s)
}

impl BackQueueFamilyIndices {
    /// One request for the drawing family and one for the dispatching family.
    pub fn as_families(&self) -> (r: Vec<QueueFamily>)
        ensures
            family_indices(r@) == back_request_indices(*self),
            full_priority_requests(r@),
    {
        let r = vec![full_priority_request(self.graphics_family), full_priority_request(self.compute_family)];
        assert(family_indices(r@) =~= back_request_indices(*self));
        r
    }
}

/// The device extensions asked of a device: the front end's, then the back end's.
/// Records in `capabilities` the optional features switched on.
pub fn get_required_device_extensions(front: &TracerFront, available: &Vec<String>, capabilities: &mut DeviceCapabilities) -> (r: Vec<String>)
    ensures
        names(r@) == required_device_extensions(*front, names(available@)),
        final(capabilities).host_image_copy == (old(capabilities).host_image_copy
            || front_host_image_copy(*front, names(available@))),
{
    let mut required = front.get_required_device_extensions(available, capabilities);
    let mut back = Back::get_required_device_extensions();
    let ghost f = required@;
    let ghost b = back@;
    required.append(&mut back);
    assert(names(required@) =~= names(f) + names(b));
    assert(names(required@) =~= required_device_extensions(*front, names(available@)));
    required
}

/// Whether the device offers every extension asked of it and both collaborators
/// accept it.
pub fn is_device_suitable(front: &TracerFront, candidate: &DeviceCandidate) -> (r: bool)
    requires
        candidate.queue_families@.len() <= u32::MAX,
    ensures
        r == device_suitable(*front, *candidate),
{
    let mut capabilities = DeviceCapabilities { host_image_copy: false };
    let required = get_required_device_extensions(front, &candidate.extensions, &mut capabilities);
    let extensions_ok = is_subset(&candidate.extensions, &required);
    let front_ok = front.is_device_suitable(candidate);
    let back_ok = match Back::find_queue_families(&candidate.queue_families) {
        Ok(_) => true,
        Err(_) => false,
    };
    extensions_ok && front_ok && back_ok
}

/// The first device that is accepted; there is no scoring among accepted devices.
pub fn find_suitable_device(front: &TracerFront, candidates: &Vec<DeviceCandidate>) -> (r: Result<usize, NegotiationError>)
    requires
        forall|i: int| 0 <= i < candidates@.len() ==> (#[trigger] candidates@[i]).queue_families@.len() <= u32::MAX,
    ensures
        match r {
            Ok(i) => {
                &&& i < candidates@.len()
                &&& device_suitable(*front, candidates@[i as int])
                &&& forall|j: int| 0 <= j < i ==> !device_suitable(*front, #[trigger] candidates@[j])
            },
            Err(e) => {
                &&& e == NegotiationError::NoSuitableDevice
                &&& forall|j: int| 0 <= j < candidates@.len() ==> !device_suitable(*front, #[trigger] candidates@[j])
            },
        },
{
    let mut i: usize = 0;
    while i < candidates.len()
        invariant
            i <= candidates@.len(),
            forall|i: int| 0 <= i < candidates@.len() ==> (#[trigger] candidates@[i]).queue_families@.len() <= u32::MAX,
            forall|j: int| 0 <= j < i ==> !device_suitable(*front, #[trigger] candidates@[j]),
        decreases candidates.len() - i,
    {
        if is_device_suitable(front, &candidates[i]) {
            return Ok(i);
        }
        i += 1;
    }
    Err(NegotiationError::NoSuitableDevice)
}

/// Everything that creating the logical device needs, decided from plain facts.
pub struct DevicePlan {
    /// The position of the chosen device among the candidates.
    pub physical_device: usize,
    pub extensions: Vec<String>,
    pub capabilities: DeviceCapabilities,
    pub back_families: BackQueueFamilyIndices,
    pub front_families: FrontQueueFamilyIndices,
    /// One request per family, no family twice.
    pub queue_requests: Vec<QueueFamily>,
    /// The features the collaborators switch on, the front end's first.
    pub features: Vec<DeviceFeature>,
}

/// The features switched on at device creation: each collaborator in turn appends
/// its own to those gathered so far.
pub fn device_feature_list(front: &TracerFront, capabilities: &DeviceCapabilities) -> (r: Vec<DeviceFeature>)
    ensures
        r@ == device_features(*front, *capabilities),
{
    let mut features: Vec<DeviceFeature> = Vec::new();
    if let TracerFront::Headless(_) = front {
        if capabilities.host_image_copy {
            features.push(DeviceFeature::HostImageCopy);
        }
    }
    features.push(DeviceFeature::BufferDeviceAddress);
    features.push(DeviceFeature::HostQueryReset);
    assert(features@ =~= device_features(*front, *capabilities));
    features
}

/// Picks the first accepted device and plans the logical device on it: the
/// extensions, the features, each collaborator's queue families, and one queue
/// request per distinct family.
pub fn negotiate(front: &TracerFront, candidates: &Vec<DeviceCandidate>) -> (r: Result<DevicePlan, NegotiationError>)
    requires
        forall|i: int| 0 <= i < candidates@.len() ==> (#[trigger] candidates@[i]).queue_families@.len() <= u32::MAX,
    ensures
        match r {
            Ok(p) => {
                let cand = candidates@[p.physical_device as int];
                let available = names(cand.extensions@);
                &&& p.physical_device < candidates@.len()
                &&& device_suitable(*front, cand)
                &&& forall|j: int| 0 <= j < p.physical_device ==> !device_suitable(*front, #[trigger] candidates@[j])
                &&& names(p.extensions@) == required_device_extensions(*front, available)
                &&& p.capabilities.host_image_copy == front_host_image_copy(*front, available)
                &&& p.features@ == device_features(*front, p.capabilities)
                &&& p.back_families.graphics_family < cand.queue_families@.len()
                &&& p.back_families.compute_family < cand.queue_families@.len()
                &&& back_graphics_family(cand.queue_families@[p.back_families.graphics_family as int])
                &&& back_compute_family(cand.queue_families@[p.back_families.compute_family as int])
                &&& (front is Headless <==> p.front_families is Headless)
                &&& family_indices(p.queue_requests@) == dedup(
                    back_request_indices(p.back_families) + front_request_indices(p.front_families),
                )
                &&& full_priority_requests(p.queue_requests@)
            },
            Err(e) => {
                &&& e == NegotiationError::NoSuitableDevice
                &&& forall|j: int| 0 <= j < candidates@.len() ==> !device_suitable(*front, #[trigger] candidates@[j])
            },
        },
{
    let index = find_suitable_device(front, candidates)?;
    let candidate = &candidates[index];
    let mut capabilities = DeviceCapabilities { host_image_copy: false };
    let extensions = get_required_device_extensions(front, &candidate.extensions, &mut capabilities);
    let back_families = match Back::find_queue_families(&candidate.queue_families) {
        Ok(ix) => ix,
        Err(_) => { return Err(NegotiationError::NoSuitableDevice); },
    };
    let front_families = match front.find_queue_families(candidate) {
        Ok(ix) => ix,
        Err(_) => {
            assert(front_accepts(*front, *candidate));
            return Err(NegotiationError::NoSuitableDevice);
        },
    };
    let mut requests = back_families.as_families();
    let mut front_requests = front_families.as_families();
    let ghost b = requests@;
    let ghost f = front_requests@;
    requests.append(&mut front_requests);
    let ghost all = requests@;
    assert(all == b + f);
    assert(family_indices(all) =~= family_indices(b) + family_indices(f));
    assert(full_priority_requests(all)) by {
        assert forall|i: int| 0 <= i < all.len() implies (#[trigger] all[i]).priorities@ == seq![FULL_PRIORITY] by {
            if i < b.len() { assert(all[i] == b[i]); } else { assert(all[i] == f[i - b.len()]); }
        }
    }
    QueueFamily::merge_queues(&mut requests);
    proof {
        lemma_merged_indices(all);
        assert forall|i: int| 0 <= i < requests@.len() implies (#[trigger] requests@[i]).priorities@ == seq![FULL_PRIORITY] by {
            let k = choose|k: int| 0 <= k < all.len() && all[k] == requests@[i];
            assert(all[k].priorities@ == seq![FULL_PRIORITY]);
        }
    }
    let features = device_feature_list(front, &capabilities);
    Ok(DevicePlan {
        physical_device: index,
        extensions,
        capabilities,
        back_families,
        front_families,
        queue_requests: requests,
        features,
    })
}

} // verus!

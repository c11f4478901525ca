use vstd::prelude::*;

verus! {

/// Optional instance features that were found and switched on.
#[derive(Clone, Copy, Debug)]
pub struct InstanceCapabilities {
    pub debug_utils_ext: bool,
    pub validation_layer: bool,
}

/// Optional device features that were found and switched on.
#[derive(Clone, Copy, Debug)]
pub struct DeviceCapabilities {
    pub host_image_copy: bool,
}

/// What an instance turned out to be compatible with.
#[derive(Clone, Copy, Debug)]
pub struct InstanceCompatibilities {
    pub debug_utils_ext: bool,
    pub validation_layer: bool,
}

/// What a device turned out to be compatible with; nothing is tracked yet.
#[derive(Clone, Copy, Debug)]
pub struct DeviceCompatibilities {}

impl Default for InstanceCapabilities {
    fn default() -> (r: Self)
        ensures
            !r.debug_utils_ext,
            !r.validation_layer,
    {
        InstanceCapabilities { debug_utils_ext: false, validation_layer: false }
    }
}

impl Default for DeviceCapabilities {
    fn default() -> (r: Self)
        ensures
            !r.host_image_copy,
    {
        DeviceCapabilities { host_image_copy: false }
    }
}

impl Default for InstanceCompatibilities {
    fn default() -> (r: Self)
        ensures
            !r.debug_utils_ext,
            !r.validation_layer,
    {
        InstanceCompatibilities { debug_utils_ext: false, validation_layer: false }
    }
}

impl Default for DeviceCompatibilities {
    fn default() -> (r: Self) {
        DeviceCompatibilities {  }
    }
}

/// The names held by a list of strings.
pub open spec fn names(v: Seq<String>) -> Seq<Seq<char>> {
    v.map_values(|s: String| s@)
}

/// Whether `name` is among `available`.
pub fn contains_name(available: &Vec<String>, name: &String) -> (r: bool)
    ensures
        r == names(available@).contains(name@),
{
    let mut i: usize = 0;
    while i < available.len()
        invariant
            i <= available.len(),
            forall|j: int| 0 <= j < i ==> available@[j]@ != name@,
        decreases available.len() - i,
    {
        if available[i] == *name {
            assert(names(available@)[i as int] == name@);
            return true;
        }
        i += 1;
    }
    proof {
        if names(available@).contains(name@) {
            let j = choose|j: int| 0 <= j < names(available@).len() && names(available@)[j] == name@;
            assert(available@[j]@ == name@);
        }
    }
    false
}

/// Whether every name in `required` is among `available`.
pub open spec fn all_available(available: Seq<Seq<char>>, required: Seq<Seq<char>>) -> bool {
    forall|i: int| 0 <= i < required.len() ==> available.contains(#[trigger] required[i])
}

/// Whether every name in `required` is among `available`.
pub fn is_subset(available: &Vec<String>, required: &Vec<String>) -> (r: bool)
    ensures
        r == all_available(names(available@), names(required@)),
{
    let mut i: usize = 0;
    while i < required.len()
        invariant
            i <= required.len(),
            forall|j: int| 0 <= j < i ==> names(available@).contains(#[trigger] names(required@)[j]),
        decreases required.len() - i,
    {
        if !contains_name(available, &required[i]) {
            assert(!names(available@).contains(names(required@)[i as int]));
            return false;
        }
        i += 1;
    }
    true
}

/// The instance extension that carries the validation messages.
pub open spec fn debug_utils_ext() -> Seq<char> {
    "VK_EXT_debug_utils"@
}

/// The validation layer.
pub open spec fn validation_layer() -> Seq<char> {
    "VK_LAYER_KHRONOS_validation"@
}

/// Asks for the debug utilities extension where the instance offers it, and records
/// in `capabilities` that it was asked for.
pub fn debug_instance_extensions(available: &Vec<String>, capabilities: &mut InstanceCapabilities) -> (r: Vec<String>)
    ensures
        names(available@).contains(debug_utils_ext()) ==> names(r@) == seq![debug_utils_ext()],
        !names(available@).contains(debug_utils_ext()) ==> r@.len() == 0,
        final(capabilities).debug_utils_ext == (old(capabilities).debug_utils_ext
            || names(available@).contains(debug_utils_ext())),
        final(capabilities).validation_layer == old(capabilities).validation_layer,
{
    let mut required: Vec<String> = Vec::new();
    let name = String::from_str("VK_EXT_debug_utils");
    proof { reveal_strlit("VK_EXT_debug_utils"); }
    if contains_name(available, &name) {
        required.push(name);
        capabilities.debug_utils_ext = true;
        assert(names(required@) =~= seq![debug_utils_ext()]);
    }
    required
}

/// Asks for the validation layer where the instance offers it, and records in
/// `capabilities` that it was asked for.
pub fn debug_instance_layers(available: &Vec<String>, capabilities: &mut InstanceCapabilities) -> (r: Vec<String>)
    ensures
        names(available@).contains(validation_layer()) ==> names(r@) == seq![validation_layer()],
        !names(available@).contains(validation_layer()) ==> r@.len() == 0,
        final(capabilities).validation_layer == (old(capabilities).validation_layer
            || names(available@).contains(validation_layer())),
        final(capabilities).debug_utils_ext == old(capabilities).debug_utils_ext,
{
    let mut required: Vec<String> = Vec::new();
    let name = String::from_str("VK_LAYER_KHRONOS_validation");
    proof { reveal_strlit("VK_LAYER_KHRONOS_validation"); }
    if contains_name(available, &name) {
        required.push(name);
        capabilities.validation_layer = true;
        assert(names(required@) =~= seq![validation_layer()]);
    }
    required
}

/// A debug messenger can be set up only where both the extension and the layer are on.
pub fn debug_messenger_available(capabilities: &InstanceCapabilities) -> (r: bool)
    ensures
        r == (capabilities.debug_utils_ext && capabilities.validation_layer),
{
    capabilities.debug_utils_ext && capabilities.validation_layer
}

} // verus!

use vstd::prelude::*;

verus! {

/// The queue families picked on a device: one that runs graphics work and one
/// that presents to the surface. The two may be the same family.
#[derive(Clone, Copy, Debug, PartialEq, Eq, Structural)]
pub struct QueueFamilyIndices {
    pub graphics_family: u32,
    pub present_family: u32,
}

/// What one queue family of a device offers.
#[derive(Clone, Copy, Debug, PartialEq, Eq, Structural)]
pub struct QueueFamilySupport {
    /// The family's queue flags include graphics.
    pub graphics: bool,
    /// The family can present to the target surface.
    pub present: bool,
}

/// One enumerated physical device, as far as device selection reads it.
pub struct DeviceCandidate {
    /// Its queue families, in the order the driver reports them.
    pub queue_families: Vec<QueueFamilySupport>,
    /// The names of the device extensions it supports.
    pub extensions: Vec<String>,
}

/// Why no device could be selected.
#[derive(Clone, Copy, Debug, PartialEq, Eq, Structural)]
pub enum ProbeError {
    NoSuitableDevice,
}

/// The selected physical device: its position in the driver's enumeration,
/// its queue families and the device extensions it must enable.
pub struct PhysicalDevice {
    device_index: usize,
    queue_family_indices: QueueFamilyIndices,
    required_extensions: Vec<String>,
}

pub open spec fn has_graphics_family(families: Seq<QueueFamilySupport>) -> bool {
    exists|i: int| 0 <= i < families.len() && #[trigger] families[i].graphics
}

pub open spec fn has_present_family(families: Seq<QueueFamilySupport>) -> bool {
    exists|i: int| 0 <= i < families.len() && #[trigger] families[i].present
}

/// `i` is the first family that supports graphics.
pub open spec fn is_first_graphics_family(families: Seq<QueueFamilySupport>, i: int) -> bool {
    &&& 0 <= i < families.len()
    &&& families[i].graphics
    &&& forall|j: int| 0 <= j < i ==> !(#[trigger] families[j].graphics)
}

/// `i` is the first family that can present.
pub open spec fn is_first_present_family(families: Seq<QueueFamilySupport>, i: int) -> bool {
    &&& 0 <= i < families.len()
    &&& families[i].present
    &&& forall|j: int| 0 <= j < i ==> !(#[trigger] families[j].present)
}

/// `name` occurs, letter for letter, in `names`.
pub open spec fn name_listed(names: Seq<String>, name: Seq<char>) -> bool {
    exists|i: int| 0 <= i < names.len() && (#[trigger] names[i])@ == name
}

/// Every required name occurs in `available`.
pub open spec fn all_names_listed(available: Seq<String>, required: Seq<String>) -> bool {
    forall|k: int| 0 <= k < required.len() ==> name_listed(available, (#[trigger] required[k])@)
}

/// A device is suitable when it has a graphics family and a presenting
/// family, and supports every required extension.
pub open spec fn is_suitable(candidate: DeviceCandidate, required: Seq<String>) -> bool {
    &&& has_graphics_family(candidate.queue_families@)
    &&& has_present_family(candidate.queue_families@)
    &&& all_names_listed(candidate.extensions@, required)
}

/// `i` is the first suitable device of the enumeration.
pub open spec fn is_first_suitable(
    candidates: Seq<DeviceCandidate>,
    required: Seq<String>,
    i: int,
) -> bool {
    &&& 0 <= i < candidates.len()
    &&& is_suitable(candidates[i], required)
    &&& forall|j: int| 0 <= j < i ==> !is_suitable(#[trigger] candidates[j], required)
}

/// Every candidate's queue family count fits the driver's 32-bit indices.
pub open spec fn family_counts_fit(candidates: Seq<DeviceCandidate>) -> bool {
    forall|i: int|
        0 <= i < candidates.len() ==> (#[trigger] candidates[i]).queue_families@.len()
            <= u32::MAX
}

/// Scans the queue families in order and returns the first that supports
/// graphics and the first that can present, stopping as soon as both are
/// known.
pub fn find_queue_families(families: &Vec<QueueFamilySupport>) -> (r: (Option<u32>, Option<u32>))
    requires
        families@.len() <= u32::MAX,
    ensures
        match r.0 {
            Some(g) => is_first_graphics_family(families@, g as int),
            None => !has_graphics_family(families@),
        },
        match r.1 {
            Some(p) => is_first_present_family(families@, p as int),
            None => !has_present_family(families@),
        },
{
    let mut graphics_family: Option<u32> = None;
    let mut present_family: Option<u32> = None;
    let mut i: usize = 0;
    while i < families.len()
        invariant
            i <= families@.len() <= u32::MAX,
            match graphics_family {
                Some(g) => is_first_graphics_family(families@, g as int),
                None => forall|j: int| 0 <= j < i ==> !(#[trigger] families@[j].graphics),
            },
            match present_family {
                Some(p) => is_first_present_family(families@, p as int),
                None => forall|j: int| 0 <= j < i ==> !(#[trigger] families@[j].present),
            },
        ensures
            match graphics_family {
                Some(g) => is_first_graphics_family(families@, g as int),
                None => !has_graphics_family(families@),
            },
            match present_family {
                Some(p) => is_first_present_family(families@, p as int),
                None => !has_present_family(families@),
            },
        decreases families@.len() - i,
    {
        let family = families[i];
        if graphics_family.is_none() && family.graphics {
            graphics_family = Some(i as u32);
        }
        if present_family.is_none() && family.present {
            present_family = Some(i as u32);
        }
        if graphics_family.is_some() && present_family.is_some() {
            break;
        }
        i = i + 1;
    }
    (graphics_family, present_family)
}

/// Whether `name` occurs, letter for letter, in `names`.
pub(crate) fn name_in(names: &Vec<String>, name: &String) -> (r: bool)
    ensures
        r == name_listed(names@, name@),
{
    let mut i: usize = 0;
    while i < names.len()
        invariant
            i <= names@.len(),
            forall|j: int| 0 <= j < i ==> (#[trigger] names@[j])@ != name@,
        decreases names@.len() - i,
    {
        if names[i] == *name {
            return true;
        }
        i = i + 1;
    }
    false
}

/// Whether every required name occurs, letter for letter, in `available`.
pub fn all_names_in(available: &Vec<String>, required: &Vec<String>) -> (r: bool)
    ensures
        r == all_names_listed(available@, required@),
{
    let mut k: usize = 0;
    while k < required.len()
        invariant
            k <= required@.len(),
            forall|m: int| 0 <= m < k ==> name_listed(available@, (#[trigger] required@[m])@),
        decreases required@.len() - k,
    {
        if !name_in(available, &required[k]) {
            return false;
        }
        k = k + 1;
    }
    true
}

/// Whether the device supports every required extension.
pub fn check_extension_support(candidate: &DeviceCandidate, required_extensions: &Vec<String>) -> (r:
    bool)
    ensures
        r == all_names_listed(candidate.extensions@, required_extensions@),
{
    all_names_in(&candidate.extensions, required_extensions)
}

/// Whether the device has a graphics family, a presenting family and every
/// required extension.
pub fn is_device_suitable(candidate: &DeviceCandidate, required_extensions: &Vec<String>) -> (r: bool)
    requires
        candidate.queue_families@.len() <= u32::MAX,
    ensures
        r == is_suitable(*candidate, required_extensions@),
{
    let (graphics_family, present_family) = find_queue_families(&candidate.queue_families);
    check_extension_support(candidate, required_extensions) && graphics_family.is_some()
        && present_family.is_some()
}

impl PhysicalDevice {
    /// Position of the selected device in the driver's enumeration.
    pub closed spec fn index(&self) -> usize {
        self.device_index
    }

    /// The queue families selected on the device.
    pub closed spec fn families(&self) -> QueueFamilyIndices {
        self.queue_family_indices
    }

    /// The device extensions the logical device must enable.
    pub closed spec fn extensions(&self) -> Seq<String> {
        self.required_extensions@
    }

    /// Selects the first enumerated device that is suitable, with its first
    /// graphics family and its first presenting family. No device is
    /// preferred over another beyond the order of enumeration.
    pub fn optimal_device(candidates: &Vec<DeviceCandidate>, required_extensions: Vec<String>) -> (r:
        Result<PhysicalDevice, ProbeError>)
        requires
            family_counts_fit(candidates@),
        ensures
            r is Ok <==> exists|i: int|
                0 <= i < candidates@.len() && is_suitable(
                    #[trigger] candidates@[i],
                    required_extensions@,
                ),
            r is Err ==> r == Err::<PhysicalDevice, ProbeError>(ProbeError::NoSuitableDevice),
            r matches Ok(d) ==> {
                let c = candidates@[d.index() as int];
                let fams = c.queue_families@;
                &&& is_first_suitable(candidates@, required_extensions@, d.index() as int)
                &&& is_first_graphics_family(fams, d.families().graphics_family as int)
                &&& is_first_present_family(fams, d.families().present_family as int)
                &&& fams[d.families().graphics_family as int].graphics
                &&& fams[d.families().present_family as int].present
                &&& all_names_listed(c.extensions@, d.extensions())
                &&& d.extensions() == required_extensions@
            },
    {
        let mut i: usize = 0;
        while i < candidates.len()
            invariant
                i <= candidates@.len(),
                family_counts_fit(candidates@),
                forall|j: int|
                    0 <= j < i ==> !is_suitable(#[trigger] candidates@[j], required_extensions@),
            decreases candidates@.len() - i,
        {
            let candidate = &candidates[i];
            assert(candidates@[i as int].queue_families@.len() <= u32::MAX);
            let (graphics_family, present_family) = find_queue_families(&candidate.queue_families);
            if let (Some(graphics_family), Some(present_family)) = (graphics_family, present_family) {
                if check_extension_support(candidate, &required_extensions) {
                    let queue_family_indices = QueueFamilyIndices { graphics_family, present_family };
                    return Ok(
                        PhysicalDevice { device_index: i, queue_family_indices, required_extensions },
                    );
                }
            }
            i = i + 1;
        }
        Err(ProbeError::NoSuitableDevice)
    }

    /// Position of the selected device in the driver's enumeration.
    pub fn device_index(&self) -> (r: usize)
        ensures
            r == self.index(),
    {
        self.device_index
    }

    pub fn queue_family_indices(&self) -> (r: QueueFamilyIndices)
        ensures
            r == self.families(),
    {
        self.queue_family_indices
    }

    pub fn required_extensions(&self) -> (r: &Vec<String>)
        ensures
            r@ == self.extensions(),
    {
        &self.required_extensions
    }
}

} // verus!

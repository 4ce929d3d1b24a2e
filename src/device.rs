use vstd::prelude::*;
use crate::physical_device::QueueFamilyIndices;

verus! {

/// The distinct families to request one queue from, graphics first.
pub open spec fn spec_queue_families(indices: QueueFamilyIndices) -> Seq<u32> {
    if indices.graphics_family == indices.present_family {
        seq![indices.graphics_family]
    } else {
        seq![indices.graphics_family, indices.present_family]
    }
}

/// The families the logical device requests a queue from: the graphics
/// family, then the present family unless it is the same one.
pub fn queue_create_families(indices: QueueFamilyIndices) -> (r: Vec<u32>)
    ensures
        r@ == spec_queue_families(indices),
        r@.no_duplicates(),
{
    let mut families: Vec<u32> = Vec::new();
    families.push(indices.graphics_family);
    if indices.present_family != indices.graphics_family {
        families.push(indices.present_family);
    }
    proof {
        assert(families@ =~= spec_queue_families(indices));
    }
    families
}

} // verus!

//! Queue-family suitability and selection.
//!
//! A device reports one entry per queue family; presentation support for a
//! given surface is reported separately per family index.  Selection always
//! takes the first matching index in enumeration order.

use vstd::prelude::*;

verus! {

/// One queue family reported by a device, reduced to the fields selection
/// reads.
#[derive(Clone, Copy, Debug, PartialEq, Eq, Structural)]
pub struct QueueFamilyData {
    pub queue_count: u32,
    pub supports_graphics: bool,
}

/// The family has at least one queue and the graphics capability bit.
pub open spec fn suitable_family(f: QueueFamilyData) -> bool {
    f.queue_count > 0 && f.supports_graphics
}

/// Some reported family is suitable for graphics work.
pub open spec fn has_graphics_family(families: Seq<QueueFamilyData>) -> bool {
    exists|i: int| 0 <= i < families.len() && suitable_family(families[i])
}

/// Some family index can present to the surface.
pub open spec fn has_present_family(support: Seq<bool>) -> bool {
    exists|i: int| 0 <= i < support.len() && support[i]
}

/// The family has at least one queue and can be used for rendering through
/// the graphics pipeline.
pub fn is_queue_family_suitable(family: &QueueFamilyData) -> (r: bool)
    ensures
        r == suitable_family(*family),
{
    family.queue_count > 0 && family.supports_graphics
}

/// The first suitable graphics queue-family index, in enumeration order, or
/// `None` when no family is suitable.
pub fn find_queue_families(families: &Vec<QueueFamilyData>) -> (r: Option<u32>)
    requires
        families@.len() <= u32::MAX,
    ensures
        match r {
            Some(i) => {
                &&& i < families@.len()
                &&& suitable_family(families@[i as int])
                &&& forall|j: int| 0 <= j < i ==> !suitable_family(families@[j])
            },
            None => !has_graphics_family(families@),
        },
{
    let n = families.len();
    let mut i: usize = 0;
    while i < n
        invariant
            n == families@.len() <= u32::MAX,
            0 <= i <= n,
            forall|j: int| 0 <= j < i ==> !suitable_family(families@[j]),
        decreases n - i,
    {
        if is_queue_family_suitable(&families[i]) {
            return Some(i as u32);
        }
        i = i + 1;
    }
    None
}

/// The first presentation-capable family index, or `None` when the surface
/// reports support for no family.
pub fn find_present_family(present_support: &Vec<bool>) -> (r: Option<u32>)
    requires
        present_support@.len() <= u32::MAX,
    ensures
        match r {
            Some(i) => {
                &&& i < present_support@.len()
                &&& present_support@[i as int]
                &&& forall|j: int| 0 <= j < i ==> !present_support@[j]
            },
            None => !has_present_family(present_support@),
        },
{
    let n = present_support.len();
    let mut i: usize = 0;
    while i < n
        invariant
            n == present_support@.len() <= u32::MAX,
            0 <= i <= n,
            forall|j: int| 0 <= j < i ==> !present_support@[j],
        decreases n - i,
    {
        if present_support[i] {
            return Some(i as u32);
        }
        i = i + 1;
    }
    None
}

} // verus!

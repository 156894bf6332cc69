//! GPU memory-type selection.
//!
//! A resource reports a requirement bitmask (bit `i` set means memory type
//! `i` may back it); the device reports property flags per memory type.  The
//! selection scans the reported types and takes the first index that is both
//! set in the bitmask and carries the required property flags.

use vstd::prelude::*;

use crate::RenderError;

verus! {

/// Memory allocated at this type lives in device-local (GPU-fast) memory.
pub const MEMORY_PROPERTY_DEVICE_LOCAL: u32 = 0x1;

/// Memory allocated at this type can be mapped into host address space.
pub const MEMORY_PROPERTY_HOST_VISIBLE: u32 = 0x2;

/// One memory type reported by a device, reduced to its property flags.
#[derive(Clone, Copy, Debug, PartialEq, Eq, Structural)]
pub struct MemoryType {
    pub property_flags: u32,
}

/// Memory type `i` is set in the requirement bitmask and carries all the
/// required property flags.
pub open spec fn memory_type_compatible(
    types: Seq<MemoryType>,
    type_bits: u32,
    required: u32,
    i: int,
) -> bool {
    &&& 0 <= i < types.len()
    &&& (type_bits >> (i as u32)) & 1 == 1
    &&& types[i].property_flags & required == required
}

/// Pick the first reported memory type that is compatible with the
/// requirement bitmask and carries the required property flags; when no
/// index is compatible, selection fails.
pub fn find_memory_type_index(
    memory_types: &Vec<MemoryType>,
    type_bits: u32,
    required: u32,
) -> (r: Result<u32, RenderError>)
    requires
        memory_types@.len() <= 32,
    ensures
        match r {
            Ok(k) => {
                &&& memory_type_compatible(memory_types@, type_bits, required, k as int)
                &&& forall|j: int|
                    0 <= j < k ==> !memory_type_compatible(memory_types@, type_bits, required, j)
            },
            Err(e) => {
                &&& e == RenderError::NoSuitableMemoryType
                &&& forall|j: int| !memory_type_compatible(memory_types@, type_bits, required, j)
            },
        },
{
    let n = memory_types.len();
    let mut i: usize = 0;
    while i < n
        invariant
            n == memory_types@.len() <= 32,
            0 <= i <= n,
            forall|j: int| 0 <= j < i ==> !memory_type_compatible(memory_types@, type_bits, required, j),
        decreases n - i,
    {
        let set_in_mask = (type_bits >> (i as u32)) & 1 == 1;
        let has_props = memory_types[i].property_flags & required == required;
        if set_in_mask && has_props {
            return Ok(i as u32);
        }
        i = i + 1;
    }
    Err(RenderError::NoSuitableMemoryType)
}

/// When exactly one index `k` is compatible with the bitmask and property
/// flags, the first-match rule can only settle on `k`: any index `m`
/// satisfying the selection's characterization equals `k`.
pub proof fn lemma_unique_compatible_is_chosen(
    types: Seq<MemoryType>,
    type_bits: u32,
    required: u32,
    k: int,
    m: int,
)
    requires
        memory_type_compatible(types, type_bits, required, k),
        forall|j: int| j != k ==> !memory_type_compatible(types, type_bits, required, j),
        memory_type_compatible(types, type_bits, required, m),
        forall|j: int| 0 <= j < m ==> !memory_type_compatible(types, type_bits, required, j),
    ensures
        m == k,
{
}

} // verus!

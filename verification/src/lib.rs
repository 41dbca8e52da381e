//! Resource management for a low-level graphics device: stable generational
//! handles for GPU objects, an image/view manager, a shader/pipeline manager
//! with atomic hot-reload, and a vertex-attribute-layout deriver.
//!
//! The graphics device itself is an external capability; everything the
//! managers decide and record about it is verified here, over opaque native
//! handle values that the caller obtains from the device.
pub mod color;
pub mod handle;
pub mod image_format;
pub mod image_manager;
pub mod mesh;
pub mod screenshot;
pub mod shader_manager;
pub mod vertex;

use vstd::prelude::*;

verus! {

/// Round `offset` up to the next multiple of `align` (`align > 0`).
pub open spec fn spec_align_up(offset: int, align: int) -> int {
    ((offset + align - 1) / align) * align
}

/// `spec_align_up` lands on a multiple of `align`, within `align - 1` of the
/// start, and never moves backwards.
pub proof fn lemma_align_up(offset: int, align: int)
    requires
        offset >= 0,
        align > 0,
    ensures
        spec_align_up(offset, align) >= offset,
        spec_align_up(offset, align) < offset + align,
        spec_align_up(offset, align) % align == 0,
{
    let q = (offset + align - 1) / align;
    vstd::arithmetic::div_mod::lemma_fundamental_div_mod(offset + align - 1, align);
    vstd::arithmetic::div_mod::lemma_mod_bound(offset + align - 1, align);
    assert(q * align == offset + align - 1 - ((offset + align - 1) % align));
    vstd::arithmetic::div_mod::lemma_mod_multiples_basic(q, align);
}

/// Round `offset` up to the next multiple of `align`.
pub fn align_up(offset: u32, align: u32) -> (r: u32)
    requires
        align > 0,
        offset + align - 1 <= u32::MAX,
    ensures
        r == spec_align_up(offset as int, align as int),
{
    proof {
        lemma_align_up(offset as int, align as int);
    }
    let q: u32 = (offset + (align - 1)) / align;
    assert(q * align == spec_align_up(offset as int, align as int));
    q * align
}

} // verus!

//! Verified decision logic of a small instanced-model renderer: the grid
//! of instances it draws, the surface configuration it asks for, how it
//! follows window resizes, and what each window-system event leads to.
pub mod instances;
pub mod surface;
pub mod events;
pub mod state;

use vstd::prelude::*;

verus! {

/// The range of instance indices that a draw call covers when it draws
/// `count` instances: `start..end`, as the GPU expects it.
pub fn draw_instance_range(count: usize) -> (r: (u32, u32))
    requires
        count <= u32::MAX,
    ensures
        r.0 == 0,
        r.1 == count,
{
    (0, count as u32)
}

} // verus!

use vstd::prelude::*;
use crate::sphere::{SphereData, ONE_F32_BITS};

verus! {

/// Side length, in invocations, of the square workgroup the compute shader declares.
pub const WORKGROUP_SIZE: u32 = 8;

/// Width in texels of the texture the compute shader writes.
pub const TEXTURE_WIDTH: u32 = 800;

/// Height in texels of the texture the compute shader writes.
pub const TEXTURE_HEIGHT: u32 = 600;

/// The number of workgroups needed to cover `n` texels with groups of `WORKGROUP_SIZE`:
/// `n / WORKGROUP_SIZE` rounded up.
pub open spec fn groups_for(n: u32) -> int {
    (n as int + WORKGROUP_SIZE as int - 1) / WORKGROUP_SIZE as int
}

/// The workgroup grid that covers a `width` × `height` texture: one layer deep.
pub fn workgroup_grid(width: u32, height: u32) -> (r: (u32, u32, u32))
    ensures
        r.0 as int == groups_for(width),
        r.1 as int == groups_for(height),
        r.2 == 1,
{
    let gx: u32 = width / WORKGROUP_SIZE + if width % WORKGROUP_SIZE == 0 { 0 } else { 1 };
    let gy: u32 = height / WORKGROUP_SIZE + if height % WORKGROUP_SIZE == 0 { 0 } else { 1 };
    (gx, gy, 1)
}

/// The grid leaves no texel out and wastes less than one workgroup per axis:
/// texel `x` of a row of `n` falls in group `x / WORKGROUP_SIZE`, which the grid
/// holds, and the last group starts inside the row.
pub proof fn lemma_grid_covers(n: u32, x: u32)
    ensures
        groups_for(n) * WORKGROUP_SIZE as int >= n as int,
        n > 0 ==> (groups_for(n) - 1) * (WORKGROUP_SIZE as int) < n as int,
        x < n ==> 0 <= (x as int) / (WORKGROUP_SIZE as int) < groups_for(n),
{
    let k = n as int;
    assert(((k + 7) / 8) * 8 >= k) by (nonlinear_arith);
    assert(k > 0 ==> ((k + 7) / 8 - 1) * 8 < k) by (nonlinear_arith);
    assert(x < n ==> (x as int) / 8 < (k + 7) / 8) by (nonlinear_arith)
        requires
            k == n as int,
    ;
}

/// What the compute stage is made of: the sphere uploaded as its uniform and the
/// size of the storage texture it writes.
#[derive(Clone, Copy, Debug, PartialEq, Eq)]
pub struct ComputePipeline {
    pub sphere: SphereData,
    pub texture_width: u32,
    pub texture_height: u32,
}

impl ComputePipeline {
    /// The unit sphere at the origin, rendered into an 800 × 600 texture.
    pub open spec fn new_spec() -> ComputePipeline {
        ComputePipeline {
            sphere: SphereData { center: [0u32, 0u32, 0u32], radius: ONE_F32_BITS },
            texture_width: TEXTURE_WIDTH,
            texture_height: TEXTURE_HEIGHT,
        }
    }

    pub fn new() -> (r: ComputePipeline)
        ensures
            r == Self::new_spec(),
    {
        ComputePipeline {
            sphere: SphereData::unit(),
            texture_width: TEXTURE_WIDTH,
            texture_height: TEXTURE_HEIGHT,
        }
    }

    /// The contents of the uniform buffer bound at slot 0.
    pub fn uniform_bytes(&self) -> (r: Vec<u8>)
        ensures
            r@ == self.sphere.bytes(),
    {
        self.sphere.to_bytes()
    }

    /// The workgroup counts of the dispatch that covers the whole storage texture.
    pub fn dispatch(&self) -> (r: (u32, u32, u32))
        ensures
            r.0 as int == groups_for(self.texture_width),
            r.1 as int == groups_for(self.texture_height),
            r.2 == 1,
    {
        workgroup_grid(self.texture_width, self.texture_height)
    }
}

} // verus!

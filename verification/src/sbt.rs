//! Shader binding table layout of the ray-tracing pipeline: one ray generation
//! record, then one miss record, then one hit group record, each one stride
//! long, and no callable records.

use vstd::prelude::*;

verus! {

/// A strided device address region of the shader binding table.
#[derive(Clone, Copy, Debug, PartialEq, Eq, Structural)]
pub struct SbtRegion {
    pub device_address: u64,
    pub stride: u64,
    pub size: u64,
}

/// The four regions a ray trace is dispatched with.
#[derive(Clone, Copy, Debug, PartialEq, Eq, Structural)]
pub struct SbtRegions {
    pub ray_gen: SbtRegion,
    pub miss: SbtRegion,
    pub hit: SbtRegion,
    pub callable: SbtRegion,
}

/// The regions of a table that starts at `start` with records `stride` bytes
/// apart: ray generation at the start, miss one stride in, hit two strides in,
/// each one record long, and an empty callable region at the start.
pub open spec fn sbt_regions_spec(start: u64, stride: u64) -> SbtRegions {
    SbtRegions {
        ray_gen: SbtRegion { device_address: start, stride, size: stride },
        miss: SbtRegion { device_address: (start + stride) as u64, stride, size: stride },
        hit: SbtRegion { device_address: (start + 2 * stride) as u64, stride, size: stride },
        callable: SbtRegion { device_address: start, stride, size: 0 },
    }
}

/// Lays out the shader binding table regions of a ray trace.
pub fn sbt_regions(start: u64, stride: u64) -> (r: SbtRegions)
    requires
        start + 2 * stride <= u64::MAX,
    ensures
        r == sbt_regions_spec(start, stride),
{
    let ray_gen = SbtRegion { device_address: start, stride, size: stride };
    let mut hit = ray_gen;
    hit.size = stride;
    hit.device_address = start + 2 * stride;
    let mut miss = ray_gen;
    miss.size = stride;
    miss.device_address = start + stride;
    let mut callable = ray_gen;
    callable.size = 0;
    SbtRegions { ray_gen, miss, hit, callable }
}

/// The ray generation, miss and hit regions follow each other without gap or
/// overlap.
pub proof fn lemma_sbt_regions_adjacent(start: u64, stride: u64)
    requires
        start + 2 * stride <= u64::MAX,
    ensures
        ({
            let r = sbt_regions_spec(start, stride);
            &&& r.ray_gen.device_address + r.ray_gen.size == r.miss.device_address
            &&& r.miss.device_address + r.miss.size == r.hit.device_address
            &&& r.callable.size == 0
        }),
{
}

} // verus!

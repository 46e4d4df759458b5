//! Descriptor set layouts of the ray-tracing pipelines and the writes that
//! bind a scene's resources to them.

use vstd::prelude::*;
use crate::render_pass::LayoutBinding;

verus! {

/// `VK_DESCRIPTOR_TYPE_STORAGE_IMAGE`.
pub const DESCRIPTOR_STORAGE_IMAGE: i32 = 3i32;

/// `VK_DESCRIPTOR_TYPE_UNIFORM_BUFFER`.
pub const DESCRIPTOR_UNIFORM_BUFFER: i32 = 6i32;

/// `VK_DESCRIPTOR_TYPE_STORAGE_BUFFER`.
pub const DESCRIPTOR_STORAGE_BUFFER: i32 = 7i32;

/// `VK_DESCRIPTOR_TYPE_ACCELERATION_STRUCTURE_KHR`.
pub const DESCRIPTOR_ACCELERATION_STRUCTURE: i32 = 1000150000i32;

/// `VK_SHADER_STAGE_RAYGEN_BIT_KHR`.
pub const STAGE_RAYGEN: u32 = 0x100u32;

/// `VK_SHADER_STAGE_CLOSEST_HIT_BIT_KHR`.
pub const STAGE_CLOSEST_HIT: u32 = 0x400u32;

/// A binding of a set layout given by number, descriptor type and stages; the
/// layout object decides the descriptor count.
#[derive(Clone, Copy, Debug, PartialEq, Eq, Structural)]
pub struct SceneBinding {
    pub binding: u32,
    pub descriptor_type: i32,
    pub stage_flags: u32,
}

/// The set layout of the scene tracer: the output image and the top-level
/// acceleration structure for ray generation, then the index and the vertex
/// data of the scene's geometry for closest-hit shading.
pub open spec fn scene_set_bindings_spec() -> Seq<SceneBinding> {
    seq![
        SceneBinding { binding: 0, descriptor_type: DESCRIPTOR_STORAGE_IMAGE, stage_flags: STAGE_RAYGEN },
        SceneBinding {
            binding: 1,
            descriptor_type: DESCRIPTOR_ACCELERATION_STRUCTURE,
            stage_flags: STAGE_RAYGEN,
        },
        SceneBinding {
            binding: 2,
            descriptor_type: DESCRIPTOR_STORAGE_BUFFER,
            stage_flags: STAGE_CLOSEST_HIT,
        },
        SceneBinding {
            binding: 3,
            descriptor_type: DESCRIPTOR_STORAGE_BUFFER,
            stage_flags: STAGE_CLOSEST_HIT,
        },
    ]
}

/// The bindings of the scene tracer's set layout.
pub fn scene_set_bindings() -> (r: Vec<SceneBinding>)
    ensures
        r@ == scene_set_bindings_spec(),
{
    let mut r: Vec<SceneBinding> = Vec::new();
    r.push(SceneBinding { binding: 0, descriptor_type: DESCRIPTOR_STORAGE_IMAGE, stage_flags: STAGE_RAYGEN });
    r.push(SceneBinding {
        binding: 1,
        descriptor_type: DESCRIPTOR_ACCELERATION_STRUCTURE,
        stage_flags: STAGE_RAYGEN,
    });
    r.push(SceneBinding {
        binding: 2,
        descriptor_type: DESCRIPTOR_STORAGE_BUFFER,
        stage_flags: STAGE_CLOSEST_HIT,
    });
    r.push(SceneBinding {
        binding: 3,
        descriptor_type: DESCRIPTOR_STORAGE_BUFFER,
        stage_flags: STAGE_CLOSEST_HIT,
    });
    assert(r@ =~= scene_set_bindings_spec());
    r
}

/// What a descriptor write binds.
#[derive(Clone, Copy, Debug, PartialEq, Eq, Structural)]
pub enum WriteDetail {
    /// The traced image's view.
    Image,
    /// The scene's top-level acceleration structure.
    AccelerationStructure,
    /// The scene's buffer, from `offset` on.
    Buffer { offset: u64 },
}

/// A write of one resource into one binding of a descriptor set.
#[derive(Clone, Copy, Debug, PartialEq, Eq, Structural)]
pub struct DescriptorWrite {
    pub binding: u32,
    pub detail: WriteDetail,
}

/// The writes that bind a scene to the scene tracer's set: the image, the
/// acceleration structure, the buffer from the sole geometry's index offset
/// and the buffer from its vertex offset.
pub open spec fn scene_writes_spec(index_offset: u64, vertex_offset: u64) -> Seq<DescriptorWrite> {
    seq![
        DescriptorWrite { binding: 0, detail: WriteDetail::Image },
        DescriptorWrite { binding: 1, detail: WriteDetail::AccelerationStructure },
        DescriptorWrite { binding: 2, detail: WriteDetail::Buffer { offset: index_offset } },
        DescriptorWrite { binding: 3, detail: WriteDetail::Buffer { offset: vertex_offset } },
    ]
}

/// The descriptor writes of a scene whose sole geometry's indices start at
/// `index_offset` and positions at `vertex_offset` in the scene's buffer.
pub fn scene_writes(index_offset: u64, vertex_offset: u64) -> (r: Vec<DescriptorWrite>)
    ensures
        r@ == scene_writes_spec(index_offset, vertex_offset),
{
    let mut r: Vec<DescriptorWrite> = Vec::new();
    r.push(DescriptorWrite { binding: 0, detail: WriteDetail::Image });
    r.push(DescriptorWrite { binding: 1, detail: WriteDetail::AccelerationStructure });
    r.push(DescriptorWrite { binding: 2, detail: WriteDetail::Buffer { offset: index_offset } });
    r.push(DescriptorWrite { binding: 3, detail: WriteDetail::Buffer { offset: vertex_offset } });
    assert(r@ =~= scene_writes_spec(index_offset, vertex_offset));
    r
}

/// Whether a write of `detail` suits a binding of `descriptor_type`.
pub open spec fn detail_fits(detail: WriteDetail, descriptor_type: i32) -> bool {
    match detail {
        WriteDetail::Image => descriptor_type == DESCRIPTOR_STORAGE_IMAGE,
        WriteDetail::AccelerationStructure => descriptor_type == DESCRIPTOR_ACCELERATION_STRUCTURE,
        WriteDetail::Buffer { .. } => descriptor_type == DESCRIPTOR_STORAGE_BUFFER,
    }
}

/// Every binding of the scene tracer's set receives exactly one write, and
/// each write carries a resource of the binding's descriptor type.
pub proof fn lemma_scene_writes_match_layout(index_offset: u64, vertex_offset: u64)
    ensures
        ({
            let w = scene_writes_spec(index_offset, vertex_offset);
            let b = scene_set_bindings_spec();
            &&& w.len() == b.len()
            &&& forall|i: int| 0 <= i < w.len() ==> #[trigger] w[i].binding == b[i].binding
                && detail_fits(w[i].detail, b[i].descriptor_type)
            &&& forall|i: int, j: int| 0 <= i < j < b.len() ==> b[i].binding != b[j].binding
        }),
{
}

/// The first set of the glTF viewer's ray-tracing layout: the output image and
/// a uniform buffer, both for ray generation, one descriptor each.
pub open spec fn viewer_uniform_set_spec() -> Seq<LayoutBinding> {
    seq![
        LayoutBinding {
            binding: 0,
            descriptor_type: DESCRIPTOR_STORAGE_IMAGE,
            descriptor_count: 1,
            stage_flags: STAGE_RAYGEN,
        },
        LayoutBinding {
            binding: 1,
            descriptor_type: DESCRIPTOR_UNIFORM_BUFFER,
            descriptor_count: 1,
            stage_flags: STAGE_RAYGEN,
        },
    ]
}

/// The second set of the glTF viewer's ray-tracing layout: one acceleration
/// structure for ray generation.
pub open spec fn viewer_acceleration_set_spec() -> Seq<LayoutBinding> {
    seq![
        LayoutBinding {
            binding: 0,
            descriptor_type: DESCRIPTOR_ACCELERATION_STRUCTURE,
            descriptor_count: 1,
            stage_flags: STAGE_RAYGEN,
        },
    ]
}

/// The set layouts of the glTF viewer's ray-tracing pipeline layout, in set
/// order.
pub fn viewer_set_layouts() -> (r: Vec<Vec<LayoutBinding>>)
    ensures
        r@.len() == 2,
        r@[0]@ == viewer_uniform_set_spec(),
        r@[1]@ == viewer_acceleration_set_spec(),
{
    let mut uniform: Vec<LayoutBinding> = Vec::new();
    uniform.push(LayoutBinding {
        binding: 0,
        descriptor_type: DESCRIPTOR_STORAGE_IMAGE,
        descriptor_count: 1,
        stage_flags: STAGE_RAYGEN,
    });
    uniform.push(LayoutBinding {
        binding: 1,
        descriptor_type: DESCRIPTOR_UNIFORM_BUFFER,
        descriptor_count: 1,
        stage_flags: STAGE_RAYGEN,
    });
    let mut acceleration: Vec<LayoutBinding> = Vec::new();
    acceleration.push(LayoutBinding {
        binding: 0,
        descriptor_type: DESCRIPTOR_ACCELERATION_STRUCTURE,
        descriptor_count: 1,
        stage_flags: STAGE_RAYGEN,
    });
    assert(uniform@ =~= viewer_uniform_set_spec());
    assert(acceleration@ =~= viewer_acceleration_set_spec());
    let mut r: Vec<Vec<LayoutBinding>> = Vec::new();
    r.push(uniform);
    r.push(acceleration);
    r
}

} // verus!

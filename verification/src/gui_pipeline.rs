//! The fixed-function state of the GUI pipeline: how a GUI vertex is read,
//! the descriptor set layouts of its uniforms and textures, and how its
//! premultiplied colours are blended.

use vstd::prelude::*;
use crate::render_pass::LayoutBinding;

verus! {

/// `VK_DESCRIPTOR_TYPE_SAMPLER`.
pub const DESCRIPTOR_SAMPLER: i32 = 0i32;

/// `VK_DESCRIPTOR_TYPE_SAMPLED_IMAGE`.
pub const DESCRIPTOR_SAMPLED_IMAGE: i32 = 2i32;

/// `VK_DESCRIPTOR_TYPE_UNIFORM_BUFFER`.
pub const DESCRIPTOR_UNIFORM_BUFFER: i32 = 6i32;

/// `VK_SHADER_STAGE_VERTEX_BIT`.
pub const STAGE_VERTEX: u32 = 0x1u32;

/// `VK_SHADER_STAGE_FRAGMENT_BIT`.
pub const STAGE_FRAGMENT: u32 = 0x10u32;

/// Bytes of the GUI uniform buffer: the screen size as two 32-bit floats.
pub const GUI_UNIFORM_SIZE: usize = 8usize;

/// Bytes from one GUI vertex to the next: position and texture coordinate as
/// two 32-bit floats each, then a packed 32-bit colour.
pub const GUI_VERTEX_STRIDE: u32 = 20u32;

/// Formats of the GUI vertex attributes.
#[derive(Clone, Copy, Debug, PartialEq, Eq, Structural)]
pub enum AttributeFormat {
    /// `VK_FORMAT_R32G32_SFLOAT`.
    R32G32Sfloat,
    /// `VK_FORMAT_R32_UINT`.
    R32Uint,
}

/// Bytes an attribute of `f` takes.
pub open spec fn format_size(f: AttributeFormat) -> nat {
    match f {
        AttributeFormat::R32G32Sfloat => 8,
        AttributeFormat::R32Uint => 4,
    }
}

/// A vertex attribute read from binding 0.
#[derive(Clone, Copy, Debug, PartialEq, Eq, Structural)]
pub struct VertexAttribute {
    pub location: u32,
    pub format: AttributeFormat,
    pub offset: u32,
}

/// How the vertices of binding 0 are read, one per vertex.
pub struct VertexLayout {
    pub stride: u32,
    pub attributes: Vec<VertexAttribute>,
}

/// Whether `attrs` lie back to back from offset 0 and fill exactly `stride`
/// bytes.
pub open spec fn packed(stride: nat, attrs: Seq<VertexAttribute>) -> bool {
    &&& attrs.len() > 0
    &&& attrs[0].offset == 0
    &&& forall|i: int|
        0 <= i < attrs.len() - 1 ==> #[trigger] attrs[i + 1].offset == attrs[i].offset + format_size(
            attrs[i].format,
        )
    &&& attrs.last().offset + format_size(attrs.last().format) == stride
}

/// Whether no two attributes share a location.
pub open spec fn locations_distinct(attrs: Seq<VertexAttribute>) -> bool {
    forall|i: int, j: int|
        0 <= i < j < attrs.len() ==> #[trigger] attrs[i].location != #[trigger] attrs[j].location
}

/// The attributes of a GUI vertex with the colour read at `color_location`:
/// position at location 0, texture coordinate at location 1.
pub open spec fn gui_attributes_spec(color_location: u32) -> Seq<VertexAttribute> {
    seq![
        VertexAttribute { location: 0, format: AttributeFormat::R32G32Sfloat, offset: 0 },
        VertexAttribute { location: 1, format: AttributeFormat::R32G32Sfloat, offset: 8 },
        VertexAttribute { location: color_location, format: AttributeFormat::R32Uint, offset: 16 },
    ]
}

fn gui_layout(color_location: u32) -> (r: VertexLayout)
    ensures
        r.stride == GUI_VERTEX_STRIDE,
        r.attributes@ == gui_attributes_spec(color_location),
        packed(r.stride as nat, r.attributes@),
{
    let mut attributes: Vec<VertexAttribute> = Vec::new();
    attributes.push(VertexAttribute { location: 0, format: AttributeFormat::R32G32Sfloat, offset: 0 });
    attributes.push(VertexAttribute { location: 1, format: AttributeFormat::R32G32Sfloat, offset: 8 });
    attributes.push(VertexAttribute { location: color_location, format: AttributeFormat::R32Uint, offset: 16 });
    assert(attributes@ =~= gui_attributes_spec(color_location));
    VertexLayout { stride: GUI_VERTEX_STRIDE, attributes }
}

/// The vertex layout of the GUI pass: position, texture coordinate and colour
/// at locations 0, 1 and 2, back to back in a 20-byte vertex.
pub fn gui_vertex_layout() -> (r: VertexLayout)
    ensures
        r.stride == GUI_VERTEX_STRIDE,
        r.attributes@ == gui_attributes_spec(2),
        packed(r.stride as nat, r.attributes@),
        locations_distinct(r.attributes@),
{
    gui_layout(2)
}

/// The vertex layout of the tracer's GUI pass: the same bytes as
/// [`gui_vertex_layout`], but the colour is declared at location 0 as well,
/// where the position is.
pub fn tracer_gui_vertex_layout() -> (r: VertexLayout)
    ensures
        r.stride == GUI_VERTEX_STRIDE,
        r.attributes@ == gui_attributes_spec(0),
        packed(r.stride as nat, r.attributes@),
{
    gui_layout(0)
}

/// The GUI's uniform set: the screen-size buffer for the vertex stage and the
/// sampler for the fragment stage.
pub open spec fn gui_uniform_set_spec() -> Seq<LayoutBinding> {
    seq![
        LayoutBinding {
            binding: 0,
            descriptor_type: DESCRIPTOR_UNIFORM_BUFFER,
            descriptor_count: 1,
            stage_flags: STAGE_VERTEX,
        },
        LayoutBinding {
            binding: 1,
            descriptor_type: DESCRIPTOR_SAMPLER,
            descriptor_count: 1,
            stage_flags: STAGE_FRAGMENT,
        },
    ]
}

/// The GUI's texture set: one sampled image for the fragment stage.
pub open spec fn gui_texture_set_spec() -> Seq<LayoutBinding> {
    seq![
        LayoutBinding {
            binding: 0,
            descriptor_type: DESCRIPTOR_SAMPLED_IMAGE,
            descriptor_count: 1,
            stage_flags: STAGE_FRAGMENT,
        },
    ]
}

/// The set layouts of the GUI pipeline layout, in set order: uniforms, then
/// the texture a draw samples.
pub fn gui_set_layouts() -> (r: Vec<Vec<LayoutBinding>>)
    ensures
        r@.len() == 2,
        r@[0]@ == gui_uniform_set_spec(),
        r@[1]@ == gui_texture_set_spec(),
{
    let mut uniform: Vec<LayoutBinding> = Vec::new();
    uniform.push(LayoutBinding {
        binding: 0,
        descriptor_type: DESCRIPTOR_UNIFORM_BUFFER,
        descriptor_count: 1,
        stage_flags: STAGE_VERTEX,
    });
    uniform.push(LayoutBinding {
        binding: 1,
        descriptor_type: DESCRIPTOR_SAMPLER,
        descriptor_count: 1,
        stage_flags: STAGE_FRAGMENT,
    });
    let mut texture: Vec<LayoutBinding> = Vec::new();
    texture.push(LayoutBinding {
        binding: 0,
        descriptor_type: DESCRIPTOR_SAMPLED_IMAGE,
        descriptor_count: 1,
        stage_flags: STAGE_FRAGMENT,
    });
    assert(uniform@ =~= gui_uniform_set_spec());
    assert(texture@ =~= gui_texture_set_spec());
    let mut r: Vec<Vec<LayoutBinding>> = Vec::new();
    r.push(uniform);
    r.push(texture);
    r
}

/// Blend factors the GUI pass uses.
#[derive(Clone, Copy, Debug, PartialEq, Eq, Structural)]
pub enum BlendFactor {
    One,
    OneMinusSrcAlpha,
    OneMinusDstAlpha,
}

/// Additive blending of one colour attachment, all channels written.
#[derive(Clone, Copy, Debug, PartialEq, Eq, Structural)]
pub struct BlendState {
    pub enabled: bool,
    pub src_color: BlendFactor,
    pub dst_color: BlendFactor,
    pub src_alpha: BlendFactor,
    pub dst_alpha: BlendFactor,
}

/// The GUI's blending of premultiplied colours: colour is source plus
/// destination scaled by one minus source alpha; alpha is source scaled by one
/// minus destination alpha plus destination.
pub fn gui_blend_state() -> (r: BlendState)
    ensures
        r == (BlendState {
            enabled: true,
            src_color: BlendFactor::One,
            dst_color: BlendFactor::OneMinusSrcAlpha,
            src_alpha: BlendFactor::OneMinusDstAlpha,
            dst_alpha: BlendFactor::One,
        }),
{
    BlendState {
        enabled: true,
        src_color: BlendFactor::One,
        dst_color: BlendFactor::OneMinusSrcAlpha,
        src_alpha: BlendFactor::OneMinusDstAlpha,
        dst_alpha: BlendFactor::One,
    }
}

} // verus!

//! The colour attachments of the renderer's render passes, and the pipeline
//! objects of the full-screen quad pass.

use vstd::prelude::*;

verus! {

/// What happens to an attachment's contents when a render pass starts.
#[derive(Clone, Copy, Debug, PartialEq, Eq, Structural)]
pub enum LoadOp {
    /// Cleared to the pass's clear colour.
    Clear,
    /// Kept as they are.
    Load,
}

/// What happens to an attachment's contents when a render pass ends.
#[derive(Clone, Copy, Debug, PartialEq, Eq, Structural)]
pub enum StoreOp {
    Store,
}

/// Image layouts an image moves between while a frame is recorded.
#[derive(Clone, Copy, Debug, PartialEq, Eq, Structural)]
pub enum ImageLayout {
    /// Contents not kept; valid as the old layout of any transition.
    Undefined,
    General,
    TransferSrcOptimal,
    TransferDstOptimal,
    ColorAttachmentOptimal,
    PresentSrc,
}

/// A single-sampled colour attachment of a render pass.
#[derive(Clone, Copy, Debug, PartialEq, Eq, Structural)]
pub struct ColorAttachment {
    pub load_op: LoadOp,
    pub store_op: StoreOp,
    pub initial_layout: ImageLayout,
    pub final_layout: ImageLayout,
    /// Vulkan format value of the attachment.
    pub format: i32,
}

/// Vulkan format value of `VK_FORMAT_B8G8R8A8_SRGB`, the sRGB format the GUI
/// pass draws into.
pub const FORMAT_B8G8R8A8_SRGB: i32 = 50i32;

/// The attachment of the triangle pass: cleared when the pass has a clear
/// colour, else loaded; stored; kept in colour attachment layout.
pub fn triangle_attachment(has_clear_color: bool, format: i32) -> (r: ColorAttachment)
    ensures
        r.load_op == if has_clear_color { LoadOp::Clear } else { LoadOp::Load },
        r.store_op == StoreOp::Store,
        r.initial_layout == ImageLayout::ColorAttachmentOptimal,
        r.final_layout == ImageLayout::ColorAttachmentOptimal,
        r.format == format,
{
    let load_op = if has_clear_color { LoadOp::Clear } else { LoadOp::Load };
    ColorAttachment {
        load_op,
        store_op: StoreOp::Store,
        initial_layout: ImageLayout::ColorAttachmentOptimal,
        final_layout: ImageLayout::ColorAttachmentOptimal,
        format,
    }
}

/// The attachment of the GUI pass: an sRGB target, drawn over what is there,
/// then handed to presentation.
pub open spec fn gui_attachment_spec() -> ColorAttachment {
    ColorAttachment {
        load_op: LoadOp::Load,
        store_op: StoreOp::Store,
        initial_layout: ImageLayout::ColorAttachmentOptimal,
        final_layout: ImageLayout::PresentSrc,
        format: FORMAT_B8G8R8A8_SRGB,
    }
}

/// The attachment of the GUI pass.
pub fn gui_attachment() -> (r: ColorAttachment)
    ensures
        r == gui_attachment_spec(),
{
    ColorAttachment {
        load_op: LoadOp::Load,
        store_op: StoreOp::Store,
        initial_layout: ImageLayout::ColorAttachmentOptimal,
        final_layout: ImageLayout::PresentSrc,
        format: FORMAT_B8G8R8A8_SRGB,
    }
}

/// One binding of a descriptor set layout.
#[derive(Clone, Copy, Debug, PartialEq, Eq, Structural)]
pub struct LayoutBinding {
    pub binding: u32,
    /// Vulkan descriptor type value (0 is a sampler).
    pub descriptor_type: i32,
    pub descriptor_count: u32,
    /// Shader stage flags (0 is no stage).
    pub stage_flags: u32,
}

/// The pipeline objects of the quad pass, as the GPU side creates them.
#[derive(Debug)]
pub struct QuadPipeline {
    pub set_layout_label: String,
    pub set_layout_bindings: Vec<LayoutBinding>,
    pub pipeline_layout_label: String,
    pub pipeline_label: String,
}

/// A full-screen quad pass.
pub struct Quad {
    pipeline: QuadPipeline,
}

impl Quad {
    /// The pipeline objects the quad pass is built from.
    pub closed spec fn pipeline_spec(&self) -> QuadPipeline {
        self.pipeline
    }

    /// A quad pass: a set layout labelled "quad set layout" with one binding
    /// left at its defaults, a pipeline layout labelled "quad pipeline layout"
    /// and a pipeline labelled "quad pipeline".
    pub fn new() -> (r: Quad)
        ensures
            r.pipeline_spec().set_layout_label@ == "quad set layout"@,
            r.pipeline_spec().set_layout_bindings@ == seq![
                LayoutBinding { binding: 0, descriptor_type: 0, descriptor_count: 0, stage_flags: 0 },
            ],
            r.pipeline_spec().pipeline_layout_label@ == "quad pipeline layout"@,
            r.pipeline_spec().pipeline_label@ == "quad pipeline"@,
    {
        let mut bindings: Vec<LayoutBinding> = Vec::new();
        bindings.push(LayoutBinding { binding: 0, descriptor_type: 0, descriptor_count: 0, stage_flags: 0 });
        let r = Quad {
            pipeline: QuadPipeline {
                set_layout_label: String::from_str("quad set layout"),
                set_layout_bindings: bindings,
                pipeline_layout_label: String::from_str("quad pipeline layout"),
                pipeline_label: String::from_str("quad pipeline"),
            },
        };
        assert(r.pipeline_spec().set_layout_bindings@ =~= seq![
            LayoutBinding { binding: 0, descriptor_type: 0, descriptor_count: 0, stage_flags: 0 },
        ]);
        r
    }

    /// The pipeline objects the quad pass is built from.
    pub fn pipeline(&self) -> (r: &QuadPipeline)
        ensures
            *r == self.pipeline_spec(),
    {
        &self.pipeline
    }
}

} // verus!

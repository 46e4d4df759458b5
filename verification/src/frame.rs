//! The command sequence of a frame: the image layout transitions, the ray
//! trace, the blit of the traced image into the swapchain image and the GUI
//! pass, checked against the layouts each step needs.

use vstd::prelude::*;
use crate::render_pass::{gui_attachment_spec, ImageLayout};

verus! {

/// Width of the image the ray-tracing pipeline renders into.
pub const TRACE_WIDTH: u32 = 800u32;

/// Height of the image the ray-tracing pipeline renders into.
pub const TRACE_HEIGHT: u32 = 600u32;

/// The images a frame works on.
#[derive(Clone, Copy, Debug, PartialEq, Eq, Structural)]
pub enum FrameImage {
    /// The storage image the rays are traced into.
    TraceTarget,
    /// The acquired swapchain image that is presented.
    Swapchain,
}

/// One command of a frame.
#[derive(Clone, Copy, Debug, PartialEq, Eq, Structural)]
pub enum FrameStep {
    /// Moves `image` into `new`. `old` is the layout the barrier names, or
    /// none where the recorder supplies the layout it tracked.
    Transition { image: FrameImage, old: Option<ImageLayout>, new: ImageLayout },
    /// Traces one ray per texel of a `width` by `height` by `depth` grid.
    TraceRays { width: u32, height: u32, depth: u32 },
    /// Copies the trace target into the swapchain image.
    Blit,
    /// Draws the GUI into the swapchain image.
    Gui,
}

/// The layout each image is in.
#[derive(Clone, Copy, Debug, PartialEq, Eq, Structural)]
pub struct Layouts {
    pub trace_target: ImageLayout,
    pub swapchain: ImageLayout,
}

pub open spec fn layout_of(l: Layouts, image: FrameImage) -> ImageLayout {
    match image {
        FrameImage::TraceTarget => l.trace_target,
        FrameImage::Swapchain => l.swapchain,
    }
}

pub open spec fn with_layout(l: Layouts, image: FrameImage, new: ImageLayout) -> Layouts {
    match image {
        FrameImage::TraceTarget => Layouts { trace_target: new, ..l },
        FrameImage::Swapchain => Layouts { swapchain: new, ..l },
    }
}

/// Whether `step` may run on images in layouts `l`: a barrier's named old
/// layout is undefined or the image's layout; the trace writes a target in
/// general layout; the blit reads a transfer source and writes a transfer
/// destination; the GUI pass finds the swapchain image in its attachment's
/// initial layout.
pub open spec fn step_ok(l: Layouts, step: FrameStep) -> bool {
    match step {
        FrameStep::Transition { image, old, new } => match old {
            None => true,
            Some(o) => o == ImageLayout::Undefined || o == layout_of(l, image),
        },
        FrameStep::TraceRays { .. } => l.trace_target == ImageLayout::General,
        FrameStep::Blit => l.trace_target == ImageLayout::TransferSrcOptimal
            && l.swapchain == ImageLayout::TransferDstOptimal,
        FrameStep::Gui => l.swapchain == gui_attachment_spec().initial_layout,
    }
}

/// The layouts after `step`: a transition moves its image, the GUI pass leaves
/// the swapchain image in its attachment's final layout.
pub open spec fn step_after(l: Layouts, step: FrameStep) -> Layouts {
    match step {
        FrameStep::Transition { image, new, .. } => with_layout(l, image, new),
        FrameStep::Gui => with_layout(l, FrameImage::Swapchain, gui_attachment_spec().final_layout),
        _ => l,
    }
}

/// Whether every step of `steps` may run, starting from `l`.
pub open spec fn steps_ok(l: Layouts, steps: Seq<FrameStep>) -> bool
    decreases steps.len(),
{
    if steps.len() == 0 {
        true
    } else {
        step_ok(l, steps[0]) && steps_ok(step_after(l, steps[0]), steps.drop_first())
    }
}

/// The layouts after all of `steps`, starting from `l`.
pub open spec fn steps_after(l: Layouts, steps: Seq<FrameStep>) -> Layouts
    decreases steps.len(),
{
    if steps.len() == 0 {
        l
    } else {
        steps_after(step_after(l, steps[0]), steps.drop_first())
    }
}

/// A ray-traced frame: the trace target goes to general layout, is traced
/// into, goes to transfer source; the swapchain image goes to transfer
/// destination; the target is blitted into it; the swapchain image goes to
/// colour attachment layout and the GUI is drawn over it.
pub open spec fn ray_traced_frame_spec() -> Seq<FrameStep> {
    seq![
        FrameStep::Transition {
            image: FrameImage::TraceTarget,
            old: Some(ImageLayout::Undefined),
            new: ImageLayout::General,
        },
        FrameStep::TraceRays { width: TRACE_WIDTH, height: TRACE_HEIGHT, depth: 1 },
        FrameStep::Transition {
            image: FrameImage::TraceTarget,
            old: Some(ImageLayout::General),
            new: ImageLayout::TransferSrcOptimal,
        },
        FrameStep::Transition {
            image: FrameImage::Swapchain,
            old: Some(ImageLayout::Undefined),
            new: ImageLayout::TransferDstOptimal,
        },
        FrameStep::Blit,
        FrameStep::Transition {
            image: FrameImage::Swapchain,
            old: None,
            new: ImageLayout::ColorAttachmentOptimal,
        },
        FrameStep::Gui,
    ]
}

/// A frame that only draws the GUI: the swapchain image goes to colour
/// attachment layout and the GUI is drawn over it.
pub open spec fn gui_frame_spec() -> Seq<FrameStep> {
    seq![
        FrameStep::Transition {
            image: FrameImage::Swapchain,
            old: None,
            new: ImageLayout::ColorAttachmentOptimal,
        },
        FrameStep::Gui,
    ]
}

/// The commands of a ray-traced frame.
pub fn ray_traced_frame() -> (r: Vec<FrameStep>)
    ensures
        r@ == ray_traced_frame_spec(),
{
    let mut r: Vec<FrameStep> = Vec::new();
    r.push(FrameStep::Transition {
        image: FrameImage::TraceTarget,
        old: Some(ImageLayout::Undefined),
        new: ImageLayout::General,
    });
    r.push(FrameStep::TraceRays { width: TRACE_WIDTH, height: TRACE_HEIGHT, depth: 1 });
    r.push(FrameStep::Transition {
        image: FrameImage::TraceTarget,
        old: Some(ImageLayout::General),
        new: ImageLayout::TransferSrcOptimal,
    });
    r.push(FrameStep::Transition {
        image: FrameImage::Swapchain,
        old: Some(ImageLayout::Undefined),
        new: ImageLayout::TransferDstOptimal,
    });
    r.push(FrameStep::Blit);
    r.push(FrameStep::Transition {
        image: FrameImage::Swapchain,
        old: None,
        new: ImageLayout::ColorAttachmentOptimal,
    });
    r.push(FrameStep::Gui);
    assert(r@ =~= ray_traced_frame_spec());
    r
}

/// The commands of a frame that only draws the GUI.
pub fn gui_frame() -> (r: Vec<FrameStep>)
    ensures
        r@ == gui_frame_spec(),
{
    let mut r: Vec<FrameStep> = Vec::new();
    r.push(FrameStep::Transition {
        image: FrameImage::Swapchain,
        old: None,
        new: ImageLayout::ColorAttachmentOptimal,
    });
    r.push(FrameStep::Gui);
    assert(r@ =~= gui_frame_spec());
    r
}

/// Whatever layouts the images start in, every command of a ray-traced frame
/// finds its images in the layouts it needs, and the frame hands the
/// swapchain image to presentation in present layout.
pub proof fn lemma_ray_traced_frame_valid(start: Layouts)
    ensures
        steps_ok(start, ray_traced_frame_spec()),
        steps_after(start, ray_traced_frame_spec()).swapchain == ImageLayout::PresentSrc,
{
    let s = ray_traced_frame_spec();
    reveal_with_fuel(steps_ok, 8);
    reveal_with_fuel(steps_after, 8);
    assert(s.drop_first() =~= s.subrange(1, 7));
    assert(s.drop_first().drop_first() =~= s.subrange(2, 7));
    assert(s.subrange(2, 7).drop_first() =~= s.subrange(3, 7));
    assert(s.subrange(3, 7).drop_first() =~= s.subrange(4, 7));
    assert(s.subrange(4, 7).drop_first() =~= s.subrange(5, 7));
    assert(s.subrange(5, 7).drop_first() =~= s.subrange(6, 7));
    assert(s.subrange(6, 7).drop_first() =~= Seq::<FrameStep>::empty());
}

/// Whatever layout the swapchain image starts in, a GUI-only frame is valid
/// and leaves the image in present layout.
pub proof fn lemma_gui_frame_valid(start: Layouts)
    ensures
        steps_ok(start, gui_frame_spec()),
        steps_after(start, gui_frame_spec()).swapchain == ImageLayout::PresentSrc,
{
    let s = gui_frame_spec();
    reveal_with_fuel(steps_ok, 3);
    reveal_with_fuel(steps_after, 3);
    assert(s.drop_first() =~= s.subrange(1, 2));
    assert(s.subrange(1, 2).drop_first() =~= Seq::<FrameStep>::empty());
}

/// A corner of an image region.
#[derive(Clone, Copy, Debug, PartialEq, Eq, Structural)]
pub struct Offset3 {
    pub x: i32,
    pub y: i32,
    pub z: i32,
}

/// The source and destination boxes of a blit.
#[derive(Clone, Copy, Debug, PartialEq, Eq, Structural)]
pub struct BlitRegion {
    pub src_min: Offset3,
    pub src_max: Offset3,
    pub dst_min: Offset3,
    pub dst_max: Offset3,
}

/// A blit of the whole source image onto the whole destination image, one
/// layer deep; each size is taken as an `i32`.
pub fn blit_region(src_width: u32, src_height: u32, dst_width: u32, dst_height: u32) -> (r:
    BlitRegion)
    ensures
        r.src_min == (Offset3 { x: 0, y: 0, z: 0 }),
        r.src_max == (Offset3 { x: src_width as i32, y: src_height as i32, z: 1 }),
        r.dst_min == (Offset3 { x: 0, y: 0, z: 0 }),
        r.dst_max == (Offset3 { x: dst_width as i32, y: dst_height as i32, z: 1 }),
{
    BlitRegion {
        src_min: Offset3 { x: 0, y: 0, z: 0 },
        src_max: Offset3 { x: src_width as i32, y: src_height as i32, z: 1 },
        dst_min: Offset3 { x: 0, y: 0, z: 0 },
        dst_max: Offset3 { x: dst_width as i32, y: dst_height as i32, z: 1 },
    }
}

} // verus!

use vk_renderer::descriptors::{
    scene_set_bindings, scene_writes, viewer_set_layouts, WriteDetail, DESCRIPTOR_ACCELERATION_STRUCTURE,
    DESCRIPTOR_STORAGE_BUFFER, DESCRIPTOR_STORAGE_IMAGE, STAGE_CLOSEST_HIT, STAGE_RAYGEN,
};
use vk_renderer::frame::{blit_region, gui_frame, ray_traced_frame, FrameImage, FrameStep, Offset3};
use vk_renderer::gui_pipeline::{
    gui_blend_state, gui_set_layouts, gui_vertex_layout, tracer_gui_vertex_layout, AttributeFormat,
    BlendFactor, DESCRIPTOR_SAMPLED_IMAGE, DESCRIPTOR_SAMPLER, DESCRIPTOR_UNIFORM_BUFFER, STAGE_FRAGMENT,
    STAGE_VERTEX,
};
use vk_renderer::render_pass::{gui_attachment, ImageLayout};

#[test]
fn ray_traced_frame_keeps_layouts_consistent() {
    let steps = ray_traced_frame();
    assert_eq!(steps.len(), 7);
    assert_eq!(steps[1], FrameStep::TraceRays { width: 800, height: 600, depth: 1 });
    assert_eq!(steps[4], FrameStep::Blit);
    assert_eq!(steps[6], FrameStep::Gui);
    // Replay the layouts from arbitrary starting layouts.
    let mut trace = ImageLayout::PresentSrc;
    let mut swap = ImageLayout::General;
    for s in &steps {
        match *s {
            FrameStep::Transition { image, old, new } => {
                let cur = if image == FrameImage::TraceTarget { trace } else { swap };
                if let Some(o) = old {
                    assert!(o == ImageLayout::Undefined || o == cur);
                }
                if image == FrameImage::TraceTarget {
                    trace = new;
                } else {
                    swap = new;
                }
            }
            FrameStep::TraceRays { .. } => assert_eq!(trace, ImageLayout::General),
            FrameStep::Blit => {
                assert_eq!(trace, ImageLayout::TransferSrcOptimal);
                assert_eq!(swap, ImageLayout::TransferDstOptimal);
            }
            FrameStep::Gui => {
                assert_eq!(swap, gui_attachment().initial_layout);
                swap = gui_attachment().final_layout;
            }
        }
    }
    assert_eq!(swap, ImageLayout::PresentSrc);
}

#[test]
fn gui_frame_is_transition_then_gui() {
    let steps = gui_frame();
    assert_eq!(
        steps,
        vec![
            FrameStep::Transition {
                image: FrameImage::Swapchain,
                old: None,
                new: ImageLayout::ColorAttachmentOptimal
            },
            FrameStep::Gui
        ]
    );
}

#[test]
fn blit_covers_both_images() {
    let r = blit_region(800, 600, 1024, 768);
    assert_eq!(r.src_min, Offset3 { x: 0, y: 0, z: 0 });
    assert_eq!(r.src_max, Offset3 { x: 800, y: 600, z: 1 });
    assert_eq!(r.dst_min, Offset3 { x: 0, y: 0, z: 0 });
    assert_eq!(r.dst_max, Offset3 { x: 1024, y: 768, z: 1 });
}

#[test]
fn scene_writes_fill_every_binding() {
    let b = scene_set_bindings();
    let w = scene_writes(48, 96);
    assert_eq!(b.len(), 4);
    assert_eq!(w.len(), 4);
    assert_eq!(b[0].descriptor_type, DESCRIPTOR_STORAGE_IMAGE);
    assert_eq!(b[1].descriptor_type, DESCRIPTOR_ACCELERATION_STRUCTURE);
    assert_eq!(b[2].descriptor_type, DESCRIPTOR_STORAGE_BUFFER);
    assert_eq!(b[0].stage_flags, STAGE_RAYGEN);
    assert_eq!(b[3].stage_flags, STAGE_CLOSEST_HIT);
    for i in 0..4 {
        assert_eq!(w[i].binding, b[i].binding);
    }
    assert_eq!(w[0].detail, WriteDetail::Image);
    assert_eq!(w[1].detail, WriteDetail::AccelerationStructure);
    assert_eq!(w[2].detail, WriteDetail::Buffer { offset: 48 });
    assert_eq!(w[3].detail, WriteDetail::Buffer { offset: 96 });
}

#[test]
fn viewer_sets_split_uniforms_and_acceleration_structure() {
    let sets = viewer_set_layouts();
    assert_eq!(sets.len(), 2);
    assert_eq!(sets[0].len(), 2);
    assert_eq!(sets[1].len(), 1);
    assert_eq!(sets[1][0].descriptor_type, DESCRIPTOR_ACCELERATION_STRUCTURE);
    assert_eq!(sets[0][1].descriptor_count, 1);
}

#[test]
fn gui_vertex_is_twenty_packed_bytes() {
    let l = gui_vertex_layout();
    assert_eq!(l.stride, 20);
    let offsets: Vec<u32> = l.attributes.iter().map(|a| a.offset).collect();
    assert_eq!(offsets, vec![0, 8, 16]);
    let locations: Vec<u32> = l.attributes.iter().map(|a| a.location).collect();
    assert_eq!(locations, vec![0, 1, 2]);
    assert_eq!(l.attributes[2].format, AttributeFormat::R32Uint);
}

#[test]
fn tracer_gui_vertex_reuses_location_zero() {
    let l = tracer_gui_vertex_layout();
    let locations: Vec<u32> = l.attributes.iter().map(|a| a.location).collect();
    assert_eq!(locations, vec![0, 1, 0]);
    assert_eq!(l.stride, 20);
}

#[test]
fn gui_sets_and_blending() {
    let sets = gui_set_layouts();
    assert_eq!(sets[0][0].descriptor_type, DESCRIPTOR_UNIFORM_BUFFER);
    assert_eq!(sets[0][0].stage_flags, STAGE_VERTEX);
    assert_eq!(sets[0][1].descriptor_type, DESCRIPTOR_SAMPLER);
    assert_eq!(sets[1][0].descriptor_type, DESCRIPTOR_SAMPLED_IMAGE);
    assert_eq!(sets[1][0].stage_flags, STAGE_FRAGMENT);
    let b = gui_blend_state();
    assert!(b.enabled);
    assert_eq!(b.src_color, BlendFactor::One);
    assert_eq!(b.dst_color, BlendFactor::OneMinusSrcAlpha);
    assert_eq!(b.src_alpha, BlendFactor::OneMinusDstAlpha);
    assert_eq!(b.dst_alpha, BlendFactor::One);
}

#[test]
fn spirv_bytes_become_words() {
    let spv: Vec<u8> = vec![0x03, 0x02, 0x23, 0x07, 0x00, 0x00, 0x01, 0x00];
    let words = vk_renderer::shader::spirv_words(&spv);
    assert_eq!(words.len(), 2);
    assert_eq!(words[0], u32::from_ne_bytes([0x03, 0x02, 0x23, 0x07]));
    assert_eq!(words[1], u32::from_ne_bytes([0x00, 0x00, 0x01, 0x00]));
    let le = words[0] == 0x0723_0203 && words[1] == 0x0001_0000;
    let be = words[0] == 0x0302_2307 && words[1] == 0x0000_0100;
    assert!(le || be);
}

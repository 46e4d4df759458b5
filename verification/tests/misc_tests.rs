use vk_renderer::event_loop::{loop_action, LoopAction, LoopEvent, WindowEventKind};
use vk_renderer::camera::{direction_axis, handle_input, Axis, CameraAction, CameraInput, Direction, ElementState, Key, MouseButton};
use vk_renderer::log_ring::{new_log_ring, record_log_line, LOG_RING_CAPACITY};
use vk_renderer::model::{
    model_check, model_geometries, model_input, model_triangle_count, tracer_geometry, BufferSource, IndexData,
    ModelError, TracerGeometry,
};
use vk_renderer::geometry::{AccessorInfo, DataType, Dimensions, IndexType, MeshInfo, PrimitiveError, PrimitiveInfo, VertexFormat, ViewInfo};
use vk_renderer::render_pass::{gui_attachment, triangle_attachment, ImageLayout, LoadOp, Quad, StoreOp, LayoutBinding};
use vk_renderer::sbt::{sbt_regions, SbtRegion};

#[test]
fn camera_turns_only_while_right_button_held() {
    let mut pressed = false;
    assert_eq!(handle_input(&mut pressed, CameraInput::MouseMotion), CameraAction::Nothing);
    assert_eq!(handle_input(&mut pressed, CameraInput::MouseButton(MouseButton::Right, ElementState::Pressed)), CameraAction::Nothing);
    assert!(pressed);
    assert_eq!(handle_input(&mut pressed, CameraInput::MouseMotion), CameraAction::Rotate);
    handle_input(&mut pressed, CameraInput::MouseButton(MouseButton::Left, ElementState::Released));
    assert!(pressed);
    handle_input(&mut pressed, CameraInput::MouseButton(MouseButton::Right, ElementState::Released));
    assert!(!pressed);
    assert_eq!(handle_input(&mut pressed, CameraInput::MouseMotion), CameraAction::Nothing);
}

#[test]
fn camera_keys() {
    let mut pressed = false;
    let mv = |k| {
        let mut p = false;
        handle_input(&mut p, CameraInput::Key(ElementState::Pressed, Some(k)))
    };
    assert_eq!(mv(Key::W), CameraAction::Move(Direction::Forward));
    assert_eq!(mv(Key::S), CameraAction::Move(Direction::Backward));
    assert_eq!(mv(Key::A), CameraAction::Move(Direction::Left));
    assert_eq!(mv(Key::D), CameraAction::Move(Direction::Right));
    assert_eq!(mv(Key::Q), CameraAction::Move(Direction::Down));
    assert_eq!(mv(Key::E), CameraAction::Move(Direction::Up));
    assert_eq!(mv(Key::Other), CameraAction::Nothing);
    assert_eq!(handle_input(&mut pressed, CameraInput::Key(ElementState::Released, Some(Key::W))), CameraAction::Nothing);
    assert_eq!(handle_input(&mut pressed, CameraInput::Key(ElementState::Pressed, None)), CameraAction::Nothing);
    assert_eq!(direction_axis(Direction::Forward), (Axis::Front, 1));
    assert_eq!(direction_axis(Direction::Backward), (Axis::Front, -1));
    assert_eq!(direction_axis(Direction::Left), (Axis::Right, -1));
    assert_eq!(direction_axis(Direction::Right), (Axis::Right, 1));
    assert_eq!(direction_axis(Direction::Up), (Axis::WorldUp, 1));
    assert_eq!(direction_axis(Direction::Down), (Axis::WorldUp, -1));
}

#[test]
fn log_ring_keeps_latest_lines() {
    let mut q = new_log_ring();
    assert_eq!(q.capacity(), LOG_RING_CAPACITY);
    assert_eq!(LOG_RING_CAPACITY, 50);
    for i in 0..60 {
        record_log_line(&mut q, format!("line {}", i));
    }
    assert_eq!(q.len(), 50);
    assert_eq!(q.pop().unwrap(), "line 10");
    let mut last = String::new();
    while let Some(l) = q.pop() {
        last = l;
    }
    assert_eq!(last, "line 59");
}

#[test]
fn log_ring_below_capacity_appends() {
    let mut q = new_log_ring();
    record_log_line(&mut q, "a".to_string());
    record_log_line(&mut q, "b".to_string());
    assert_eq!(q.len(), 2);
    assert_eq!(q.pop().unwrap(), "a");
}

fn acc(t: DataType, d: Dimensions, count: usize, buffer: usize) -> AccessorInfo {
    AccessorInfo { data_type: t, dimensions: d, offset: 0, count, view: Some(ViewInfo { offset: 16, buffer }) }
}

#[test]
fn tracer_geometry_with_and_without_indices() {
    let indexed = PrimitiveInfo {
        indices: Some(acc(DataType::U32, Dimensions::Scalar, 9, 0)),
        positions: Some(acc(DataType::F32, Dimensions::Vec3, 4, 0)),
    };
    assert_eq!(
        tracer_geometry(&indexed, &vec![0x100]),
        TracerGeometry {
            index: Some(IndexData { index_type: IndexType::Uint32, address: 0x110 }),
            vertex_address: 0x110,
            vertex_format: VertexFormat::R32G32B32Sfloat,
            vertex_stride: 12,
        }
    );
    let unindexed = PrimitiveInfo { indices: None, positions: indexed.positions };
    assert_eq!(tracer_geometry(&unindexed, &vec![0x100]).index, None);
    let bad = PrimitiveInfo { indices: Some(acc(DataType::I16, Dimensions::Scalar, 3, 0)), positions: indexed.positions };
    let bad_meshes = vec![MeshInfo { primitives: vec![bad] }];
    assert_eq!(
        model_check(&vec![BufferSource::Bin], &bad_meshes, &vec![0x100]),
        Err(ModelError::Primitive(PrimitiveError::UnsupportedIndexType))
    );
    let meshes = vec![MeshInfo { primitives: vec![indexed, unindexed] }, MeshInfo { primitives: vec![indexed] }];
    assert_eq!(model_geometries(&meshes, &vec![0x100]).len(), 3);
    assert_eq!(model_check(&vec![BufferSource::Bin], &meshes, &vec![0x100]), Err(ModelError::UnindexedPrimitive));
}

#[test]
fn tracer_triangle_count_keeps_last() {
    let p = |n| PrimitiveInfo {
        indices: Some(acc(DataType::U16, Dimensions::Scalar, n, 0)),
        positions: Some(acc(DataType::F32, Dimensions::Vec3, 3, 0)),
    };
    let meshes = vec![MeshInfo { primitives: vec![p(30), p(9)] }, MeshInfo { primitives: vec![p(12), p(7)] }];
    assert_eq!(model_triangle_count(&meshes), 2);
    let meshes2 = vec![MeshInfo { primitives: vec![p(30)] }, MeshInfo { primitives: vec![] }];
    assert_eq!(model_triangle_count(&meshes2), 0);
    assert_eq!(model_triangle_count(&vec![]), 0);
    let sources = vec![BufferSource::Bin];
    assert_eq!(model_check(&sources, &meshes, &vec![0x100]), Ok(()));
    let (geometries, count) = model_input(&sources, &meshes, &vec![0x100]);
    assert_eq!(geometries.len(), 4);
    assert_eq!(count, 2);
}

#[test]
fn embedded_buffers_only() {
    let meshes: Vec<MeshInfo> = vec![];
    assert_eq!(
        model_check(&vec![BufferSource::Bin, BufferSource::Uri, BufferSource::Uri], &meshes, &vec![]),
        Err(ModelError::ExternalBuffer)
    );
    assert_eq!(model_check(&vec![BufferSource::Bin], &meshes, &vec![]), Ok(()));
}

#[test]
fn attachments_and_quad() {
    let a = triangle_attachment(true, 37);
    assert_eq!(a.load_op, LoadOp::Clear);
    assert_eq!(a.store_op, StoreOp::Store);
    assert_eq!(a.initial_layout, ImageLayout::ColorAttachmentOptimal);
    assert_eq!(a.format, 37);
    assert_eq!(triangle_attachment(false, 37).load_op, LoadOp::Load);
    let g = gui_attachment();
    assert_eq!(g.final_layout, ImageLayout::PresentSrc);
    assert_eq!(g.format, 50);
    let q = Quad::new();
    assert_eq!(q.pipeline().set_layout_label, "quad set layout");
    assert_eq!(q.pipeline().pipeline_layout_label, "quad pipeline layout");
    assert_eq!(q.pipeline().pipeline_label, "quad pipeline");
    assert_eq!(q.pipeline().set_layout_bindings, vec![LayoutBinding { binding: 0, descriptor_type: 0, descriptor_count: 0, stage_flags: 0 }]);
}

#[test]
fn sbt_layout() {
    let r = sbt_regions(0x1000, 64);
    assert_eq!(r.ray_gen, SbtRegion { device_address: 0x1000, stride: 64, size: 64 });
    assert_eq!(r.miss, SbtRegion { device_address: 0x1040, stride: 64, size: 64 });
    assert_eq!(r.hit, SbtRegion { device_address: 0x1080, stride: 64, size: 64 });
    assert_eq!(r.callable, SbtRegion { device_address: 0x1000, stride: 64, size: 0 });
}

#[test]
fn event_loop_actions() {
    assert_eq!(loop_action(LoopEvent::Window(WindowEventKind::CloseRequested), false, false), LoopAction::Exit);
    assert_eq!(loop_action(LoopEvent::Window(WindowEventKind::EscapePressed), true, true), LoopAction::Exit);
    assert_eq!(loop_action(LoopEvent::Window(WindowEventKind::EscapePressed), false, false), LoopAction::Nothing);
    assert_eq!(
        loop_action(LoopEvent::Window(WindowEventKind::Resized { width: 1024, height: 768 }), true, true),
        LoopAction::Resize { width: 1024, height: 768 }
    );
    assert_eq!(
        loop_action(LoopEvent::Window(WindowEventKind::Resized { width: 1024, height: 768 }), false, false),
        LoopAction::Nothing
    );
    assert_eq!(loop_action(LoopEvent::MainEventsCleared, false, false), LoopAction::RequestRedraw);
    assert_eq!(loop_action(LoopEvent::RedrawRequested, false, false), LoopAction::UpdateAndRender);
    assert_eq!(loop_action(LoopEvent::Other, true, true), LoopAction::Nothing);
}

#[test]
fn log_ring_keeps_last_fifty_of_many() {
    let mut q = new_log_ring();
    for i in 0..137 {
        record_log_line(&mut q, format!("m{}", i));
    }
    let mut kept = Vec::new();
    while let Some(l) = q.pop() {
        kept.push(l);
    }
    let expected: Vec<String> = (87..137).map(|i| format!("m{}", i)).collect();
    assert_eq!(kept, expected);
}

use vk_renderer::gui_pass::{
    draw_calls, plan_uploads, scissor_rect, texel_data_layout, tracer_render_area, gui_pass_commands, BufferUpload, GuiCommand, ClipRect, DrawCall, PaintJobInfo,
    ScissorRect,
};
use vk_renderer::textures::TextureId;

fn clip(min_x: u32, min_y: u32, max_x: u32, max_y: u32) -> ClipRect {
    ClipRect { min_x, min_y, max_x, max_y }
}

#[test]
fn scissor_inside_target() {
    assert_eq!(scissor_rect(&clip(10, 20, 110, 70), 800, 600), Some(ScissorRect { x: 10, y: 20, width: 100, height: 50 }));
    assert_eq!(scissor_rect(&clip(5, 5, 5, 5), 800, 600), Some(ScissorRect { x: 5, y: 5, width: 1, height: 1 }));
    assert_eq!(scissor_rect(&clip(700, 500, 900, 700), 800, 600), Some(ScissorRect { x: 700, y: 500, width: 100, height: 100 }));
    assert_eq!(scissor_rect(&clip(800, 0, 800, 10), 800, 600), None);
    assert_eq!(scissor_rect(&clip(0, 600, 10, 600), 800, 600), None);
}

#[test]
fn draws_skip_empty_and_stop_at_buffers() {
    let jobs = vec![
        PaintJobInfo { clip: clip(0, 0, 10, 10), texture: TextureId::Egui, index_count: 6 },
        PaintJobInfo { clip: clip(800, 0, 800, 10), texture: TextureId::User(1), index_count: 3 },
        PaintJobInfo { clip: clip(1, 2, 3, 4), texture: TextureId::User(0), index_count: 9 },
        PaintJobInfo { clip: clip(0, 0, 1, 1), texture: TextureId::Egui, index_count: 12 },
    ];
    let d = draw_calls(&jobs, 3, 5, 800, 600);
    assert_eq!(
        d,
        vec![
            DrawCall { job: 0, scissor: ScissorRect { x: 0, y: 0, width: 10, height: 10 }, texture: TextureId::Egui, index_count: 6 },
            DrawCall { job: 2, scissor: ScissorRect { x: 1, y: 2, width: 2, height: 2 }, texture: TextureId::User(0), index_count: 9 },
        ]
    );
    assert_eq!(draw_calls(&jobs, 5, 5, 800, 600).len(), 3);
    assert_eq!(draw_calls(&jobs, 5, 0, 800, 600).len(), 0);
}

#[test]
fn uploads_reuse_then_create() {
    let plan = plan_uploads(&vec![100, 50], &vec![80, 50, 30]);
    assert_eq!(plan, vec![BufferUpload::Update(0), BufferUpload::Update(1), BufferUpload::Create(30)]);
    assert_eq!(plan_uploads(&vec![100, 50], &vec![80, 51]), vec![BufferUpload::Update(0), BufferUpload::Recreate(1, 51)]);
    assert_eq!(plan_uploads(&vec![], &vec![7]), vec![BufferUpload::Create(7)]);
}

#[test]
fn texel_rows_divide_data_by_height() {
    assert_eq!(texel_data_layout(4 * 16 * 8, 8), (64, 8));
    assert_eq!(texel_data_layout(10, 3), (3, 3));
}

#[test]
fn tracer_render_area_is_height_squared() {
    assert_eq!(tracer_render_area(1280, 720), (720, 720));
}

#[test]
fn gui_pass_records_each_draw_with_its_state() {
    let jobs = vec![
        PaintJobInfo { clip: clip(0, 0, 10, 10), texture: TextureId::Egui, index_count: 6 },
        PaintJobInfo { clip: clip(900, 0, 950, 10), texture: TextureId::Egui, index_count: 3 },
        PaintJobInfo { clip: clip(5, 5, 20, 30), texture: TextureId::User(2), index_count: 9 },
    ];
    let draws = draw_calls(&jobs, 3, 3, 800, 600);
    let c = gui_pass_commands(&draws);
    assert_eq!(c.len(), 5 * 2 + 4);
    assert_eq!(&c[..3], &[GuiCommand::BeginRenderPass, GuiCommand::BindPipeline, GuiCommand::BindUniformSet]);
    assert_eq!(c[3], GuiCommand::SetScissor(ScissorRect { x: 0, y: 0, width: 10, height: 10 }));
    assert_eq!(c[8], GuiCommand::SetScissor(ScissorRect { x: 5, y: 5, width: 15, height: 25 }));
    assert_eq!(c[9], GuiCommand::BindTextureSet(TextureId::User(2)));
    assert_eq!(c[10], GuiCommand::BindIndexBuffer(2));
    assert_eq!(c[11], GuiCommand::BindVertexBuffer(2));
    assert_eq!(c[12], GuiCommand::DrawIndexed(9));
    assert_eq!(c[13], GuiCommand::EndRenderPass);
}

#[test]
fn uploads_give_every_job_buffers() {
    let plan = plan_uploads(&vec![64], &vec![10, 20, 30]);
    let created = plan.iter().filter(|u| matches!(u, BufferUpload::Create(_))).count();
    assert_eq!(1 + created, 3);
    let jobs = vec![PaintJobInfo { clip: clip(0, 0, 1, 1), texture: TextureId::Egui, index_count: 3 }; 3];
    assert_eq!(draw_calls(&jobs, 1 + created, 1 + created, 10, 10).len(), 3);
}

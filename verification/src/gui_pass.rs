//! What the GUI render pass records for a frame: which paint jobs are drawn,
//! with which scissor rectangle and index count, and how the vertex and index
//! data of the jobs reach the GPU buffers.

use vstd::prelude::*;
use crate::textures::TextureId;

verus! {

/// A paint job's clip rectangle in physical pixels, after clamping to the
/// screen and rounding: `min <= max` on both axes.
#[derive(Clone, Copy, Debug, PartialEq, Eq, Structural)]
pub struct ClipRect {
    pub min_x: u32,
    pub min_y: u32,
    pub max_x: u32,
    pub max_y: u32,
}

/// A scissor rectangle in physical pixels.
#[derive(Clone, Copy, Debug, PartialEq, Eq, Structural)]
pub struct ScissorRect {
    pub x: u32,
    pub y: u32,
    pub width: u32,
    pub height: u32,
}

/// The least of two numbers.
pub open spec fn min_u32(a: u32, b: u32) -> u32 {
    if a <= b { a } else { b }
}

/// The greatest of two numbers.
pub open spec fn max_u32(a: u32, b: u32) -> u32 {
    if a >= b { a } else { b }
}

/// The rectangle a clip is drawn in: at least one pixel wide and high, moved
/// inside the target and cut off at its right and bottom edges; `None` when
/// nothing of it is left.
pub open spec fn scissor_spec(clip: ClipRect, width: u32, height: u32) -> Option<ScissorRect> {
    let x = min_u32(clip.min_x, width);
    let y = min_u32(clip.min_y, height);
    let w = min_u32(max_u32((clip.max_x - clip.min_x) as u32, 1), (width - x) as u32);
    let h = min_u32(max_u32((clip.max_y - clip.min_y) as u32, 1), (height - y) as u32);
    if w == 0 || h == 0 {
        None
    } else {
        Some(ScissorRect { x, y, width: w, height: h })
    }
}

/// A clip rectangle whose corners are in order.
pub open spec fn clip_ordered(clip: ClipRect) -> bool {
    clip.min_x <= clip.max_x && clip.min_y <= clip.max_y
}

/// Clips a paint job's rectangle to a render target of `width` by `height`
/// physical pixels; `None` means the job is skipped.
pub fn scissor_rect(clip: &ClipRect, width: u32, height: u32) -> (r: Option<ScissorRect>)
    requires
        clip_ordered(*clip),
    ensures
        r == scissor_spec(*clip, width, height),
{
    let w0 = clip.max_x - clip.min_x;
    let h0 = clip.max_y - clip.min_y;
    let w1 = if w0 >= 1 { w0 } else { 1 };
    let h1 = if h0 >= 1 { h0 } else { 1 };
    let x = if clip.min_x <= width { clip.min_x } else { width };
    let y = if clip.min_y <= height { clip.min_y } else { height };
    let w = if w1 <= width - x { w1 } else { width - x };
    let h = if h1 <= height - y { h1 } else { height - y };
    if w == 0 || h == 0 {
        None
    } else {
        Some(ScissorRect { x, y, width: w, height: h })
    }
}

/// A drawn scissor lies inside the render target and is not empty.
pub proof fn lemma_scissor_inside_target(clip: ClipRect, width: u32, height: u32)
    requires
        clip_ordered(clip),
    ensures
        scissor_spec(clip, width, height) matches Some(s) ==> s.width > 0 && s.height > 0 && s.x
            + s.width <= width && s.y + s.height <= height,
        scissor_spec(clip, width, height) is None ==> clip.min_x >= width || clip.min_y >= height,
{
}

/// What the pass reads of a paint job.
#[derive(Clone, Copy, Debug, PartialEq, Eq, Structural)]
pub struct PaintJobInfo {
    pub clip: ClipRect,
    pub texture: TextureId,
    /// Number of indices of the job's triangles.
    pub index_count: usize,
}

/// One indexed draw of the pass.
#[derive(Clone, Copy, Debug, PartialEq, Eq, Structural)]
pub struct DrawCall {
    /// Position of the job; its vertex and index buffers have the same position.
    pub job: usize,
    pub scissor: ScissorRect,
    pub texture: TextureId,
    /// The job's index count, taken as a `u32`.
    pub index_count: u32,
}

/// The draws for the first `jobs.len()` jobs: every job whose scissor leaves
/// something to draw, in order.
pub open spec fn draws_spec(jobs: Seq<PaintJobInfo>, width: u32, height: u32) -> Seq<DrawCall>
    decreases jobs.len(),
{
    if jobs.len() == 0 {
        Seq::empty()
    } else {
        let j = jobs.last();
        let rest = draws_spec(jobs.drop_last(), width, height);
        match scissor_spec(j.clip, width, height) {
            Some(s) => rest.push(
                DrawCall {
                    job: (jobs.len() - 1) as usize,
                    scissor: s,
                    texture: j.texture,
                    index_count: j.index_count as u32,
                },
            ),
            None => rest,
        }
    }
}

/// How many jobs have both a vertex and an index buffer to draw from.
pub open spec fn drawable_jobs(jobs: nat, vertex_buffers: nat, index_buffers: nat) -> nat {
    if jobs <= vertex_buffers && jobs <= index_buffers {
        jobs
    } else if vertex_buffers <= index_buffers {
        vertex_buffers
    } else {
        index_buffers
    }
}

/// The draws the pass records: jobs are taken in order as long as there is a
/// vertex and an index buffer for them, and a job whose scissor is empty is
/// skipped.
pub fn draw_calls(
    jobs: &Vec<PaintJobInfo>,
    vertex_buffers: usize,
    index_buffers: usize,
    width: u32,
    height: u32,
) -> (r: Vec<DrawCall>)
    requires
        forall|i: int|
            0 <= i < drawable_jobs(jobs@.len(), vertex_buffers as nat, index_buffers as nat) ==> clip_ordered(
                #[trigger] jobs@[i].clip,
            ),
    ensures
        r@ == draws_spec(
            jobs@.take(drawable_jobs(jobs@.len(), vertex_buffers as nat, index_buffers as nat) as int),
            width,
            height,
        ),
{
    let n0 = jobs.len();
    let n1 = if n0 <= vertex_buffers { n0 } else { vertex_buffers };
    let n = if n1 <= index_buffers { n1 } else { index_buffers };
    assert(n == drawable_jobs(jobs@.len(), vertex_buffers as nat, index_buffers as nat));
    let mut out: Vec<DrawCall> = Vec::new();
    let mut i: usize = 0;
    assert(jobs@.take(0) =~= Seq::<PaintJobInfo>::empty());
    while i < n
        invariant
            n <= jobs@.len(),
            i <= n,
            n == drawable_jobs(jobs@.len(), vertex_buffers as nat, index_buffers as nat),
            forall|k: int| 0 <= k < n ==> clip_ordered(#[trigger] jobs@[k].clip),
            out@ == draws_spec(jobs@.take(i as int), width, height),
        decreases n - i,
    {
        let job = jobs[i];
        assert(jobs@.take(i + 1).drop_last() =~= jobs@.take(i as int));
        assert(jobs@.take(i + 1).last() == jobs@[i as int]);
        match scissor_rect(&job.clip, width, height) {
            Some(s) => {
                out.push(
                    DrawCall { job: i, scissor: s, texture: job.texture, index_count: job.index_count as u32 },
                );
            },
            None => {},
        }
        i = i + 1;
    }
    out
}

/// What happens to a GPU buffer when a job's data is uploaded.
#[derive(Clone, Copy, Debug, PartialEq, Eq, Structural)]
pub enum BufferUpload {
    /// The data is copied into the existing buffer at this position.
    Update(usize),
    /// The existing buffer at this position is too small: it is replaced by a
    /// buffer of the same usage of this many bytes, holding the data.
    Recreate(usize, usize),
    /// A new buffer of this many bytes is created with the data and appended.
    Create(usize),
}

/// The upload of job `i`'s data of `len` bytes, given the sizes of the
/// existing buffers.
pub open spec fn upload_spec(i: int, len: usize, existing_sizes: Seq<usize>) -> BufferUpload {
    if i < existing_sizes.len() {
        if len <= existing_sizes[i] {
            BufferUpload::Update(i as usize)
        } else {
            BufferUpload::Recreate(i as usize, len)
        }
    } else {
        BufferUpload::Create(len)
    }
}

/// Plans the uploads of one kind of data (indices or vertices) for a frame's
/// jobs: job `i` reuses buffer `i` if the pass already has one, replacing it
/// by a large enough one when the data does not fit; a job past the existing
/// buffers gets a new buffer.
pub fn plan_uploads(existing_sizes: &Vec<usize>, data_lens: &Vec<usize>) -> (r: Vec<BufferUpload>)
    ensures
        r@.len() == data_lens@.len(),
        forall|i: int|
            0 <= i < data_lens@.len() ==> #[trigger] r@[i] == upload_spec(i, data_lens@[i], existing_sizes@),
{
    let existing = existing_sizes.len();
    let mut out: Vec<BufferUpload> = Vec::new();
    let mut i: usize = 0;
    while i < data_lens.len()
        invariant
            existing == existing_sizes@.len(),
            i <= data_lens@.len(),
            out@.len() == i,
            forall|k: int|
                0 <= k < i ==> #[trigger] out@[k] == upload_spec(k, data_lens@[k], existing_sizes@),
        decreases data_lens@.len() - i,
    {
        if i < existing {
            if data_lens[i] <= existing_sizes[i] {
                out.push(BufferUpload::Update(i));
            } else {
                out.push(BufferUpload::Recreate(i, data_lens[i]));
            }
        } else {
            out.push(BufferUpload::Create(data_lens[i]));
        }
        i = i + 1;
    }
    out
}

/// How many buffers of a kind the pass holds after the uploads for `jobs`
/// jobs, starting from `existing`: one is created for every job past the
/// existing ones.
pub open spec fn buffer_count_after(existing: nat, jobs: nat) -> nat {
    if jobs > existing { jobs } else { existing }
}

/// Uploading before drawing draws every job: once the vertex and index data
/// of a frame's jobs are uploaded, there is a vertex and an index buffer for
/// each of them, so the draws cover all jobs.
pub proof fn lemma_uploaded_jobs_all_drawn(vertex_buffers: nat, index_buffers: nat, jobs: nat)
    ensures
        drawable_jobs(
            jobs,
            buffer_count_after(vertex_buffers, jobs),
            buffer_count_after(index_buffers, jobs),
        ) == jobs,
{
}

/// A command the GUI pass records.
#[derive(Clone, Copy, Debug, PartialEq, Eq, Structural)]
pub enum GuiCommand {
    BeginRenderPass,
    BindPipeline,
    /// Binds the screen-size uniform and the sampler.
    BindUniformSet,
    SetScissor(ScissorRect),
    /// Binds the set of the texture a draw samples.
    BindTextureSet(TextureId),
    /// Binds the index buffer of this job.
    BindIndexBuffer(usize),
    /// Binds the vertex buffer of this job.
    BindVertexBuffer(usize),
    /// Draws this many indices, one instance.
    DrawIndexed(u32),
    EndRenderPass,
}

/// The commands of one draw: its scissor, its texture, its job's buffers,
/// then the draw.
pub open spec fn draw_commands(d: DrawCall) -> Seq<GuiCommand> {
    seq![
        GuiCommand::SetScissor(d.scissor),
        GuiCommand::BindTextureSet(d.texture),
        GuiCommand::BindIndexBuffer(d.job),
        GuiCommand::BindVertexBuffer(d.job),
        GuiCommand::DrawIndexed(d.index_count),
    ]
}

/// The commands of a sequence of draws, draw after draw.
pub open spec fn draws_commands(draws: Seq<DrawCall>) -> Seq<GuiCommand>
    decreases draws.len(),
{
    if draws.len() == 0 {
        Seq::empty()
    } else {
        draws_commands(draws.drop_last()) + draw_commands(draws.last())
    }
}

/// The commands of the GUI pass: begin the pass, bind the pipeline and the
/// uniform set, record each draw, end the pass.
pub open spec fn gui_pass_commands_spec(draws: Seq<DrawCall>) -> Seq<GuiCommand> {
    seq![GuiCommand::BeginRenderPass, GuiCommand::BindPipeline, GuiCommand::BindUniformSet]
        + draws_commands(draws) + seq![GuiCommand::EndRenderPass]
}

/// The commands the GUI pass records for its draws.
pub fn gui_pass_commands(draws: &Vec<DrawCall>) -> (r: Vec<GuiCommand>)
    ensures
        r@ == gui_pass_commands_spec(draws@),
{
    let mut out: Vec<GuiCommand> = Vec::new();
    out.push(GuiCommand::BeginRenderPass);
    out.push(GuiCommand::BindPipeline);
    out.push(GuiCommand::BindUniformSet);
    let ghost head = out@;
    assert(draws@.take(0) =~= Seq::<DrawCall>::empty());
    assert(out@ =~= head + draws_commands(draws@.take(0)));
    let mut i: usize = 0;
    while i < draws.len()
        invariant
            i <= draws@.len(),
            head == seq![GuiCommand::BeginRenderPass, GuiCommand::BindPipeline, GuiCommand::BindUniformSet],
            out@ == head + draws_commands(draws@.take(i as int)),
        decreases draws@.len() - i,
    {
        let d = draws[i];
        out.push(GuiCommand::SetScissor(d.scissor));
        out.push(GuiCommand::BindTextureSet(d.texture));
        out.push(GuiCommand::BindIndexBuffer(d.job));
        out.push(GuiCommand::BindVertexBuffer(d.job));
        out.push(GuiCommand::DrawIndexed(d.index_count));
        assert(draws@.take(i + 1).drop_last() =~= draws@.take(i as int));
        assert(draws@.take(i + 1).last() == d);
        i = i + 1;
        assert(out@ =~= head + draws_commands(draws@.take(i as int)));
    }
    assert(draws@.take(i as int) =~= draws@);
    out.push(GuiCommand::EndRenderPass);
    out
}

/// The commands of the first draws sit in front of the later ones: five per
/// draw, in draw order.
proof fn lemma_draws_commands_layout(draws: Seq<DrawCall>)
    ensures
        draws_commands(draws).len() == 5 * draws.len(),
        forall|i: int, k: int|
            0 <= i < draws.len() && 0 <= k < 5 ==> #[trigger] draws_commands(draws)[5 * i + k]
                == draw_commands(draws[i])[k],
    decreases draws.len(),
{
    if draws.len() > 0 {
        let rest = draws.drop_last();
        lemma_draws_commands_layout(rest);
        assert forall|i: int, k: int|
            0 <= i < draws.len() && 0 <= k < 5 implies #[trigger] draws_commands(draws)[5 * i + k]
                == draw_commands(draws[i])[k] by {
            if i < rest.len() {
                assert(rest[i] == draws[i]);
                assert(draws_commands(draws)[5 * i + k] == draws_commands(rest)[5 * i + k]);
            } else {
                assert(draws_commands(draws)[5 * i + k] == draw_commands(draws.last())[k]);
            }
        }
    }
}

/// Each draw of the GUI pass is recorded with its own state: the `i`-th draw's
/// scissor is set, then its texture and its job's index and vertex buffers
/// are bound, then its indices are drawn, after the pipeline and the uniform
/// set are bound and before the pass ends.
pub proof fn lemma_each_draw_sets_its_state(draws: Seq<DrawCall>, i: int)
    requires
        0 <= i < draws.len(),
    ensures
        ({
            let c = gui_pass_commands_spec(draws);
            &&& c.len() == 5 * draws.len() + 4
            &&& c[0] == GuiCommand::BeginRenderPass
            &&& c[1] == GuiCommand::BindPipeline
            &&& c[2] == GuiCommand::BindUniformSet
            &&& c[3 + 5 * i] == GuiCommand::SetScissor(draws[i].scissor)
            &&& c[4 + 5 * i] == GuiCommand::BindTextureSet(draws[i].texture)
            &&& c[5 + 5 * i] == GuiCommand::BindIndexBuffer(draws[i].job)
            &&& c[6 + 5 * i] == GuiCommand::BindVertexBuffer(draws[i].job)
            &&& c[7 + 5 * i] == GuiCommand::DrawIndexed(draws[i].index_count)
            &&& c[c.len() - 1] == GuiCommand::EndRenderPass
        }),
{
    lemma_draws_commands_layout(draws);
    let d = draws_commands(draws);
    let c = gui_pass_commands_spec(draws);
    assert(d[5 * i + 0] == draw_commands(draws[i])[0]);
    assert(d[5 * i + 1] == draw_commands(draws[i])[1]);
    assert(d[5 * i + 2] == draw_commands(draws[i])[2]);
    assert(d[5 * i + 3] == draw_commands(draws[i])[3]);
    assert(d[5 * i + 4] == draw_commands(draws[i])[4]);
}

/// Row layout of texel data written into an image `height` rows tall: the
/// bytes of one row (the data's length over the row count, rounded down) and
/// the rows of the image, each taken as a `u32`.
pub fn texel_data_layout(byte_len: usize, height: usize) -> (r: (u32, u32))
    requires
        height > 0,
    ensures
        r.0 == (byte_len / height) as u32,
        r.1 == height as u32,
{
    ((byte_len / height) as u32, height as u32)
}

/// The extent of the render area the tracer's GUI pass begins with: its width
/// and its height are both the target's physical height.
pub fn tracer_render_area(_physical_width: u32, physical_height: u32) -> (r: (u32, u32))
    ensures
        r == (physical_height, physical_height),
{
    (physical_height, physical_height)
}

} // verus!

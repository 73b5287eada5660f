//! Renderer for FNA3D: growable vertex and index buffers that are written
//! anew, from offset zero, for every draw list; scissor rectangles with
//! the origin at the upper left.

use vstd::prelude::*;
pub use crate::helper::ImGuiRendererError;
use std::rc::Rc;
use crate::helper::{
    projection_bounds, scissor_box, spec_projection_bounds, spec_scissor_box, DrawData,
    DrawEvent, DrawParams, DrawParamsIterator, ProjectionBounds, ScissorBox, ScissorOrigin, YAxis,
};
use crate::renderer::{
    lemma_font_id_is_never_registered, spec_lookup, spec_no_entries, spec_resolve,
    TextureResolver, FONT_TEXTURE_ID,
};

verus! {

/// Fixed number of quadliterals, used for allocating buffers
pub const N_QUADS: usize = 8192;

/// Size of a vertex in bytes
pub const VERT_SIZE: usize = 20;

/// Size of an index in bytes
pub const INDEX_SIZE: usize = 2;

/// Largest byte length of a buffer: lengths are signed 32-bit numbers to
/// the backend.
pub const MAX_BUFFER_BYTES: usize = 0x7fff_ffff;

/// GPU texture with size
#[derive(Debug, Clone, Copy, PartialEq, Eq, Structural)]
pub struct TextureData2d {
    /// Backend-native handle of the texture.
    pub raw: usize,
    pub w: u32,
    pub h: u32,
}

/// Reference counted version of [`TextureData2d`]
#[derive(Debug, Clone)]
pub struct RcTexture2d {
    pub texture: Rc<TextureData2d>,
}

impl RcTexture2d {
    /// Wraps a texture that the caller has created: its backend-native
    /// handle and its size.
    pub fn new(raw: usize, w: u32, h: u32) -> (texture: Self)
        ensures
            *texture.texture == (TextureData2d { raw, w, h }),
    {
        Self { texture: Rc::new(TextureData2d { raw, w, h }) }
    }
}

/// What the backend has to do with a buffer to take one draw list's data.
#[derive(Debug, Clone, Copy, PartialEq, Eq, Structural)]
pub struct Upload {
    /// Byte length of the buffer to allocate in place of the old one,
    /// which is released; `None` where the old one is kept.
    pub realloc: Option<usize>,
    /// Number of elements to write, from offset zero.
    pub count: usize,
}

/// Uploading `count` elements of `elem_size` bytes into a buffer of
/// `capacity` bytes. Data that fits is written into the buffer as it is.
/// Data that does not fit gets a new buffer of exactly its own size and
/// one element more, unless that is more than the backend can allocate.
pub open spec fn spec_upload(capacity: usize, elem_size: usize, count: usize) -> Result<
    Upload,
    ImGuiRendererError,
> {
    if elem_size * count <= capacity {
        Ok(Upload { realloc: None, count })
    } else if elem_size * (count + 1) <= MAX_BUFFER_BYTES {
        Ok(Upload { realloc: Some((elem_size * (count + 1)) as usize), count })
    } else {
        Err(ImGuiRendererError::BackendAllocationFailure)
    }
}

/// Capacity of a buffer once an upload has been carried out.
pub open spec fn spec_capacity_after(capacity: usize, upload: Upload) -> usize {
    match upload.realloc {
        Some(bytes) => bytes,
        None => capacity,
    }
}

/// Data larger than the buffer gets exactly one reallocation, sized to
/// hold it, and data that fits gets none. After either, the same data
/// fits, so uploading it again reallocates nothing.
pub proof fn lemma_upload_growth(capacity: usize, elem_size: usize, count: usize)
    ensures
        elem_size * count <= capacity ==> spec_upload(capacity, elem_size, count) == Ok::<
            Upload,
            ImGuiRendererError,
        >(Upload { realloc: None, count }),
        elem_size * count > capacity ==> match spec_upload(capacity, elem_size, count) {
            Ok(upload) => upload.realloc is Some && upload.realloc->0 >= elem_size * count
                && upload.realloc->0 == elem_size * (count + 1),
            Err(_) => elem_size * (count + 1) > MAX_BUFFER_BYTES,
        },
        spec_upload(capacity, elem_size, count) matches Ok(upload) ==> spec_upload(
            spec_capacity_after(capacity, upload),
            elem_size,
            count,
        ) == Ok::<Upload, ImGuiRendererError>(Upload { realloc: None, count }),
{
    assert(elem_size * (count + 1) == elem_size * count + elem_size) by (nonlinear_arith);
}

fn plan_upload(capacity: usize, elem_size: usize, count: usize) -> (plan: Result<
    Upload,
    ImGuiRendererError,
>)
    requires
        elem_size == VERT_SIZE || elem_size == INDEX_SIZE,
    ensures
        plan == spec_upload(capacity, elem_size, count),
{
    let needed: u128 = (elem_size as u128) * (count as u128);
    if needed <= capacity as u128 {
        return Ok(Upload { realloc: None, count });
    }
    let grown: u128 = needed + elem_size as u128;
    assert(grown == elem_size * (count + 1)) by (nonlinear_arith)
        requires
            grown == elem_size * count + elem_size,
    ;
    if grown <= MAX_BUFFER_BYTES as u128 {
        Ok(Upload { realloc: Some(grown as usize), count })
    } else {
        Err(ImGuiRendererError::BackendAllocationFailure)
    }
}

/// Bookkeeping for the GPU vertex buffer.
#[derive(Debug)]
pub struct GpuVertexBuffer {
    capacity_in_bytes: usize,
}

impl GpuVertexBuffer {
    /// Byte capacity of the buffer.
    pub closed spec fn capacity(&self) -> usize {
        self.capacity_in_bytes
    }

    /// A buffer for `n_vertices` vertices. The caller allocates as many
    /// bytes as `capacity_in_bytes` says.
    pub fn new(n_vertices: usize) -> (buffer: Self)
        requires
            VERT_SIZE * n_vertices <= MAX_BUFFER_BYTES,
        ensures
            buffer.capacity() == VERT_SIZE * n_vertices,
    {
        Self { capacity_in_bytes: VERT_SIZE * n_vertices }
    }

    /// Byte capacity of the buffer.
    pub fn capacity_in_bytes(&self) -> (bytes: usize)
        ensures
            bytes == self.capacity(),
    {
        self.capacity_in_bytes
    }

    /// Plans the upload of `count` vertices and, where the buffer has to
    /// grow, takes the new capacity over. On an error nothing changes.
    pub fn upload_vertices(&mut self, count: usize) -> (plan: Result<Upload, ImGuiRendererError>)
        ensures
            plan == spec_upload(old(self).capacity(), VERT_SIZE, count),
            final(self).capacity() == (match plan {
                Ok(upload) => spec_capacity_after(old(self).capacity(), upload),
                Err(_) => old(self).capacity(),
            }),
    {
        let plan = plan_upload(self.capacity_in_bytes, VERT_SIZE, count);
        if let Ok(upload) = plan {
            if let Some(bytes) = upload.realloc {
                self.capacity_in_bytes = bytes;
            }
        }
        plan
    }
}

/// Bookkeeping for the GPU index buffer.
#[derive(Debug)]
pub struct GpuIndexBuffer {
    capacity_in_bytes: usize,
}

impl GpuIndexBuffer {
    /// Byte capacity of the buffer.
    pub closed spec fn capacity(&self) -> usize {
        self.capacity_in_bytes
    }

    /// A buffer for `n_indices` 16-bit indices. The caller allocates as
    /// many bytes as `capacity_in_bytes` says.
    pub fn new(n_indices: usize) -> (buffer: Self)
        requires
            INDEX_SIZE * n_indices <= MAX_BUFFER_BYTES,
        ensures
            buffer.capacity() == INDEX_SIZE * n_indices,
    {
        Self { capacity_in_bytes: INDEX_SIZE * n_indices }
    }

    /// Byte capacity of the buffer.
    pub fn capacity_in_bytes(&self) -> (bytes: usize)
        ensures
            bytes == self.capacity(),
    {
        self.capacity_in_bytes
    }

    /// Plans the upload of `count` indices and, where the buffer has to
    /// grow, takes the new capacity over. On an error nothing changes.
    pub fn upload_indices(&mut self, count: usize) -> (plan: Result<Upload, ImGuiRendererError>)
        ensures
            plan == spec_upload(old(self).capacity(), INDEX_SIZE, count),
            final(self).capacity() == (match plan {
                Ok(upload) => spec_capacity_after(old(self).capacity(), upload),
                Err(_) => old(self).capacity(),
            }),
    {
        let plan = plan_upload(self.capacity_in_bytes, INDEX_SIZE, count);
        if let Ok(upload) = plan {
            if let Some(bytes) = upload.realloc {
                self.capacity_in_bytes = bytes;
            }
        }
        plan
    }
}

/// Buffer of GPU buffers
#[derive(Debug)]
pub struct Batch {
    ibuf: GpuIndexBuffer,
    vbuf: GpuVertexBuffer,
}

impl Batch {
    /// Byte capacity of the vertex buffer.
    pub closed spec fn vertex_capacity(&self) -> usize {
        self.vbuf.capacity()
    }

    /// Byte capacity of the index buffer.
    pub closed spec fn index_capacity(&self) -> usize {
        self.ibuf.capacity()
    }

    /// Buffers for [`N_QUADS`] quadliterals.
    pub fn new() -> (batch: Self)
        ensures
            batch.vertex_capacity() == VERT_SIZE * (4 * N_QUADS),
            batch.index_capacity() == INDEX_SIZE * (6 * N_QUADS),
    {
        let vbuf = GpuVertexBuffer::new(4 * N_QUADS);  // four vertices per quad
        let ibuf = GpuIndexBuffer::new(6 * N_QUADS);  // six indices per quad
        Self { ibuf, vbuf }
    }

    /// Byte capacity of the vertex buffer.
    pub fn vertex_capacity_in_bytes(&self) -> (bytes: usize)
        ensures
            bytes == self.vertex_capacity(),
    {
        self.vbuf.capacity_in_bytes()
    }

    /// Byte capacity of the index buffer.
    pub fn index_capacity_in_bytes(&self) -> (bytes: usize)
        ensures
            bytes == self.index_capacity(),
    {
        self.ibuf.capacity_in_bytes()
    }

    /// Plans the upload of one draw list: its vertices, then its indices.
    /// Where either does not fit in any buffer, neither buffer changes.
    pub fn set_buffers(&mut self, n_vertices: usize, n_indices: usize) -> (plan: Result<
        (Upload, Upload),
        ImGuiRendererError,
    >)
        ensures
            plan == spec_set_buffers(
                old(self).vertex_capacity(),
                old(self).index_capacity(),
                n_vertices,
                n_indices,
            ),
            final(self).vertex_capacity() == (match plan {
                Ok(uploads) => spec_capacity_after(old(self).vertex_capacity(), uploads.0),
                Err(_) => old(self).vertex_capacity(),
            }),
            final(self).index_capacity() == (match plan {
                Ok(uploads) => spec_capacity_after(old(self).index_capacity(), uploads.1),
                Err(_) => old(self).index_capacity(),
            }),
    {
        let kept: usize = self.vbuf.capacity_in_bytes();
        let vertices = match self.vbuf.upload_vertices(n_vertices) {
            Ok(upload) => upload,
            Err(e) => {
                return Err(e);
            },
        };
        match self.ibuf.upload_indices(n_indices) {
            Ok(indices) => Ok((vertices, indices)),
            Err(e) => {
                self.vbuf = GpuVertexBuffer { capacity_in_bytes: kept };
                Err(e)
            },
        }
    }
}

/// The uploads of one draw list's vertices and indices, in that order.
pub open spec fn spec_set_buffers(
    vertex_capacity: usize,
    index_capacity: usize,
    n_vertices: usize,
    n_indices: usize,
) -> Result<(Upload, Upload), ImGuiRendererError> {
    match spec_upload(vertex_capacity, VERT_SIZE, n_vertices) {
        Ok(vertices) => match spec_upload(index_capacity, INDEX_SIZE, n_indices) {
            Ok(indices) => Ok((vertices, indices)),
            Err(e) => Err(e),
        },
        Err(e) => Err(e),
    }
}

/// What the first command of a draw list asks for ahead of its draw: the
/// list's geometry in the buffers and the projection of the display, of
/// which the backend makes its own matrix.
#[derive(Debug, Clone, Copy, PartialEq, Eq)]
pub struct ListBinding {
    /// The draw list whose geometry is uploaded.
    pub list: usize,
    pub vertices: Upload,
    pub indices: Upload,
    /// Planes of the projection, in the units of the display rectangle.
    pub projection: ProjectionBounds,
    /// How many of those units make one unit of the vertices' positions.
    pub unit: u32,
}

/// One indexed draw of a triangle list with 16-bit indices.
#[derive(Debug, Clone, Copy, PartialEq, Eq, Structural)]
pub struct IndexedDraw {
    /// Backend-native handle of the texture to bind.
    pub texture: usize,
    /// Offset into the vertex buffer that the indices count from.
    pub base_vertex: usize,
    pub n_vertices: usize,
    /// First index to draw.
    pub start_index: usize,
    pub n_triangles: usize,
    /// Size of an index in bytes: indices are 16 bits wide.
    pub index_size: usize,
}

/// Everything the backend does for one draw command, in this order:
/// bind the list, set the scissor rectangle, bind the texture and draw.
#[derive(Debug, Clone, Copy, PartialEq, Eq)]
pub struct DrawCall {
    /// Present on the first command of a draw list only.
    pub binding: Option<ListBinding>,
    pub scissor: ScissorBox,
    /// The draw itself, or why there is none. What stands above has been
    /// done by then.
    pub draw: Result<IndexedDraw, ImGuiRendererError>,
}

/// The binding that a draw command asks for: one where its index offset
/// is zero, which marks the first command of a list, and none elsewhere.
/// The projection is that of the display onto a screen whose y axis goes
/// down.
pub open spec fn spec_binding(vertex_capacity: usize, index_capacity: usize, params: DrawParams) -> Result<
    Option<ListBinding>,
    ImGuiRendererError,
> {
    if params.idx_offset == 0 {
        match spec_set_buffers(
            vertex_capacity,
            index_capacity,
            params.vtx_buffer.len,
            params.idx_buffer.len,
        ) {
            Ok(uploads) => Ok(
                Some(
                    ListBinding {
                        list: params.vtx_buffer.list,
                        vertices: uploads.0,
                        indices: uploads.1,
                        projection: spec_projection_bounds(params.display, YAxis::Down),
                        unit: params.unit,
                    },
                ),
            ),
            Err(e) => Err(e),
        }
    } else {
        Ok(None)
    }
}

/// The draw of a command for which the texture `texture` was found: four
/// vertices and two triangles for every six indices.
pub open spec fn spec_indexed_draw(texture: usize, params: DrawParams) -> IndexedDraw {
    IndexedDraw {
        texture,
        base_vertex: params.vtx_offset,
        n_vertices: (params.n_elems * 2 / 3) as usize,
        start_index: params.idx_offset,
        n_triangles: (params.n_elems / 3) as usize,
        index_size: INDEX_SIZE,
    }
}

/// The draw call of a command: its binding, its scissor box with the
/// origin at the upper left, and its draw or the error of its texture id.
/// There is no draw call at all where the geometry cannot be allocated.
pub open spec fn spec_draw_call(
    font: usize,
    registered: Map<usize, usize>,
    vertex_capacity: usize,
    index_capacity: usize,
    params: DrawParams,
) -> Result<DrawCall, ImGuiRendererError> {
    match spec_binding(vertex_capacity, index_capacity, params) {
        Ok(binding) => Ok(
            DrawCall {
                binding,
                scissor: spec_scissor_box(
                    params.scissor,
                    params.fb_height,
                    ScissorOrigin::TopLeft,
                ),
                draw: match spec_resolve(font, registered, params.tex_id) {
                    Ok(texture) => Ok(spec_indexed_draw(texture, params)),
                    Err(e) => Err(e),
                },
            },
        ),
        Err(e) => Err(e),
    }
}

/// Buffers are uploaded and the projection is set with the first command
/// of a draw list, the one whose index offset is zero, and with no other.
pub proof fn lemma_binds_at_index_offset_zero(
    font: usize,
    registered: Map<usize, usize>,
    vertex_capacity: usize,
    index_capacity: usize,
    params: DrawParams,
)
    ensures
        spec_draw_call(font, registered, vertex_capacity, index_capacity, params) matches Ok(call)
            ==> (call.binding is Some <==> params.idx_offset == 0),
{
}

/// Capacity of the vertex buffer after a draw call that may have bound a
/// list.
pub open spec fn spec_vertices_bound(capacity: usize, binding: Option<ListBinding>) -> usize {
    match binding {
        Some(binding) => spec_capacity_after(capacity, binding.vertices),
        None => capacity,
    }
}

/// Capacity of the index buffer after a draw call that may have bound a
/// list.
pub open spec fn spec_indices_bound(capacity: usize, binding: Option<ListBinding>) -> usize {
    match binding {
        Some(binding) => spec_capacity_after(capacity, binding.indices),
        None => capacity,
    }
}

/// One step of a rendered frame of this backend.
pub type RenderOp = crate::renderer::RenderOp<DrawCall>;

/// A frame compiled for this backend.
pub type RenderPlan = crate::renderer::RenderPlan<DrawCall>;

/// A rendered frame as a value: steps, error and buffer capacities after.
pub struct Rendered {
    pub ops: Seq<RenderOp>,
    pub error: Option<ImGuiRendererError>,
    pub vertex_capacity: usize,
    pub index_capacity: usize,
}

/// Renders events in order, starting with the given buffer capacities.
/// Every event becomes one step. The first error ends the frame: an
/// allocation failure before the draw call that met it, a bad texture id
/// after the draw call that holds it.
pub open spec fn spec_render(
    font: usize,
    registered: Map<usize, usize>,
    vertex_capacity: usize,
    index_capacity: usize,
    events: Seq<DrawEvent>,
) -> Rendered
    decreases events.len(),
{
    if events.len() == 0 {
        Rendered { ops: Seq::empty(), error: None, vertex_capacity, index_capacity }
    } else {
        match events[0] {
            DrawEvent::Draw(params) => match spec_draw_call(
                font,
                registered,
                vertex_capacity,
                index_capacity,
                params,
            ) {
                Err(e) => Rendered {
                    ops: Seq::empty(),
                    error: Some(e),
                    vertex_capacity,
                    index_capacity,
                },
                Ok(call) => {
                    let vertices = spec_vertices_bound(vertex_capacity, call.binding);
                    let indices = spec_indices_bound(index_capacity, call.binding);
                    match call.draw {
                        Err(e) => Rendered {
                            ops: seq![RenderOp::Call(call)],
                            error: Some(e),
                            vertex_capacity: vertices,
                            index_capacity: indices,
                        },
                        Ok(_) => {
                            let rest = spec_render(
                                font,
                                registered,
                                vertices,
                                indices,
                                events.skip(1),
                            );
                            Rendered { ops: seq![RenderOp::Call(call)] + rest.ops, ..rest }
                        },
                    }
                },
            },
            DrawEvent::Unsupported { list, cmd } => {
                let rest = spec_render(
                    font,
                    registered,
                    vertex_capacity,
                    index_capacity,
                    events.skip(1),
                );
                Rendered { ops: seq![RenderOp::Unsupported { list, cmd }] + rest.ops, ..rest }
            },
            DrawEvent::Callback { list, cmd } => {
                let rest = spec_render(
                    font,
                    registered,
                    vertex_capacity,
                    index_capacity,
                    events.skip(1),
                );
                Rendered { ops: seq![RenderOp::Callback { list, cmd }] + rest.ops, ..rest }
            },
        }
    }
}

/// Two commands of one draw list, the first with index offset zero and
/// the second with another: the buffers are uploaded once, with the first
/// command, and both commands are drawn, each with its own offsets.
pub proof fn lemma_one_upload_for_two_commands(
    font: usize,
    registered: Map<usize, usize>,
    vertex_capacity: usize,
    index_capacity: usize,
    first: DrawParams,
    second: DrawParams,
)
    requires
        first.idx_offset == 0,
        second.idx_offset != 0,
        spec_draw_call(font, registered, vertex_capacity, index_capacity, first) is Ok,
        spec_resolve(font, registered, first.tex_id) is Ok,
        spec_resolve(font, registered, second.tex_id) is Ok,
    ensures
        ({
            let rendered = spec_render(
                font,
                registered,
                vertex_capacity,
                index_capacity,
                seq![DrawEvent::Draw(first), DrawEvent::Draw(second)],
            );
            let bound = spec_draw_call(
                font,
                registered,
                vertex_capacity,
                index_capacity,
                first,
            )->Ok_0;
            &&& rendered.error is None
            &&& rendered.ops.len() == 2
            &&& rendered.ops[0] == RenderOp::Call(bound)
            &&& bound.binding is Some
            &&& bound.draw == Ok::<IndexedDraw, ImGuiRendererError>(
                spec_indexed_draw(spec_resolve(font, registered, first.tex_id)->Ok_0, first),
            )
            &&& rendered.ops[1] matches RenderOp::Call(drawn)
            &&& drawn.binding is None
            &&& drawn.draw == Ok::<IndexedDraw, ImGuiRendererError>(
                spec_indexed_draw(spec_resolve(font, registered, second.tex_id)->Ok_0, second),
            )
            &&& rendered.vertex_capacity == spec_vertices_bound(vertex_capacity, bound.binding)
            &&& rendered.index_capacity == spec_indices_bound(index_capacity, bound.binding)
        }),
{
    let events = seq![DrawEvent::Draw(first), DrawEvent::Draw(second)];
    let bound = spec_draw_call(font, registered, vertex_capacity, index_capacity, first)->Ok_0;
    let vertices = spec_vertices_bound(vertex_capacity, bound.binding);
    let indices = spec_indices_bound(index_capacity, bound.binding);
    assert(events.skip(1) =~= seq![DrawEvent::Draw(second)]);
    assert(events.skip(1).skip(1) =~= Seq::<DrawEvent>::empty());
    assert(events.skip(1)[0] == DrawEvent::Draw(second));
    reveal_with_fuel(spec_render, 3);
    let rest = spec_render(font, registered, vertices, indices, events.skip(1));
    assert(rest.ops.len() == 1);
}

/// A callback is one step of its own and changes nothing of the
/// renderer: what follows it is rendered as if it had not been there. In
/// particular nothing is bound anew after it.
pub proof fn lemma_callback_changes_nothing(
    font: usize,
    registered: Map<usize, usize>,
    vertex_capacity: usize,
    index_capacity: usize,
    list: usize,
    cmd: usize,
    rest: Seq<DrawEvent>,
)
    ensures
        ({
            let with_callback = spec_render(
                font,
                registered,
                vertex_capacity,
                index_capacity,
                seq![DrawEvent::Callback { list, cmd }] + rest,
            );
            let without = spec_render(font, registered, vertex_capacity, index_capacity, rest);
            &&& with_callback.ops == seq![RenderOp::Callback { list, cmd }] + without.ops
            &&& with_callback == (Rendered { ops: with_callback.ops, ..without })
        }),
{
    let events = seq![DrawEvent::Callback { list, cmd }] + rest;
    assert(events.skip(1) =~= rest);
}

/// A degenerate frame renders to nothing: no draw call, no upload, no
/// error, and buffers as they were.
pub proof fn lemma_degenerate_frame_renders_nothing(
    font: usize,
    registered: Map<usize, usize>,
    vertex_capacity: usize,
    index_capacity: usize,
    data: DrawData,
)
    requires
        data.spec_is_degenerate(),
    ensures
        spec_render(font, registered, vertex_capacity, index_capacity, data.spec_events()) == (
        Rendered { ops: Seq::empty(), error: None, vertex_capacity, index_capacity }),
{
}

/// Every event becomes one step, in order, until an error ends the
/// frame, and only a bad texture id or an allocation failure ends it.
/// The buffers never shrink over a frame.
pub proof fn lemma_render_steps(
    font: usize,
    registered: Map<usize, usize>,
    vertex_capacity: usize,
    index_capacity: usize,
    events: Seq<DrawEvent>,
)
    ensures
        ({
            let rendered = spec_render(font, registered, vertex_capacity, index_capacity, events);
            &&& rendered.ops.len() <= events.len()
            &&& rendered.error is None ==> rendered.ops.len() == events.len()
            &&& rendered.error matches Some(e) ==> e.spec_ends_frame() && (e is BadTexture
                || e is BackendAllocationFailure)
            &&& rendered.vertex_capacity >= vertex_capacity
            &&& rendered.index_capacity >= index_capacity
        }),
    decreases events.len(),
{
    if events.len() > 0 {
        match events[0] {
            DrawEvent::Draw(params) => {
                lemma_upload_growth(vertex_capacity, VERT_SIZE, params.vtx_buffer.len);
                lemma_upload_growth(index_capacity, INDEX_SIZE, params.idx_buffer.len);
                match spec_draw_call(font, registered, vertex_capacity, index_capacity, params) {
                    Ok(call) => {
                        lemma_render_steps(
                            font,
                            registered,
                            spec_vertices_bound(vertex_capacity, call.binding),
                            spec_indices_bound(index_capacity, call.binding),
                            events.skip(1),
                        );
                    },
                    Err(_) => {},
                }
            },
            _ => {
                lemma_render_steps(
                    font,
                    registered,
                    vertex_capacity,
                    index_capacity,
                    events.skip(1),
                );
            },
        }
    }
}

/// FNA3D ImGUI renderer
#[derive(Debug)]
pub struct ImGuiFna3d {
    textures: TextureResolver,
    font_texture: RcTexture2d,
    batch: Batch,
}

impl ImGuiFna3d {
    /// The font atlas texture.
    pub closed spec fn font(&self) -> TextureData2d {
        *self.font_texture.texture
    }

    /// The registered user textures: handle by id.
    pub closed spec fn registered(&self) -> Map<usize, usize> {
        self.textures.registered()
    }

    /// The id that the next registered texture gets.
    pub closed spec fn next_id(&self) -> usize {
        self.textures.next_id()
    }

    /// Byte capacity of the vertex buffer.
    pub closed spec fn vertex_capacity(&self) -> usize {
        self.batch.vertex_capacity()
    }

    /// Byte capacity of the index buffer.
    pub closed spec fn index_capacity(&self) -> usize {
        self.batch.index_capacity()
    }

    /// The resolver is well-formed and resolves the reserved id to the
    /// font atlas texture of this renderer.
    pub closed spec fn wf(&self) -> bool {
        &&& self.textures.wf()
        &&& self.textures.font() == self.font_texture.texture.raw
    }

    /// What a well-formed renderer is known to hold: a registry without
    /// the reserved id.
    pub proof fn lemma_wf(&self)
        requires
            self.wf(),
        ensures
            !self.registered().contains_key(FONT_TEXTURE_ID),
    {
        lemma_font_id_is_never_registered(self.textures);
    }

    /// A renderer around the font atlas texture, which the caller has
    /// created and stored under [`FONT_TEXTURE_ID`].
    pub fn init(font_texture: RcTexture2d) -> (renderer: Self)
        ensures
            renderer.wf(),
            renderer.font() == *font_texture.texture,
            renderer.registered() == spec_no_entries(),
            renderer.next_id() == 0,
            renderer.vertex_capacity() == VERT_SIZE * (4 * N_QUADS),
            renderer.index_capacity() == INDEX_SIZE * (6 * N_QUADS),
    {
        let textures = TextureResolver::new(font_texture.texture.raw);
        Self { textures, font_texture, batch: Batch::new() }
    }

    /// Be warned that the font texture is  non-premultiplied alpha
    pub fn font_texture(&self) -> (texture: &TextureData2d)
        ensures
            *texture == self.font(),
    {
        &self.font_texture.texture
    }

    /// Byte capacity of the vertex buffer.
    pub fn vertex_capacity_in_bytes(&self) -> (bytes: usize)
        ensures
            bytes == self.vertex_capacity(),
    {
        self.batch.vertex_capacity_in_bytes()
    }

    /// Byte capacity of the index buffer.
    pub fn index_capacity_in_bytes(&self) -> (bytes: usize)
        ensures
            bytes == self.index_capacity(),
    {
        self.batch.index_capacity_in_bytes()
    }

    /// Registers a user texture by its backend-native handle and returns
    /// the id to draw it with, or `None` once the ids are used up.
    pub fn register(&mut self, texture: &RcTexture2d) -> (id: Option<usize>)
        requires
            old(self).wf(),
        ensures
            final(self).wf(),
            final(self).font() == old(self).font(),
            final(self).vertex_capacity() == old(self).vertex_capacity(),
            final(self).index_capacity() == old(self).index_capacity(),
            old(self).next_id() == FONT_TEXTURE_ID ==> id.is_none()
                && final(self).registered() == old(self).registered() && final(self).next_id()
                == old(self).next_id(),
            old(self).next_id() != FONT_TEXTURE_ID ==> id == Some(
                old(self).next_id(),
            ) && final(self).registered() == old(self).registered().insert(
                old(self).next_id(),
                texture.texture.raw,
            ) && final(self).next_id() == old(self).next_id() + 1,
    {
        self.textures.register(texture.texture.raw)
    }

    /// Takes a user texture out of the registry and returns its handle.
    pub fn unregister(&mut self, id: usize) -> (handle: Option<usize>)
        requires
            old(self).wf(),
        ensures
            final(self).wf(),
            final(self).font() == old(self).font(),
            final(self).next_id() == old(self).next_id(),
            final(self).vertex_capacity() == old(self).vertex_capacity(),
            final(self).index_capacity() == old(self).index_capacity(),
            handle == spec_lookup(old(self).registered(), id),
            final(self).registered() == old(self).registered().remove(id),
    {
        self.textures.unregister(id)
    }

    /// Compiles one draw command into a draw call.
    ///
    /// On the first command of a draw list the buffers take the list's
    /// geometry and may grow for it. A texture id that does not resolve
    /// fails the draw inside the draw call and leaves the rest of it
    /// standing. Geometry that cannot be allocated fails the whole call and
    /// changes nothing.
    pub fn draw(&mut self, params: &DrawParams) -> (call: Result<DrawCall, ImGuiRendererError>)
        requires
            old(self).wf(),
        ensures
            final(self).wf(),
            final(self).font() == old(self).font(),
            final(self).registered() == old(self).registered(),
            final(self).next_id() == old(self).next_id(),
            call == spec_draw_call(
                old(self).font().raw,
                old(self).registered(),
                old(self).vertex_capacity(),
                old(self).index_capacity(),
                *params,
            ),
            final(self).vertex_capacity() == (match call {
                Ok(c) => spec_vertices_bound(old(self).vertex_capacity(), c.binding),
                Err(_) => old(self).vertex_capacity(),
            }),
            final(self).index_capacity() == (match call {
                Ok(c) => spec_indices_bound(old(self).index_capacity(), c.binding),
                Err(_) => old(self).index_capacity(),
            }),
    {
        let binding: Option<ListBinding> = if params.idx_offset == 0 {
            // 1. append buffers
            let uploads = match self.batch.set_buffers(
                params.vtx_buffer.len,
                params.idx_buffer.len,
            ) {
                Ok(uploads) => uploads,
                Err(e) => {
                    return Err(e);
                },
            };
            // 2. set orthographic projection matrix
            let projection = projection_bounds(&params.display, YAxis::Down);
            Some(
                ListBinding {
                    list: params.vtx_buffer.list,
                    vertices: uploads.0,
                    indices: uploads.1,
                    projection,
                    unit: params.unit,
                },
            )
        } else {
            None
        };

        // 1. scissor
        let scissor = scissor_box(&params.scissor, params.fb_height, ScissorOrigin::TopLeft);

        // 2. set texture
        let draw = match self.textures.resolve(params.tex_id) {
            Ok(texture) => {
                // 3. draw
                let n: usize = params.n_elems;
                let n_vertices: usize = n / 3 * 2 + n % 3 * 2 / 3;  // n_verts : n_idx = 4 : 6
                let n_triangles: usize = n / 3;
                Ok(
                    IndexedDraw {
                        texture,
                        base_vertex: params.vtx_offset,
                        n_vertices,
                        start_index: params.idx_offset,
                        n_triangles,
                        index_size: INDEX_SIZE,
                    },
                )
            },
            Err(e) => Err(e),
        };
        Ok(DrawCall { binding, scissor, draw })
    }

    /// Compiles a whole frame: every command in order, up to the first
    /// error.
    pub fn render(&mut self, draw_data: &DrawData) -> (plan: RenderPlan)
        requires
            old(self).wf(),
        ensures
            final(self).wf(),
            final(self).font() == old(self).font(),
            final(self).registered() == old(self).registered(),
            final(self).next_id() == old(self).next_id(),
            ({
                let rendered = spec_render(
                    old(self).font().raw,
                    old(self).registered(),
                    old(self).vertex_capacity(),
                    old(self).index_capacity(),
                    draw_data.spec_events(),
                );
                &&& plan.ops@ == rendered.ops
                &&& plan.error == rendered.error
                &&& final(self).vertex_capacity() == rendered.vertex_capacity
                &&& final(self).index_capacity() == rendered.index_capacity
            }),
    {
        let mut ops: Vec<RenderOp> = Vec::new();
        let mut iter = DrawParamsIterator::new(draw_data);
        let ghost font = self.font().raw;
        let ghost registered = self.registered();
        let ghost total = spec_render(
            font,
            registered,
            self.vertex_capacity(),
            self.index_capacity(),
            draw_data.spec_events(),
        );
        loop
            invariant
                self.wf(),
                iter.wf(),
                self.font() == old(self).font(),
                self.font().raw == font,
                self.registered() == registered,
                registered == old(self).registered(),
                self.next_id() == old(self).next_id(),
                total == spec_render(
                    old(self).font().raw,
                    old(self).registered(),
                    old(self).vertex_capacity(),
                    old(self).index_capacity(),
                    draw_data.spec_events(),
                ),
                ({
                    let rest = spec_render(
                        font,
                        registered,
                        self.vertex_capacity(),
                        self.index_capacity(),
                        iter.remaining_events(),
                    );
                    &&& total.ops == ops@ + rest.ops
                    &&& total.error == rest.error
                    &&& total.vertex_capacity == rest.vertex_capacity
                    &&& total.index_capacity == rest.index_capacity
                }),
            decreases iter.remaining_events().len(),
        {
            let ghost before = iter.remaining_events();
            let ghost done = ops@;
            let event = match iter.next_event() {
                Some(event) => event,
                None => {
                    return RenderPlan { ops, error: None };
                },
            };
            assert(before[0] == event);
            assert(before.skip(1) =~= iter.remaining_events());
            match event {
                DrawEvent::Draw(params) => {
                    let call = match self.draw(&params) {
                        Ok(call) => call,
                        Err(e) => {
                            return RenderPlan { ops, error: Some(e) };
                        },
                    };
                    ops.push(RenderOp::Call(call));
                    if let Err(e) = call.draw {
                        return RenderPlan { ops, error: Some(e) };
                    }
                    assert(ops@ =~= done + seq![RenderOp::Call(call)]);
                },
                DrawEvent::Unsupported { list, cmd } => {
                    ops.push(RenderOp::Unsupported { list, cmd });
                    assert(ops@ =~= done + seq![RenderOp::Unsupported { list, cmd }]);
                },
                DrawEvent::Callback { list, cmd } => {
                    ops.push(RenderOp::Callback { list, cmd });
                    assert(ops@ =~= done + seq![RenderOp::Callback { list, cmd }]);
                },
            }
        }
    }
}

} // verus!

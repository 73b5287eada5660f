//! `glow` renderer: vertex and index buffers that every draw list of a
//! frame is appended to, that are emptied once a frame and that grow for a
//! draw list larger than themselves; scissor rectangles with the origin at
//! the lower left.

use vstd::prelude::*;
use crate::helper::{
    projection_in_units, scissor_box, spec_projection_in_units, spec_scissor_box, DrawData,
    DrawEvent, DrawParams, DrawParamsIterator, ImGuiRendererError, Ratio, ScissorBox,
    ScissorOrigin, YAxis,
};
use crate::renderer::{
    lemma_font_id_is_never_registered, spec_lookup, spec_no_entries, spec_resolve,
    TextureResolver, FONT_TEXTURE_ID,
};
use crate::renderer::glow::res::{
    lemma_append_growth, spec_after_append, spec_append, spec_reset, Append, ElementsDraw,
    Resources,
};
use crate::renderer::glow::tex::Texture;

pub mod res;
pub mod tex;

verus! {

/// Texture id of the font atlas.
pub const FONT_TEXTUER_ID: usize = FONT_TEXTURE_ID;

/// What the first command of a draw list asks for ahead of its draw: the
/// list's geometry appended to the buffers, which may have to be allocated
/// anew for it, and the projection of the display as the `transform`
/// uniform.
#[derive(Debug, Clone, Copy, PartialEq, Eq)]
pub struct ListBinding {
    /// The draw list whose geometry is appended.
    pub list: usize,
    pub vertices: Append,
    pub indices: Append,
    pub transform: [Ratio; 16],
}

/// The texture to bind and the draw to issue with it.
#[derive(Debug, Clone, Copy, PartialEq, Eq, Structural)]
pub struct TexturedDraw {
    /// Backend-native handle of the texture to bind.
    pub texture: usize,
    pub elements: ElementsDraw,
}

/// Everything the backend does for one draw command, in this order:
/// bind the list, set the scissor rectangle, bind the texture and draw.
#[derive(Debug, Clone, Copy, PartialEq, Eq)]
pub struct DrawCall {
    /// Present on the first command of a draw list only.
    pub binding: Option<ListBinding>,
    pub scissor: ScissorBox,
    /// The draw itself, or why there is none. What stands above has been
    /// done by then.
    pub draw: Result<TexturedDraw, ImGuiRendererError>,
}

/// The binding that a draw command asks for: one where its index offset
/// is zero, which marks the first command of a list, and none elsewhere.
/// The list's vertices are appended first, then its indices. The
/// projection is that of the display onto a screen whose y axis goes
/// down, for vertex positions in their own unit. A list for which either buffer cannot be allocated cannot be
/// bound.
pub open spec fn spec_binding(res: Resources, params: DrawParams) -> Result<
    Option<ListBinding>,
    ImGuiRendererError,
> {
    if params.idx_offset != 0 {
        Ok(None)
    } else {
        match spec_append(res.vbuf, params.vtx_buffer.len) {
            Ok(vertices) => match spec_append(res.ibuf, params.idx_buffer.len) {
                Ok(indices) => Ok(
                    Some(
                        ListBinding {
                            list: params.vtx_buffer.list,
                            vertices,
                            indices,
                            transform: spec_projection_in_units(
                                params.display,
                                YAxis::Down,
                                params.unit,
                            ),
                        },
                    ),
                ),
                Err(e) => Err(e),
            },
            Err(e) => Err(e),
        }
    }
}

/// The buffers after a binding: they hold the list that was bound.
pub open spec fn spec_res_bound(res: Resources, binding: Option<ListBinding>) -> Resources {
    match binding {
        Some(binding) => Resources {
            vbuf: spec_after_append(res.vbuf, binding.vertices),
            ibuf: spec_after_append(res.ibuf, binding.indices),
            ..res
        },
        None => res,
    }
}

/// The draw call of a command: its binding, its scissor box with the
/// origin at the lower left, and its draw out of the list bound last, or
/// the error of its texture id. There is no draw call at all where the
/// geometry cannot be allocated.
pub open spec fn spec_draw_call(
    font: usize,
    registered: Map<usize, usize>,
    res: Resources,
    params: DrawParams,
) -> Result<DrawCall, ImGuiRendererError> {
    match spec_binding(res, params) {
        Ok(binding) => Ok(
            DrawCall {
                binding,
                scissor: spec_scissor_box(
                    params.scissor,
                    params.fb_height,
                    ScissorOrigin::BottomLeft,
                ),
                draw: match spec_resolve(font, registered, params.tex_id) {
                    Ok(texture) => Ok(
                        TexturedDraw {
                            texture,
                            elements: spec_res_bound(res, binding).spec_draw(
                                params.n_elems,
                                params.idx_offset,
                                params.vtx_offset,
                            ),
                        },
                    ),
                    Err(e) => Err(e),
                },
            },
        ),
        Err(e) => Err(e),
    }
}

/// Buffers are appended to and the projection is set with the first
/// command of a draw list, the one whose index offset is zero, and with no
/// other.
pub proof fn lemma_binds_at_index_offset_zero(
    font: usize,
    registered: Map<usize, usize>,
    res: Resources,
    params: DrawParams,
)
    ensures
        spec_draw_call(font, registered, res, params) matches Ok(call) ==> (call.binding is Some
            <==> params.idx_offset == 0),
{
}

/// The resources after a draw call: the buffers hold the list that was
/// bound, and the texture slot holds the texture that was drawn with.
pub open spec fn spec_res_after(res: Resources, call: DrawCall) -> Resources {
    Resources {
        tex: match call.draw {
            Ok(draw) => Some(draw.texture),
            Err(_) => res.tex,
        },
        ..spec_res_bound(res, call.binding)
    }
}

/// The resources at the start of a frame: the buffers are empty again.
pub open spec fn spec_res_reset(res: Resources) -> Resources {
    Resources { vbuf: spec_reset(res.vbuf), ibuf: spec_reset(res.ibuf), ..res }
}

/// One step of a rendered frame of this backend.
pub type RenderOp = crate::renderer::RenderOp<DrawCall>;

/// A frame compiled for this backend.
pub type RenderPlan = crate::renderer::RenderPlan<DrawCall>;

/// A rendered frame as a value: steps, error and resources after.
pub struct Rendered {
    pub ops: Seq<RenderOp>,
    pub error: Option<ImGuiRendererError>,
    pub res: Resources,
}

/// Renders events in order, starting with the given resources. Every
/// event becomes one step. The first error ends the frame: an allocation
/// failure before the draw call that met it, a bad texture id after the
/// draw call that holds it.
pub open spec fn spec_render_events(
    font: usize,
    registered: Map<usize, usize>,
    res: Resources,
    events: Seq<DrawEvent>,
) -> Rendered
    decreases events.len(),
{
    if events.len() == 0 {
        Rendered { ops: Seq::empty(), error: None, res }
    } else {
        match events[0] {
            DrawEvent::Draw(params) => match spec_draw_call(font, registered, res, params) {
                Err(e) => Rendered { ops: Seq::empty(), error: Some(e), res },
                Ok(call) => match call.draw {
                    Err(e) => Rendered {
                        ops: seq![RenderOp::Call(call)],
                        error: Some(e),
                        res: spec_res_after(res, call),
                    },
                    Ok(_) => {
                        let rest = spec_render_events(
                            font,
                            registered,
                            spec_res_after(res, call),
                            events.skip(1),
                        );
                        Rendered { ops: seq![RenderOp::Call(call)] + rest.ops, ..rest }
                    },
                },
            },
            DrawEvent::Unsupported { list, cmd } => {
                let rest = spec_render_events(font, registered, res, events.skip(1));
                Rendered { ops: seq![RenderOp::Unsupported { list, cmd }] + rest.ops, ..rest }
            },
            DrawEvent::Callback { list, cmd } => {
                let rest = spec_render_events(font, registered, res, events.skip(1));
                Rendered { ops: seq![RenderOp::Callback { list, cmd }] + rest.ops, ..rest }
            },
        }
    }
}

/// A draw call leaves the fill level of either buffer within its
/// capacity.
pub proof fn lemma_draw_stays_within_capacity(
    font: usize,
    registered: Map<usize, usize>,
    res: Resources,
    params: DrawParams,
)
    requires
        res.wf(),
    ensures
        spec_draw_call(font, registered, res, params) matches Ok(call) ==> spec_res_after(
            res,
            call,
        ).wf(),
{
    lemma_append_growth(res.vbuf, params.vtx_buffer.len);
    lemma_append_growth(res.ibuf, params.idx_buffer.len);
}

/// Every event becomes one step, in order, until an error ends the
/// frame, and only a bad texture id or an allocation failure ends it.
/// The fill levels stay within the capacities.
pub proof fn lemma_render_steps(
    font: usize,
    registered: Map<usize, usize>,
    res: Resources,
    events: Seq<DrawEvent>,
)
    requires
        res.wf(),
    ensures
        ({
            let rendered = spec_render_events(font, registered, res, events);
            &&& rendered.ops.len() <= events.len()
            &&& rendered.error is None ==> rendered.ops.len() == events.len()
            &&& rendered.error matches Some(e) ==> e.spec_ends_frame() && (e is BadTexture
                || e is BackendAllocationFailure)
            &&& rendered.res.wf()
        }),
    decreases events.len(),
{
    if events.len() > 0 {
        match events[0] {
            DrawEvent::Draw(params) => {
                lemma_draw_stays_within_capacity(font, registered, res, params);
                match spec_draw_call(font, registered, res, params) {
                    Ok(call) => {
                        lemma_render_steps(
                            font,
                            registered,
                            spec_res_after(res, call),
                            events.skip(1),
                        );
                    },
                    Err(_) => {},
                }
            },
            _ => {
                lemma_render_steps(font, registered, res, events.skip(1));
            },
        }
    }
}

/// Renders a frame: the buffers are emptied, then the events are rendered.
pub open spec fn spec_render(
    font: usize,
    registered: Map<usize, usize>,
    res: Resources,
    events: Seq<DrawEvent>,
) -> Rendered {
    spec_render_events(font, registered, spec_res_reset(res), events)
}

/// Two commands of one draw list, the first with index offset zero and
/// the second with another: the list is appended once, with the first
/// command, and both commands are drawn out of it, each with its own
/// offsets.
pub proof fn lemma_one_upload_for_two_commands(
    font: usize,
    registered: Map<usize, usize>,
    res: Resources,
    first: DrawParams,
    second: DrawParams,
)
    requires
        res.wf(),
        first.idx_offset == 0,
        second.idx_offset != 0,
        spec_draw_call(font, registered, res, first) is Ok,
        spec_resolve(font, registered, first.tex_id) is Ok,
        spec_resolve(font, registered, second.tex_id) is Ok,
    ensures
        ({
            let rendered = spec_render_events(
                font,
                registered,
                res,
                seq![DrawEvent::Draw(first), DrawEvent::Draw(second)],
            );
            let bound = spec_draw_call(font, registered, res, first)->Ok_0;
            &&& rendered.error is None
            &&& rendered.ops.len() == 2
            &&& rendered.ops[0] == RenderOp::Call(bound)
            &&& bound.binding is Some
            &&& bound.draw is Ok
            &&& rendered.ops[1] matches RenderOp::Call(drawn)
            &&& drawn.binding is None
            &&& drawn.draw matches Ok(draw)
            &&& draw.texture == spec_resolve(font, registered, second.tex_id)->Ok_0
            &&& draw.elements.first_index == second.idx_offset
            &&& draw.elements.first_index_at == bound.binding->0.indices.offset_bytes
                + res.ibuf.elem_size * second.idx_offset
            &&& draw.elements.base_vertex == second.vtx_offset
            &&& draw.elements.count == second.n_elems
            &&& draw.elements.vertices_at == bound.binding->0.vertices.offset_bytes
            &&& draw.elements.indices_at == bound.binding->0.indices.offset_bytes
            &&& rendered.res.vbuf == spec_res_after(res, bound).vbuf
            &&& rendered.res.ibuf == spec_res_after(res, bound).ibuf
        }),
{
    let events = seq![DrawEvent::Draw(first), DrawEvent::Draw(second)];
    let bound = spec_draw_call(font, registered, res, first)->Ok_0;
    assert(events.skip(1) =~= seq![DrawEvent::Draw(second)]);
    assert(events.skip(1).skip(1) =~= Seq::<DrawEvent>::empty());
    assert(events.skip(1)[0] == DrawEvent::Draw(second));
    reveal_with_fuel(spec_render_events, 3);
    let rest = spec_render_events(font, registered, spec_res_after(res, bound), events.skip(1));
    assert(rest.ops.len() == 1);
    assert(res.ibuf.elem_size * second.idx_offset <= 0xffff_ffff_ffff_ffff
        * 0xffff_ffff_ffff_ffff) by (nonlinear_arith)
        requires
            0 <= res.ibuf.elem_size <= 0xffff_ffff_ffff_ffff,
            0 <= second.idx_offset <= 0xffff_ffff_ffff_ffff,
    ;
}

/// A callback is one step of its own and changes nothing of the
/// renderer: what follows it is rendered as if it had not been there. In
/// particular nothing is bound anew after it.
pub proof fn lemma_callback_changes_nothing(
    font: usize,
    registered: Map<usize, usize>,
    res: Resources,
    list: usize,
    cmd: usize,
    rest: Seq<DrawEvent>,
)
    ensures
        ({
            let with_callback = spec_render_events(
                font,
                registered,
                res,
                seq![DrawEvent::Callback { list, cmd }] + rest,
            );
            let without = spec_render_events(font, registered, res, rest);
            &&& with_callback.ops == seq![RenderOp::Callback { list, cmd }] + without.ops
            &&& with_callback == (Rendered { ops: with_callback.ops, ..without })
        }),
{
    let events = seq![DrawEvent::Callback { list, cmd }] + rest;
    assert(events.skip(1) =~= rest);
}

/// A degenerate frame renders to nothing: no draw call, nothing
/// appended, no error. The buffers are emptied all the same.
pub proof fn lemma_degenerate_frame_renders_nothing(
    font: usize,
    registered: Map<usize, usize>,
    res: Resources,
    data: DrawData,
)
    requires
        data.spec_is_degenerate(),
    ensures
        spec_render(font, registered, res, data.spec_events()) == (Rendered {
            ops: Seq::empty(),
            error: None,
            res: spec_res_reset(res),
        }),
{
}

#[derive(Debug)]
pub struct ImGuiGlow {
    textures: TextureResolver,
    font_texture: Texture,
    res: Resources,
}

impl ImGuiGlow {
    /// The font atlas texture.
    pub closed spec fn font(&self) -> Texture {
        self.font_texture
    }

    /// The registered user textures: handle by id.
    pub closed spec fn registered(&self) -> Map<usize, usize> {
        self.textures.registered()
    }

    /// The id that the next registered texture gets.
    pub closed spec fn next_id(&self) -> usize {
        self.textures.next_id()
    }

    /// Fill levels of the buffers and content of the texture slot.
    pub closed spec fn res(&self) -> Resources {
        self.res
    }

    /// The resolver and the buffers are well-formed, and the resolver
    /// resolves the reserved id to the font atlas texture of this renderer.
    pub closed spec fn wf(&self) -> bool {
        &&& self.textures.wf()
        &&& self.textures.font() == self.font_texture.spec_id()
        &&& self.res.wf()
    }

    /// What a well-formed renderer is known to hold: buffers that are
    /// well-formed, with fill levels within their capacities and elements
    /// of the sizes of a vertex and of an index, and a registry without
    /// the reserved id.
    pub proof fn lemma_wf(&self)
        requires
            self.wf(),
        ensures
            self.res().wf(),
            !self.registered().contains_key(FONT_TEXTURE_ID),
    {
        lemma_font_id_is_never_registered(self.textures);
    }

    /// A renderer around the font atlas texture, which the caller has
    /// created and stored under [`FONT_TEXTURE_ID`]. The texture slot
    /// starts out with it.
    pub fn new(font_texture: Texture) -> (renderer: Self)
        ensures
            renderer.wf(),
            renderer.font() == font_texture,
            renderer.registered() == spec_no_entries(),
            renderer.next_id() == 0,
            renderer.res() == (Resources {
                tex: Some(font_texture.spec_id() as usize),
                ..Resources::spec_new()
            }),
    {
        let mut res = Resources::new();
        res.set_texture(font_texture.id() as usize);
        Self { textures: TextureResolver::new(font_texture.id() as usize), font_texture, res }
    }

    /// The font atlas texture.
    pub fn font_texture(&self) -> (texture: &Texture)
        ensures
            *texture == self.font(),
    {
        &self.font_texture
    }

    /// Fill levels of the buffers and content of the texture slot.
    pub fn resources(&self) -> (res: &Resources)
        ensures
            *res == self.res(),
    {
        &self.res
    }

    /// Registers a user texture and returns the id to draw it with, or
    /// `None` once the ids are used up.
    pub fn register(&mut self, texture: &Texture) -> (id: Option<usize>)
        requires
            old(self).wf(),
        ensures
            final(self).wf(),
            final(self).font() == old(self).font(),
            final(self).res() == old(self).res(),
            old(self).next_id() == FONT_TEXTURE_ID ==> id.is_none() && final(self).registered()
                == old(self).registered() && final(self).next_id() == old(self).next_id(),
            old(self).next_id() != FONT_TEXTURE_ID ==> id == Some(old(self).next_id())
                && final(self).registered() == old(self).registered().insert(
                old(self).next_id(),
                texture.spec_id() as usize,
            ) && final(self).next_id() == old(self).next_id() + 1,
    {
        self.textures.register(texture.id() as usize)
    }

    /// Takes a user texture out of the registry and returns its handle.
    pub fn unregister(&mut self, id: usize) -> (handle: Option<usize>)
        requires
            old(self).wf(),
        ensures
            final(self).wf(),
            final(self).font() == old(self).font(),
            final(self).next_id() == old(self).next_id(),
            final(self).res() == old(self).res(),
            handle == spec_lookup(old(self).registered(), id),
            final(self).registered() == old(self).registered().remove(id),
    {
        self.textures.unregister(id)
    }

    /// The handle of the texture with this id: the font atlas for
    /// [`FONT_TEXTURE_ID`], else what is registered under the id.
    pub fn lookup_texture(&self, tex_id: usize) -> (texture: Option<usize>)
        ensures
            texture == (match spec_resolve(
                self.font().spec_id() as usize,
                self.registered(),
                tex_id,
            ) {
                Ok(handle) => Some(handle),
                Err(_) => None,
            }),
    {
        if tex_id == FONT_TEXTURE_ID {
            // we didn't store the font texture in `textures`
            Some(self.font_texture.id() as usize)
        } else {
            match self.textures.resolve(tex_id) {
                Ok(handle) => Some(handle),
                Err(_) => None,
            }
        }
    }

    /// Empties the buffers for a new frame.
    pub fn before_render(&mut self)
        requires
            old(self).wf(),
        ensures
            final(self).wf(),
            final(self).font() == old(self).font(),
            final(self).registered() == old(self).registered(),
            final(self).next_id() == old(self).next_id(),
            final(self).res() == spec_res_reset(old(self).res()),
    {
        self.res.reset_buf_offsets();
    }

    /// Compiles one draw command into a draw call.
    ///
    /// On the first command of a draw list the list's geometry is appended
    /// to the buffers, which may grow for it. A texture id that does not
    /// resolve fails the draw inside the draw call and leaves the rest of
    /// it standing. Geometry that cannot be allocated fails the whole call
    /// and changes nothing.
    pub fn draw(&mut self, params: &DrawParams) -> (call: Result<DrawCall, ImGuiRendererError>)
        requires
            old(self).wf(),
        ensures
            final(self).wf(),
            final(self).font() == old(self).font(),
            final(self).registered() == old(self).registered(),
            final(self).next_id() == old(self).next_id(),
            call == spec_draw_call(
                old(self).font().spec_id() as usize,
                old(self).registered(),
                old(self).res(),
                *params,
            ),
            final(self).res() == (match call {
                Ok(c) => spec_res_after(old(self).res(), c),
                Err(_) => old(self).res(),
            }),
    {
        // on first draw call: set states
        let binding: Option<ListBinding> = if params.idx_offset == 0 {
            // 1. append buffers
            let kept = self.res.vbuf;
            let vertices = match self.res.append_vbuf(params.vtx_buffer.len) {
                Ok(vertices) => vertices,
                Err(e) => {
                    return Err(e);
                },
            };
            let indices = match self.res.append_ibuf(params.idx_buffer.len) {
                Ok(indices) => indices,
                Err(e) => {
                    self.res.vbuf = kept;
                    return Err(e);
                },
            };

            // 2. set orthographic projection matrix
            let transform = projection_in_units(&params.display, YAxis::Down, params.unit);
            Some(ListBinding { list: params.vtx_buffer.list, vertices, indices, transform })
        } else {
            None
        };

        // 1. scissor
        let scissor = scissor_box(&params.scissor, params.fb_height, ScissorOrigin::BottomLeft);

        // 2. set texture
        let draw = match self.lookup_texture(params.tex_id) {
            Some(texture) => {
                self.res.set_texture(texture);
                // 3. draw
                Ok(
                    TexturedDraw {
                        texture,
                        elements: self.res.draw(
                            params.n_elems,
                            params.idx_offset,
                            params.vtx_offset,
                        ),
                    },
                )
            },
            None => Err(ImGuiRendererError::BadTexture(params.tex_id)),
        };
        Ok(DrawCall { binding, scissor, draw })
    }

    /// Compiles a whole frame: empties the buffers, then takes every
    /// command in order, up to the first error.
    pub fn render(&mut self, draw_data: &DrawData) -> (plan: RenderPlan)
        requires
            old(self).wf(),
        ensures
            final(self).wf(),
            final(self).font() == old(self).font(),
            final(self).registered() == old(self).registered(),
            final(self).next_id() == old(self).next_id(),
            ({
                let rendered = spec_render(
                    old(self).font().spec_id() as usize,
                    old(self).registered(),
                    old(self).res(),
                    draw_data.spec_events(),
                );
                &&& plan.ops@ == rendered.ops
                &&& plan.error == rendered.error
                &&& final(self).res() == rendered.res
            }),
    {
        self.before_render();
        let mut ops: Vec<RenderOp> = Vec::new();
        let mut iter = DrawParamsIterator::new(draw_data);
        let ghost font = self.font().spec_id() as usize;
        let ghost registered = self.registered();
        let ghost total = spec_render_events(
            font,
            registered,
            self.res(),
            draw_data.spec_events(),
        );
        loop
            invariant
                self.wf(),
                iter.wf(),
                self.font() == old(self).font(),
                font == self.font().spec_id() as usize,
                self.registered() == registered,
                registered == old(self).registered(),
                self.next_id() == old(self).next_id(),
                total == spec_render(
                    old(self).font().spec_id() as usize,
                    old(self).registered(),
                    old(self).res(),
                    draw_data.spec_events(),
                ),
                ({
                    let rest = spec_render_events(
                        font,
                        registered,
                        self.res(),
                        iter.remaining_events(),
                    );
                    &&& total.ops == ops@ + rest.ops
                    &&& total.error == rest.error
                    &&& total.res == rest.res
                }),
            decreases iter.remaining_events().len(),
        {
            let ghost before = iter.remaining_events();
            let ghost done = ops@;
            let event = match iter.next_event() {
                Some(event) => event,
                None => {
                    return RenderPlan { ops, error: None };
                },
            };
            assert(before[0] == event);
            assert(before.skip(1) =~= iter.remaining_events());
            match event {
                DrawEvent::Draw(params) => {
                    let call = match self.draw(&params) {
                        Ok(call) => call,
                        Err(e) => {
                            return RenderPlan { ops, error: Some(e) };
                        },
                    };
                    ops.push(RenderOp::Call(call));
                    if let Err(e) = call.draw {
                        return RenderPlan { ops, error: Some(e) };
                    }
                    assert(ops@ =~= done + seq![RenderOp::Call(call)]);
                },
                DrawEvent::Unsupported { list, cmd } => {
                    ops.push(RenderOp::Unsupported { list, cmd });
                    assert(ops@ =~= done + seq![RenderOp::Unsupported { list, cmd }]);
                },
                DrawEvent::Callback { list, cmd } => {
                    ops.push(RenderOp::Callback { list, cmd });
                    assert(ops@ =~= done + seq![RenderOp::Callback { list, cmd }]);
                },
            }
        }
    }
}

} // verus!

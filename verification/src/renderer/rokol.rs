//! `rokol::gfx` renderer: stream buffers that the backend itself appends
//! to; scissor rectangles with the origin at the upper left and no
//! negative corner.

use vstd::prelude::*;
pub use crate::helper::ImGuiRendererError;
use crate::helper::{
    projection_in_units, scissor_box_from_origin, spec_projection_in_units,
    spec_scissor_box_from_origin, DrawData, DrawEvent, DrawParams, DrawParamsIterator, Ratio,
    ScissorBox, ScissorOrigin, YAxis,
};
use crate::renderer::{
    lemma_font_id_is_never_registered, spec_lookup, spec_no_entries, spec_resolve,
    TextureResolver, FONT_TEXTURE_ID,
};

verus! {

/// Number of quadliterals
pub const N_QUADS: usize = 8192;

/// Texture id of the font atlas.
pub const FONT_TEXTUER_ID: usize = FONT_TEXTURE_ID;

/// Size of a vertex in bytes
pub const VERT_SIZE: usize = 20;

/// Size of an index in bytes. NOTE: ImGUI uses 16 bits index
pub const INDEX_SIZE: usize = 2;

/// Byte length of the vertex stream buffer: four vertices per quad.
pub const VERTEX_BUFFER_BYTES: usize = VERT_SIZE * N_QUADS * 4;

/// Byte length of the index stream buffer: six indices per quad.
pub const INDEX_BUFFER_BYTES: usize = INDEX_SIZE * N_QUADS * 6;

/// An image of the backend with its size.
#[derive(Debug, Clone, Copy, PartialEq, Eq, Structural)]
pub struct Texture2d {
    /// Id of the image.
    pub img: u32,
    pub w: u32,
    pub h: u32,
}

/// What the first command of a draw list asks for ahead of its draw: the
/// list's geometry appended to the stream buffers, and the projection of
/// the display as the vertex shader's uniform.
#[derive(Debug, Clone, Copy, PartialEq, Eq)]
pub struct ListBinding {
    /// The draw list whose geometry is appended.
    pub list: usize,
    /// Number of vertices to append.
    pub n_vertices: usize,
    /// Number of indices to append.
    pub n_indices: usize,
    pub transform: [Ratio; 16],
}

/// The image to bind and the draw to issue with it.
#[derive(Debug, Clone, Copy, PartialEq, Eq, Structural)]
pub struct ImageDraw {
    /// Backend-native handle of the image to bind.
    pub image: usize,
    /// First index to draw.
    pub base_element: usize,
    /// Number of indices to draw.
    pub n_elements: usize,
    pub n_instances: usize,
    /// Size of an index in bytes: indices are 16 bits wide.
    pub index_size: usize,
}

/// Everything the backend does for one draw command, in this order:
/// bind the list, set the scissor rectangle, bind the image and draw.
#[derive(Debug, Clone, Copy, PartialEq, Eq)]
pub struct DrawCall {
    /// Present on the first command of a draw list only.
    pub binding: Option<ListBinding>,
    pub scissor: ScissorBox,
    /// The draw itself, or why there is none. What stands above has been
    /// done by then.
    pub draw: Result<ImageDraw, ImGuiRendererError>,
}

/// The binding that a draw command asks for: one where its index offset
/// is zero, which marks the first command of a list, and none elsewhere.
/// The projection is that of the display onto a screen whose y axis goes
/// down, for vertex positions in their own unit.
pub open spec fn spec_binding(params: DrawParams) -> Option<ListBinding> {
    if params.idx_offset == 0 {
        Some(
            ListBinding {
                list: params.vtx_buffer.list,
                n_vertices: params.vtx_buffer.len,
                n_indices: params.idx_buffer.len,
                transform: spec_projection_in_units(params.display, YAxis::Down, params.unit),
            },
        )
    } else {
        None
    }
}

/// The draw call of a command: its binding, the part of its scissor box
/// at or beyond the origin, which is at the upper left, and its draw or
/// the error of its texture id.
pub open spec fn spec_draw_call(font: usize, registered: Map<usize, usize>, params: DrawParams) -> DrawCall {
    DrawCall {
        binding: spec_binding(params),
        scissor: spec_scissor_box_from_origin(
            params.scissor,
            params.fb_height,
            ScissorOrigin::TopLeft,
        ),
        draw: match spec_resolve(font, registered, params.tex_id) {
            Ok(image) => Ok(
                ImageDraw {
                    image,
                    base_element: params.idx_offset,
                    n_elements: params.n_elems,
                    n_instances: 1,
                    index_size: INDEX_SIZE,
                },
            ),
            Err(e) => Err(e),
        },
    }
}

/// Buffers are appended to and the projection is set with the first
/// command of a draw list, the one whose index offset is zero, and with no
/// other.
pub proof fn lemma_binds_at_index_offset_zero(
    font: usize,
    registered: Map<usize, usize>,
    params: DrawParams,
)
    ensures
        spec_draw_call(font, registered, params).binding is Some <==> params.idx_offset == 0,
{
}

/// The image slot after a draw call: the image that was drawn with.
pub open spec fn spec_image_after(image: usize, call: DrawCall) -> usize {
    match call.draw {
        Ok(draw) => draw.image,
        Err(_) => image,
    }
}

/// One step of a rendered frame of this backend.
pub type RenderOp = crate::renderer::RenderOp<DrawCall>;

/// A frame compiled for this backend.
pub type RenderPlan = crate::renderer::RenderPlan<DrawCall>;

/// A rendered frame as a value: steps, error and image slot after.
pub struct Rendered {
    pub ops: Seq<RenderOp>,
    pub error: Option<ImGuiRendererError>,
    pub image: usize,
}

/// Renders events in order. Every event becomes one step. A bad texture
/// id ends the frame after the draw call that holds it.
pub open spec fn spec_render(
    font: usize,
    registered: Map<usize, usize>,
    image: usize,
    events: Seq<DrawEvent>,
) -> Rendered
    decreases events.len(),
{
    if events.len() == 0 {
        Rendered { ops: Seq::empty(), error: None, image }
    } else {
        match events[0] {
            DrawEvent::Draw(params) => {
                let call = spec_draw_call(font, registered, params);
                match call.draw {
                    Err(e) => Rendered { ops: seq![RenderOp::Call(call)], error: Some(e), image },
                    Ok(draw) => {
                        let rest = spec_render(font, registered, draw.image, events.skip(1));
                        Rendered { ops: seq![RenderOp::Call(call)] + rest.ops, ..rest }
                    },
                }
            },
            DrawEvent::Unsupported { list, cmd } => {
                let rest = spec_render(font, registered, image, events.skip(1));
                Rendered { ops: seq![RenderOp::Unsupported { list, cmd }] + rest.ops, ..rest }
            },
            DrawEvent::Callback { list, cmd } => {
                let rest = spec_render(font, registered, image, events.skip(1));
                Rendered { ops: seq![RenderOp::Callback { list, cmd }] + rest.ops, ..rest }
            },
        }
    }
}

/// Every event becomes one step, in order, until an error ends the
/// frame, and only a bad texture id ends it.
pub proof fn lemma_render_steps(
    font: usize,
    registered: Map<usize, usize>,
    image: usize,
    events: Seq<DrawEvent>,
)
    ensures
        ({
            let rendered = spec_render(font, registered, image, events);
            &&& rendered.ops.len() <= events.len()
            &&& rendered.error is None ==> rendered.ops.len() == events.len()
            &&& rendered.error matches Some(e) ==> e.spec_ends_frame() && e is BadTexture
        }),
    decreases events.len(),
{
    if events.len() > 0 {
        match events[0] {
            DrawEvent::Draw(params) => {
                match spec_draw_call(font, registered, params).draw {
                    Ok(draw) => {
                        lemma_render_steps(font, registered, draw.image, events.skip(1));
                    },
                    Err(_) => {},
                }
            },
            _ => {
                lemma_render_steps(font, registered, image, events.skip(1));
            },
        }
    }
}

/// Two commands of one draw list, the first with index offset zero and
/// the second with another: the list is appended once, with the first
/// command, and both commands are drawn, each with its own offset.
pub proof fn lemma_one_upload_for_two_commands(
    font: usize,
    registered: Map<usize, usize>,
    image: usize,
    first: DrawParams,
    second: DrawParams,
)
    requires
        first.idx_offset == 0,
        second.idx_offset != 0,
        spec_resolve(font, registered, first.tex_id) is Ok,
        spec_resolve(font, registered, second.tex_id) is Ok,
    ensures
        ({
            let rendered = spec_render(
                font,
                registered,
                image,
                seq![DrawEvent::Draw(first), DrawEvent::Draw(second)],
            );
            &&& rendered.error is None
            &&& rendered.ops.len() == 2
            &&& rendered.ops[0] == RenderOp::Call(spec_draw_call(font, registered, first))
            &&& spec_draw_call(font, registered, first).binding is Some
            &&& spec_draw_call(font, registered, first).draw is Ok
            &&& rendered.ops[1] == RenderOp::Call(spec_draw_call(font, registered, second))
            &&& spec_draw_call(font, registered, second).binding is None
            &&& spec_draw_call(font, registered, second).draw matches Ok(draw)
            &&& draw.base_element == second.idx_offset
            &&& draw.n_elements == second.n_elems
            &&& rendered.image == draw.image
        }),
{
    let events = seq![DrawEvent::Draw(first), DrawEvent::Draw(second)];
    let bound = spec_draw_call(font, registered, first);
    assert(events.skip(1) =~= seq![DrawEvent::Draw(second)]);
    assert(events.skip(1).skip(1) =~= Seq::<DrawEvent>::empty());
    assert(events.skip(1)[0] == DrawEvent::Draw(second));
    reveal_with_fuel(spec_render, 3);
    let rest = spec_render(font, registered, bound.draw->Ok_0.image, events.skip(1));
    assert(rest.ops.len() == 1);
}

/// A callback is one step of its own and changes nothing of the
/// renderer: what follows it is rendered as if it had not been there. In
/// particular nothing is bound anew after it.
pub proof fn lemma_callback_changes_nothing(
    font: usize,
    registered: Map<usize, usize>,
    image: usize,
    list: usize,
    cmd: usize,
    rest: Seq<DrawEvent>,
)
    ensures
        ({
            let with_callback = spec_render(
                font,
                registered,
                image,
                seq![DrawEvent::Callback { list, cmd }] + rest,
            );
            let without = spec_render(font, registered, image, rest);
            &&& with_callback.ops == seq![RenderOp::Callback { list, cmd }] + without.ops
            &&& with_callback == (Rendered { ops: with_callback.ops, ..without })
        }),
{
    let events = seq![DrawEvent::Callback { list, cmd }] + rest;
    assert(events.skip(1) =~= rest);
}

/// A degenerate frame renders to nothing: no draw call, nothing
/// appended, no error, and the image slot as it was.
pub proof fn lemma_degenerate_frame_renders_nothing(
    font: usize,
    registered: Map<usize, usize>,
    image: usize,
    data: DrawData,
)
    requires
        data.spec_is_degenerate(),
    ensures
        spec_render(font, registered, image, data.spec_events()) == (Rendered {
            ops: Seq::empty(),
            error: None,
            image,
        }),
{
}

#[derive(Debug)]
pub struct ImGuiRokolGfx {
    textures: TextureResolver,
    font_texture: Texture2d,
    /// Image in the fragment shader's first image slot.
    fs_image: usize,
}

impl ImGuiRokolGfx {
    /// The font atlas texture.
    pub closed spec fn font(&self) -> Texture2d {
        self.font_texture
    }

    /// The registered user textures: handle by id.
    pub closed spec fn registered(&self) -> Map<usize, usize> {
        self.textures.registered()
    }

    /// The id that the next registered texture gets.
    pub closed spec fn next_id(&self) -> usize {
        self.textures.next_id()
    }

    /// The image that is bound for drawing.
    pub closed spec fn image(&self) -> usize {
        self.fs_image
    }

    /// The resolver is well-formed and resolves the reserved id to the
    /// font atlas texture of this renderer.
    pub closed spec fn wf(&self) -> bool {
        &&& self.textures.wf()
        &&& self.textures.font() == self.font_texture.img
    }

    /// What a well-formed renderer is known to hold: a registry without
    /// the reserved id.
    pub proof fn lemma_wf(&self)
        requires
            self.wf(),
        ensures
            !self.registered().contains_key(FONT_TEXTURE_ID),
    {
        lemma_font_id_is_never_registered(self.textures);
    }

    /// A renderer around the font atlas texture, which the caller has
    /// created and stored under [`FONT_TEXTURE_ID`]. The image slot starts
    /// out with it.
    pub fn new(font_texture: Texture2d) -> (renderer: Self)
        ensures
            renderer.wf(),
            renderer.font() == font_texture,
            renderer.registered() == spec_no_entries(),
            renderer.next_id() == 0,
            renderer.image() == font_texture.img,
    {
        let image: usize = font_texture.img as usize;
        Self { textures: TextureResolver::new(image), font_texture, fs_image: image }
    }

    /// The font atlas texture.
    pub fn font_texture(&self) -> (texture: &Texture2d)
        ensures
            *texture == self.font(),
    {
        &self.font_texture
    }

    /// The image that is bound for drawing.
    pub fn fs_image(&self) -> (image: usize)
        ensures
            image == self.image(),
    {
        self.fs_image
    }

    /// Registers a user texture and returns the id to draw it with, or
    /// `None` once the ids are used up.
    pub fn register(&mut self, texture: &Texture2d) -> (id: Option<usize>)
        requires
            old(self).wf(),
        ensures
            final(self).wf(),
            final(self).font() == old(self).font(),
            final(self).image() == old(self).image(),
            old(self).next_id() == FONT_TEXTURE_ID ==> id.is_none() && final(self).registered()
                == old(self).registered() && final(self).next_id() == old(self).next_id(),
            old(self).next_id() != FONT_TEXTURE_ID ==> id == Some(old(self).next_id())
                && final(self).registered() == old(self).registered().insert(
                old(self).next_id(),
                texture.img as usize,
            ) && final(self).next_id() == old(self).next_id() + 1,
    {
        self.textures.register(texture.img as usize)
    }

    /// Takes a user texture out of the registry and returns its handle.
    pub fn unregister(&mut self, id: usize) -> (handle: Option<usize>)
        requires
            old(self).wf(),
        ensures
            final(self).wf(),
            final(self).font() == old(self).font(),
            final(self).next_id() == old(self).next_id(),
            final(self).image() == old(self).image(),
            handle == spec_lookup(old(self).registered(), id),
            final(self).registered() == old(self).registered().remove(id),
    {
        self.textures.unregister(id)
    }

    /// The handle of the texture with this id: the font atlas for
    /// [`FONT_TEXTURE_ID`], else what is registered under the id.
    pub fn lookup_texture(&self, tex_id: usize) -> (texture: Option<usize>)
        ensures
            texture == (match spec_resolve(self.font().img as usize, self.registered(), tex_id) {
                Ok(handle) => Some(handle),
                Err(_) => None,
            }),
    {
        if tex_id == FONT_TEXTURE_ID {
            // we didn't store the font texture in `textures`
            Some(self.font_texture.img as usize)
        } else {
            match self.textures.resolve(tex_id) {
                Ok(handle) => Some(handle),
                Err(_) => None,
            }
        }
    }

    /// Compiles one draw command into a draw call. A texture id that does
    /// not resolve fails the draw inside the draw call and leaves the rest
    /// of it standing.
    pub fn draw(&mut self, params: &DrawParams) -> (call: DrawCall)
        requires
            old(self).wf(),
        ensures
            final(self).wf(),
            final(self).font() == old(self).font(),
            final(self).registered() == old(self).registered(),
            final(self).next_id() == old(self).next_id(),
            call == spec_draw_call(old(self).font().img as usize, old(self).registered(), *params),
            final(self).image() == spec_image_after(old(self).image(), call),
    {
        // on first draw call: set states
        let binding: Option<ListBinding> = if params.idx_offset == 0 {
            // 1. append buffers
            // 2. set orthographic projection matrix
            let transform = projection_in_units(&params.display, YAxis::Down, params.unit);
            Some(
                ListBinding {
                    list: params.vtx_buffer.list,
                    n_vertices: params.vtx_buffer.len,
                    n_indices: params.idx_buffer.len,
                    transform,
                },
            )
        } else {
            None
        };

        // 1. scissor
        let scissor = scissor_box_from_origin(
            &params.scissor,
            params.fb_height,
            ScissorOrigin::TopLeft,
        );

        // 2. set texture
        let draw = match self.lookup_texture(params.tex_id) {
            Some(image) => {
                self.fs_image = image;
                // 3. draw
                Ok(
                    ImageDraw {
                        image,
                        base_element: params.idx_offset,
                        n_elements: params.n_elems,
                        n_instances: 1,
                        index_size: INDEX_SIZE,
                    },
                )
            },
            None => Err(ImGuiRendererError::BadTexture(params.tex_id)),
        };
        DrawCall { binding, scissor, draw }
    }

    /// Compiles a whole frame: every command in order, up to the first
    /// error.
    pub fn render(&mut self, draw_data: &DrawData) -> (plan: RenderPlan)
        requires
            old(self).wf(),
        ensures
            final(self).wf(),
            final(self).font() == old(self).font(),
            final(self).registered() == old(self).registered(),
            final(self).next_id() == old(self).next_id(),
            ({
                let rendered = spec_render(
                    old(self).font().img as usize,
                    old(self).registered(),
                    old(self).image(),
                    draw_data.spec_events(),
                );
                &&& plan.ops@ == rendered.ops
                &&& plan.error == rendered.error
                &&& final(self).image() == rendered.image
            }),
    {
        let mut ops: Vec<RenderOp> = Vec::new();
        let mut iter = DrawParamsIterator::new(draw_data);
        let ghost font = self.font().img as usize;
        let ghost registered = self.registered();
        let ghost total = spec_render(font, registered, self.image(), draw_data.spec_events());
        loop
            invariant
                self.wf(),
                iter.wf(),
                self.font() == old(self).font(),
                font == self.font().img as usize,
                self.registered() == registered,
                registered == old(self).registered(),
                self.next_id() == old(self).next_id(),
                total == spec_render(
                    old(self).font().img as usize,
                    old(self).registered(),
                    old(self).image(),
                    draw_data.spec_events(),
                ),
                ({
                    let rest = spec_render(
                        font,
                        registered,
                        self.image(),
                        iter.remaining_events(),
                    );
                    &&& total.ops == ops@ + rest.ops
                    &&& total.error == rest.error
                    &&& total.image == rest.image
                }),
            decreases iter.remaining_events().len(),
        {
            let ghost before = iter.remaining_events();
            let ghost done = ops@;
            let event = match iter.next_event() {
                Some(event) => event,
                None => {
                    return RenderPlan { ops, error: None };
                },
            };
            assert(before[0] == event);
            assert(before.skip(1) =~= iter.remaining_events());
            match event {
                DrawEvent::Draw(params) => {
                    let call = self.draw(&params);
                    ops.push(RenderOp::Call(call));
                    if let Err(e) = call.draw {
                        return RenderPlan { ops, error: Some(e) };
                    }
                    assert(ops@ =~= done + seq![RenderOp::Call(call)]);
                },
                DrawEvent::Unsupported { list, cmd } => {
                    ops.push(RenderOp::Unsupported { list, cmd });
                    assert(ops@ =~= done + seq![RenderOp::Unsupported { list, cmd }]);
                },
                DrawEvent::Callback { list, cmd } => {
                    ops.push(RenderOp::Callback { list, cmd });
                    assert(ops@ =~= done + seq![RenderOp::Callback { list, cmd }]);
                },
            }
        }
    }
}

} // verus!

use imgui_backends::helper::{
    BufferRef, DrawCmd, DrawCmdParams, DrawData, DrawList, DrawParams, ImGuiRendererError, Ratio,
    Rect, ScissorBox,
};
use imgui_backends::renderer::glow::res::{
    Append, Buffer, BufferKind, ElementsDraw, IndexType, Resources, INDEX_SIZE, MAX_BUFFER_BYTES,
    N_QUADS, VERT_SIZE,
};
use imgui_backends::renderer::glow::tex::{Texture, TextureDrop};
use imgui_backends::renderer::glow::{
    DrawCall, ImGuiGlow, ListBinding, TexturedDraw, FONT_TEXTUER_ID,
};
use imgui_backends::renderer::{RenderOp, FONT_TEXTURE_ID};

const FONT: u32 = 7;

fn renderer() -> ImGuiGlow {
    ImGuiGlow::new(Texture::new(FONT))
}

fn params(idx_offset: usize, tex_id: usize) -> DrawParams {
    DrawParams {
        display: Rect { left: 0, top: 600, right: 800, bottom: 0 },
        vtx_buffer: BufferRef { list: 0, len: 800 },
        vtx_offset: 0,
        idx_buffer: BufferRef { list: 0, len: 1200 },
        idx_offset,
        n_elems: 600,
        tex_id,
        scissor: Rect { left: 10, top: 20, right: 110, bottom: 70 },
        fb_width: 800,
        fb_height: 600,
        unit: 1,
    }
}

fn elements(count: usize, texture_id: usize, idx_offset: usize) -> DrawCmd {
    DrawCmd::Elements {
        count,
        cmd_params: DrawCmdParams {
            clip_rect: [0, 0, 800, 600],
            texture_id,
            vtx_offset: 0,
            idx_offset,
        },
    }
}

fn frame(draw_lists: Vec<DrawList>) -> DrawData {
    DrawData {
        display_pos: [0, 0],
        display_size: [800, 600],
        framebuffer_scale: [1, 1],
        unit: 1,
        draw_lists,
    }
}

fn call(op: &RenderOp<DrawCall>) -> &DrawCall {
    match op {
        RenderOp::Call(call) => call,
        other => panic!("not a draw call: {:?}", other),
    }
}

#[test]
fn glow_constants_of_the_resources() {
    assert_eq!(N_QUADS, 2048);
    assert_eq!(VERT_SIZE, 20);
    assert_eq!(INDEX_SIZE, 2);
    assert_eq!(MAX_BUFFER_BYTES, i32::MAX as usize);
    assert_eq!(FONT_TEXTUER_ID, FONT_TEXTURE_ID);
}

#[test]
fn glow_texture_keeps_its_id() {
    assert_eq!(TextureDrop::new(5).id(), 5);
    assert_eq!(Texture::new(5).id(), 5);
    assert_eq!(Texture::new(u32::MAX).id(), u32::MAX);
    assert_eq!(Texture::new(0).id(), 0);
}

#[test]
fn glow_buffer_starts_empty_with_its_byte_capacity() {
    let buffer = Buffer::new(BufferKind::Array, 20, 100);
    assert_eq!(
        buffer,
        Buffer {
            kind: BufferKind::Array,
            elem_size: 20,
            len_bytes: 0,
            capacity_bytes: 2000,
            bound_bytes: 0,
        }
    );
    let buffer = Buffer::new(BufferKind::ElementArray, 2, 0);
    assert_eq!(
        buffer,
        Buffer {
            kind: BufferKind::ElementArray,
            elem_size: 2,
            len_bytes: 0,
            capacity_bytes: 0,
            bound_bytes: 0,
        }
    );
    // the largest buffer there is
    let buffer = Buffer::new(BufferKind::Array, 2, 1073741823);
    assert_eq!(buffer.capacity_bytes, i32::MAX - 1);
}

#[test]
fn glow_append_writes_behind_what_the_buffer_holds() {
    let mut buffer = Buffer::new(BufferKind::Array, 20, 100);
    assert_eq!(buffer.append(30), Ok(Append { realloc: None, offset_bytes: 0, count: 30 }));
    assert_eq!((buffer.bound_bytes, buffer.len_bytes), (0, 600));
    assert_eq!(buffer.append(0), Ok(Append { realloc: None, offset_bytes: 600, count: 0 }));
    assert_eq!((buffer.bound_bytes, buffer.len_bytes), (600, 600));
    assert_eq!(buffer.append(70), Ok(Append { realloc: None, offset_bytes: 600, count: 70 }));
    assert_eq!((buffer.bound_bytes, buffer.len_bytes), (600, 2000));
    assert_eq!(buffer.capacity_bytes, 2000);
}

#[test]
fn glow_fits_tells_whether_data_goes_in() {
    let mut buffer = Buffer::new(BufferKind::Array, 20, 100);
    assert!(buffer.fits(0));
    assert!(buffer.fits(100));
    assert!(!buffer.fits(101));
    assert!(!buffer.fits(usize::MAX));
    buffer.append(30).unwrap();
    assert!(buffer.fits(70));
    assert!(!buffer.fits(71));
    buffer.append(70).unwrap();
    assert!(buffer.fits(0));
    assert!(!buffer.fits(1));
}

#[test]
fn glow_reset_offset_empties_the_buffer() {
    let mut buffer = Buffer::new(BufferKind::ElementArray, 2, 100);
    buffer.append(40).unwrap();
    buffer.append(60).unwrap();
    assert_eq!((buffer.bound_bytes, buffer.len_bytes), (80, 200));
    buffer.reset_offset();
    assert_eq!(
        buffer,
        Buffer {
            kind: BufferKind::ElementArray,
            elem_size: 2,
            len_bytes: 0,
            capacity_bytes: 200,
            bound_bytes: 0,
        }
    );
    assert!(buffer.fits(100));
}

#[test]
fn glow_resources_start_with_empty_buffers_and_no_texture() {
    let res = Resources::new();
    assert_eq!(
        res,
        Resources {
            vbuf: Buffer {
                kind: BufferKind::Array,
                elem_size: 20,
                len_bytes: 0,
                capacity_bytes: 3276800,
                bound_bytes: 0,
            },
            ibuf: Buffer {
                kind: BufferKind::ElementArray,
                elem_size: 2,
                len_bytes: 0,
                capacity_bytes: 49152,
                bound_bytes: 0,
            },
            tex: None,
        }
    );
}

#[test]
fn glow_resources_append_and_reset() {
    let mut res = Resources::new();
    assert_eq!(res.append_vbuf(10), Ok(Append { realloc: None, offset_bytes: 0, count: 10 }));
    assert_eq!(res.append_ibuf(15), Ok(Append { realloc: None, offset_bytes: 0, count: 15 }));
    assert_eq!(res.append_vbuf(1), Ok(Append { realloc: None, offset_bytes: 200, count: 1 }));
    assert_eq!(res.append_ibuf(1), Ok(Append { realloc: None, offset_bytes: 30, count: 1 }));
    // 24577 indices are one more than the index buffer holds
    assert_eq!(
        res.append_ibuf(24577),
        Ok(Append { realloc: Some(49156), offset_bytes: 0, count: 24577 })
    );
    assert_eq!((res.ibuf.capacity_bytes, res.ibuf.len_bytes), (49156, 49154));
    assert_eq!(res.append_vbuf(usize::MAX), Err(ImGuiRendererError::BackendAllocationFailure));
    assert_eq!((res.vbuf.capacity_bytes, res.vbuf.len_bytes), (3276800, 220));
    res.reset_buf_offsets();
    res.append_vbuf(10).unwrap();
    res.append_ibuf(15).unwrap();
    res.append_vbuf(1).unwrap();
    res.append_ibuf(1).unwrap();
    res.set_texture(9);
    assert_eq!(res.tex, Some(9));
    assert_eq!((res.vbuf.bound_bytes, res.ibuf.bound_bytes), (200, 30));
    res.reset_buf_offsets();
    assert_eq!((res.vbuf.bound_bytes, res.vbuf.len_bytes), (0, 0));
    assert_eq!((res.ibuf.bound_bytes, res.ibuf.len_bytes), (0, 0));
    assert_eq!(res.tex, Some(9));
    assert_eq!(res.vbuf.capacity_bytes, 3276800);
    assert_eq!(res.ibuf.capacity_bytes, 49156);
}

#[test]
fn glow_elements_draw_uses_sixteen_bit_indices() {
    let mut res = Resources::new();
    assert_eq!(
        res.draw(600, 1200, 800),
        ElementsDraw {
            count: 600,
            index_type: IndexType::UnsignedShort,
            vertices_at: 0,
            indices_at: 0,
            first_index: 1200,
            first_index_at: 2400,
            base_vertex: 800,
        }
    );
    res.append_vbuf(4).unwrap();
    res.append_ibuf(6).unwrap();
    res.append_vbuf(8).unwrap();
    res.append_ibuf(12).unwrap();
    assert_eq!(
        res.draw(6, 6, 4),
        ElementsDraw {
            count: 6,
            index_type: IndexType::UnsignedShort,
            vertices_at: 80,
            indices_at: 12,
            first_index: 6,
            first_index_at: 24,
            base_vertex: 4,
        }
    );
}

#[test]
fn glow_elements_draw_uses_wider_indices_where_the_index_buffer_has_them() {
    let mut res = Resources::new();
    res.ibuf = Buffer::new(BufferKind::ElementArray, 4, 100);
    assert_eq!(res.draw(6, 0, 0).index_type, IndexType::UnsignedInt);
    assert_eq!(res.draw(6, 5, 0).first_index_at, 20);
    assert_eq!(
        res.draw(6, usize::MAX, 0).first_index_at,
        4 * (usize::MAX as u128)
    );
}

#[test]
fn glow_renderer_starts_with_the_font_texture_bound() {
    let renderer = renderer();
    assert_eq!(renderer.font_texture().id(), FONT);
    assert_eq!(renderer.resources().tex, Some(7));
    assert_eq!(renderer.resources().vbuf.len_bytes, 0);
    assert_eq!(renderer.lookup_texture(FONT_TEXTURE_ID), Some(7));
    assert_eq!(renderer.lookup_texture(0), None);
}

#[test]
fn glow_lookup_finds_font_and_registered_textures() {
    let mut renderer = renderer();
    assert_eq!(renderer.register(&Texture::new(31)), Some(0));
    assert_eq!(renderer.register(&Texture::new(32)), Some(1));
    assert_eq!(renderer.lookup_texture(0), Some(31));
    assert_eq!(renderer.lookup_texture(1), Some(32));
    assert_eq!(renderer.lookup_texture(2), None);
    assert_eq!(renderer.lookup_texture(FONT_TEXTURE_ID), Some(7));
    assert_eq!(renderer.unregister(1), Some(32));
    assert_eq!(renderer.lookup_texture(1), None);
    assert_eq!(renderer.unregister(1), None);
}

#[test]
fn glow_first_command_of_a_list_appends_the_list() {
    let mut renderer = renderer();
    let zero = Ratio { num: 0, den: 1 };
    let call = renderer.draw(&params(0, FONT_TEXTURE_ID)).unwrap();
    assert_eq!(
        call,
        DrawCall {
            binding: Some(ListBinding {
                list: 0,
                vertices: Append { realloc: None, offset_bytes: 0, count: 800 },
                indices: Append { realloc: None, offset_bytes: 0, count: 1200 },
                transform: [
                    Ratio { num: 2, den: 800 },
                    zero,
                    zero,
                    zero,
                    zero,
                    // top and bottom of the display change places
                    Ratio { num: 2, den: -600 },
                    zero,
                    zero,
                    zero,
                    zero,
                    Ratio { num: -2, den: 1 },
                    zero,
                    Ratio { num: -800, den: 800 },
                    Ratio { num: -600, den: -600 },
                    Ratio { num: -1, den: 1 },
                    Ratio { num: 1, den: 1 },
                ],
            }),
            // measured up from the lower edge of the framebuffer
            scissor: ScissorBox { x: 10, y: 530, width: 100, height: 50 },
            draw: Ok(TexturedDraw {
                texture: 7,
                elements: ElementsDraw {
                    count: 600,
                    index_type: IndexType::UnsignedShort,
                    vertices_at: 0,
                    indices_at: 0,
                    first_index: 0,
                    first_index_at: 0,
                    base_vertex: 0,
                },
            }),
        }
    );
    assert_eq!(renderer.resources().vbuf.len_bytes, 16000);
    assert_eq!(renderer.resources().ibuf.len_bytes, 2400);
}

#[test]
fn glow_later_command_of_a_list_appends_nothing() {
    let mut renderer = renderer();
    let mut p = params(600, FONT_TEXTURE_ID);
    p.vtx_offset = 400;
    let call = renderer.draw(&p).unwrap();
    assert_eq!(call.binding, None);
    assert_eq!(
        call.draw.map(|d| d.elements),
        Ok(ElementsDraw {
            count: 600,
            index_type: IndexType::UnsignedShort,
            vertices_at: 0,
            indices_at: 0,
            first_index: 600,
            first_index_at: 1200,
            base_vertex: 400,
        })
    );
    assert_eq!(renderer.resources().vbuf.len_bytes, 0);
    assert_eq!(renderer.resources().ibuf.len_bytes, 0);
}

#[test]
fn glow_lists_of_a_frame_are_appended_one_behind_the_other() {
    let mut renderer = renderer();
    let first = renderer.draw(&params(0, FONT_TEXTURE_ID)).unwrap().binding.unwrap();
    let mut of_second_list = params(0, FONT_TEXTURE_ID);
    of_second_list.vtx_buffer.list = 1;
    of_second_list.idx_buffer.list = 1;
    let second = renderer.draw(&of_second_list).unwrap();
    assert_eq!(first.list, 0);
    assert_eq!(first.vertices, Append { realloc: None, offset_bytes: 0, count: 800 });
    let bound = second.binding.unwrap();
    assert_eq!(bound.list, 1);
    assert_eq!(bound.vertices, Append { realloc: None, offset_bytes: 16000, count: 800 });
    assert_eq!(bound.indices, Append { realloc: None, offset_bytes: 2400, count: 1200 });
    // the draws of the second list count from where it was appended
    let elements = second.draw.unwrap().elements;
    assert_eq!((elements.vertices_at, elements.indices_at), (16000, 2400));
    of_second_list.idx_offset = 600;
    let elements = renderer.draw(&of_second_list).unwrap().draw.unwrap().elements;
    assert_eq!((elements.vertices_at, elements.indices_at), (16000, 2400));
    assert_eq!((elements.first_index, elements.base_vertex), (600, 0));
    assert_eq!(elements.first_index_at, 3600);
    renderer.before_render();
    let third = renderer.draw(&params(0, FONT_TEXTURE_ID)).unwrap().binding.unwrap();
    assert_eq!(third.vertices, Append { realloc: None, offset_bytes: 0, count: 800 });
    assert_eq!(third.indices, Append { realloc: None, offset_bytes: 0, count: 1200 });
}

#[test]
fn glow_drawn_texture_stays_in_the_texture_slot() {
    let mut renderer = renderer();
    assert_eq!(renderer.register(&Texture::new(31)), Some(0));
    assert_eq!(renderer.draw(&params(6, 0)).unwrap().draw.map(|d| d.texture), Ok(31));
    assert_eq!(renderer.resources().tex, Some(31));
    assert_eq!(
        renderer.draw(&params(6, 3)).unwrap().draw,
        Err(ImGuiRendererError::BadTexture(3))
    );
    assert_eq!(renderer.resources().tex, Some(31));
    assert_eq!(renderer.draw(&params(6, FONT_TEXTURE_ID)).unwrap().draw.map(|d| d.texture), Ok(7));
    assert_eq!(renderer.resources().tex, Some(7));
}

#[test]
fn glow_bad_texture_fails_the_draw_but_not_the_binding() {
    let mut renderer = renderer();
    let call = renderer.draw(&params(0, 5)).unwrap();
    assert_eq!(call.draw, Err(ImGuiRendererError::BadTexture(5)));
    assert_eq!(call.scissor, ScissorBox { x: 10, y: 530, width: 100, height: 50 });
    assert!(call.binding.is_some());
    assert_eq!(renderer.resources().vbuf.len_bytes, 16000);
}

#[test]
fn glow_append_beyond_capacity_grows_the_buffer_once_to_fit() {
    let mut buffer = Buffer::new(BufferKind::Array, 20, 100);
    // exactly as large as the buffer
    assert_eq!(buffer.append(100), Ok(Append { realloc: None, offset_bytes: 0, count: 100 }));
    buffer.reset_offset();
    // one vertex too many: room for it and one vertex more, filled from the start
    assert_eq!(
        buffer.append(101),
        Ok(Append { realloc: Some(2040), offset_bytes: 0, count: 101 })
    );
    assert_eq!(
        buffer,
        Buffer {
            kind: BufferKind::Array,
            elem_size: 20,
            len_bytes: 2020,
            capacity_bytes: 2040,
            bound_bytes: 0,
        }
    );
    // in the next frame the same data fits, and one vertex more
    buffer.reset_offset();
    assert_eq!(buffer.append(101), Ok(Append { realloc: None, offset_bytes: 0, count: 101 }));
    buffer.reset_offset();
    assert_eq!(buffer.append(102), Ok(Append { realloc: None, offset_bytes: 0, count: 102 }));
    assert_eq!(buffer.capacity_bytes, 2040);
    buffer.reset_offset();
    assert_eq!(
        buffer.append(103),
        Ok(Append { realloc: Some(2080), offset_bytes: 0, count: 103 })
    );
}

#[test]
fn glow_append_that_does_not_fit_behind_starts_over() {
    let mut buffer = Buffer::new(BufferKind::Array, 20, 100);
    assert_eq!(buffer.append(60), Ok(Append { realloc: None, offset_bytes: 0, count: 60 }));
    // fits in the buffer, but not behind what it holds: no new buffer
    assert_eq!(buffer.append(41), Ok(Append { realloc: None, offset_bytes: 0, count: 41 }));
    assert_eq!((buffer.bound_bytes, buffer.len_bytes, buffer.capacity_bytes), (0, 820, 2000));
    assert_eq!(buffer.append(59), Ok(Append { realloc: None, offset_bytes: 820, count: 59 }));
    assert_eq!((buffer.bound_bytes, buffer.len_bytes, buffer.capacity_bytes), (820, 2000, 2000));
    // fits neither behind nor in the buffer: a new buffer
    assert_eq!(
        buffer.append(150),
        Ok(Append { realloc: Some(3020), offset_bytes: 0, count: 150 })
    );
    assert_eq!((buffer.bound_bytes, buffer.len_bytes, buffer.capacity_bytes), (0, 3000, 3020));
}

#[test]
fn glow_append_beyond_what_the_backend_allocates_fails_and_changes_nothing() {
    let mut buffer = Buffer::new(BufferKind::Array, 20, 100);
    buffer.append(60).unwrap();
    // 20 * (107374181 + 1) = 2147483640 is the last length that fits
    assert_eq!(buffer.append(107374182), Err(ImGuiRendererError::BackendAllocationFailure));
    assert_eq!(buffer.append(usize::MAX), Err(ImGuiRendererError::BackendAllocationFailure));
    assert_eq!((buffer.bound_bytes, buffer.len_bytes, buffer.capacity_bytes), (0, 1200, 2000));
    assert_eq!(
        buffer.append(107374181),
        Ok(Append { realloc: Some(2147483640), offset_bytes: 0, count: 107374181 })
    );
    assert_eq!(
        (buffer.bound_bytes, buffer.len_bytes, buffer.capacity_bytes),
        (0, 2147483620, 2147483640)
    );
}

#[test]
fn glow_list_larger_than_the_buffers_grows_them() {
    let mut renderer = renderer();
    let mut p = params(0, FONT_TEXTURE_ID);
    // 163840 vertices fill the vertex buffer, 24576 indices the index buffer
    p.vtx_buffer.len = 163840;
    p.idx_buffer.len = 24577;
    let binding = renderer.draw(&p).unwrap().binding.unwrap();
    assert_eq!(binding.vertices, Append { realloc: None, offset_bytes: 0, count: 163840 });
    assert_eq!(binding.indices, Append { realloc: Some(49156), offset_bytes: 0, count: 24577 });
    assert_eq!(renderer.resources().vbuf.len_bytes, 3276800);
    assert_eq!(renderer.resources().ibuf.capacity_bytes, 49156);
    assert_eq!(renderer.resources().ibuf.len_bytes, 49154);

    renderer.before_render();
    p.vtx_buffer.len = 163841;
    p.idx_buffer.len = 24577;
    let drawn = renderer.draw(&p).unwrap();
    let binding = drawn.binding.unwrap();
    assert_eq!(binding.vertices, Append { realloc: Some(3276840), offset_bytes: 0, count: 163841 });
    assert_eq!(binding.indices, Append { realloc: None, offset_bytes: 0, count: 24577 });
    assert_eq!(renderer.resources().vbuf.capacity_bytes, 3276840);
    assert!(drawn.draw.is_ok());
}

#[test]
fn glow_list_that_cannot_be_allocated_fails_the_call_and_changes_nothing() {
    let mut renderer = renderer();
    let mut p = params(0, FONT_TEXTURE_ID);
    p.vtx_buffer.len = 200000;
    p.idx_buffer.len = usize::MAX;
    assert_eq!(renderer.draw(&p), Err(ImGuiRendererError::BackendAllocationFailure));
    assert_eq!(renderer.resources().vbuf.capacity_bytes, 3276800);
    assert_eq!(renderer.resources().vbuf.len_bytes, 0);
    assert_eq!(renderer.resources().ibuf.len_bytes, 0);
    p.vtx_buffer.len = usize::MAX;
    p.idx_buffer.len = 6;
    assert_eq!(renderer.draw(&p), Err(ImGuiRendererError::BackendAllocationFailure));
    assert_eq!(renderer.resources().vbuf.len_bytes, 0);
    assert_eq!(renderer.resources().ibuf.len_bytes, 0);
    // it does not matter where nothing is bound
    p.idx_offset = 6;
    assert!(renderer.draw(&p).is_ok());
}

#[test]
fn glow_two_commands_of_one_list_upload_once_and_draw_twice() {
    let mut renderer = renderer();
    assert_eq!(renderer.register(&Texture::new(31)), Some(0));
    let data = frame(vec![DrawList {
        vtx_count: 800,
        idx_count: 1200,
        commands: vec![elements(600, 0, 0), elements(600, 0, 600)],
    }]);
    let plan = renderer.render(&data);
    assert_eq!(plan.error, None);
    assert_eq!(plan.ops.len(), 2);
    let first = call(&plan.ops[0]);
    assert_eq!(
        first.binding.map(|b| (b.vertices, b.indices)),
        Some((Append { realloc: None, offset_bytes: 0, count: 800 }, Append { realloc: None, offset_bytes: 0, count: 1200 }))
    );
    assert_eq!(first.draw.map(|d| (d.texture, d.elements.first_index)), Ok((31, 0)));
    let second = call(&plan.ops[1]);
    assert_eq!(second.binding, None);
    assert_eq!(second.draw.map(|d| (d.texture, d.elements.first_index)), Ok((31, 600)));
    assert_eq!(renderer.resources().vbuf.len_bytes, 16000);
}

#[test]
fn glow_every_frame_starts_with_empty_buffers() {
    let mut renderer = renderer();
    let data = frame(vec![DrawList {
        vtx_count: 100000,
        idx_count: 20000,
        commands: vec![elements(6, FONT_TEXTURE_ID, 0)],
    }]);
    for _ in 0..3 {
        let plan = renderer.render(&data);
        assert_eq!(plan.error, None);
        assert_eq!(
            call(&plan.ops[0]).binding.map(|b| (b.vertices, b.indices)),
            Some((
                Append { realloc: None, offset_bytes: 0, count: 100000 },
                Append { realloc: None, offset_bytes: 0, count: 20000 }
            ))
        );
        assert_eq!(renderer.resources().vbuf.len_bytes, 2000000);
    }
}

#[test]
fn glow_frame_that_fills_the_buffers_starts_them_over() {
    let mut renderer = renderer();
    let list = || DrawList {
        vtx_count: 100000,
        idx_count: 6,
        commands: vec![elements(6, FONT_TEXTURE_ID, 0), DrawCmd::RawCallback],
    };
    let plan = renderer.render(&frame(vec![list(), list()]));
    assert_eq!(plan.error, None);
    assert_eq!(plan.ops.len(), 4);
    assert_eq!(
        call(&plan.ops[0]).binding.map(|b| (b.vertices, b.indices)),
        Some((
            Append { realloc: None, offset_bytes: 0, count: 100000 },
            Append { realloc: None, offset_bytes: 0, count: 6 }
        ))
    );
    assert_eq!(plan.ops[1], RenderOp::Callback { list: 0, cmd: 1 });
    // the second list does not fit behind the first: it goes to the start
    assert_eq!(
        call(&plan.ops[2]).binding.map(|b| (b.vertices, b.indices)),
        Some((
            Append { realloc: None, offset_bytes: 0, count: 100000 },
            Append { realloc: None, offset_bytes: 12, count: 6 }
        ))
    );
    assert_eq!(
        call(&plan.ops[2]).draw.map(|d| (d.elements.vertices_at, d.elements.indices_at)),
        Ok((0, 12))
    );
    assert_eq!(renderer.resources().vbuf.len_bytes, 2000000);
    assert_eq!(renderer.resources().vbuf.capacity_bytes, 3276800);
}

#[test]
fn glow_frame_that_cannot_be_allocated_ends_before_its_draw_call() {
    let mut renderer = renderer();
    let data = frame(vec![
        DrawList { vtx_count: 4, idx_count: 6, commands: vec![elements(6, FONT_TEXTURE_ID, 0)] },
        DrawList {
            vtx_count: usize::MAX,
            idx_count: 6,
            commands: vec![elements(6, FONT_TEXTURE_ID, 0)],
        },
    ]);
    let plan = renderer.render(&data);
    assert_eq!(plan.error, Some(ImGuiRendererError::BackendAllocationFailure));
    assert_eq!(plan.ops.len(), 1);
    assert_eq!(renderer.resources().vbuf.len_bytes, 80);
}

#[test]
fn glow_bad_texture_ends_the_frame_after_its_draw_call() {
    let mut renderer = renderer();
    let data = frame(vec![DrawList {
        vtx_count: 12,
        idx_count: 18,
        commands: vec![
            DrawCmd::ResetRenderState,
            elements(6, 7, 0),
            elements(6, FONT_TEXTURE_ID, 6),
        ],
    }]);
    let plan = renderer.render(&data);
    assert_eq!(plan.error, Some(ImGuiRendererError::BadTexture(7)));
    assert_eq!(plan.ops.len(), 2);
    assert_eq!(plan.ops[0], RenderOp::Unsupported { list: 0, cmd: 0 });
    assert_eq!(call(&plan.ops[1]).draw, Err(ImGuiRendererError::BadTexture(7)));
    assert!(call(&plan.ops[1]).binding.is_some());
}

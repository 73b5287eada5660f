use imgui_backends::helper::{
    BufferRef, DrawCmd, DrawCmdParams, DrawData, DrawList, DrawParams, ImGuiRendererError,
    ProjectionBounds, Rect, ScissorBox,
};
use imgui_backends::renderer::fna3d::{
    Batch, DrawCall, GpuIndexBuffer, GpuVertexBuffer, ImGuiFna3d, IndexedDraw, ListBinding,
    RcTexture2d, TextureData2d, Upload, INDEX_SIZE, MAX_BUFFER_BYTES, N_QUADS, VERT_SIZE,
};
use imgui_backends::renderer::{RenderOp, FONT_TEXTURE_ID};

const FONT: usize = 0xf00d;

fn renderer() -> ImGuiFna3d {
    ImGuiFna3d::init(RcTexture2d::new(FONT, 512, 256))
}

fn params(idx_offset: usize, tex_id: usize) -> DrawParams {
    DrawParams {
        display: Rect { left: 0, top: 600, right: 800, bottom: 0 },
        vtx_buffer: BufferRef { list: 0, len: 800 },
        vtx_offset: 0,
        idx_buffer: BufferRef { list: 0, len: 1200 },
        idx_offset,
        n_elems: 600,
        tex_id,
        scissor: Rect { left: 10, top: 20, right: 110, bottom: 70 },
        fb_width: 800,
        fb_height: 600,
        unit: 1,
    }
}

fn elements(count: usize, texture_id: usize, idx_offset: usize) -> DrawCmd {
    DrawCmd::Elements {
        count,
        cmd_params: DrawCmdParams {
            clip_rect: [0, 0, 800, 600],
            texture_id,
            vtx_offset: 0,
            idx_offset,
        },
    }
}

fn frame(draw_lists: Vec<DrawList>) -> DrawData {
    DrawData {
        display_pos: [0, 0],
        display_size: [800, 600],
        framebuffer_scale: [1, 1],
        unit: 1,
        draw_lists,
    }
}

fn call(op: &RenderOp<DrawCall>) -> &DrawCall {
    match op {
        RenderOp::Call(call) => call,
        other => panic!("not a draw call: {:?}", other),
    }
}

#[test]
fn fna3d_constants_of_the_batch() {
    assert_eq!(N_QUADS, 8192);
    assert_eq!(VERT_SIZE, 20);
    assert_eq!(INDEX_SIZE, 2);
    assert_eq!(MAX_BUFFER_BYTES, i32::MAX as usize);
}

#[test]
fn fna3d_rc_texture_holds_handle_and_size() {
    let texture = RcTexture2d::new(42, 640, 480);
    assert_eq!(*texture.texture, TextureData2d { raw: 42, w: 640, h: 480 });
    let shared = texture.clone();
    assert_eq!(*shared.texture, *texture.texture);
}

#[test]
fn fna3d_vertex_buffer_starts_with_twenty_bytes_per_vertex() {
    assert_eq!(GpuVertexBuffer::new(0).capacity_in_bytes(), 0);
    assert_eq!(GpuVertexBuffer::new(100).capacity_in_bytes(), 2000);
    assert_eq!(GpuVertexBuffer::new(4 * N_QUADS).capacity_in_bytes(), 655360);
}

#[test]
fn fna3d_index_buffer_starts_with_two_bytes_per_index() {
    assert_eq!(GpuIndexBuffer::new(0).capacity_in_bytes(), 0);
    assert_eq!(GpuIndexBuffer::new(100).capacity_in_bytes(), 200);
    assert_eq!(GpuIndexBuffer::new(6 * N_QUADS).capacity_in_bytes(), 98304);
}

#[test]
fn fna3d_upload_that_fits_reallocates_nothing() {
    let mut buffer = GpuVertexBuffer::new(100);
    assert_eq!(buffer.upload_vertices(0), Ok(Upload { realloc: None, count: 0 }));
    assert_eq!(buffer.upload_vertices(99), Ok(Upload { realloc: None, count: 99 }));
    // exactly as large as the buffer
    assert_eq!(buffer.upload_vertices(100), Ok(Upload { realloc: None, count: 100 }));
    assert_eq!(buffer.capacity_in_bytes(), 2000);
}

#[test]
fn fna3d_upload_larger_than_capacity_reallocates_once_to_fit() {
    let mut buffer = GpuVertexBuffer::new(100);
    // one vertex too many: room for it and one vertex more
    assert_eq!(buffer.upload_vertices(101), Ok(Upload { realloc: Some(2040), count: 101 }));
    assert_eq!(buffer.capacity_in_bytes(), 2040);
    // the same data again, and less data, fit now
    assert_eq!(buffer.upload_vertices(101), Ok(Upload { realloc: None, count: 101 }));
    assert_eq!(buffer.upload_vertices(102), Ok(Upload { realloc: None, count: 102 }));
    assert_eq!(buffer.upload_vertices(3), Ok(Upload { realloc: None, count: 3 }));
    assert_eq!(buffer.capacity_in_bytes(), 2040);
    // more data grows it again
    assert_eq!(buffer.upload_vertices(103), Ok(Upload { realloc: Some(2080), count: 103 }));
    assert_eq!(buffer.capacity_in_bytes(), 2080);
}

#[test]
fn fna3d_index_upload_grows_by_two_bytes_per_index() {
    let mut buffer = GpuIndexBuffer::new(100);
    assert_eq!(buffer.upload_indices(100), Ok(Upload { realloc: None, count: 100 }));
    assert_eq!(buffer.upload_indices(101), Ok(Upload { realloc: Some(204), count: 101 }));
    assert_eq!(buffer.capacity_in_bytes(), 204);
    assert_eq!(buffer.upload_indices(102), Ok(Upload { realloc: None, count: 102 }));
    assert_eq!(buffer.upload_indices(103), Ok(Upload { realloc: Some(208), count: 103 }));
}

#[test]
fn fna3d_upload_beyond_what_the_backend_allocates_fails_and_changes_nothing() {
    let mut buffer = GpuVertexBuffer::new(100);
    // 20 * (107374181 + 1) = 2147483640 is the last length that fits
    assert_eq!(
        buffer.upload_vertices(107374181),
        Ok(Upload { realloc: Some(2147483640), count: 107374181 })
    );
    let mut buffer = GpuVertexBuffer::new(100);
    assert_eq!(
        buffer.upload_vertices(107374182),
        Err(ImGuiRendererError::BackendAllocationFailure)
    );
    assert_eq!(buffer.upload_vertices(usize::MAX), Err(ImGuiRendererError::BackendAllocationFailure));
    assert_eq!(buffer.capacity_in_bytes(), 2000);

    let mut buffer = GpuIndexBuffer::new(100);
    assert_eq!(
        buffer.upload_indices(1073741822),
        Ok(Upload { realloc: Some(2147483646), count: 1073741822 })
    );
    let mut buffer = GpuIndexBuffer::new(100);
    assert_eq!(buffer.upload_indices(1073741823), Err(ImGuiRendererError::BackendAllocationFailure));
    assert_eq!(buffer.upload_indices(usize::MAX), Err(ImGuiRendererError::BackendAllocationFailure));
    assert_eq!(buffer.capacity_in_bytes(), 200);
}

#[test]
fn fna3d_batch_uploads_vertices_and_indices() {
    let mut batch = Batch::new();
    assert_eq!(batch.vertex_capacity_in_bytes(), 655360);
    assert_eq!(batch.index_capacity_in_bytes(), 98304);
    assert_eq!(
        batch.set_buffers(32768, 49152),
        Ok((Upload { realloc: None, count: 32768 }, Upload { realloc: None, count: 49152 }))
    );
    assert_eq!(
        batch.set_buffers(32769, 49152),
        Ok((Upload { realloc: Some(655400), count: 32769 }, Upload { realloc: None, count: 49152 }))
    );
    assert_eq!(
        batch.set_buffers(10, 49153),
        Ok((Upload { realloc: None, count: 10 }, Upload { realloc: Some(98308), count: 49153 }))
    );
    assert_eq!(batch.vertex_capacity_in_bytes(), 655400);
    assert_eq!(batch.index_capacity_in_bytes(), 98308);
}

#[test]
fn fna3d_batch_keeps_both_buffers_when_either_upload_fails() {
    let mut batch = Batch::new();
    assert_eq!(
        batch.set_buffers(40000, usize::MAX),
        Err(ImGuiRendererError::BackendAllocationFailure)
    );
    assert_eq!(batch.vertex_capacity_in_bytes(), 655360);
    assert_eq!(batch.index_capacity_in_bytes(), 98304);
    assert_eq!(
        batch.set_buffers(usize::MAX, 60000),
        Err(ImGuiRendererError::BackendAllocationFailure)
    );
    assert_eq!(batch.vertex_capacity_in_bytes(), 655360);
    assert_eq!(batch.index_capacity_in_bytes(), 98304);
}

#[test]
fn fna3d_renderer_starts_with_font_texture_and_batch() {
    let renderer = renderer();
    assert_eq!(*renderer.font_texture(), TextureData2d { raw: FONT, w: 512, h: 256 });
    assert_eq!(renderer.vertex_capacity_in_bytes(), 655360);
    assert_eq!(renderer.index_capacity_in_bytes(), 98304);
}

#[test]
fn fna3d_first_command_of_a_list_binds_the_list() {
    let mut renderer = renderer();
    let call = renderer.draw(&params(0, FONT_TEXTURE_ID)).unwrap();
    assert_eq!(
        call,
        DrawCall {
            binding: Some(ListBinding {
                list: 0,
                vertices: Upload { realloc: None, count: 800 },
                indices: Upload { realloc: None, count: 1200 },
                // top and bottom of the display change places
                projection: ProjectionBounds {
                    left: 0,
                    right: 800,
                    bottom: 600,
                    top: 0,
                    near: 0,
                    far: 1,
                },
                unit: 1,
            }),
            scissor: ScissorBox { x: 10, y: 20, width: 100, height: 50 },
            draw: Ok(IndexedDraw {
                texture: FONT,
                base_vertex: 0,
                n_vertices: 400,
                start_index: 0,
                n_triangles: 200,
                index_size: 2,
            }),
        }
    );
}

#[test]
fn fna3d_later_command_of_a_list_binds_nothing() {
    let mut renderer = renderer();
    let mut p = params(600, FONT_TEXTURE_ID);
    p.vtx_offset = 400;
    // would have to grow, were it bound
    p.vtx_buffer.len = 100000;
    let call = renderer.draw(&p).unwrap();
    assert_eq!(call.binding, None);
    assert_eq!(
        call.draw,
        Ok(IndexedDraw {
            texture: FONT,
            base_vertex: 400,
            n_vertices: 400,
            start_index: 600,
            n_triangles: 200,
            index_size: 2,
        })
    );
    assert_eq!(renderer.vertex_capacity_in_bytes(), 655360);
}

#[test]
fn fna3d_vertex_and_triangle_counts_round_down() {
    let mut renderer = renderer();
    for (n_elems, n_vertices, n_triangles) in
        [(0, 0, 0), (1, 0, 0), (2, 1, 0), (3, 2, 1), (4, 2, 1), (5, 3, 1), (6, 4, 2), (7, 4, 2)]
    {
        let mut p = params(6, FONT_TEXTURE_ID);
        p.n_elems = n_elems;
        let draw = renderer.draw(&p).unwrap().draw.unwrap();
        assert_eq!((draw.n_vertices, draw.n_triangles), (n_vertices, n_triangles));
    }
    let mut p = params(6, FONT_TEXTURE_ID);
    p.n_elems = usize::MAX;
    let draw = renderer.draw(&p).unwrap().draw.unwrap();
    assert_eq!(draw.n_triangles, usize::MAX / 3);
    assert_eq!(draw.n_vertices as u128, usize::MAX as u128 * 2 / 3);
}

#[test]
fn fna3d_binding_grows_the_buffers_exactly_once() {
    let mut renderer = renderer();
    let mut p = params(0, FONT_TEXTURE_ID);
    p.vtx_buffer.len = 40000;
    p.idx_buffer.len = 60000;
    let binding = renderer.draw(&p).unwrap().binding.unwrap();
    assert_eq!(binding.vertices, Upload { realloc: Some(800020), count: 40000 });
    assert_eq!(binding.indices, Upload { realloc: Some(120002), count: 60000 });
    assert_eq!(renderer.vertex_capacity_in_bytes(), 800020);
    assert_eq!(renderer.index_capacity_in_bytes(), 120002);
    let binding = renderer.draw(&p).unwrap().binding.unwrap();
    assert_eq!(binding.vertices, Upload { realloc: None, count: 40000 });
    assert_eq!(binding.indices, Upload { realloc: None, count: 60000 });
}

#[test]
fn fna3d_registered_texture_is_drawn_with_its_handle() {
    let mut renderer = renderer();
    assert_eq!(renderer.register(&RcTexture2d::new(111, 8, 8)), Some(0));
    assert_eq!(renderer.register(&RcTexture2d::new(222, 8, 8)), Some(1));
    assert_eq!(renderer.draw(&params(6, 1)).unwrap().draw.unwrap().texture, 222);
    assert_eq!(renderer.draw(&params(6, 0)).unwrap().draw.unwrap().texture, 111);
    assert_eq!(renderer.unregister(0), Some(111));
    assert_eq!(
        renderer.draw(&params(6, 0)).unwrap().draw,
        Err(ImGuiRendererError::BadTexture(0))
    );
    assert_eq!(*renderer.font_texture(), TextureData2d { raw: FONT, w: 512, h: 256 });
}

#[test]
fn fna3d_bad_texture_fails_the_draw_but_not_the_binding() {
    let mut renderer = renderer();
    let mut p = params(0, 5);
    p.vtx_buffer.len = 40000;
    let call = renderer.draw(&p).unwrap();
    assert_eq!(call.draw, Err(ImGuiRendererError::BadTexture(5)));
    assert_eq!(call.scissor, ScissorBox { x: 10, y: 20, width: 100, height: 50 });
    assert_eq!(
        call.binding.map(|b| b.vertices),
        Some(Upload { realloc: Some(800020), count: 40000 })
    );
    assert_eq!(renderer.vertex_capacity_in_bytes(), 800020);
}

#[test]
fn fna3d_geometry_that_cannot_be_allocated_fails_the_call() {
    let mut renderer = renderer();
    let mut p = params(0, FONT_TEXTURE_ID);
    p.idx_buffer.len = usize::MAX;
    assert_eq!(renderer.draw(&p), Err(ImGuiRendererError::BackendAllocationFailure));
    assert_eq!(renderer.vertex_capacity_in_bytes(), 655360);
    assert_eq!(renderer.index_capacity_in_bytes(), 98304);
    // it does not matter where nothing is bound
    p.idx_offset = 6;
    assert!(renderer.draw(&p).is_ok());
}

#[test]
fn fna3d_two_commands_of_one_list_upload_once_and_draw_twice() {
    let mut renderer = renderer();
    assert_eq!(renderer.register(&RcTexture2d::new(111, 8, 8)), Some(0));
    let data = frame(vec![DrawList {
        vtx_count: 800,
        idx_count: 1200,
        commands: vec![elements(600, 0, 0), elements(600, 0, 600)],
    }]);
    let plan = renderer.render(&data);
    assert_eq!(plan.error, None);
    assert_eq!(plan.ops.len(), 2);

    let first = call(&plan.ops[0]);
    assert_eq!(
        first.binding.map(|b| (b.vertices, b.indices)),
        Some((Upload { realloc: None, count: 800 }, Upload { realloc: None, count: 1200 }))
    );
    assert_eq!(
        first.draw,
        Ok(IndexedDraw {
            texture: 111,
            base_vertex: 0,
            n_vertices: 400,
            start_index: 0,
            n_triangles: 200,
            index_size: 2,
        })
    );

    let second = call(&plan.ops[1]);
    assert_eq!(second.binding, None);
    assert_eq!(
        second.draw,
        Ok(IndexedDraw {
            texture: 111,
            base_vertex: 0,
            n_vertices: 400,
            start_index: 600,
            n_triangles: 200,
            index_size: 2,
        })
    );
}

#[test]
fn fna3d_callback_between_commands_does_not_bind_again() {
    let mut renderer = renderer();
    let data = frame(vec![DrawList {
        vtx_count: 800,
        idx_count: 1200,
        commands: vec![
            elements(600, FONT_TEXTURE_ID, 0),
            DrawCmd::RawCallback,
            elements(600, FONT_TEXTURE_ID, 600),
        ],
    }]);
    let plan = renderer.render(&data);
    assert_eq!(plan.error, None);
    assert_eq!(plan.ops.len(), 3);
    assert!(call(&plan.ops[0]).binding.is_some());
    assert_eq!(plan.ops[1], RenderOp::Callback { list: 0, cmd: 1 });
    assert_eq!(call(&plan.ops[2]).binding, None);
    assert_eq!(call(&plan.ops[2]).draw.map(|d| d.start_index), Ok(600));
}

#[test]
fn fna3d_unsupported_command_is_reported_and_skipped() {
    let mut renderer = renderer();
    let data = frame(vec![DrawList {
        vtx_count: 4,
        idx_count: 6,
        commands: vec![DrawCmd::ResetRenderState, elements(6, FONT_TEXTURE_ID, 0)],
    }]);
    let plan = renderer.render(&data);
    assert_eq!(plan.error, None);
    assert_eq!(plan.ops.len(), 2);
    assert_eq!(plan.ops[0], RenderOp::Unsupported { list: 0, cmd: 0 });
    assert!(call(&plan.ops[1]).draw.is_ok());
}

#[test]
fn fna3d_every_list_is_bound_with_its_own_geometry() {
    let mut renderer = renderer();
    let data = frame(vec![
        DrawList { vtx_count: 40000, idx_count: 6, commands: vec![elements(6, FONT_TEXTURE_ID, 0)] },
        DrawList { vtx_count: 4, idx_count: 60000, commands: vec![elements(6, FONT_TEXTURE_ID, 0)] },
    ]);
    let plan = renderer.render(&data);
    assert_eq!(plan.error, None);
    assert_eq!(plan.ops.len(), 2);
    assert_eq!(
        call(&plan.ops[0]).binding.map(|b| (b.list, b.vertices, b.indices)),
        Some((0, Upload { realloc: Some(800020), count: 40000 }, Upload { realloc: None, count: 6 }))
    );
    assert_eq!(
        call(&plan.ops[1]).binding.map(|b| (b.list, b.vertices, b.indices)),
        Some((1, Upload { realloc: None, count: 4 }, Upload { realloc: Some(120002), count: 60000 }))
    );
    assert_eq!(renderer.vertex_capacity_in_bytes(), 800020);
    assert_eq!(renderer.index_capacity_in_bytes(), 120002);
}

#[test]
fn fna3d_bad_texture_ends_the_frame_after_its_draw_call() {
    let mut renderer = renderer();
    let data = frame(vec![DrawList {
        vtx_count: 12,
        idx_count: 18,
        commands: vec![
            elements(6, FONT_TEXTURE_ID, 0),
            elements(6, 7, 6),
            elements(6, FONT_TEXTURE_ID, 12),
        ],
    }]);
    let plan = renderer.render(&data);
    assert_eq!(plan.error, Some(ImGuiRendererError::BadTexture(7)));
    assert_eq!(plan.ops.len(), 2);
    assert!(call(&plan.ops[0]).draw.is_ok());
    assert_eq!(call(&plan.ops[1]).draw, Err(ImGuiRendererError::BadTexture(7)));
}

#[test]
fn fna3d_allocation_failure_ends_the_frame_before_its_draw_call() {
    let mut renderer = renderer();
    let data = frame(vec![
        DrawList { vtx_count: 4, idx_count: 6, commands: vec![elements(6, FONT_TEXTURE_ID, 0)] },
        DrawList {
            vtx_count: usize::MAX,
            idx_count: 6,
            commands: vec![elements(6, FONT_TEXTURE_ID, 0)],
        },
    ]);
    let plan = renderer.render(&data);
    assert_eq!(plan.error, Some(ImGuiRendererError::BackendAllocationFailure));
    assert_eq!(plan.ops.len(), 1);
}

#[test]
fn fna3d_degenerate_frame_renders_to_nothing() {
    let mut renderer = renderer();
    let mut data = frame(vec![DrawList {
        vtx_count: 40000,
        idx_count: 6,
        commands: vec![elements(6, 99, 0)],
    }]);
    data.display_size = [0, 600];
    let plan = renderer.render(&data);
    assert_eq!(plan.error, None);
    assert_eq!(plan.ops, vec![]);
    assert_eq!(renderer.vertex_capacity_in_bytes(), 655360);
}

//! GPU resources

use vstd::prelude::*;
use crate::helper::ImGuiRendererError;

verus! {

/// Max number of quadliterals
pub const N_QUADS: usize = 2048;

/// Size of a vertex in bytes
pub const VERT_SIZE: usize = 20;

/// Size of an index in bytes
pub const INDEX_SIZE: usize = 2;

/// Largest byte length of a buffer: lengths and offsets are signed 32-bit
/// numbers to the backend.
pub const MAX_BUFFER_BYTES: usize = 0x7fff_ffff;

/// What a buffer object is bound as.
#[derive(Debug, Clone, Copy, PartialEq, Eq, Structural)]
pub enum BufferKind {
    /// Vertex attributes.
    Array,
    /// Vertex indices.
    ElementArray,
}

/// Width of the indices of an indexed draw.
#[derive(Debug, Clone, Copy, PartialEq, Eq, Structural)]
pub enum IndexType {
    UnsignedShort,
    UnsignedInt,
}

/// 16-bit indices unless the index is wider than two bytes.
pub open spec fn spec_index_type(index_size: usize) -> IndexType {
    if index_size <= 2 {
        IndexType::UnsignedShort
    } else {
        IndexType::UnsignedInt
    }
}

/// What the backend has to do with a buffer to take one draw list's data.
#[derive(Debug, Clone, Copy, PartialEq, Eq, Structural)]
pub struct Append {
    /// Byte length of the buffer to allocate in place of the old one,
    /// which is released; `None` where the old one is kept.
    pub realloc: Option<usize>,
    /// Byte offset in the buffer at which the data is written.
    pub offset_bytes: i32,
    /// Number of elements to write.
    pub count: usize,
}

/// Appending `count` elements to a buffer. Data that fits behind what the
/// buffer holds is written there. Data that does not is written from
/// offset zero: into the buffer as it is where the buffer is large enough
/// for it, else into a new buffer of exactly its own size and one element
/// more, unless that is more than the backend can allocate.
pub open spec fn spec_append(buffer: Buffer, count: usize) -> Result<Append, ImGuiRendererError> {
    if buffer.len_bytes + buffer.elem_size * count <= buffer.capacity_bytes {
        Ok(Append { realloc: None, offset_bytes: buffer.len_bytes, count })
    } else if buffer.elem_size * count <= buffer.capacity_bytes {
        Ok(Append { realloc: None, offset_bytes: 0, count })
    } else if buffer.elem_size * (count + 1) <= MAX_BUFFER_BYTES {
        Ok(
            Append {
                realloc: Some((buffer.elem_size * (count + 1)) as usize),
                offset_bytes: 0,
                count,
            },
        )
    } else {
        Err(ImGuiRendererError::BackendAllocationFailure)
    }
}

/// A buffer once an append has been carried out: it has the capacity of
/// the new allocation, if there was one, and is filled up to the end of
/// the data, which starts where it was written.
pub open spec fn spec_after_append(buffer: Buffer, at: Append) -> Buffer {
    Buffer {
        capacity_bytes: match at.realloc {
            Some(bytes) => bytes as i32,
            None => buffer.capacity_bytes,
        },
        bound_bytes: at.offset_bytes,
        len_bytes: (at.offset_bytes + buffer.elem_size * at.count) as i32,
        ..buffer
    }
}

/// A buffer emptied for a new frame.
pub open spec fn spec_reset(buffer: Buffer) -> Buffer {
    Buffer { len_bytes: 0, bound_bytes: 0, ..buffer }
}

/// Data larger than the buffer gets exactly one reallocation, sized to
/// hold it, and is written from offset zero; data that is not larger gets
/// none. The fill level never passes the capacity. Once the buffer has
/// been emptied for the next frame, the same data fits without a
/// reallocation.
pub proof fn lemma_append_growth(buffer: Buffer, count: usize)
    requires
        buffer.wf(),
    ensures
        buffer.spec_fits(count) ==> spec_append(buffer, count) == Ok::<
            Append,
            ImGuiRendererError,
        >(Append { realloc: None, offset_bytes: buffer.len_bytes, count }),
        buffer.elem_size * count <= buffer.capacity_bytes ==> (spec_append(buffer, count) matches Ok(
            at,
        ) && at.realloc is None),
        buffer.elem_size * count > buffer.capacity_bytes ==> match spec_append(buffer, count) {
            Ok(at) => at.realloc == Some((buffer.elem_size * (count + 1)) as usize)
                && at.realloc->0 >= buffer.elem_size * count && at.offset_bytes == 0,
            Err(_) => buffer.elem_size * (count + 1) > MAX_BUFFER_BYTES,
        },
        spec_append(buffer, count) matches Ok(at) ==> spec_after_append(buffer, at).wf()
            && spec_append(spec_reset(spec_after_append(buffer, at)), count) == Ok::<
            Append,
            ImGuiRendererError,
        >(Append { realloc: None, offset_bytes: 0, count }),
{
    assert(buffer.elem_size * (count + 1) == buffer.elem_size * count + buffer.elem_size)
        by (nonlinear_arith);
    assert(buffer.elem_size * count >= 0) by (nonlinear_arith);
}

/// A vertex or index buffer that is filled from the front, draw list
/// after draw list, and emptied once a frame. It grows for a draw list
/// that is larger than itself.
#[derive(Debug, Clone, Copy, PartialEq, Eq, Structural)]
pub struct Buffer {
    // vertex/index buffer
    pub kind: BufferKind,
    pub elem_size: usize,
    pub len_bytes: i32,
    pub capacity_bytes: i32,
    /// Byte offset at which the data appended last starts.
    pub bound_bytes: i32,
}

impl Buffer {
    /// The fill level is within the capacity, and what was appended last
    /// starts within the fill level.
    pub open spec fn wf(&self) -> bool {
        0 <= self.bound_bytes <= self.len_bytes <= self.capacity_bytes
    }

    /// Whether `count` more elements fit behind what the buffer holds.
    pub open spec fn spec_fits(&self, count: usize) -> bool {
        self.len_bytes + self.elem_size * count <= self.capacity_bytes
    }

    /// An empty buffer for `len` elements of `elem_size` bytes. The caller
    /// allocates `capacity_bytes` bytes for it.
    pub fn new(kind: BufferKind, elem_size: usize, len: usize) -> (buffer: Self)
        requires
            elem_size * len < MAX_BUFFER_BYTES,
        ensures
            buffer.wf(),
            buffer == (Buffer {
                kind,
                elem_size,
                len_bytes: 0,
                capacity_bytes: (elem_size * len) as i32,
                bound_bytes: 0,
            }),
    {
        let capacity: u128 = (elem_size as u128) * (len as u128);
        Self { kind, elem_size, len_bytes: 0, capacity_bytes: capacity as i32, bound_bytes: 0 }
    }

    /// Empties the buffer for a new frame. Its capacity stays.
    pub fn reset_offset(&mut self)
        ensures
            *final(self) == spec_reset(*old(self)),
    {
        self.len_bytes = 0;
        self.bound_bytes = 0;
    }

    /// Tells whether `count` more elements fit behind what the buffer
    /// holds.
    pub fn fits(&self, count: usize) -> (fits: bool)
        requires
            self.wf(),
        ensures
            fits == self.spec_fits(count),
    {
        let room: u128 = (self.capacity_bytes - self.len_bytes) as u128;
        assert(self.elem_size * count <= 0xffff_ffff_ffff_ffff * 0xffff_ffff_ffff_ffff)
            by (nonlinear_arith)
            requires
                0 <= self.elem_size <= 0xffff_ffff_ffff_ffff,
                0 <= count <= 0xffff_ffff_ffff_ffff,
        ;
        let needed: u128 = (self.elem_size as u128) * (count as u128);
        needed <= room
    }

    /// Appends `count` elements: says where they are written and whether
    /// the buffer has to be allocated anew for them, and moves the fill
    /// level behind them. On an error nothing changes.
    pub fn append(&mut self, count: usize) -> (at: Result<Append, ImGuiRendererError>)
        requires
            old(self).wf(),
        ensures
            final(self).wf(),
            at == spec_append(*old(self), count),
            *final(self) == (match at {
                Ok(a) => spec_after_append(*old(self), a),
                Err(_) => *old(self),
            }),
    {
        assert(self.elem_size * count <= 0xffff_ffff_ffff_ffff * 0xffff_ffff_ffff_ffff)
            by (nonlinear_arith)
            requires
                0 <= self.elem_size <= 0xffff_ffff_ffff_ffff,
                0 <= count <= 0xffff_ffff_ffff_ffff,
        ;
        let bytes: u128 = (self.elem_size as u128) * (count as u128);
        let room: u128 = (self.capacity_bytes - self.len_bytes) as u128;
        if bytes <= room {
            let at = Append { realloc: None, offset_bytes: self.len_bytes, count };
            self.bound_bytes = self.len_bytes;
            self.len_bytes = self.len_bytes + bytes as i32;
            return Ok(at);
        }
        if bytes <= self.capacity_bytes as u128 {
            self.bound_bytes = 0;
            self.len_bytes = bytes as i32;
            return Ok(Append { realloc: None, offset_bytes: 0, count });
        }
        let grown: u128 = bytes + self.elem_size as u128;
        assert(grown == self.elem_size * (count + 1)) by (nonlinear_arith)
            requires
                grown == self.elem_size * count + self.elem_size,
        ;
        if grown <= MAX_BUFFER_BYTES as u128 {
            self.capacity_bytes = grown as i32;
            self.bound_bytes = 0;
            self.len_bytes = bytes as i32;
            Ok(Append { realloc: Some(grown as usize), offset_bytes: 0, count })
        } else {
            Err(ImGuiRendererError::BackendAllocationFailure)
        }
    }
}

/// The arguments of one indexed draw of triangles.
#[derive(Debug, Clone, Copy, PartialEq, Eq, Structural)]
pub struct ElementsDraw {
    /// Number of indices to draw.
    pub count: usize,
    pub index_type: IndexType,
    /// Byte offset in the vertex buffer at which the vertices of the list
    /// appended last start.
    pub vertices_at: i32,
    /// Byte offset in the index buffer at which the indices of the list
    /// appended last start.
    pub indices_at: i32,
    /// First index to draw, counted in indices from `indices_at`.
    pub first_index: usize,
    /// Byte offset of the first index to draw in the index buffer.
    pub first_index_at: u128,
    /// Vertex that the indices count from, counted from `vertices_at`.
    pub base_vertex: usize,
}

/// GPU resources
#[derive(Debug, Clone, Copy, PartialEq, Eq, Structural)]
pub struct Resources {
    // GPU buffers and texture slot
    pub vbuf: Buffer,
    pub ibuf: Buffer,
    /// We won't free this texture on drop; basically a weak reference
    pub tex: Option<usize>,
}

impl Resources {
    /// Both buffers are well-formed and hold elements of the sizes of a
    /// vertex and of an index.
    pub open spec fn wf(&self) -> bool {
        &&& self.vbuf.wf()
        &&& self.ibuf.wf()
        &&& self.vbuf.elem_size == VERT_SIZE
        &&& self.ibuf.elem_size == INDEX_SIZE
    }

    /// The resources as they are first allocated.
    pub open spec fn spec_new() -> Resources {
        Resources {
            vbuf: Buffer {
                kind: BufferKind::Array,
                elem_size: VERT_SIZE,
                len_bytes: 0,
                capacity_bytes: (VERT_SIZE * (4 * N_QUADS * VERT_SIZE)) as i32,
                bound_bytes: 0,
            },
            ibuf: Buffer {
                kind: BufferKind::ElementArray,
                elem_size: INDEX_SIZE,
                len_bytes: 0,
                capacity_bytes: (INDEX_SIZE * (6 * N_QUADS * INDEX_SIZE)) as i32,
                bound_bytes: 0,
            },
            tex: None,
        }
    }

    /// Bookkeeping for the GPU resources, which the caller allocates.
    pub fn new() -> (res: Self)
        ensures
            res.wf(),
            res == Self::spec_new(),
    {
        let vbuf = Buffer::new(BufferKind::Array, VERT_SIZE, 4 * N_QUADS * VERT_SIZE);
        let ibuf = Buffer::new(BufferKind::ElementArray, INDEX_SIZE, 6 * N_QUADS * INDEX_SIZE);
        Self { vbuf, ibuf, tex: None }
    }

    /// Empties both buffers for a new frame.
    pub fn reset_buf_offsets(&mut self)
        ensures
            *final(self) == (Resources {
                vbuf: spec_reset(old(self).vbuf),
                ibuf: spec_reset(old(self).ibuf),
                ..*old(self)
            }),
    {
        self.vbuf.reset_offset();
        self.ibuf.reset_offset();
    }

    /// Puts a texture into the texture slot.
    pub fn set_texture(&mut self, tex: usize)
        ensures
            *final(self) == (Resources { tex: Some(tex), ..*old(self) }),
    {
        self.tex = Some(tex);
    }

    /// Appends `count` vertices to the vertex buffer, which grows for
    /// them where it has to. On an error nothing changes.
    pub fn append_vbuf(&mut self, count: usize) -> (at: Result<Append, ImGuiRendererError>)
        requires
            old(self).vbuf.wf(),
        ensures
            final(self).vbuf.wf(),
            at == spec_append(old(self).vbuf, count),
            *final(self) == (match at {
                Ok(a) => Resources { vbuf: spec_after_append(old(self).vbuf, a), ..*old(self) },
                Err(_) => *old(self),
            }),
    {
        self.vbuf.append(count)
    }

    /// Appends `count` indices to the index buffer, which grows for them
    /// where it has to. On an error nothing changes.
    pub fn append_ibuf(&mut self, count: usize) -> (at: Result<Append, ImGuiRendererError>)
        requires
            old(self).ibuf.wf(),
        ensures
            final(self).ibuf.wf(),
            at == spec_append(old(self).ibuf, count),
            *final(self) == (match at {
                Ok(a) => Resources { ibuf: spec_after_append(old(self).ibuf, a), ..*old(self) },
                Err(_) => *old(self),
            }),
    {
        self.ibuf.append(count)
    }

    /// The arguments of the draw with these resources.
    pub open spec fn spec_draw(&self, n_elems: usize, idx_offset: usize, vtx_offset: usize) -> ElementsDraw {
        ElementsDraw {
            count: n_elems,
            index_type: spec_index_type(self.ibuf.elem_size),
            vertices_at: self.vbuf.bound_bytes,
            indices_at: self.ibuf.bound_bytes,
            first_index: idx_offset,
            first_index_at: (self.ibuf.bound_bytes + self.ibuf.elem_size * idx_offset) as u128,
            base_vertex: vtx_offset,
        }
    }

    /// The arguments of the draw of `n_elems` indices from `idx_offset`
    /// on, out of the list that was appended last, with the width that the
    /// indices of this index buffer have.
    pub fn draw(&self, n_elems: usize, idx_offset: usize, vtx_offset: usize) -> (draw: ElementsDraw)
        requires
            self.ibuf.wf(),
        ensures
            draw == self.spec_draw(n_elems, idx_offset, vtx_offset),
    {
        assert(self.ibuf.elem_size * idx_offset <= 0xffff_ffff_ffff_ffff * 0xffff_ffff_ffff_ffff)
            by (nonlinear_arith)
            requires
                0 <= self.ibuf.elem_size <= 0xffff_ffff_ffff_ffff,
                0 <= idx_offset <= 0xffff_ffff_ffff_ffff,
        ;
        let first_index_at: u128 = self.ibuf.bound_bytes as u128 + (self.ibuf.elem_size as u128)
            * (idx_offset as u128);
        ElementsDraw {
            count: n_elems,
            index_type: if self.ibuf.elem_size <= 2 {
                IndexType::UnsignedShort
            } else {
                IndexType::UnsignedInt
            },
            vertices_at: self.vbuf.bound_bytes,
            indices_at: self.ibuf.bound_bytes,
            first_index: idx_offset,
            first_index_at,
            base_vertex: vtx_offset,
        }
    }
}

} // verus!

//! Vertex and index buffers: what they hold and the bytes that are uploaded.

use vstd::prelude::*;
use crate::bytes::{cast_u16s, cast_u32s, u16_bytes, u16s_bytes, u32_bytes, u32s_bytes};
use crate::pipeline::IndexFormat;
use crate::vertex::{Vertex, VERTEX_SIZE};

verus! {

/// What a buffer may be used for.
#[derive(Clone, Copy, Debug, PartialEq, Eq)]
pub struct BufferUsages {
    pub map_read: bool,
    pub copy_dst: bool,
    pub vertex: bool,
    pub index: bool,
}

/// The device memory that a buffer asks for.
#[derive(Clone, Copy, Debug, PartialEq, Eq)]
pub struct BufferDescriptor {
    pub size: u64,
    pub usage: BufferUsages,
    pub mapped_at_creation: bool,
}

/// The vertex buffer of one object: the vertices, in the order in which
/// indices refer to them, and the bytes that the device receives for them.
#[derive(Debug, PartialEq, Eq)]
pub struct VertexBuffer {
    vertices: Vec<Vertex>,
    contents: Vec<u8>,
}

/// The index buffer of one object: the 16-bit indices, three for each
/// triangle, and the bytes that the device receives for them.
#[derive(Debug, PartialEq, Eq)]
pub struct IndexBuffer {
    indices: Vec<u16>,
    contents: Vec<u8>,
}

impl View for VertexBuffer {
    type V = Seq<Vertex>;

    closed spec fn view(&self) -> Seq<Vertex> {
        self.vertices@
    }
}

impl View for IndexBuffer {
    type V = Seq<u16>;

    closed spec fn view(&self) -> Seq<u16> {
        self.indices@
    }
}

/// The words of a run of vertices: record after record, five words each.
pub open spec fn vertex_words(vertices: Seq<Vertex>) -> Seq<u32> {
    Seq::new(5 * vertices.len(), |i: int| vertices[i / 5].words()[i % 5])
}

/// The bytes of a vertex buffer: the vertices verbatim, twenty bytes each.
pub open spec fn vertex_bytes(vertices: Seq<Vertex>) -> Seq<u8> {
    u32s_bytes(vertex_words(vertices))
}

/// Use as a vertex buffer and nothing else.
pub open spec fn vertex_usage() -> BufferUsages {
    BufferUsages { map_read: false, copy_dst: false, vertex: true, index: false }
}

/// Use as an index buffer and nothing else.
pub open spec fn index_usage() -> BufferUsages {
    BufferUsages { map_read: false, copy_dst: false, vertex: false, index: true }
}

/// Lays the vertices out as words: record after record, position before texture coordinate.
fn flatten(vertices: &Vec<Vertex>) -> (words: Vec<u32>)
    ensures
        words@ == vertex_words(vertices@),
{
    let mut words: Vec<u32> = Vec::new();
    let mut i: usize = 0;
    while i < vertices.len()
        invariant
            i <= vertices.len(),
            words@.len() == 5 * i,
            forall|k: int| 0 <= k < words@.len() ==> words@[k] == vertices@[k / 5].words()[k % 5],
        decreases vertices.len() - i,
    {
        let vertex = vertices[i];
        let ghost before = words@;
        words.push(vertex.position[0]);
        words.push(vertex.position[1]);
        words.push(vertex.position[2]);
        words.push(vertex.tex_coords[0]);
        words.push(vertex.tex_coords[1]);
        proof {
            assert(words@ =~= before + vertex.words());
            assert forall|k: int| 0 <= k < words@.len() implies words@[k]
                == vertices@[k / 5].words()[k % 5] by {
                if k >= before.len() {
                    assert(k / 5 == i);
                    assert(k % 5 == k - before.len());
                }
            }
        }
        i += 1;
    }
    assert(words@ =~= vertex_words(vertices@));
    words
}

impl VertexBuffer {
    #[verifier::type_invariant]
    spec fn well_formed(self) -> bool {
        self.contents@ == vertex_bytes(self.vertices@)
    }

    /// Makes the buffer of the vertices, which it holds verbatim.
    pub fn new(vertices: Vec<Vertex>) -> (buffer: VertexBuffer)
        ensures
            buffer@ == vertices@,
    {
        let words = flatten(&vertices);
        let contents = cast_u32s(&words);
        VertexBuffer { vertices, contents }
    }

    /// The vertices.
    pub fn vertices(&self) -> (vertices: &Vec<Vertex>)
        ensures
            vertices@ == self@,
    {
        &self.vertices
    }

    /// What the buffer is used for.
    pub fn usage(&self) -> (usage: BufferUsages)
        ensures
            usage == vertex_usage(),
    {
        BufferUsages { map_read: false, copy_dst: false, vertex: true, index: false }
    }

    /// The bytes of the buffer as the device receives them.
    pub fn contents(&self) -> (bytes: &Vec<u8>)
        ensures
            bytes@ == vertex_bytes(self@),
            bytes@.len() == VERTEX_SIZE * self@.len(),
    {
        proof {
            use_type_invariant(self);
        }
        &self.contents
    }
}

impl IndexBuffer {
    #[verifier::type_invariant]
    spec fn well_formed(self) -> bool {
        self.contents@ == u16s_bytes(self.indices@)
    }

    /// Makes the buffer of the indices, which it holds verbatim.
    pub fn new(indices: Vec<u16>) -> (buffer: IndexBuffer)
        ensures
            buffer@ == indices@,
    {
        let contents = cast_u16s(&indices);
        IndexBuffer { indices, contents }
    }

    /// The indices.
    pub fn indices(&self) -> (indices: &Vec<u16>)
        ensures
            indices@ == self@,
    {
        &self.indices
    }

    /// What the buffer is used for.
    pub fn usage(&self) -> (usage: BufferUsages)
        ensures
            usage == index_usage(),
    {
        BufferUsages { map_read: false, copy_dst: false, vertex: false, index: true }
    }

    /// The bytes of the buffer as the device receives them.
    pub fn contents(&self) -> (bytes: &Vec<u8>)
        ensures
            bytes@ == u16s_bytes(self@),
            bytes@.len() == 2 * self@.len(),
    {
        proof {
            use_type_invariant(self);
        }
        &self.contents
    }
}

/// The bytes of a vertex buffer lie where the vertex layout says: the records
/// are one stride apart, and in the record of each vertex the position and the
/// texture coordinate stand at the offsets, and fill the sizes, of their attributes.
pub proof fn lemma_attributes_lie_as_laid_out(vertices: Seq<Vertex>, i: int)
    requires
        0 <= i < vertices.len(),
    ensures
        ({
            let layout = Vertex::layout();
            let record = layout.array_stride * i;
            let position = layout.attributes[0];
            let tex_coords = layout.attributes[1];
            &&& vertex_bytes(vertices).len() == layout.array_stride * vertices.len()
            &&& vertex_bytes(vertices).subrange(
                record + position.offset,
                record + position.offset + position.format.size(),
            ) == u32s_bytes(vertices[i].position@)
            &&& vertex_bytes(vertices).subrange(
                record + tex_coords.offset,
                record + tex_coords.offset + tex_coords.format.size(),
            ) == u32s_bytes(vertices[i].tex_coords@)
        }),
{
    let bytes = vertex_bytes(vertices);
    let words = vertex_words(vertices);
    let vertex = vertices[i];
    assert forall|k: int| 0 <= k < 20 implies #[trigger] bytes[20 * i + k] == u32_bytes(
        vertex.words()[k / 4],
    )[k % 4] by {
        let at = 20 * i + k;
        assert(at / 4 == 5 * i + k / 4);
        assert(at % 4 == k % 4);
        assert((5 * i + k / 4) / 5 == i);
        assert((5 * i + k / 4) % 5 == k / 4);
        assert(words[5 * i + k / 4] == vertex.words()[k / 4]);
    }
    let position = bytes.subrange(20 * i, 20 * i + 12);
    assert forall|k: int| 0 <= k < 12 implies position[k] == u32s_bytes(vertex.position@)[k] by {
        assert(position[k] == bytes[20 * i + k]);
        assert(vertex.words()[k / 4] == vertex.position@[k / 4]);
    }
    assert(position =~= u32s_bytes(vertex.position@));
    let tex_coords = bytes.subrange(20 * i + 12, 20 * i + 20);
    assert forall|k: int| 0 <= k < 8 implies tex_coords[k] == u32s_bytes(vertex.tex_coords@)[k] by {
        assert(tex_coords[k] == bytes[20 * i + (12 + k)]);
        assert((12 + k) / 4 == 3 + k / 4);
        assert((12 + k) % 4 == k % 4);
        assert(vertex.words()[3 + k / 4] == vertex.tex_coords@[k / 4]);
    }
    assert(tex_coords =~= u32s_bytes(vertex.tex_coords@));
}

/// The bytes of an index buffer are those of 16-bit indices: index `k` fills
/// the bytes from `2 * k`, as a draw that reads the buffer in that format expects.
pub proof fn lemma_indices_lie_as_formatted(indices: Seq<u16>, k: int)
    requires
        0 <= k < indices.len(),
    ensures
        u16s_bytes(indices).len() == IndexFormat::Uint16.size() * indices.len(),
        u16s_bytes(indices).subrange(
            IndexFormat::Uint16.size() * k,
            IndexFormat::Uint16.size() * k + IndexFormat::Uint16.size(),
        ) == u16_bytes(indices[k]),
{
    let index = u16s_bytes(indices).subrange(2 * k, 2 * k + 2);
    assert forall|b: int| 0 <= b < 2 implies index[b] == u16_bytes(indices[k])[b] by {
        assert((2 * k + b) / 2 == k);
        assert((2 * k + b) % 2 == b);
    }
    assert(index =~= u16_bytes(indices[k]));
}

} // verus!

//! The vertex record and the layout under which the pipeline reads it.

use vstd::prelude::*;

verus! {

/// 32-bit words in one vertex record: three of position, two of texture coordinate.
pub const WORDS_PER_VERTEX: usize = 5;

/// Bytes of one vertex record.
pub const VERTEX_SIZE: u64 = 20;

/// One vertex: a position and a texture coordinate.
///
/// Each component is an IEEE 754 single, carried as its 32-bit pattern.
#[derive(Clone, Copy, Debug, PartialEq, Eq)]
pub struct Vertex {
    pub position: [u32; 3],
    pub tex_coords: [u32; 2],
}

/// How one vertex attribute is encoded.
#[derive(Clone, Copy, Debug, PartialEq, Eq)]
pub enum VertexFormat {
    /// Two 32-bit floats.
    Float32x2,
    /// Three 32-bit floats.
    Float32x3,
    /// Four 32-bit floats.
    Float32x4,
}

/// Whether a vertex buffer advances per vertex or per instance.
#[derive(Clone, Copy, Debug, PartialEq, Eq)]
pub enum VertexStepMode {
    Vertex,
    Instance,
}

/// One attribute of the vertex record, as the vertex stage receives it.
#[derive(Clone, Copy, Debug, PartialEq, Eq)]
pub struct VertexAttribute {
    pub format: VertexFormat,
    /// Byte offset of the attribute inside the record.
    pub offset: u64,
    /// Input slot of the vertex stage that receives the attribute.
    pub shader_location: u32,
}

/// The schema of one vertex buffer.
#[derive(Debug, PartialEq, Eq)]
pub struct VertexBufferLayout {
    /// Byte distance between consecutive records.
    pub array_stride: u64,
    pub step_mode: VertexStepMode,
    pub attributes: Vec<VertexAttribute>,
}

/// The mathematical value of a [`VertexBufferLayout`].
pub struct VertexBufferLayoutView {
    pub array_stride: u64,
    pub step_mode: VertexStepMode,
    pub attributes: Seq<VertexAttribute>,
}

impl View for VertexBufferLayout {
    type V = VertexBufferLayoutView;

    open spec fn view(&self) -> VertexBufferLayoutView {
        VertexBufferLayoutView {
            array_stride: self.array_stride,
            step_mode: self.step_mode,
            attributes: self.attributes@,
        }
    }
}

impl VertexFormat {
    /// Bytes that an attribute of this format occupies.
    pub open spec fn size(self) -> int {
        match self {
            VertexFormat::Float32x2 => 8,
            VertexFormat::Float32x3 => 12,
            VertexFormat::Float32x4 => 16,
        }
    }

    /// 32-bit words that an attribute of this format occupies.
    pub open spec fn words(self) -> int {
        match self {
            VertexFormat::Float32x2 => 2,
            VertexFormat::Float32x3 => 3,
            VertexFormat::Float32x4 => 4,
        }
    }
}

/// Bytes taken by the first `n` attributes when each follows the one before it without a gap.
pub open spec fn packed_offset(attributes: Seq<VertexAttribute>, n: int) -> int
    decreases n,
{
    if n <= 0 {
        0
    } else {
        packed_offset(attributes, n - 1) + attributes[n - 1].format.size()
    }
}

impl VertexBufferLayoutView {
    /// The attributes start at offset 0, follow each other without a gap, fill
    /// the stride exactly, and take the input slots 0, 1, 2, ... in order.
    pub open spec fn tightly_packed(self) -> bool {
        &&& forall|i: int|
            0 <= i < self.attributes.len() ==> {
                &&& (#[trigger] self.attributes[i]).offset == packed_offset(self.attributes, i)
                &&& self.attributes[i].shader_location == i
            }
        &&& self.array_stride == packed_offset(self.attributes, self.attributes.len() as int)
    }
}

impl Vertex {
    /// The record as it lies in a vertex buffer: position first, texture coordinate after it.
    pub open spec fn words(self) -> Seq<u32> {
        self.position@ + self.tex_coords@
    }

    /// The layout of a buffer of vertices: position at slot 0, texture coordinate at slot 1.
    pub open spec fn layout() -> VertexBufferLayoutView {
        VertexBufferLayoutView {
            array_stride: VERTEX_SIZE,
            step_mode: VertexStepMode::Vertex,
            attributes: seq![
                VertexAttribute { format: VertexFormat::Float32x3, offset: 0, shader_location: 0 },
                VertexAttribute { format: VertexFormat::Float32x2, offset: 12, shader_location: 1 },
            ],
        }
    }

    /// Builds a vertex from the bit patterns of its components.
    pub fn new(position: [u32; 3], tex_coords: [u32; 2]) -> (v: Vertex)
        ensures
            v.position == position,
            v.tex_coords == tex_coords,
    {
        Vertex { position, tex_coords }
    }

    /// Describes the vertex buffer to the pipeline.
    pub fn desc() -> (layout: VertexBufferLayout)
        ensures
            layout@ == Vertex::layout(),
            layout@.tightly_packed(),
    {
        let mut attributes: Vec<VertexAttribute> = Vec::new();
        attributes.push(
            VertexAttribute { format: VertexFormat::Float32x3, offset: 0, shader_location: 0 },
        );
        attributes.push(
            VertexAttribute { format: VertexFormat::Float32x2, offset: 12, shader_location: 1 },
        );
        let layout = VertexBufferLayout {
            array_stride: VERTEX_SIZE,
            step_mode: VertexStepMode::Vertex,
            attributes,
        };
        proof {
            assert(layout@.attributes =~= Vertex::layout().attributes);
            lemma_layout_matches_record();
        }
        layout
    }
}

/// The vertex layout is tightly packed and describes the vertex record exactly:
/// its stride is the size of the record, position takes the first three words
/// and the texture coordinate the two that follow.
pub proof fn lemma_layout_matches_record()
    ensures
        Vertex::layout().tightly_packed(),
        Vertex::layout().array_stride == 4 * WORDS_PER_VERTEX,
        Vertex::layout().attributes.len() == 2,
        Vertex::layout().attributes[0].format.words() == 3,
        Vertex::layout().attributes[1].format.words() == 2,
        Vertex::layout().attributes[1].offset == 4 * Vertex::layout().attributes[0].format.words(),
        forall|v: Vertex| (#[trigger] v.words()).len() == WORDS_PER_VERTEX,
        forall|v: Vertex| (#[trigger] v.words()).subrange(0, 3) == v.position@,
        forall|v: Vertex| (#[trigger] v.words()).subrange(3, 5) == v.tex_coords@,
{
    let attributes = Vertex::layout().attributes;
    reveal_with_fuel(packed_offset, 3);
    assert(packed_offset(attributes, 0) == 0);
    assert(packed_offset(attributes, 1) == 12);
    assert(packed_offset(attributes, 2) == 20);
    assert forall|v: Vertex| (#[trigger] v.words()).subrange(0, 3) == v.position@ by {
        assert(v.words().subrange(0, 3) =~= v.position@);
    }
    assert forall|v: Vertex| (#[trigger] v.words()).subrange(3, 5) == v.tex_coords@ by {
        assert(v.words().subrange(3, 5) =~= v.tex_coords@);
    }
}

} // verus!

//! A drawable object and the staged sequence that builds it.

use vstd::prelude::*;
use crate::binding::{
    fills, texture_bindings, texture_layout, BindGroup, BindGroupEntry, BindGroupLayout,
    BindGroupLayoutEntry,
};
use crate::buffer::{IndexBuffer, VertexBuffer};
use crate::pipeline::{textured_pipeline, RenderPipeline, RenderPipelineView};
use crate::texture::{ImageView, Texture, TextureFormat};
use crate::vertex::Vertex;

verus! {

/// How far the construction of an object has come.
///
/// The stages are passed in this order. Each needs what the one before it
/// made: the bind group binds the texture, and the pipeline refers to the
/// layout of the bind group.
#[derive(Clone, Copy, Debug, PartialEq, Eq)]
pub enum Stage {
    Empty,
    VertexSet,
    IndexSet,
    TextureSet,
    BindGroupBuilt,
    PipelineBuilt,
}

/// One textured primitive of the scene: its buffers, its texture, its bind
/// group and its pipeline. Every part is absent until its step has run.
#[derive(Debug, PartialEq, Eq)]
pub struct Object {
    pub vertex_buffer: Option<VertexBuffer>,
    pub index_buffer: Option<IndexBuffer>,
    pub num_indices: u32,
    pub texture: Option<Texture>,
    pub render_pipeline: Option<RenderPipeline>,
    pub bind_group: Option<BindGroup>,
    pub bind_group_layout: Option<BindGroupLayout>,
}

/// The mathematical value of an [`Object`].
pub struct ObjectView {
    pub vertex_buffer: Option<Seq<Vertex>>,
    pub index_buffer: Option<Seq<u16>>,
    pub num_indices: u32,
    pub texture: Option<ImageView>,
    pub render_pipeline: Option<RenderPipelineView>,
    pub bind_group: Option<Seq<BindGroupEntry>>,
    pub bind_group_layout: Option<Seq<BindGroupLayoutEntry>>,
}

/// The value of a texture that may be absent.
pub open spec fn texture_view(texture: Option<Texture>) -> Option<ImageView> {
    match texture {
        Some(t) => Some(t@),
        None => None,
    }
}

impl View for Object {
    type V = ObjectView;

    open spec fn view(&self) -> ObjectView {
        ObjectView {
            vertex_buffer: match self.vertex_buffer {
                Some(b) => Some(b@),
                None => None,
            },
            index_buffer: match self.index_buffer {
                Some(b) => Some(b@),
                None => None,
            },
            num_indices: self.num_indices,
            texture: texture_view(self.texture),
            render_pipeline: match self.render_pipeline {
                Some(p) => Some(p@),
                None => None,
            },
            bind_group: match self.bind_group {
                Some(g) => Some(g@),
                None => None,
            },
            bind_group_layout: match self.bind_group_layout {
                Some(l) => Some(l@),
                None => None,
            },
        }
    }
}

impl ObjectView {
    /// The object before any step: every part absent, no index to draw.
    pub open spec fn empty() -> ObjectView {
        ObjectView {
            vertex_buffer: None,
            index_buffer: None,
            num_indices: 0,
            texture: None,
            render_pipeline: None,
            bind_group: None,
            bind_group_layout: None,
        }
    }

    /// The object after the vertices were set.
    pub open spec fn with_vertices(self, vertices: Seq<Vertex>) -> ObjectView {
        ObjectView { vertex_buffer: Some(vertices), ..self }
    }

    /// The object after the indices were set: the index count is their number.
    pub open spec fn with_indices(self, indices: Seq<u16>) -> ObjectView {
        ObjectView { index_buffer: Some(indices), num_indices: indices.len() as u32, ..self }
    }

    /// The object after a texture was attached or taken away.
    pub open spec fn with_texture(self, texture: Option<ImageView>) -> ObjectView {
        ObjectView { texture, ..self }
    }

    /// The object after its bind group and the layout of it were built.
    pub open spec fn with_bind_group(self) -> ObjectView {
        ObjectView {
            bind_group_layout: Some(texture_layout()),
            bind_group: Some(texture_bindings()),
            ..self
        }
    }

    /// The object after its pipeline was built over the layout it has.
    pub open spec fn with_pipeline(self, format: TextureFormat) -> ObjectView
        recommends
            self.bind_group_layout is Some,
    {
        ObjectView {
            render_pipeline: Some(textured_pipeline(self.bind_group_layout.unwrap(), format)),
            ..self
        }
    }

    /// The last stage up to which no part is missing.
    pub open spec fn stage(self) -> Stage {
        if self.vertex_buffer is None {
            Stage::Empty
        } else if self.index_buffer is None {
            Stage::VertexSet
        } else if self.texture is None {
            Stage::IndexSet
        } else if self.bind_group is None || self.bind_group_layout is None {
            Stage::TextureSet
        } else if self.render_pipeline is None {
            Stage::BindGroupBuilt
        } else {
            Stage::PipelineBuilt
        }
    }

    /// Every part is present: the only state in which the object may be drawn.
    pub open spec fn is_complete(self) -> bool {
        self.stage() == Stage::PipelineBuilt
    }

    /// The index count is the number of indices, and every index refers to a
    /// vertex of the object.
    pub open spec fn indices_in_bounds(self) -> bool {
        &&& self.vertex_buffer is Some
        &&& self.index_buffer is Some
        &&& self.num_indices == self.index_buffer.unwrap().len()
        &&& forall|i: int|
            0 <= i < self.index_buffer.unwrap().len() ==> (#[trigger] self.index_buffer.unwrap()[i])
                < self.vertex_buffer.unwrap().len()
    }

    /// The object that the steps make of the given parts, taken in the required order.
    pub open spec fn built(
        vertices: Seq<Vertex>,
        indices: Seq<u16>,
        texture: ImageView,
        format: TextureFormat,
    ) -> ObjectView {
        ObjectView::empty().with_vertices(vertices).with_indices(indices).with_texture(
            Some(texture),
        ).with_bind_group().with_pipeline(format)
    }
}

impl Object {
    /// Starts an object with every part absent.
    pub fn new() -> (object: Object)
        ensures
            object@ == ObjectView::empty(),
    {
        Object {
            vertex_buffer: None,
            index_buffer: None,
            num_indices: 0,
            texture: None,
            render_pipeline: None,
            bind_group: None,
            bind_group_layout: None,
        }
    }

    /// Sets the vertices, which are uploaded verbatim.
    pub fn set_vertex_buffer(self, vertices: Vec<Vertex>) -> (object: Object)
        ensures
            object@ == self@.with_vertices(vertices@),
    {
        let mut object = self;
        object.vertex_buffer = Some(VertexBuffer::new(vertices));
        object
    }

    /// Sets the indices and keeps their number for the draw.
    pub fn set_index_buffer(self, indices: Vec<u16>) -> (object: Object)
        requires
            indices@.len() <= u32::MAX,
        ensures
            object@ == self@.with_indices(indices@),
            object.num_indices == indices@.len(),
    {
        let mut object = self;
        object.num_indices = indices.len() as u32;
        object.index_buffer = Some(IndexBuffer::new(indices));
        object
    }

    /// Attaches a texture, which the object then owns; `None` takes it away.
    pub fn set_texture(self, tex: Option<Texture>) -> (object: Object)
        ensures
            object@ == self@.with_texture(texture_view(tex)),
    {
        let mut object = self;
        object.texture = tex;
        object
    }

    /// Builds the bind-group layout and the bind group over the attached texture.
    pub fn create_bind_group(self) -> (object: Object)
        requires
            self@.texture is Some,
        ensures
            object@ == self@.with_bind_group(),
            fills(object@.bind_group.unwrap(), object@.bind_group_layout.unwrap()),
    {
        let mut object = self;
        object.bind_group_layout = Some(BindGroupLayout::for_texture());
        object.bind_group = Some(BindGroup::for_texture());
        object
    }

    /// Builds the render pipeline over the bind-group layout, for a target of the given format.
    pub fn create_render_pipeline(self, format: TextureFormat) -> (object: Object)
        requires
            self@.bind_group_layout is Some,
        ensures
            object@ == self@.with_pipeline(format),
    {
        let pipeline = RenderPipeline::textured(self.bind_group_layout.as_ref().unwrap(), format);
        let mut object = self;
        object.render_pipeline = Some(pipeline);
        object
    }

    /// Builds a drawable object of its parts, step by step in the required order.
    pub fn build(
        vertices: Vec<Vertex>,
        indices: Vec<u16>,
        texture: Texture,
        format: TextureFormat,
    ) -> (object: Object)
        requires
            indices@.len() <= u32::MAX,
        ensures
            object@ == ObjectView::built(vertices@, indices@, texture@, format),
    {
        Object::new().set_vertex_buffer(vertices).set_index_buffer(indices).set_texture(
            Some(texture),
        ).create_bind_group().create_render_pipeline(format)
    }

    /// Tells how far the construction has come.
    pub fn stage(&self) -> (stage: Stage)
        ensures
            stage == self@.stage(),
    {
        if self.vertex_buffer.is_none() {
            Stage::Empty
        } else if self.index_buffer.is_none() {
            Stage::VertexSet
        } else if self.texture.is_none() {
            Stage::IndexSet
        } else if self.bind_group.is_none() || self.bind_group_layout.is_none() {
            Stage::TextureSet
        } else if self.render_pipeline.is_none() {
            Stage::BindGroupBuilt
        } else {
            Stage::PipelineBuilt
        }
    }

    /// Tells whether every part is present.
    pub fn is_complete(&self) -> (complete: bool)
        ensures
            complete == self@.is_complete(),
    {
        self.vertex_buffer.is_some() && self.index_buffer.is_some() && self.texture.is_some()
            && self.bind_group.is_some() && self.bind_group_layout.is_some()
            && self.render_pipeline.is_some()
    }

    /// Tells whether the index count is the number of indices and every index
    /// refers to a vertex of the object.
    pub fn indices_in_bounds(&self) -> (ok: bool)
        ensures
            ok == self@.indices_in_bounds(),
    {
        match (&self.vertex_buffer, &self.index_buffer) {
            (Some(vertex_buffer), Some(index_buffer)) => {
                let indices = index_buffer.indices();
                if self.num_indices as usize != indices.len() {
                    return false;
                }
                let count: usize = vertex_buffer.vertices().len();
                let mut i: usize = 0;
                while i < indices.len()
                    invariant
                        i <= indices.len(),
                        count == vertex_buffer@.len(),
                        indices@ == index_buffer@,
                        self@.vertex_buffer == Some(vertex_buffer@),
                        self@.index_buffer == Some(index_buffer@),
                        self.num_indices == index_buffer@.len(),
                        forall|k: int| 0 <= k < i ==> (#[trigger] indices@[k]) < count,
                    decreases indices.len() - i,
                {
                    if indices[i] as usize >= count {
                        assert(indices@[i as int] >= count);
                        return false;
                    }
                    i += 1;
                }
                true
            },
            _ => false,
        }
    }
}

/// The steps taken in the required order pass through the stages one by one
/// and end with a complete object over exactly the parts supplied, whose index
/// count is the number of indices. Where every index refers to one of the
/// vertices, the finished object keeps that.
pub proof fn lemma_ordered_build(
    vertices: Seq<Vertex>,
    indices: Seq<u16>,
    texture: ImageView,
    format: TextureFormat,
)
    requires
        indices.len() <= u32::MAX,
    ensures
        ({
            let empty = ObjectView::empty();
            let vertex_set = empty.with_vertices(vertices);
            let index_set = vertex_set.with_indices(indices);
            let texture_set = index_set.with_texture(Some(texture));
            let bind_group_built = texture_set.with_bind_group();
            let pipeline_built = bind_group_built.with_pipeline(format);
            &&& empty.stage() == Stage::Empty
            &&& vertex_set.stage() == Stage::VertexSet
            &&& index_set.stage() == Stage::IndexSet
            &&& texture_set.stage() == Stage::TextureSet
            &&& bind_group_built.stage() == Stage::BindGroupBuilt
            &&& pipeline_built.stage() == Stage::PipelineBuilt
            &&& pipeline_built == ObjectView::built(vertices, indices, texture, format)
        }),
        ObjectView::built(vertices, indices, texture, format).is_complete(),
        ObjectView::built(vertices, indices, texture, format).vertex_buffer == Some(vertices),
        ObjectView::built(vertices, indices, texture, format).index_buffer == Some(indices),
        ObjectView::built(vertices, indices, texture, format).num_indices == indices.len(),
        ObjectView::built(vertices, indices, texture, format).texture == Some(texture),
        ObjectView::built(vertices, indices, texture, format).bind_group_layout == Some(
            texture_layout(),
        ),
        ObjectView::built(vertices, indices, texture, format).bind_group == Some(
            texture_bindings(),
        ),
        ObjectView::built(vertices, indices, texture, format).render_pipeline == Some(
            textured_pipeline(texture_layout(), format),
        ),
        (forall|i: int| 0 <= i < indices.len() ==> (#[trigger] indices[i]) < vertices.len())
            ==> ObjectView::built(vertices, indices, texture, format).indices_in_bounds(),
{
}

/// A step that is left out leaves its part absent, and the object short of
/// complete: an object is complete only if every part is present.
pub proof fn lemma_complete_has_every_part(object: ObjectView)
    requires
        object.is_complete(),
    ensures
        object.vertex_buffer is Some,
        object.index_buffer is Some,
        object.texture is Some,
        object.bind_group_layout is Some,
        object.bind_group is Some,
        object.render_pipeline is Some,
{
}

} // verus!

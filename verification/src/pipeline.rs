//! The render pipeline of a textured object: stages, vertex input, output and
//! fixed-function state.

use vstd::prelude::*;
use crate::binding::{BindGroupLayout, BindGroupLayoutEntry};
use crate::texture::TextureFormat;
use crate::vertex::{Vertex, VertexBufferLayout, VertexBufferLayoutView};

verus! {

/// How vertices are assembled into primitives.
#[derive(Clone, Copy, Debug, PartialEq, Eq)]
pub enum PrimitiveTopology {
    PointList,
    LineList,
    LineStrip,
    TriangleList,
    TriangleStrip,
}

/// Which winding marks the front of a triangle.
#[derive(Clone, Copy, Debug, PartialEq, Eq)]
pub enum FrontFace {
    /// Counter-clockwise.
    Ccw,
    /// Clockwise.
    Cw,
}

/// A side of a triangle.
#[derive(Clone, Copy, Debug, PartialEq, Eq)]
pub enum Face {
    Front,
    Back,
}

/// How the inside of a polygon is rasterised.
#[derive(Clone, Copy, Debug, PartialEq, Eq)]
pub enum PolygonMode {
    Fill,
    Line,
    Point,
}

/// Width of the indices in an index buffer.
#[derive(Clone, Copy, Debug, PartialEq, Eq)]
pub enum IndexFormat {
    Uint16,
    Uint32,
}

impl IndexFormat {
    /// Bytes of one index.
    pub open spec fn size(self) -> int {
        match self {
            IndexFormat::Uint16 => 2,
            IndexFormat::Uint32 => 4,
        }
    }
}

/// Primitive assembly and rasterisation.
#[derive(Clone, Copy, Debug, PartialEq, Eq)]
pub struct PrimitiveState {
    pub topology: PrimitiveTopology,
    pub strip_index_format: Option<IndexFormat>,
    pub front_face: FrontFace,
    /// The side that is discarded, if any.
    pub cull_mode: Option<Face>,
    pub polygon_mode: PolygonMode,
    pub unclipped_depth: bool,
    pub conservative: bool,
}

/// A weight in the blend equation.
#[derive(Clone, Copy, Debug, PartialEq, Eq)]
pub enum BlendFactor {
    Zero,
    One,
    SrcAlpha,
    OneMinusSrcAlpha,
}

/// How the weighted source and destination are combined.
#[derive(Clone, Copy, Debug, PartialEq, Eq)]
pub enum BlendOperation {
    Add,
    Subtract,
}

/// The blend equation of the colour channels or of the alpha channel.
#[derive(Clone, Copy, Debug, PartialEq, Eq)]
pub struct BlendComponent {
    pub src_factor: BlendFactor,
    pub dst_factor: BlendFactor,
    pub operation: BlendOperation,
}

/// How a fragment is combined with what the target already holds.
#[derive(Clone, Copy, Debug, PartialEq, Eq)]
pub struct BlendState {
    pub color: BlendComponent,
    pub alpha: BlendComponent,
}

/// The channels of the target that a draw may write.
#[derive(Clone, Copy, Debug, PartialEq, Eq)]
pub struct ColorWrites {
    pub red: bool,
    pub green: bool,
    pub blue: bool,
    pub alpha: bool,
}

/// The colour output of the fragment stage.
#[derive(Clone, Copy, Debug, PartialEq, Eq)]
pub struct ColorTargetState {
    pub format: TextureFormat,
    pub blend: Option<BlendState>,
    pub write_mask: ColorWrites,
}

/// Multisampling of the pipeline.
#[derive(Clone, Copy, Debug, PartialEq, Eq)]
pub struct MultisampleState {
    /// Samples per pixel.
    pub count: u32,
    /// The samples that are written, one bit each.
    pub mask: u64,
    pub alpha_to_coverage_enabled: bool,
}

/// Entry point of the vertex stage in the shading program.
pub const VERTEX_ENTRY_POINT: &'static str = "vs_main";

/// Entry point of the fragment stage in the shading program.
pub const FRAGMENT_ENTRY_POINT: &'static str = "fs_main";

/// A render pipeline: the shading program's two stages with the fixed-function
/// state around them. It has one bind-group layout, one vertex buffer and one
/// colour target.
#[derive(Debug, PartialEq, Eq)]
pub struct RenderPipeline {
    /// The bind-group layout that the pipeline layout refers to, at group 0.
    pub layout: BindGroupLayout,
    pub vertex_entry_point: &'static str,
    pub vertex_buffer: VertexBufferLayout,
    pub fragment_entry_point: &'static str,
    pub target: ColorTargetState,
    pub primitive: PrimitiveState,
    /// Whether the pipeline tests depth or stencil.
    pub depth_stencil: bool,
    pub multisample: MultisampleState,
}

/// The mathematical value of a [`RenderPipeline`].
pub struct RenderPipelineView {
    pub layout: Seq<BindGroupLayoutEntry>,
    pub vertex_entry_point: Seq<char>,
    pub vertex_buffer: VertexBufferLayoutView,
    pub fragment_entry_point: Seq<char>,
    pub target: ColorTargetState,
    pub primitive: PrimitiveState,
    pub depth_stencil: bool,
    pub multisample: MultisampleState,
}

impl View for RenderPipeline {
    type V = RenderPipelineView;

    open spec fn view(&self) -> RenderPipelineView {
        RenderPipelineView {
            layout: self.layout@,
            vertex_entry_point: self.vertex_entry_point@,
            vertex_buffer: self.vertex_buffer@,
            fragment_entry_point: self.fragment_entry_point@,
            target: self.target,
            primitive: self.primitive,
            depth_stencil: self.depth_stencil,
            multisample: self.multisample,
        }
    }
}

/// The fragment replaces what the target holds: source weight one, destination weight zero.
pub open spec fn replace_component() -> BlendComponent {
    BlendComponent {
        src_factor: BlendFactor::One,
        dst_factor: BlendFactor::Zero,
        operation: BlendOperation::Add,
    }
}

/// Straight-alpha replace blending: colour and alpha both replace the target's.
pub open spec fn replace_blend() -> BlendState {
    BlendState { color: replace_component(), alpha: replace_component() }
}

/// Every channel is written.
pub open spec fn all_channels() -> ColorWrites {
    ColorWrites { red: true, green: true, blue: true, alpha: true }
}

/// Filled triangle lists, counter-clockwise front, back faces culled.
pub open spec fn triangle_list_culling_back() -> PrimitiveState {
    PrimitiveState {
        topology: PrimitiveTopology::TriangleList,
        strip_index_format: None,
        front_face: FrontFace::Ccw,
        cull_mode: Some(Face::Back),
        polygon_mode: PolygonMode::Fill,
        unclipped_depth: false,
        conservative: false,
    }
}

/// One sample per pixel, every sample written.
pub open spec fn single_sample() -> MultisampleState {
    MultisampleState { count: 1, mask: 0xffff_ffff_ffff_ffff, alpha_to_coverage_enabled: false }
}

/// The pipeline that draws a textured object into a target of the given format.
pub open spec fn textured_pipeline(
    layout: Seq<BindGroupLayoutEntry>,
    format: TextureFormat,
) -> RenderPipelineView {
    RenderPipelineView {
        layout,
        vertex_entry_point: VERTEX_ENTRY_POINT@,
        vertex_buffer: Vertex::layout(),
        fragment_entry_point: FRAGMENT_ENTRY_POINT@,
        target: ColorTargetState {
            format,
            blend: Some(replace_blend()),
            write_mask: all_channels(),
        },
        primitive: triangle_list_culling_back(),
        depth_stencil: false,
        multisample: single_sample(),
    }
}

impl RenderPipeline {
    /// Builds the pipeline of a textured object over its bind-group layout.
    pub fn textured(layout: &BindGroupLayout, format: TextureFormat) -> (pipeline: RenderPipeline)
        ensures
            pipeline@ == textured_pipeline(layout@, format),
    {
        let replace = BlendComponent {
            src_factor: BlendFactor::One,
            dst_factor: BlendFactor::Zero,
            operation: BlendOperation::Add,
        };
        RenderPipeline {
            layout: layout.duplicate(),
            vertex_entry_point: VERTEX_ENTRY_POINT,
            vertex_buffer: Vertex::desc(),
            fragment_entry_point: FRAGMENT_ENTRY_POINT,
            target: ColorTargetState {
                format,
                blend: Some(BlendState { color: replace, alpha: replace }),
                write_mask: ColorWrites { red: true, green: true, blue: true, alpha: true },
            },
            primitive: PrimitiveState {
                topology: PrimitiveTopology::TriangleList,
                strip_index_format: None,
                front_face: FrontFace::Ccw,
                cull_mode: Some(Face::Back),
                polygon_mode: PolygonMode::Fill,
                unclipped_depth: false,
                conservative: false,
            },
            depth_stencil: false,
            multisample: MultisampleState {
                count: 1,
                mask: 0xffff_ffff_ffff_ffff,
                alpha_to_coverage_enabled: false,
            },
        }
    }
}

} // verus!

use quadrender::binding::{
    BindGroup, BindGroupEntry, BindGroupLayout, BindGroupLayoutEntry, BindingResource,
    BindingType, SamplerBindingType, ShaderStages, TextureSampleType, TextureViewDimension,
};
use quadrender::buffer::{BufferUsages, IndexBuffer, VertexBuffer};
use quadrender::object::{Object, Stage};
use quadrender::pipeline::{
    BlendComponent, BlendFactor, BlendOperation, BlendState, ColorTargetState, ColorWrites, Face,
    FrontFace, MultisampleState, PolygonMode, PrimitiveState, PrimitiveTopology, RenderPipeline,
};
use quadrender::texture::{Image, Texture, TextureFormat};
use quadrender::vertex::{
    Vertex, VertexAttribute, VertexBufferLayout, VertexFormat, VertexStepMode, VERTEX_SIZE,
    WORDS_PER_VERTEX,
};

fn vertex(x: f32, y: f32, u: f32, v: f32) -> Vertex {
    Vertex::new([x.to_bits(), y.to_bits(), 0f32.to_bits()], [u.to_bits(), v.to_bits()])
}

fn square() -> Vec<Vertex> {
    vec![
        vertex(-0.5, 0.5, 0.0, 0.0),
        vertex(-0.5, -0.5, 0.0, 1.0),
        vertex(0.5, -0.5, 1.0, 1.0),
        vertex(0.5, 0.5, 1.0, 0.0),
    ]
}

fn white() -> Texture {
    Texture::from_image(Image { pixels: vec![255; 16], width: 2, height: 2 }).unwrap()
}

fn texture_layout() -> Vec<BindGroupLayoutEntry> {
    let fragment = ShaderStages { vertex: false, fragment: true, compute: false };
    vec![
        BindGroupLayoutEntry {
            binding: 0,
            visibility: fragment,
            ty: BindingType::Texture {
                multisampled: false,
                view_dimension: TextureViewDimension::D2,
                sample_type: TextureSampleType::Float { filterable: true },
            },
        },
        BindGroupLayoutEntry {
            binding: 1,
            visibility: fragment,
            ty: BindingType::Sampler(SamplerBindingType::Filtering),
        },
    ]
}

#[test]
fn vertex_keeps_the_bit_patterns_of_its_components() {
    let v = vertex(-1.0, 1.0, 0.0, 1.0);
    assert_eq!(v.position, [0xbf80_0000, 0x3f80_0000, 0]);
    assert_eq!(v.tex_coords, [0, 0x3f80_0000]);
}

#[test]
fn vertex_layout_is_position_then_texture_coordinate() {
    assert_eq!(
        Vertex::desc(),
        VertexBufferLayout {
            array_stride: 20,
            step_mode: VertexStepMode::Vertex,
            attributes: vec![
                VertexAttribute { format: VertexFormat::Float32x3, offset: 0, shader_location: 0 },
                VertexAttribute { format: VertexFormat::Float32x2, offset: 12, shader_location: 1 },
            ],
        }
    );
    assert_eq!(VERTEX_SIZE, 20);
    assert_eq!(WORDS_PER_VERTEX, 5);
}

#[test]
fn vertex_buffer_contents_are_the_vertices_verbatim() {
    let buffer = VertexBuffer::new(vec![vertex(-1.0, 1.0, 0.0, 1.0), vertex(0.5, 2.0, 1.0, 0.25)]);
    let mut expected: Vec<u8> = Vec::new();
    for value in [-1.0f32, 1.0, 0.0, 0.0, 1.0, 0.5, 2.0, 0.0, 1.0, 0.25] {
        expected.extend_from_slice(&value.to_ne_bytes());
    }
    assert_eq!(buffer.contents(), &expected);
    assert_eq!(buffer.contents().len(), 40);
}

#[test]
fn vertex_buffer_contents_spell_out_each_word() {
    let buffer = VertexBuffer::new(vec![Vertex::new(
        [0x0102_0304, 0x0506_0708, 0x090a_0b0c],
        [0x0d0e_0f10, 0x1112_1314],
    )]);
    let little: Vec<u8> =
        vec![4, 3, 2, 1, 8, 7, 6, 5, 12, 11, 10, 9, 16, 15, 14, 13, 20, 19, 18, 17];
    let big: Vec<u8> =
        vec![1, 2, 3, 4, 5, 6, 7, 8, 9, 10, 11, 12, 13, 14, 15, 16, 17, 18, 19, 20];
    let expected = if u16::from_ne_bytes([1, 0]) == 1 { little } else { big };
    assert_eq!(buffer.contents(), &expected);
}

#[test]
fn index_buffer_contents_are_the_indices_verbatim() {
    let buffer = IndexBuffer::new(vec![0, 1, 3, 1, 2, 3, 0x1234]);
    let mut expected: Vec<u8> = Vec::new();
    for value in [0u16, 1, 3, 1, 2, 3, 0x1234] {
        expected.extend_from_slice(&value.to_ne_bytes());
    }
    assert_eq!(buffer.contents(), &expected);
    assert_eq!(buffer.contents().len(), 14);
}

#[test]
fn buffers_keep_what_they_are_made_of() {
    assert_eq!(VertexBuffer::new(square()).vertices(), &square());
    assert_eq!(IndexBuffer::new(vec![3, 2, 1]).indices(), &vec![3, 2, 1]);
}

#[test]
fn empty_buffers_have_no_contents() {
    assert_eq!(VertexBuffer::new(Vec::new()).contents(), &Vec::<u8>::new());
    assert_eq!(IndexBuffer::new(Vec::new()).contents(), &Vec::<u8>::new());
}

#[test]
fn buffers_are_used_for_what_they_hold() {
    assert_eq!(
        VertexBuffer::new(Vec::new()).usage(),
        BufferUsages { map_read: false, copy_dst: false, vertex: true, index: false }
    );
    assert_eq!(
        IndexBuffer::new(Vec::new()).usage(),
        BufferUsages { map_read: false, copy_dst: false, vertex: false, index: true }
    );
}

#[test]
fn new_object_has_no_part() {
    let object = Object::new();
    assert_eq!(object.vertex_buffer, None);
    assert_eq!(object.index_buffer, None);
    assert_eq!(object.num_indices, 0);
    assert_eq!(object.texture, None);
    assert_eq!(object.render_pipeline, None);
    assert_eq!(object.bind_group, None);
    assert_eq!(object.bind_group_layout, None);
    assert_eq!(object.stage(), Stage::Empty);
    assert!(!object.is_complete());
    assert!(!object.indices_in_bounds());
}

#[test]
fn ordered_build_passes_every_stage() {
    let object = Object::new();
    assert_eq!(object.stage(), Stage::Empty);
    let object = object.set_vertex_buffer(square());
    assert_eq!(object.stage(), Stage::VertexSet);
    let object = object.set_index_buffer(vec![0, 1, 3, 1, 2, 3]);
    assert_eq!(object.stage(), Stage::IndexSet);
    let object = object.set_texture(Some(white()));
    assert_eq!(object.stage(), Stage::TextureSet);
    let object = object.create_bind_group();
    assert_eq!(object.stage(), Stage::BindGroupBuilt);
    assert!(!object.is_complete());
    let object = object.create_render_pipeline(TextureFormat::Rgba8UnormSrgb);
    assert_eq!(object.stage(), Stage::PipelineBuilt);
    assert!(object.is_complete());
}

#[test]
fn index_count_is_the_number_of_indices() {
    let object = Object::new().set_index_buffer(vec![0, 1, 3, 1, 2, 3]);
    assert_eq!(object.num_indices, 6);
    let object = object.set_index_buffer(vec![0, 1, 2]);
    assert_eq!(object.num_indices, 3);
    assert_eq!(object.index_buffer, Some(IndexBuffer::new(vec![0, 1, 2])));
    let object = object.set_index_buffer(Vec::new());
    assert_eq!(object.num_indices, 0);
}

#[test]
fn built_object_holds_exactly_its_parts() {
    let object = Object::build(square(), vec![0, 1, 3, 1, 2, 3], white(), TextureFormat::Rgba8UnormSrgb);
    assert_eq!(object.vertex_buffer, Some(VertexBuffer::new(square())));
    assert_eq!(object.index_buffer, Some(IndexBuffer::new(vec![0, 1, 3, 1, 2, 3])));
    assert_eq!(object.num_indices, 6);
    assert_eq!(object.texture, Some(white()));
    assert_eq!(object.bind_group_layout, Some(BindGroupLayout { entries: texture_layout() }));
    assert!(object.is_complete());
    assert!(object.indices_in_bounds());
}

#[test]
fn indices_of_a_quad_stay_below_the_vertex_count() {
    let object = Object::new().set_vertex_buffer(square()).set_index_buffer(vec![0, 1, 3, 1, 2, 3]);
    assert!(object.indices_in_bounds());
    let indices = object.index_buffer.as_ref().unwrap().indices();
    let count = object.vertex_buffer.as_ref().unwrap().vertices().len();
    for k in 0..object.num_indices as usize {
        assert!((indices[k] as usize) < count);
    }
}

#[test]
fn index_out_of_range_is_found() {
    let object = Object::new().set_vertex_buffer(square()).set_index_buffer(vec![0, 1, 4]);
    assert!(!object.indices_in_bounds());
    let object = Object::new().set_vertex_buffer(square()).set_index_buffer(vec![0, 1, 3, 1, 2, 0xffff]);
    assert!(!object.indices_in_bounds());
    let object = Object::new().set_vertex_buffer(Vec::new()).set_index_buffer(vec![0]);
    assert!(!object.indices_in_bounds());
}

#[test]
fn indices_without_both_buffers_are_not_in_bounds() {
    assert!(!Object::new().set_vertex_buffer(square()).indices_in_bounds());
    assert!(!Object::new().set_index_buffer(Vec::new()).indices_in_bounds());
    assert!(Object::new().set_vertex_buffer(square()).set_index_buffer(Vec::new()).indices_in_bounds());
}

#[test]
fn stale_index_count_is_found() {
    let mut object = Object::new().set_vertex_buffer(square()).set_index_buffer(vec![0, 1, 2]);
    object.num_indices = 6;
    assert!(!object.indices_in_bounds());
}

#[test]
fn skipped_step_leaves_its_part_absent() {
    let object = Object::new()
        .set_vertex_buffer(square())
        .set_texture(Some(white()))
        .create_bind_group()
        .create_render_pipeline(TextureFormat::Rgba8UnormSrgb);
    assert_eq!(object.index_buffer, None);
    assert_eq!(object.num_indices, 0);
    assert_eq!(object.stage(), Stage::VertexSet);
    assert!(!object.is_complete());

    let object = Object::new().set_index_buffer(vec![0, 1, 2]).set_texture(Some(white()));
    assert_eq!(object.vertex_buffer, None);
    assert_eq!(object.stage(), Stage::Empty);
}

#[test]
fn taking_the_texture_away_steps_back() {
    let object = Object::build(square(), vec![0, 1, 2], white(), TextureFormat::Rgba8UnormSrgb);
    let object = object.set_texture(None);
    assert_eq!(object.texture, None);
    assert_eq!(object.stage(), Stage::IndexSet);
    assert!(object.bind_group.is_some());
}

#[test]
fn bind_group_binds_texture_and_sampler_for_the_fragment_stage() {
    let object = Object::new().set_texture(Some(white())).create_bind_group();
    assert_eq!(object.bind_group_layout, Some(BindGroupLayout { entries: texture_layout() }));
    assert_eq!(
        object.bind_group,
        Some(BindGroup {
            entries: vec![
                BindGroupEntry { binding: 0, resource: BindingResource::TextureView },
                BindGroupEntry { binding: 1, resource: BindingResource::Sampler },
            ],
        })
    );
    assert_eq!(object.render_pipeline, None);
    assert_eq!(object.texture, Some(white()));
}

#[test]
fn bind_group_layout_is_copied_entry_for_entry() {
    let layout = BindGroupLayout::for_texture();
    assert_eq!(layout.duplicate(), layout);
    assert_eq!(BindGroupLayout { entries: Vec::new() }.duplicate().entries, Vec::new());
}

#[test]
fn pipeline_is_configured_for_textured_triangles() {
    let object = Object::new()
        .set_texture(Some(white()))
        .create_bind_group()
        .create_render_pipeline(TextureFormat::Bgra8Unorm);
    let replace = BlendComponent {
        src_factor: BlendFactor::One,
        dst_factor: BlendFactor::Zero,
        operation: BlendOperation::Add,
    };
    assert_eq!(
        object.render_pipeline,
        Some(RenderPipeline {
            layout: BindGroupLayout { entries: texture_layout() },
            vertex_entry_point: "vs_main",
            vertex_buffer: Vertex::desc(),
            fragment_entry_point: "fs_main",
            target: ColorTargetState {
                format: TextureFormat::Bgra8Unorm,
                blend: Some(BlendState { color: replace, alpha: replace }),
                write_mask: ColorWrites { red: true, green: true, blue: true, alpha: true },
            },
            primitive: PrimitiveState {
                topology: PrimitiveTopology::TriangleList,
                strip_index_format: None,
                front_face: FrontFace::Ccw,
                cull_mode: Some(Face::Back),
                polygon_mode: PolygonMode::Fill,
                unclipped_depth: false,
                conservative: false,
            },
            depth_stencil: false,
            multisample: MultisampleState {
                count: 1,
                mask: u64::MAX,
                alpha_to_coverage_enabled: false,
            },
        })
    );
}

#[test]
fn pipeline_refers_to_the_layout_it_is_given() {
    let layout = BindGroupLayout { entries: vec![texture_layout()[1]] };
    let pipeline = RenderPipeline::textured(&layout, TextureFormat::Rgba8Unorm);
    assert_eq!(pipeline.layout, layout);
    assert_eq!(pipeline.target.format, TextureFormat::Rgba8Unorm);
}

#[test]
fn attributes_lie_at_their_offsets_in_each_record() {
    let vertices = square();
    let buffer = VertexBuffer::new(square());
    let bytes = buffer.contents();
    let layout = Vertex::desc();
    let stride = layout.array_stride as usize;
    assert_eq!(bytes.len(), stride * vertices.len());
    for (i, vertex) in vertices.iter().enumerate() {
        let position = layout.attributes[0].offset as usize;
        let tex_coords = layout.attributes[1].offset as usize;
        for (w, word) in vertex.position.iter().enumerate() {
            let at = stride * i + position + 4 * w;
            assert_eq!(bytes[at..at + 4], word.to_ne_bytes());
        }
        for (w, word) in vertex.tex_coords.iter().enumerate() {
            let at = stride * i + tex_coords + 4 * w;
            assert_eq!(bytes[at..at + 4], word.to_ne_bytes());
        }
    }
}

#[test]
fn indices_lie_two_bytes_apart() {
    let indices: Vec<u16> = vec![0, 1, 3, 1, 2, 3, 0xabcd];
    let buffer = IndexBuffer::new(indices.clone());
    let bytes = buffer.contents();
    assert_eq!(bytes.len(), 2 * indices.len());
    for (k, index) in indices.iter().enumerate() {
        assert_eq!(bytes[2 * k..2 * k + 2], index.to_ne_bytes());
    }
}

use render_pipeline::renderer::fullscreen_quad::{
    pos_tex_vertices, quad_buffer, screen_space_bind_group_layout, screen_space_pass,
    screen_space_pipeline, PosTexVertex, QUAD_VERTEX_COUNT, QUAD_VERTEX_SIZE,
};
use render_pipeline::renderer::layout::{
    VertexAttribute, VertexBufferLayout, VertexFormat, VertexStepMode,
};
use render_pipeline::renderer::model::{
    instance_desc, model_vertex_desc, ModelData, ModelRendererResource, CAMERA_UNIFORM_SIZE,
    INSTANCE_SIZE, MODEL_VERTEX_SIZE,
};
use render_pipeline::renderer::resource::{
    AddressMode, BindGroupEntry, BindGroupLayoutEntry, BindingResource, BindingType,
    BufferDescriptor, BufferUsages, Face, FilterMode, FrontFace, LoadOp, PassKind,
    PrimitiveState, PrimitiveTopology, RenderTarget, SamplerDescriptor, ShaderStage,
    TextureFormat, TextureId, TextureSource, VertexSource,
};

fn attribute(format: VertexFormat, offset: u64, shader_location: u32) -> VertexAttribute {
    VertexAttribute { format, offset, shader_location }
}

#[test]
fn vertex_format_sizes() {
    assert_eq!(VertexFormat::Float32x2.size(), 8);
    assert_eq!(VertexFormat::Float32x3.size(), 12);
    assert_eq!(VertexFormat::Float32x4.size(), 16);
}

#[test]
fn packed_layout_accumulates_offsets() {
    let layout = VertexBufferLayout::packed(
        VertexStepMode::Vertex,
        &[
            (3, VertexFormat::Float32x2),
            (0, VertexFormat::Float32x4),
            (7, VertexFormat::Float32x3),
        ],
    );
    assert_eq!(layout.array_stride, 36);
    assert_eq!(layout.step_mode, VertexStepMode::Vertex);
    assert_eq!(
        layout.attributes,
        vec![
            attribute(VertexFormat::Float32x2, 0, 3),
            attribute(VertexFormat::Float32x4, 8, 0),
            attribute(VertexFormat::Float32x3, 24, 7),
        ]
    );
}

#[test]
fn packed_layout_of_nothing_is_empty() {
    let layout = VertexBufferLayout::packed(VertexStepMode::Instance, &[]);
    assert_eq!(layout.array_stride, 0);
    assert_eq!(layout.step_mode, VertexStepMode::Instance);
    assert!(layout.attributes.is_empty());
}

#[test]
fn quad_vertex_layout() {
    let layout = PosTexVertex::desc();
    assert_eq!(layout.array_stride, 20);
    assert_eq!(layout.array_stride, QUAD_VERTEX_SIZE);
    assert_eq!(layout.step_mode, VertexStepMode::Vertex);
    assert_eq!(
        layout.attributes,
        vec![
            attribute(VertexFormat::Float32x3, 0, 0),
            attribute(VertexFormat::Float32x2, 12, 1),
        ]
    );
}

#[test]
fn model_vertex_layout() {
    let layout = model_vertex_desc();
    assert_eq!(layout.array_stride, 32);
    assert_eq!(layout.array_stride, MODEL_VERTEX_SIZE);
    assert_eq!(layout.step_mode, VertexStepMode::Vertex);
    assert_eq!(
        layout.attributes,
        vec![
            attribute(VertexFormat::Float32x3, 0, 0),
            attribute(VertexFormat::Float32x3, 12, 1),
            attribute(VertexFormat::Float32x2, 24, 2),
        ]
    );
}

#[test]
fn instance_layout() {
    let layout = instance_desc();
    assert_eq!(layout.array_stride, 64);
    assert_eq!(layout.array_stride, INSTANCE_SIZE);
    assert_eq!(layout.step_mode, VertexStepMode::Instance);
    assert_eq!(
        layout.attributes,
        vec![
            attribute(VertexFormat::Float32x4, 0, 5),
            attribute(VertexFormat::Float32x4, 16, 6),
            attribute(VertexFormat::Float32x4, 32, 7),
            attribute(VertexFormat::Float32x4, 48, 8),
        ]
    );
}

#[test]
fn quad_is_two_counter_clockwise_triangles() {
    let vertices = pos_tex_vertices();
    assert_eq!(vertices.len() as u32, QUAD_VERTEX_COUNT);
    let expected = [
        ([-1, -1, 0], [0, 1]),
        ([1, -1, 0], [1, 1]),
        ([1, 1, 0], [1, 0]),
        ([1, 1, 0], [1, 0]),
        ([-1, 1, 0], [0, 0]),
        ([-1, -1, 0], [0, 1]),
    ];
    for (vertex, (position, uv)) in vertices.iter().zip(expected.iter()) {
        assert_eq!(vertex.position, *position);
        assert_eq!(vertex.uv, *uv);
    }
    for triangle in vertices.chunks(3) {
        let (a, b, c) = (triangle[0].position, triangle[1].position, triangle[2].position);
        let doubled_area = (b[0] - a[0]) * (c[1] - a[1]) - (c[0] - a[0]) * (b[1] - a[1]);
        assert_eq!(doubled_area, 4);
    }
}

#[test]
fn quad_texture_coordinates_follow_the_screen() {
    for vertex in pos_tex_vertices() {
        assert_eq!(2 * vertex.uv[0], vertex.position[0] + 1);
        assert_eq!(2 * vertex.uv[1], 1 - vertex.position[1]);
    }
}

#[test]
fn quad_buffer_holds_six_vertices() {
    let buffer = quad_buffer();
    assert_eq!(
        buffer,
        BufferDescriptor {
            size: 120,
            usage: BufferUsages { vertex: true, uniform: false, copy_dst: false },
        }
    );
    assert_eq!(buffer.size, QUAD_VERTEX_COUNT as u64 * QUAD_VERTEX_SIZE);
}

#[test]
fn screen_space_sampler_is_bilinear_and_clamped() {
    assert_eq!(
        SamplerDescriptor::screen_space(),
        SamplerDescriptor {
            address_mode_u: AddressMode::ClampToEdge,
            address_mode_v: AddressMode::ClampToEdge,
            address_mode_w: AddressMode::ClampToEdge,
            mag_filter: FilterMode::Linear,
            min_filter: FilterMode::Linear,
            mipmap_filter: FilterMode::Nearest,
        }
    );
}

#[test]
fn triangles_are_culled_from_behind() {
    assert_eq!(
        PrimitiveState::triangles(),
        PrimitiveState {
            topology: PrimitiveTopology::TriangleList,
            front_face: FrontFace::Ccw,
            cull_mode: Some(Face::Back),
        }
    );
}

#[test]
fn screen_space_pipeline_binds_texture_and_sampler() {
    let pipeline = screen_space_pipeline(TextureFormat::Bgra8UnormSrgb);
    assert_eq!(pipeline.target_format, TextureFormat::Bgra8UnormSrgb);
    assert_eq!(pipeline.primitive, PrimitiveState::triangles());
    assert_eq!(pipeline.vertex_buffers, vec![PosTexVertex::desc()]);
    assert_eq!(
        pipeline.bind_group_layout,
        vec![
            BindGroupLayoutEntry {
                binding: 0,
                visibility: ShaderStage::Fragment,
                ty: BindingType::Texture,
            },
            BindGroupLayoutEntry {
                binding: 1,
                visibility: ShaderStage::Fragment,
                ty: BindingType::Sampler,
            },
        ]
    );
    assert_eq!(pipeline.bind_group_layout, screen_space_bind_group_layout());
}

#[test]
fn screen_space_pass_draws_the_quad_once() {
    let pass = screen_space_pass(
        PassKind::PostProcess,
        RenderTarget::Surface,
        TextureSource::Intermediate,
    );
    assert_eq!(pass.kind, PassKind::PostProcess);
    assert_eq!(pass.target, RenderTarget::Surface);
    assert_eq!(pass.load, LoadOp::Clear);
    assert_eq!(
        pass.bind_group,
        vec![
            BindGroupEntry {
                binding: 0,
                resource: BindingResource::TextureView(TextureSource::Intermediate),
            },
            BindGroupEntry { binding: 1, resource: BindingResource::Sampler },
        ]
    );
    assert_eq!(pass.vertex_buffers, vec![VertexSource::Quad]);
    assert_eq!(pass.vertex_count, 6);
    assert_eq!(pass.instance_count, 1);
}

#[test]
fn model_data_sizes_its_buffer() {
    let model = ModelData::new(12);
    assert_eq!(model.get_vertex_count(), 12);
    assert_eq!(
        *model.get_vertex_buffer(),
        BufferDescriptor {
            size: 384,
            usage: BufferUsages { vertex: true, uniform: false, copy_dst: false },
        }
    );
    let largest = ModelData::new(u32::MAX);
    assert_eq!(largest.get_vertex_buffer().size, u32::MAX as u64 * 32);
    assert_eq!(ModelData::new(0).get_vertex_buffer().size, 0);
}

#[test]
fn model_resource_describes_pipeline_and_buffers() {
    let resource = ModelRendererResource::new(TextureFormat::Rgba8UnormSrgb, ModelData::new(12), 3);
    assert_eq!(resource.model(), ModelData::new(12));
    assert_eq!(resource.instance_count(), 3);
    let pipeline = resource.render_pipeline();
    assert_eq!(pipeline.target_format, TextureFormat::Rgba8UnormSrgb);
    assert_eq!(pipeline.primitive, PrimitiveState::triangles());
    assert_eq!(pipeline.vertex_buffers, vec![model_vertex_desc(), instance_desc()]);
    let layout = vec![BindGroupLayoutEntry {
        binding: 0,
        visibility: ShaderStage::Vertex,
        ty: BindingType::UniformBuffer,
    }];
    assert_eq!(pipeline.bind_group_layout, layout);
    assert_eq!(*resource.camera_bind_group_layout(), layout);
    assert_eq!(
        *resource.camera_bind_group(),
        vec![BindGroupEntry { binding: 0, resource: BindingResource::CameraBuffer }]
    );
    assert_eq!(
        resource.camera_buffer(),
        BufferDescriptor {
            size: CAMERA_UNIFORM_SIZE,
            usage: BufferUsages { vertex: false, uniform: true, copy_dst: true },
        }
    );
    assert_eq!(CAMERA_UNIFORM_SIZE, 64);
    assert_eq!(
        resource.instance_buffer(),
        BufferDescriptor {
            size: 192,
            usage: BufferUsages { vertex: true, uniform: false, copy_dst: false },
        }
    );
}

#[test]
fn model_pass_loads_and_draws_every_instance() {
    let resource = ModelRendererResource::new(TextureFormat::Rgba8UnormSrgb, ModelData::new(12), 3);
    let pass = resource.render();
    assert_eq!(pass.kind, PassKind::Model);
    assert_eq!(pass.target, RenderTarget::Intermediate);
    assert_eq!(pass.load, LoadOp::Load);
    assert_eq!(
        pass.bind_group,
        vec![BindGroupEntry { binding: 0, resource: BindingResource::CameraBuffer }]
    );
    assert_eq!(pass.vertex_buffers, vec![VertexSource::Model, VertexSource::Instances]);
    assert_eq!(pass.vertex_count, 12);
    assert_eq!(pass.instance_count, 3);
}

#[test]
fn model_pipeline_feeds_no_shader_input_twice() {
    let resource = ModelRendererResource::new(TextureFormat::Rgba8Unorm, ModelData::new(3), 1);
    let mut locations: Vec<u32> = Vec::new();
    for layout in resource.render_pipeline().vertex_buffers.iter() {
        for attribute in layout.attributes.iter() {
            assert!(!locations.contains(&attribute.shader_location));
            assert!(attribute.offset + attribute.format.size() <= layout.array_stride);
            locations.push(attribute.shader_location);
        }
    }
    assert_eq!(locations, vec![0, 1, 2, 5, 6, 7, 8]);
}

#[test]
fn texture_id_is_its_place() {
    assert_eq!(TextureId(4).0, 4);
    assert_ne!(TextureSource::Cached(TextureId(0)), TextureSource::Intermediate);
}

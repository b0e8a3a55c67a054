//! The model pass: instanced geometry drawn over the background with the
//! camera of the scene.

use vstd::prelude::*;
use crate::renderer::layout::{
    lemma_packed_well_formed, packed_offset, VertexBufferLayout, VertexFormat, VertexStepMode,
};
use crate::renderer::resource::{
    bind_group_matches, BindGroupEntry, BindGroupLayoutEntry, BindingResource, BindingType,
    BufferDescriptor, BufferUsages, LoadOp, PassKind, PrimitiveState, RenderPass,
    RenderPipelineDescriptor, RenderTarget, ShaderStage, TextureFormat, TextureSource,
    VertexSource,
};

verus! {

/// Bytes of one model vertex: position, colour and texture coordinate.
pub const MODEL_VERTEX_SIZE: u64 = 32;

/// Bytes of one instance: a 4 by 4 transform.
pub const INSTANCE_SIZE: u64 = 64;

/// Bytes of the camera block: the 4 by 4 view-projection matrix.
pub const CAMERA_UNIFORM_SIZE: u64 = 64;

/// Shader inputs and formats of a model vertex: position at 0, colour at 1,
/// texture coordinate at 2.
pub open spec fn model_vertex_entries() -> Seq<(u32, VertexFormat)> {
    seq![
        (0u32, VertexFormat::Float32x3),
        (1u32, VertexFormat::Float32x3),
        (2u32, VertexFormat::Float32x2),
    ]
}

/// Shader inputs and formats of an instance: the four columns of its
/// transform at inputs 5 to 8, which leaves 0 to 4 to the vertex.
pub open spec fn instance_entries() -> Seq<(u32, VertexFormat)> {
    seq![
        (5u32, VertexFormat::Float32x4),
        (6u32, VertexFormat::Float32x4),
        (7u32, VertexFormat::Float32x4),
        (8u32, VertexFormat::Float32x4),
    ]
}

/// The per-vertex stream of the model pass.
pub fn model_vertex_desc() -> (layout: VertexBufferLayout)
    ensures
        layout.is_packed(VertexStepMode::Vertex, model_vertex_entries()),
        layout.array_stride == MODEL_VERTEX_SIZE,
        layout.well_formed(),
{
    let entries = [
        (0u32, VertexFormat::Float32x3),
        (1u32, VertexFormat::Float32x3),
        (2u32, VertexFormat::Float32x2),
    ];
    let layout = VertexBufferLayout::packed(VertexStepMode::Vertex, &entries);
    proof {
        assert(entries@ =~= model_vertex_entries());
        reveal_with_fuel(packed_offset, 4);
        lemma_packed_well_formed(layout, entries@);
    }
    layout
}

/// The per-instance stream of the model pass.
pub fn instance_desc() -> (layout: VertexBufferLayout)
    ensures
        layout.is_packed(VertexStepMode::Instance, instance_entries()),
        layout.array_stride == INSTANCE_SIZE,
        layout.well_formed(),
{
    let entries = [
        (5u32, VertexFormat::Float32x4),
        (6u32, VertexFormat::Float32x4),
        (7u32, VertexFormat::Float32x4),
        (8u32, VertexFormat::Float32x4),
    ];
    let layout = VertexBufferLayout::packed(VertexStepMode::Instance, &entries);
    proof {
        assert(entries@ =~= instance_entries());
        reveal_with_fuel(packed_offset, 5);
        lemma_packed_well_formed(layout, entries@);
    }
    layout
}

/// The geometry of one model: a vertex buffer and the number of vertices in
/// it.
#[derive(Clone, Copy, Debug, PartialEq, Eq)]
pub struct ModelData {
    vertex_buffer: BufferDescriptor,
    vertex_count: u32,
}

impl ModelData {
    #[verifier::type_invariant]
    spec fn inv(self) -> bool {
        &&& self.vertex_buffer.size == self.vertex_count * MODEL_VERTEX_SIZE
        &&& self.vertex_buffer.usage == (BufferUsages {
            vertex: true,
            uniform: false,
            copy_dst: false,
        })
    }

    /// The number of vertices of the model.
    pub closed spec fn spec_vertex_count(&self) -> u32 {
        self.vertex_count
    }

    /// The buffer that holds the vertices.
    pub closed spec fn spec_vertex_buffer(&self) -> BufferDescriptor {
        self.vertex_buffer
    }

    /// A model of `vertex_count` vertices, with a vertex buffer that holds
    /// exactly them.
    pub fn new(vertex_count: u32) -> (model: Self)
        ensures
            model.spec_vertex_count() == vertex_count,
            model.spec_vertex_buffer() == (BufferDescriptor {
                size: (vertex_count * MODEL_VERTEX_SIZE) as u64,
                usage: BufferUsages { vertex: true, uniform: false, copy_dst: false },
            }),
    {
        let count: u64 = vertex_count as u64;
        ModelData {
            vertex_buffer: BufferDescriptor {
                size: count * MODEL_VERTEX_SIZE,
                usage: BufferUsages { vertex: true, uniform: false, copy_dst: false },
            },
            vertex_count,
        }
    }

    /// The buffer that holds the vertices.
    pub fn get_vertex_buffer(&self) -> (buffer: &BufferDescriptor)
        ensures
            *buffer == self.spec_vertex_buffer(),
            buffer.size == self.spec_vertex_count() * MODEL_VERTEX_SIZE,
            buffer.usage.vertex,
    {
        proof {
            use_type_invariant(self);
        }
        &self.vertex_buffer
    }

    /// The number of vertices of the model.
    pub fn get_vertex_count(&self) -> (count: u32)
        ensures
            count == self.spec_vertex_count(),
    {
        self.vertex_count
    }
}

/// The slots of the camera bind group: the camera block, seen by the vertex
/// stage, at binding 0.
pub open spec fn camera_bind_group_layout() -> Seq<BindGroupLayoutEntry> {
    seq![
        BindGroupLayoutEntry {
            binding: 0,
            visibility: ShaderStage::Vertex,
            ty: BindingType::UniformBuffer,
        },
    ]
}

/// The camera bind group: the camera buffer at binding 0.
pub open spec fn camera_bind_group() -> Seq<BindGroupEntry> {
    seq![BindGroupEntry { binding: 0, resource: BindingResource::CameraBuffer }]
}

/// The pass is the model pass for a model of `vertex_count` vertices and
/// `instance_count` instances: drawn into the intermediate target on top of
/// what is there, with the camera bind group, the model's vertices in stream
/// 0 and the instances in stream 1.
pub open spec fn is_model_pass(pass: RenderPass, vertex_count: u32, instance_count: u32) -> bool {
    &&& pass.kind == PassKind::Model
    &&& pass.target == RenderTarget::Intermediate
    &&& pass.load == LoadOp::Load
    &&& pass.bind_group@ =~= camera_bind_group()
    &&& pass.vertex_buffers@ =~= seq![VertexSource::Model, VertexSource::Instances]
    &&& pass.vertex_count == vertex_count
    &&& pass.instance_count == instance_count
}

/// The model pass samples no texture.
pub proof fn lemma_model_pass_samples_nothing(
    pass: RenderPass,
    vertex_count: u32,
    instance_count: u32,
)
    requires
        is_model_pass(pass, vertex_count, instance_count),
    ensures
        forall|source: TextureSource| !#[trigger] pass.samples(source),
{
    assert forall|source: TextureSource| !#[trigger] pass.samples(source) by {
        if pass.samples(source) {
            let i = choose|i: int|
                0 <= i < pass.bind_group@.len() && (#[trigger] pass.bind_group@[i]).resource
                    == BindingResource::TextureView(source);
            assert(i == 0);
        }
    }
}

/// What the model pass creates once and keeps: its pipeline, the camera
/// block with its bind group, and the buffers of the model and its instances.
#[derive(Debug, PartialEq, Eq)]
pub struct ModelRendererResource {
    test_model: ModelData,
    render_pipeline: RenderPipelineDescriptor,
    camera_buffer: BufferDescriptor,
    camera_bind_group_layout: Vec<BindGroupLayoutEntry>,
    camera_bind_group: Vec<BindGroupEntry>,
    instance_buffer: BufferDescriptor,
    instance_count: u32,
}

impl ModelRendererResource {
    #[verifier::type_invariant]
    spec fn inv(self) -> bool {
        self.consistent()
    }

    /// The parts of the resource agree with each other.
    pub closed spec fn consistent(&self) -> bool {
        &&& self.test_model.vertex_buffer == (BufferDescriptor {
            size: (self.test_model.vertex_count * MODEL_VERTEX_SIZE) as u64,
            usage: BufferUsages { vertex: true, uniform: false, copy_dst: false },
        })
        &&& self.render_pipeline.bind_group_layout@ =~= camera_bind_group_layout()
        &&& self.render_pipeline.vertex_buffers@.len() == 2
        &&& self.render_pipeline.vertex_buffers@[0].is_packed(
            VertexStepMode::Vertex,
            model_vertex_entries(),
        )
        &&& self.render_pipeline.vertex_buffers@[1].is_packed(
            VertexStepMode::Instance,
            instance_entries(),
        )
        &&& self.render_pipeline.vertex_buffers@[0].array_stride == MODEL_VERTEX_SIZE
        &&& self.render_pipeline.vertex_buffers@[1].array_stride == INSTANCE_SIZE
        &&& self.render_pipeline.primitive == PrimitiveState::spec_triangles()
        &&& self.render_pipeline.well_formed()
        &&& self.camera_buffer == (BufferDescriptor {
            size: CAMERA_UNIFORM_SIZE,
            usage: BufferUsages { vertex: false, uniform: true, copy_dst: true },
        })
        &&& self.camera_bind_group_layout@ =~= camera_bind_group_layout()
        &&& self.camera_bind_group@ =~= camera_bind_group()
        &&& self.instance_buffer == (BufferDescriptor {
            size: (self.instance_count * INSTANCE_SIZE) as u64,
            usage: BufferUsages { vertex: true, uniform: false, copy_dst: false },
        })
    }

    pub closed spec fn spec_model(&self) -> ModelData {
        self.test_model
    }

    pub closed spec fn spec_render_pipeline(&self) -> RenderPipelineDescriptor {
        self.render_pipeline
    }

    pub closed spec fn spec_camera_buffer(&self) -> BufferDescriptor {
        self.camera_buffer
    }

    pub closed spec fn spec_camera_bind_group_layout(&self) -> Seq<BindGroupLayoutEntry> {
        self.camera_bind_group_layout@
    }

    pub closed spec fn spec_camera_bind_group(&self) -> Seq<BindGroupEntry> {
        self.camera_bind_group@
    }

    pub closed spec fn spec_instance_buffer(&self) -> BufferDescriptor {
        self.instance_buffer
    }

    pub closed spec fn spec_instance_count(&self) -> u32 {
        self.instance_count
    }

    /// The resource as its parts show it from outside: what `new` builds from
    /// the format of the target, the model and the number of instances.
    pub open spec fn describes(
        &self,
        target_format: TextureFormat,
        model: ModelData,
        instance_count: u32,
    ) -> bool {
        let pipeline = self.spec_render_pipeline();
        &&& self.spec_model() == model
        &&& model.spec_vertex_buffer() == (BufferDescriptor {
            size: (model.spec_vertex_count() * MODEL_VERTEX_SIZE) as u64,
            usage: BufferUsages { vertex: true, uniform: false, copy_dst: false },
        })
        &&& self.spec_instance_count() == instance_count
        &&& pipeline.target_format == target_format
        &&& pipeline.primitive == PrimitiveState::spec_triangles()
        &&& pipeline.bind_group_layout@ =~= camera_bind_group_layout()
        &&& pipeline.vertex_buffers@.len() == 2
        &&& pipeline.vertex_buffers@[0].is_packed(VertexStepMode::Vertex, model_vertex_entries())
        &&& pipeline.vertex_buffers@[0].array_stride == MODEL_VERTEX_SIZE
        &&& pipeline.vertex_buffers@[1].is_packed(VertexStepMode::Instance, instance_entries())
        &&& pipeline.vertex_buffers@[1].array_stride == INSTANCE_SIZE
        &&& pipeline.well_formed()
        &&& self.spec_camera_buffer() == (BufferDescriptor {
            size: CAMERA_UNIFORM_SIZE,
            usage: BufferUsages { vertex: false, uniform: true, copy_dst: true },
        })
        &&& self.spec_camera_bind_group_layout() =~= camera_bind_group_layout()
        &&& self.spec_camera_bind_group() =~= camera_bind_group()
        &&& bind_group_matches(self.spec_camera_bind_group_layout(), self.spec_camera_bind_group())
        &&& self.spec_instance_buffer() == (BufferDescriptor {
            size: (instance_count * INSTANCE_SIZE) as u64,
            usage: BufferUsages { vertex: true, uniform: false, copy_dst: false },
        })
    }

    /// Describes the resources of the model pass for a target of the given
    /// format: a pipeline over the per-vertex and per-instance streams with
    /// the camera block as its only binding, a camera buffer that can be
    /// bound and rewritten, and an instance buffer of `instance_count`
    /// transforms.
    pub fn new(target_format: TextureFormat, model: ModelData, instance_count: u32) -> (resource:
        Self)
        ensures
            resource.describes(target_format, model, instance_count),
    {
        let mut layout: Vec<BindGroupLayoutEntry> = Vec::new();
        layout.push(
            BindGroupLayoutEntry {
                binding: 0,
                visibility: ShaderStage::Vertex,
                ty: BindingType::UniformBuffer,
            },
        );
        let mut pipeline_layout: Vec<BindGroupLayoutEntry> = Vec::new();
        pipeline_layout.push(
            BindGroupLayoutEntry {
                binding: 0,
                visibility: ShaderStage::Vertex,
                ty: BindingType::UniformBuffer,
            },
        );
        let mut bind_group: Vec<BindGroupEntry> = Vec::new();
        bind_group.push(BindGroupEntry { binding: 0, resource: BindingResource::CameraBuffer });
        let vertices = model_vertex_desc();
        let instances = instance_desc();
        proof {
            use_type_invariant(&model);
            lemma_packed_well_formed(vertices, model_vertex_entries());
            lemma_packed_well_formed(instances, instance_entries());
            assert forall|location: u32|
                !(vertices.uses_location(location) && instances.uses_location(location)) by {
                if vertices.uses_location(location) && instances.uses_location(location) {
                    let i = choose|i: int|
                        0 <= i < model_vertex_entries().len() && (#[trigger] model_vertex_entries()[i]).0
                            == location;
                    let j = choose|j: int|
                        0 <= j < instance_entries().len() && (#[trigger] instance_entries()[j]).0
                            == location;
                    assert(model_vertex_entries()[i].0 <= 2);
                    assert(instance_entries()[j].0 >= 5);
                }
            }
        }
        let mut vertex_buffers: Vec<VertexBufferLayout> = Vec::new();
        vertex_buffers.push(vertices);
        vertex_buffers.push(instances);
        let render_pipeline = RenderPipelineDescriptor {
            bind_group_layout: pipeline_layout,
            vertex_buffers,
            target_format,
            primitive: PrimitiveState::triangles(),
        };
        let count: u64 = instance_count as u64;
        ModelRendererResource {
            test_model: model,
            render_pipeline,
            camera_buffer: BufferDescriptor {
                size: CAMERA_UNIFORM_SIZE,
                usage: BufferUsages { vertex: false, uniform: true, copy_dst: true },
            },
            camera_bind_group_layout: layout,
            camera_bind_group: bind_group,
            instance_buffer: BufferDescriptor {
                size: count * INSTANCE_SIZE,
                usage: BufferUsages { vertex: true, uniform: false, copy_dst: false },
            },
            instance_count,
        }
    }

    pub fn model(&self) -> (model: ModelData)
        ensures
            model == self.spec_model(),
    {
        self.test_model
    }

    pub fn render_pipeline(&self) -> (pipeline: &RenderPipelineDescriptor)
        ensures
            *pipeline == self.spec_render_pipeline(),
            self.describes(pipeline.target_format, self.spec_model(), self.spec_instance_count()),
    {
        proof {
            use_type_invariant(self);
        }
        &self.render_pipeline
    }

    pub fn camera_buffer(&self) -> (buffer: BufferDescriptor)
        ensures
            buffer == self.spec_camera_buffer(),
            buffer.size == CAMERA_UNIFORM_SIZE,
            buffer.usage.uniform && buffer.usage.copy_dst,
    {
        proof {
            use_type_invariant(self);
        }
        self.camera_buffer
    }

    pub fn camera_bind_group_layout(&self) -> (layout: &Vec<BindGroupLayoutEntry>)
        ensures
            layout@ == self.spec_camera_bind_group_layout(),
            layout@ == camera_bind_group_layout(),
    {
        proof {
            use_type_invariant(self);
        }
        &self.camera_bind_group_layout
    }

    pub fn camera_bind_group(&self) -> (entries: &Vec<BindGroupEntry>)
        ensures
            entries@ == self.spec_camera_bind_group(),
            entries@ == camera_bind_group(),
    {
        proof {
            use_type_invariant(self);
        }
        &self.camera_bind_group
    }

    pub fn instance_buffer(&self) -> (buffer: BufferDescriptor)
        ensures
            buffer == self.spec_instance_buffer(),
            buffer.size == self.spec_instance_count() * INSTANCE_SIZE,
            buffer.usage.vertex,
    {
        proof {
            use_type_invariant(self);
        }
        self.instance_buffer
    }

    pub fn instance_count(&self) -> (count: u32)
        ensures
            count == self.spec_instance_count(),
    {
        self.instance_count
    }

    /// The commands of the model pass: drawn into the intermediate target on
    /// top of what the background pass left there, with the camera bind
    /// group, the model's vertices in stream 0 and the instances in stream 1,
    /// all vertices of the model for every instance.
    pub fn render(&self) -> (pass: RenderPass)
        ensures
            is_model_pass(
                pass,
                self.spec_model().spec_vertex_count(),
                self.spec_instance_count(),
            ),
            pass.bind_group@ =~= self.spec_camera_bind_group(),
            pass.fits(&self.spec_render_pipeline()),
            pass.vertex_count * MODEL_VERTEX_SIZE <= self.spec_model().spec_vertex_buffer().size,
            pass.instance_count * INSTANCE_SIZE <= self.spec_instance_buffer().size,
    {
        proof {
            use_type_invariant(self);
            use_type_invariant(&self.test_model);
        }
        let mut vertex_buffers: Vec<VertexSource> = Vec::new();
        vertex_buffers.push(VertexSource::Model);
        vertex_buffers.push(VertexSource::Instances);
        let mut bind_group: Vec<BindGroupEntry> = Vec::new();
        bind_group.push(BindGroupEntry { binding: 0, resource: BindingResource::CameraBuffer });
        RenderPass {
            kind: PassKind::Model,
            target: RenderTarget::Intermediate,
            load: LoadOp::Load,
            bind_group,
            vertex_buffers,
            vertex_count: self.test_model.get_vertex_count(),
            instance_count: self.instance_count,
        }
    }
}

} // verus!

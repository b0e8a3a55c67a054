//! The full-screen quad that every screen-space pass draws.

use vstd::prelude::*;
use crate::renderer::layout::{
    lemma_packed_well_formed, packed_offset, VertexAttribute, VertexBufferLayout, VertexFormat,
    VertexStepMode,
};
use crate::renderer::resource::{
    bind_group_matches, BindGroupEntry, BindGroupLayoutEntry, BindingResource, BindingType,
    BufferDescriptor, BufferUsages, LoadOp, PassKind, PrimitiveState, RenderPass,
    RenderPipelineDescriptor, RenderTarget, ShaderStage, TextureFormat, TextureSource,
    VertexSource,
};

verus! {

/// Number of vertices of the quad: two triangles.
pub const QUAD_VERTEX_COUNT: u32 = 6;

/// A vertex with a position in clip space and a texture coordinate. The
/// coordinates of the quad are whole numbers; they are widened to the 32-bit
/// components of the vertex stream when the buffer is filled.
#[derive(Clone, Copy, Debug, PartialEq, Eq)]
pub struct PosTexVertex {
    pub position: [i32; 3],
    pub uv: [i32; 2],
}

/// Bytes of one vertex of the quad.
pub const QUAD_VERTEX_SIZE: u64 = 20;

/// Shader inputs and formats of a quad vertex: position at 0, texture
/// coordinate at 1.
pub open spec fn pos_tex_entries() -> Seq<(u32, VertexFormat)> {
    seq![(0u32, VertexFormat::Float32x3), (1u32, VertexFormat::Float32x2)]
}

/// Twice the signed area of the triangle `a b c` seen along the z axis:
/// positive when the corners run counter-clockwise.
pub open spec fn doubled_area(a: PosTexVertex, b: PosTexVertex, c: PosTexVertex) -> int {
    (b.position[0] - a.position[0]) * (c.position[1] - a.position[1]) - (c.position[0]
        - a.position[0]) * (b.position[1] - a.position[1])
}

/// The vertex lies in the plane z = 0, and its texture coordinate is its place
/// on the screen: u runs from 0 at the left edge to 1 at the right edge, v
/// from 0 at the top edge to 1 at the bottom edge.
pub open spec fn on_screen(v: PosTexVertex) -> bool {
    &&& v.position[2] == 0
    &&& (v.position[0] == -1 || v.position[0] == 1)
    &&& (v.position[1] == -1 || v.position[1] == 1)
    &&& 2 * v.uv[0] == v.position[0] + 1
    &&& 2 * v.uv[1] == 1 - v.position[1]
}

impl PosTexVertex {
    /// The stream layout of the quad: three position components at shader
    /// input 0, two texture components at shader input 1, packed.
    pub fn desc() -> (layout: VertexBufferLayout)
        ensures
            layout.is_packed(VertexStepMode::Vertex, pos_tex_entries()),
            layout.array_stride == QUAD_VERTEX_SIZE,
            layout.attributes@ =~= seq![
                VertexAttribute { format: VertexFormat::Float32x3, offset: 0, shader_location: 0 },
                VertexAttribute { format: VertexFormat::Float32x2, offset: 12, shader_location: 1 },
            ],
            layout.well_formed(),
    {
        let entries = [(0u32, VertexFormat::Float32x3), (1u32, VertexFormat::Float32x2)];
        let layout = VertexBufferLayout::packed(VertexStepMode::Vertex, &entries);
        proof {
            assert(entries@ =~= pos_tex_entries());
            reveal_with_fuel(packed_offset, 3);
            lemma_packed_well_formed(layout, entries@);
        }
        layout
    }
}

/// The six vertices of the quad, as two triangles. Every vertex is a corner
/// of the screen with the texture coordinate of its place, each triangle has
/// half the area of the screen, and both face the viewer, so that the
/// pipelines of the screen-space passes draw them.
pub fn pos_tex_vertices() -> (vertices: Vec<PosTexVertex>)
    ensures
        vertices@.len() == QUAD_VERTEX_COUNT,
        vertices@[0] == (PosTexVertex { position: [-1i32, -1i32, 0], uv: [0, 1] }),
        vertices@[1] == (PosTexVertex { position: [1, -1i32, 0], uv: [1, 1] }),
        vertices@[2] == (PosTexVertex { position: [1, 1, 0], uv: [1, 0] }),
        vertices@[3] == (PosTexVertex { position: [1, 1, 0], uv: [1, 0] }),
        vertices@[4] == (PosTexVertex { position: [-1i32, 1, 0], uv: [0, 0] }),
        vertices@[5] == (PosTexVertex { position: [-1i32, -1i32, 0], uv: [0, 1] }),
        forall|i: int| 0 <= i < 6 ==> on_screen(#[trigger] vertices@[i]),
        doubled_area(vertices@[0], vertices@[1], vertices@[2]) == 4,
        doubled_area(vertices@[3], vertices@[4], vertices@[5]) == 4,
        PrimitiveState::spec_triangles().draws(
            doubled_area(vertices@[0], vertices@[1], vertices@[2]),
        ),
        PrimitiveState::spec_triangles().draws(
            doubled_area(vertices@[3], vertices@[4], vertices@[5]),
        ),
{
    let mut vertices: Vec<PosTexVertex> = Vec::new();
    vertices.push(PosTexVertex { position: [-1, -1, 0], uv: [0, 1] });
    vertices.push(PosTexVertex { position: [1, -1, 0], uv: [1, 1] });
    vertices.push(PosTexVertex { position: [1, 1, 0], uv: [1, 0] });
    vertices.push(PosTexVertex { position: [1, 1, 0], uv: [1, 0] });
    vertices.push(PosTexVertex { position: [-1, 1, 0], uv: [0, 0] });
    vertices.push(PosTexVertex { position: [-1, -1, 0], uv: [0, 1] });
    proof {
        let v = vertices@;
        assert(v[1].position[0] - v[0].position[0] == 2 && v[2].position[1] - v[0].position[1] == 2);
        assert(v[2].position[0] - v[0].position[0] == 2 && v[1].position[1] - v[0].position[1] == 0);
        assert(v[4].position[0] - v[3].position[0] == -2 && v[5].position[1] - v[3].position[1]
            == -2);
        assert(v[5].position[0] - v[3].position[0] == -2 && v[4].position[1] - v[3].position[1]
            == 0);
    }
    vertices
}

/// The vertex buffer that holds the quad: six vertices of twenty bytes.
pub open spec fn spec_quad_buffer() -> BufferDescriptor {
    BufferDescriptor {
        size: 120,
        usage: BufferUsages { vertex: true, uniform: false, copy_dst: false },
    }
}

/// The vertex buffer that holds the quad.
pub fn quad_buffer() -> (buffer: BufferDescriptor)
    ensures
        buffer == spec_quad_buffer(),
        buffer.size == QUAD_VERTEX_COUNT * QUAD_VERTEX_SIZE,
{
    BufferDescriptor {
        size: 120,
        usage: BufferUsages { vertex: true, uniform: false, copy_dst: false },
    }
}

/// The slots of a screen-space bind group: the sampled texture at binding 0
/// and its sampler at binding 1, both seen by the fragment stage.
pub open spec fn texture_bind_group_layout() -> Seq<BindGroupLayoutEntry> {
    seq![
        BindGroupLayoutEntry {
            binding: 0,
            visibility: ShaderStage::Fragment,
            ty: BindingType::Texture,
        },
        BindGroupLayoutEntry {
            binding: 1,
            visibility: ShaderStage::Fragment,
            ty: BindingType::Sampler,
        },
    ]
}

/// The bind group of a screen-space pass that samples `source`.
pub open spec fn texture_bind_group(source: TextureSource) -> Seq<BindGroupEntry> {
    seq![
        BindGroupEntry { binding: 0, resource: BindingResource::TextureView(source) },
        BindGroupEntry { binding: 1, resource: BindingResource::Sampler },
    ]
}

/// The pipeline draws the quad with one sampled texture into a target of
/// the given format.
pub open spec fn is_screen_space_pipeline(
    pipeline: RenderPipelineDescriptor,
    target_format: TextureFormat,
) -> bool {
    &&& pipeline.target_format == target_format
    &&& pipeline.primitive == PrimitiveState::spec_triangles()
    &&& pipeline.bind_group_layout@ =~= texture_bind_group_layout()
    &&& pipeline.vertex_buffers@.len() == 1
    &&& pipeline.vertex_buffers@[0].is_packed(VertexStepMode::Vertex, pos_tex_entries())
    &&& pipeline.vertex_buffers@[0].array_stride == QUAD_VERTEX_SIZE
    &&& pipeline.well_formed()
}

/// The pass draws the whole quad once, sampling `source`.
pub open spec fn is_screen_space_pass(
    pass: RenderPass,
    kind: PassKind,
    target: RenderTarget,
    source: TextureSource,
) -> bool {
    &&& pass.kind == kind
    &&& pass.target == target
    &&& pass.load == LoadOp::Clear
    &&& pass.bind_group@ =~= texture_bind_group(source)
    &&& pass.vertex_buffers@ =~= seq![VertexSource::Quad]
    &&& pass.vertex_count == QUAD_VERTEX_COUNT
    &&& pass.instance_count == 1
}

/// A screen-space pass fits a screen-space pipeline unless it would sample
/// the intermediate target while drawing into it.
pub proof fn lemma_screen_space_pass_fits(
    pass: RenderPass,
    pipeline: RenderPipelineDescriptor,
    kind: PassKind,
    target: RenderTarget,
    source: TextureSource,
    target_format: TextureFormat,
)
    requires
        is_screen_space_pass(pass, kind, target, source),
        is_screen_space_pipeline(pipeline, target_format),
        !(target == RenderTarget::Intermediate && source == TextureSource::Intermediate),
    ensures
        pass.fits(&pipeline),
        bind_group_matches(texture_bind_group_layout(), texture_bind_group(source)),
        pass.samples(source),
{
    assert(pass.bind_group@[0].resource == BindingResource::TextureView(source));
}

/// A screen-space pass samples its source and nothing else.
pub proof fn lemma_screen_space_pass_samples(
    pass: RenderPass,
    kind: PassKind,
    target: RenderTarget,
    source: TextureSource,
)
    requires
        is_screen_space_pass(pass, kind, target, source),
    ensures
        forall|other: TextureSource| #[trigger] pass.samples(other) <==> other == source,
{
    assert(pass.bind_group@[0].resource == BindingResource::TextureView(source));
    assert forall|other: TextureSource| #[trigger] pass.samples(other) implies other == source by {
        let i = choose|i: int|
            0 <= i < pass.bind_group@.len() && (#[trigger] pass.bind_group@[i]).resource
                == BindingResource::TextureView(other);
        assert(i == 0 || i == 1);
    }
}

/// The slots of a screen-space bind group, as a list.
pub fn screen_space_bind_group_layout() -> (layout: Vec<BindGroupLayoutEntry>)
    ensures
        layout@ =~= texture_bind_group_layout(),
{
    let mut layout: Vec<BindGroupLayoutEntry> = Vec::new();
    layout.push(
        BindGroupLayoutEntry {
            binding: 0,
            visibility: ShaderStage::Fragment,
            ty: BindingType::Texture,
        },
    );
    layout.push(
        BindGroupLayoutEntry {
            binding: 1,
            visibility: ShaderStage::Fragment,
            ty: BindingType::Sampler,
        },
    );
    layout
}

/// The pipeline of a screen-space pass that draws into a target of the
/// given format.
pub fn screen_space_pipeline(target_format: TextureFormat) -> (pipeline: RenderPipelineDescriptor)
    ensures
        is_screen_space_pipeline(pipeline, target_format),
{
    let mut vertex_buffers: Vec<VertexBufferLayout> = Vec::new();
    vertex_buffers.push(PosTexVertex::desc());
    RenderPipelineDescriptor {
        bind_group_layout: screen_space_bind_group_layout(),
        vertex_buffers,
        target_format,
        primitive: PrimitiveState::triangles(),
    }
}

/// The commands of a screen-space pass: the target is cleared, then the
/// whole quad is drawn once with `source` bound for sampling.
pub fn screen_space_pass(kind: PassKind, target: RenderTarget, source: TextureSource) -> (pass:
    RenderPass)
    ensures
        is_screen_space_pass(pass, kind, target, source),
{
    let mut bind_group: Vec<BindGroupEntry> = Vec::new();
    bind_group.push(BindGroupEntry { binding: 0, resource: BindingResource::TextureView(source) });
    bind_group.push(BindGroupEntry { binding: 1, resource: BindingResource::Sampler });
    let mut vertex_buffers: Vec<VertexSource> = Vec::new();
    vertex_buffers.push(VertexSource::Quad);
    RenderPass {
        kind,
        target,
        load: LoadOp::Clear,
        bind_group,
        vertex_buffers,
        vertex_count: QUAD_VERTEX_COUNT,
        instance_count: 1,
    }
}

} // verus!

//! Descriptions of the graphics resources the passes create and use, as plain
//! data, and the rules that tie a pass to its pipeline.

use vstd::prelude::*;
use crate::renderer::layout::{VertexBufferLayout, VertexStepMode};

verus! {

/// Pixel formats a presentable surface or a render target can have.
#[derive(Clone, Copy, Debug, PartialEq, Eq, Structural)]
pub enum TextureFormat {
    Rgba8Unorm,
    Rgba8UnormSrgb,
    Bgra8Unorm,
    Bgra8UnormSrgb,
    Rgba16Float,
}

/// What a texture may be used for.
#[derive(Clone, Copy, Debug, PartialEq, Eq, Structural)]
pub struct TextureUsages {
    /// Pixel data may be copied into the texture.
    pub copy_dst: bool,
    /// The texture may be sampled through a bind group.
    pub texture_binding: bool,
    /// A render pass may draw into the texture.
    pub render_attachment: bool,
}

/// A two-dimensional texture with one layer, one mip level and one sample
/// per pixel.
#[derive(Clone, Copy, Debug, PartialEq, Eq, Structural)]
pub struct TextureDescriptor {
    pub width: u32,
    pub height: u32,
    pub format: TextureFormat,
    pub usage: TextureUsages,
}

/// What a buffer may be used for.
#[derive(Clone, Copy, Debug, PartialEq, Eq, Structural)]
pub struct BufferUsages {
    /// The buffer may feed a vertex stream.
    pub vertex: bool,
    /// The buffer may be bound as a uniform block.
    pub uniform: bool,
    /// Data may be written into the buffer after its creation.
    pub copy_dst: bool,
}

/// A buffer of `size` bytes.
#[derive(Clone, Copy, Debug, PartialEq, Eq, Structural)]
pub struct BufferDescriptor {
    pub size: u64,
    pub usage: BufferUsages,
}

/// How a sampler treats coordinates outside the texture.
#[derive(Clone, Copy, Debug, PartialEq, Eq, Structural)]
pub enum AddressMode {
    ClampToEdge,
    Repeat,
    MirrorRepeat,
}

/// How a sampler picks a value between texels.
#[derive(Clone, Copy, Debug, PartialEq, Eq, Structural)]
pub enum FilterMode {
    Nearest,
    Linear,
}

/// How a sampler reads a texture.
#[derive(Clone, Copy, Debug, PartialEq, Eq, Structural)]
pub struct SamplerDescriptor {
    pub address_mode_u: AddressMode,
    pub address_mode_v: AddressMode,
    pub address_mode_w: AddressMode,
    pub mag_filter: FilterMode,
    pub min_filter: FilterMode,
    pub mipmap_filter: FilterMode,
}

impl SamplerDescriptor {
    /// The sampler of every screen-space pass: bilinear, clamped to the edge.
    pub open spec fn spec_screen_space() -> Self {
        SamplerDescriptor {
            address_mode_u: AddressMode::ClampToEdge,
            address_mode_v: AddressMode::ClampToEdge,
            address_mode_w: AddressMode::ClampToEdge,
            mag_filter: FilterMode::Linear,
            min_filter: FilterMode::Linear,
            mipmap_filter: FilterMode::Nearest,
        }
    }

    /// The sampler of every screen-space pass: bilinear, clamped to the edge.
    pub fn screen_space() -> (sampler: Self)
        ensures
            sampler == Self::spec_screen_space(),
    {
        SamplerDescriptor {
            address_mode_u: AddressMode::ClampToEdge,
            address_mode_v: AddressMode::ClampToEdge,
            address_mode_w: AddressMode::ClampToEdge,
            mag_filter: FilterMode::Linear,
            min_filter: FilterMode::Linear,
            mipmap_filter: FilterMode::Nearest,
        }
    }
}

/// The shader stage that sees a binding.
#[derive(Clone, Copy, Debug, PartialEq, Eq, Structural)]
pub enum ShaderStage {
    Vertex,
    Fragment,
}

/// The kind of resource a binding slot takes.
#[derive(Clone, Copy, Debug, PartialEq, Eq, Structural)]
pub enum BindingType {
    /// A filterable, single-sampled two-dimensional texture.
    Texture,
    /// A filtering sampler.
    Sampler,
    /// A uniform block.
    UniformBuffer,
}

/// One slot of a bind group layout.
#[derive(Clone, Copy, Debug, PartialEq, Eq, Structural)]
pub struct BindGroupLayoutEntry {
    pub binding: u32,
    pub visibility: ShaderStage,
    pub ty: BindingType,
}

/// Identity of a texture held by the texture cache: its position in the
/// order of loading.
#[derive(Clone, Copy, Debug, PartialEq, Eq, Structural)]
pub struct TextureId(pub usize);

/// A texture that a pass can sample.
#[derive(Clone, Copy, Debug, PartialEq, Eq, Structural)]
pub enum TextureSource {
    /// A texture of the cache.
    Cached(TextureId),
    /// The off-screen target that the in-scene passes draw into.
    Intermediate,
}

/// A resource placed in a binding slot.
#[derive(Clone, Copy, Debug, PartialEq, Eq, Structural)]
pub enum BindingResource {
    TextureView(TextureSource),
    /// The sampler of the pass.
    Sampler,
    /// The uniform block that holds the view-projection matrix.
    CameraBuffer,
}

impl BindingResource {
    /// The kind of slot that takes this resource.
    pub open spec fn binding_type(self) -> BindingType {
        match self {
            BindingResource::TextureView(_) => BindingType::Texture,
            BindingResource::Sampler => BindingType::Sampler,
            BindingResource::CameraBuffer => BindingType::UniformBuffer,
        }
    }
}

/// One slot of a bind group, filled.
#[derive(Clone, Copy, Debug, PartialEq, Eq, Structural)]
pub struct BindGroupEntry {
    pub binding: u32,
    pub resource: BindingResource,
}

/// The entries fill the slots of the layout, one for one and in order.
pub open spec fn bind_group_matches(
    layout: Seq<BindGroupLayoutEntry>,
    entries: Seq<BindGroupEntry>,
) -> bool {
    &&& entries.len() == layout.len()
    &&& forall|i: int|
        0 <= i < layout.len() ==> {
            &&& (#[trigger] entries[i]).binding == layout[i].binding
            &&& entries[i].resource.binding_type() == layout[i].ty
        }
}

/// How the vertices of a draw form primitives.
#[derive(Clone, Copy, Debug, PartialEq, Eq, Structural)]
pub enum PrimitiveTopology {
    PointList,
    LineList,
    LineStrip,
    TriangleList,
    TriangleStrip,
}

/// Which winding of a triangle faces the viewer.
#[derive(Clone, Copy, Debug, PartialEq, Eq, Structural)]
pub enum FrontFace {
    /// Triangles whose vertices run counter-clockwise face the viewer.
    Ccw,
    /// Triangles whose vertices run clockwise face the viewer.
    Cw,
}

/// A side of a triangle.
#[derive(Clone, Copy, Debug, PartialEq, Eq, Structural)]
pub enum Face {
    Front,
    Back,
}

/// How primitives are assembled and which of them are drawn.
#[derive(Clone, Copy, Debug, PartialEq, Eq, Structural)]
pub struct PrimitiveState {
    pub topology: PrimitiveTopology,
    pub front_face: FrontFace,
    /// The side whose triangles are not drawn, if any.
    pub cull_mode: Option<Face>,
}

impl PrimitiveState {
    /// Whether a triangle is drawn whose corners enclose, in clip space and
    /// seen along the z axis, twice the signed area `doubled_area`: positive
    /// where the corners run counter-clockwise. A triangle without area is
    /// not drawn, and with culling only the side that is not culled.
    pub open spec fn draws(self, doubled_area: int) -> bool {
        let front = match self.front_face {
            FrontFace::Ccw => doubled_area > 0,
            FrontFace::Cw => doubled_area < 0,
        };
        doubled_area != 0 && match self.cull_mode {
            None => true,
            Some(Face::Back) => front,
            Some(Face::Front) => !front,
        }
    }

    /// Filled triangle lists, counter-clockwise front faces, back faces culled.
    pub open spec fn spec_triangles() -> Self {
        PrimitiveState {
            topology: PrimitiveTopology::TriangleList,
            front_face: FrontFace::Ccw,
            cull_mode: Some(Face::Back),
        }
    }

    /// Filled triangle lists, counter-clockwise front faces, back faces culled.
    pub fn triangles() -> (state: Self)
        ensures
            state == Self::spec_triangles(),
    {
        PrimitiveState {
            topology: PrimitiveTopology::TriangleList,
            front_face: FrontFace::Ccw,
            cull_mode: Some(Face::Back),
        }
    }
}

/// A render pipeline with one bind group, one colour target written without
/// blending, no depth test and one sample per pixel. Its shaders enter at
/// `vs_main` and `fs_main`.
#[derive(Debug, PartialEq, Eq)]
pub struct RenderPipelineDescriptor {
    /// The slots of bind group 0.
    pub bind_group_layout: Vec<BindGroupLayoutEntry>,
    /// The vertex streams, by slot.
    pub vertex_buffers: Vec<VertexBufferLayout>,
    /// Format of the colour target.
    pub target_format: TextureFormat,
    pub primitive: PrimitiveState,
}

impl RenderPipelineDescriptor {
    /// Every vertex stream is well formed, and no shader input is fed by two
    /// streams.
    pub open spec fn well_formed(&self) -> bool {
        &&& forall|s: int|
            0 <= s < self.vertex_buffers@.len() ==> (#[trigger] self.vertex_buffers@[s]).well_formed()
        &&& forall|s: int, t: int, location: u32|
            0 <= s < t < self.vertex_buffers@.len() ==> !(#[trigger] self.vertex_buffers@[s].uses_location(
                location,
            ) && #[trigger] self.vertex_buffers@[t].uses_location(location))
    }
}

/// Which of the three passes of a frame.
#[derive(Clone, Copy, Debug, PartialEq, Eq, Structural)]
pub enum PassKind {
    Background,
    Model,
    PostProcess,
}

/// Where a pass draws.
#[derive(Clone, Copy, Debug, PartialEq, Eq, Structural)]
pub enum RenderTarget {
    /// The off-screen target shared by the in-scene passes.
    Intermediate,
    /// The image of the surface that is presented at the end of the frame.
    Surface,
}

/// What a pass does with the target's previous content.
#[derive(Clone, Copy, Debug, PartialEq, Eq, Structural)]
pub enum LoadOp {
    /// Start from a transparent image.
    Clear,
    /// Keep what earlier passes drew.
    Load,
}

/// The buffer behind a vertex stream.
#[derive(Clone, Copy, Debug, PartialEq, Eq, Structural)]
pub enum VertexSource {
    /// The shared full-screen quad.
    Quad,
    /// The vertices of the model.
    Model,
    /// The per-instance transforms of the model.
    Instances,
}

impl VertexSource {
    /// How a stream fed from this buffer advances.
    pub open spec fn step_mode(self) -> VertexStepMode {
        match self {
            VertexSource::Quad => VertexStepMode::Vertex,
            VertexSource::Model => VertexStepMode::Vertex,
            VertexSource::Instances => VertexStepMode::Instance,
        }
    }
}

/// The commands of one render pass: one colour attachment whose result is
/// stored, one pipeline, one bind group at index 0, the vertex streams, and
/// one draw of vertices `0..vertex_count` for instances `0..instance_count`.
/// The pass is submitted as one command buffer.
#[derive(Debug, PartialEq, Eq)]
pub struct RenderPass {
    pub kind: PassKind,
    pub target: RenderTarget,
    pub load: LoadOp,
    pub bind_group: Vec<BindGroupEntry>,
    /// The buffers of the vertex streams, by slot.
    pub vertex_buffers: Vec<VertexSource>,
    pub vertex_count: u32,
    pub instance_count: u32,
}

impl RenderPass {
    /// Whether the pass samples the texture `source`.
    pub open spec fn samples(&self, source: TextureSource) -> bool {
        exists|i: int|
            0 <= i < self.bind_group@.len() && (#[trigger] self.bind_group@[i]).resource
                == BindingResource::TextureView(source)
    }

    /// The pass fits the pipeline it is drawn with: the bind group fills the
    /// pipeline's slots, each vertex stream is fed from a buffer that
    /// advances as the pipeline expects, and the pass does not sample the
    /// target it draws into.
    pub open spec fn fits(&self, pipeline: &RenderPipelineDescriptor) -> bool {
        &&& bind_group_matches(pipeline.bind_group_layout@, self.bind_group@)
        &&& self.vertex_buffers@.len() == pipeline.vertex_buffers@.len()
        &&& forall|s: int|
            0 <= s < self.vertex_buffers@.len() ==> (#[trigger] self.vertex_buffers@[s]).step_mode()
                == pipeline.vertex_buffers@[s].step_mode
        &&& self.target == RenderTarget::Intermediate ==> !self.samples(
            TextureSource::Intermediate,
        )
    }
}

} // verus!

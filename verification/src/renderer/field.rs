//! The field: the background image of the scene and the pass that draws it.

use vstd::prelude::*;
use crate::renderer::camera::{
    cameras_in, derive_view_projection, last_of, view_projection_factors, MatrixFactor, Scene,
};
use crate::renderer::fullscreen_quad::{
    is_screen_space_pass, is_screen_space_pipeline, lemma_screen_space_pass_fits, quad_buffer,
    screen_space_bind_group_layout, screen_space_pass, screen_space_pipeline, spec_quad_buffer,
    texture_bind_group_layout, QUAD_VERTEX_SIZE,
};
use crate::renderer::resource::{
    BindGroupLayoutEntry, BufferDescriptor, PassKind, RenderPass, RenderPipelineDescriptor,
    RenderTarget, SamplerDescriptor, TextureFormat, TextureId, TextureSource,
};

verus! {

/// The field of the scene: which textures make its background, and the
/// view-projection matrix of its camera as the factors of a product.
#[derive(Debug, PartialEq, Eq)]
pub struct Field {
    pub background_image_name: String,
    pub background_depth_name: String,
    pub view_proj: Vec<MatrixFactor>,
}

impl Field {
    /// The field with the given texture names and the camera that the scene
    /// description selects: the last camera node that a depth-first walk
    /// through the scenes reaches. Without a camera node the view-projection
    /// is the identity.
    pub fn from_gltf(
        background_image_name: &str,
        background_depth_name: &str,
        scenes: &Vec<Scene>,
    ) -> (field: Self)
        ensures
            field.background_image_name@ == background_image_name@,
            field.background_depth_name@ == background_depth_name@,
            field.view_proj@ == view_projection_factors(
                last_of(cameras_in(scenes@, scenes@.len())),
            ),
    {
        Field {
            background_image_name: background_image_name.to_owned(),
            background_depth_name: background_depth_name.to_owned(),
            view_proj: derive_view_projection(scenes),
        }
    }
}

/// What the background pass creates once and keeps.
#[derive(Debug, PartialEq, Eq)]
pub struct FieldBackgroundRendererResource {
    render_pipeline: RenderPipelineDescriptor,
    bind_group_layout: Vec<BindGroupLayoutEntry>,
    vertex_buffer: BufferDescriptor,
    sampler: SamplerDescriptor,
}

impl FieldBackgroundRendererResource {
    #[verifier::type_invariant]
    spec fn inv(self) -> bool {
        &&& is_screen_space_pipeline(self.render_pipeline, self.render_pipeline.target_format)
        &&& self.bind_group_layout@ =~= texture_bind_group_layout()
        &&& self.vertex_buffer == spec_quad_buffer()
        &&& self.sampler == SamplerDescriptor::spec_screen_space()
    }

    pub closed spec fn spec_render_pipeline(&self) -> RenderPipelineDescriptor {
        self.render_pipeline
    }

    pub closed spec fn spec_bind_group_layout(&self) -> Seq<BindGroupLayoutEntry> {
        self.bind_group_layout@
    }

    pub closed spec fn spec_vertex_buffer(&self) -> BufferDescriptor {
        self.vertex_buffer
    }

    pub closed spec fn spec_sampler(&self) -> SamplerDescriptor {
        self.sampler
    }

    /// The resource is what `new` builds for a target of the given format.
    pub open spec fn describes(&self, target_format: TextureFormat) -> bool {
        &&& is_screen_space_pipeline(self.spec_render_pipeline(), target_format)
        &&& self.spec_bind_group_layout() =~= texture_bind_group_layout()
        &&& self.spec_vertex_buffer() == spec_quad_buffer()
        &&& self.spec_sampler() == SamplerDescriptor::spec_screen_space()
    }

    /// Describes the resources of the background pass: a screen-space
    /// pipeline whose colour target has the format of the intermediate
    /// target, the quad, and a bilinear sampler clamped to the edge.
    pub fn new(target_format: TextureFormat) -> (resource: Self)
        ensures
            resource.describes(target_format),
    {
        FieldBackgroundRendererResource {
            render_pipeline: screen_space_pipeline(target_format),
            bind_group_layout: screen_space_bind_group_layout(),
            vertex_buffer: quad_buffer(),
            sampler: SamplerDescriptor::screen_space(),
        }
    }

    pub fn render_pipeline(&self) -> (pipeline: &RenderPipelineDescriptor)
        ensures
            *pipeline == self.spec_render_pipeline(),
            is_screen_space_pipeline(*pipeline, pipeline.target_format),
    {
        proof {
            use_type_invariant(self);
        }
        &self.render_pipeline
    }

    pub fn bind_group_layout(&self) -> (layout: &Vec<BindGroupLayoutEntry>)
        ensures
            layout@ == self.spec_bind_group_layout(),
            layout@ == texture_bind_group_layout(),
    {
        proof {
            use_type_invariant(self);
        }
        &self.bind_group_layout
    }

    pub fn vertex_buffer(&self) -> (buffer: BufferDescriptor)
        ensures
            buffer == self.spec_vertex_buffer(),
            buffer == spec_quad_buffer(),
    {
        proof {
            use_type_invariant(self);
        }
        self.vertex_buffer
    }

    pub fn sampler(&self) -> (sampler: SamplerDescriptor)
        ensures
            sampler == self.spec_sampler(),
            sampler == SamplerDescriptor::spec_screen_space(),
    {
        proof {
            use_type_invariant(self);
        }
        self.sampler
    }

    /// The commands of the background pass: the whole quad drawn once into
    /// the intermediate target, which is cleared first, sampling the cached
    /// texture `texture`.
    pub fn render(&self, texture: TextureId) -> (pass: RenderPass)
        ensures
            is_screen_space_pass(
                pass,
                PassKind::Background,
                RenderTarget::Intermediate,
                TextureSource::Cached(texture),
            ),
            pass.fits(&self.spec_render_pipeline()),
            pass.samples(TextureSource::Cached(texture)),
            pass.vertex_count * QUAD_VERTEX_SIZE <= self.spec_vertex_buffer().size,
    {
        let pass = screen_space_pass(
            PassKind::Background,
            RenderTarget::Intermediate,
            TextureSource::Cached(texture),
        );
        proof {
            use_type_invariant(self);
            lemma_screen_space_pass_fits(
                pass,
                self.render_pipeline,
                PassKind::Background,
                RenderTarget::Intermediate,
                TextureSource::Cached(texture),
                self.render_pipeline.target_format,
            );
        }
        pass
    }
}

} // verus!

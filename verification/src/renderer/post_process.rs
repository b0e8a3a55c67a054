//! The post-process pass: the intermediate target drawn onto the image of
//! the surface, which is then presented.

use vstd::prelude::*;
use crate::renderer::fullscreen_quad::{
    is_screen_space_pass, is_screen_space_pipeline, lemma_screen_space_pass_fits, quad_buffer,
    screen_space_bind_group_layout, screen_space_pass, screen_space_pipeline, spec_quad_buffer,
    texture_bind_group_layout, QUAD_VERTEX_SIZE,
};
use crate::renderer::resource::{
    BindGroupLayoutEntry, BufferDescriptor, PassKind, RenderPass, RenderPipelineDescriptor,
    RenderTarget, SamplerDescriptor, TextureFormat, TextureSource,
};

verus! {

/// What the post-process pass creates once and keeps.
#[derive(Debug, PartialEq, Eq)]
pub struct PostProcessResource {
    render_pipeline: RenderPipelineDescriptor,
    bind_group_layout: Vec<BindGroupLayoutEntry>,
    vertex_buffer: BufferDescriptor,
    sampler: SamplerDescriptor,
}

impl PostProcessResource {
    #[verifier::type_invariant]
    spec fn inv(self) -> bool {
        &&& is_screen_space_pipeline(self.render_pipeline, self.render_pipeline.target_format)
        &&& self.bind_group_layout@ =~= texture_bind_group_layout()
        &&& self.vertex_buffer == spec_quad_buffer()
        &&& self.sampler == SamplerDescriptor::spec_screen_space()
    }

    pub closed spec fn spec_render_pipeline(&self) -> RenderPipelineDescriptor {
        self.render_pipeline
    }

    pub closed spec fn spec_bind_group_layout(&self) -> Seq<BindGroupLayoutEntry> {
        self.bind_group_layout@
    }

    pub closed spec fn spec_vertex_buffer(&self) -> BufferDescriptor {
        self.vertex_buffer
    }

    pub closed spec fn spec_sampler(&self) -> SamplerDescriptor {
        self.sampler
    }

    /// The resource is what `new` builds for a surface of the given format.
    pub open spec fn describes(&self, surface_format: TextureFormat) -> bool {
        &&& is_screen_space_pipeline(self.spec_render_pipeline(), surface_format)
        &&& self.spec_bind_group_layout() =~= texture_bind_group_layout()
        &&& self.spec_vertex_buffer() == spec_quad_buffer()
        &&& self.spec_sampler() == SamplerDescriptor::spec_screen_space()
    }

    /// Describes the resources of the post-process pass: a screen-space
    /// pipeline whose colour target has the format of the surface, the quad,
    /// and a bilinear sampler clamped to the edge.
    pub fn new(surface_format: TextureFormat) -> (resource: Self)
        ensures
            resource.describes(surface_format),
    {
        PostProcessResource {
            render_pipeline: screen_space_pipeline(surface_format),
            bind_group_layout: screen_space_bind_group_layout(),
            vertex_buffer: quad_buffer(),
            sampler: SamplerDescriptor::screen_space(),
        }
    }

    pub fn render_pipeline(&self) -> (pipeline: &RenderPipelineDescriptor)
        ensures
            *pipeline == self.spec_render_pipeline(),
            is_screen_space_pipeline(*pipeline, pipeline.target_format),
    {
        proof {
            use_type_invariant(self);
        }
        &self.render_pipeline
    }

    pub fn bind_group_layout(&self) -> (layout: &Vec<BindGroupLayoutEntry>)
        ensures
            layout@ == self.spec_bind_group_layout(),
            layout@ == texture_bind_group_layout(),
    {
        proof {
            use_type_invariant(self);
        }
        &self.bind_group_layout
    }

    pub fn vertex_buffer(&self) -> (buffer: BufferDescriptor)
        ensures
            buffer == self.spec_vertex_buffer(),
            buffer == spec_quad_buffer(),
    {
        proof {
            use_type_invariant(self);
        }
        self.vertex_buffer
    }

    pub fn sampler(&self) -> (sampler: SamplerDescriptor)
        ensures
            sampler == self.spec_sampler(),
            sampler == SamplerDescriptor::spec_screen_space(),
    {
        proof {
            use_type_invariant(self);
        }
        self.sampler
    }

    /// The commands of the post-process pass: the whole quad drawn once onto
    /// the cleared image of the surface, sampling the intermediate target.
    pub fn render(&self) -> (pass: RenderPass)
        ensures
            is_screen_space_pass(
                pass,
                PassKind::PostProcess,
                RenderTarget::Surface,
                TextureSource::Intermediate,
            ),
            pass.fits(&self.spec_render_pipeline()),
            pass.samples(TextureSource::Intermediate),
            pass.vertex_count * QUAD_VERTEX_SIZE <= self.spec_vertex_buffer().size,
    {
        let pass = screen_space_pass(
            PassKind::PostProcess,
            RenderTarget::Surface,
            TextureSource::Intermediate,
        );
        proof {
            use_type_invariant(self);
            lemma_screen_space_pass_fits(
                pass,
                self.render_pipeline,
                PassKind::PostProcess,
                RenderTarget::Surface,
                TextureSource::Intermediate,
                self.render_pipeline.target_format,
            );
        }
        pass
    }
}

} // verus!
